use hypr_visr::model::{AppData, Category, Task, ToDoList};
use hypr_visr::store::{
    data_of_parsed, load_app_data, parse_app_data, render_app_data, save_app_data, save_outcome,
    SaveError, StoredFile,
};
use serde_json::Value;

fn category(id: &str) -> Category {
    Category {
        id: id.to_string(),
        icon: "briefcase".to_string(),
        label: "Work".to_string(),
        color: "#111111".to_string(),
        bg_color: "#222222".to_string(),
        border_color: "#333333".to_string(),
    }
}

fn task(id: &str, description: Option<&str>, category: Option<&str>) -> Task {
    Task {
        id: id.to_string(),
        title: format!("task {}", id),
        is_done: false,
        description: description.map(|s| s.to_string()),
        category: category.map(|s| s.to_string()),
    }
}

fn list(id: &str, tasks: Vec<Task>) -> ToDoList {
    ToDoList { id: id.to_string(), name: format!("list {}", id), tasks }
}

fn sample_data() -> AppData {
    AppData {
        categories: vec![category("work"), category("home")],
        lists: vec![
            list("l1", vec![task("t1", Some("two pages"), Some("work")), task("t2", None, None)]),
            list("l2", vec![]),
        ],
    }
}

fn saved(data: &AppData) -> String {
    save_app_data(data.categories.clone(), data.lists.clone()).unwrap()
}

fn loaded(text: &str) -> AppData {
    load_app_data(&StoredFile::Contents(text.to_string()))
}

#[test]
fn missing_file_loads_as_empty_data() {
    let data = load_app_data(&StoredFile::Missing);
    assert_eq!(data, AppData::empty());
    assert!(data.categories.is_empty());
    assert!(data.lists.is_empty());
}

#[test]
fn unreadable_file_loads_as_empty_data() {
    assert_eq!(load_app_data(&StoredFile::Unreadable), AppData::empty());
}

#[test]
fn text_that_is_no_json_loads_as_empty_data() {
    assert_eq!(loaded("not json"), AppData::empty());
    assert_eq!(loaded(""), AppData::empty());
    assert_eq!(loaded("   \n"), AppData::empty());
    assert_eq!(loaded("{"), AppData::empty());
    assert_eq!(loaded(r#"{"categories":[],"lists":[]"#), AppData::empty());
    assert_eq!(loaded(r#"{"categories":[],"lists":[],}"#), AppData::empty());
    assert_eq!(loaded(r#"{"categories":[],"lists":[]} x"#), AppData::empty());
}

#[test]
fn quoted_text_loads_as_empty_data() {
    assert_eq!(loaded("\"not json\""), AppData::empty());
}

#[test]
fn json_of_another_shape_loads_as_empty_data() {
    for text in ["null", "[]", "{}", "42", r#"{"categories":[]}"#, r#"{"categories":{},"lists":[]}"#]
    {
        assert_eq!(loaded(text), AppData::empty(), "for {}", text);
    }
}

#[test]
fn of_members_with_one_name_the_last_counts() {
    let text = r#"{"categories":[],"lists":[{"id":"a","name":"first","tasks":[]}],
                   "lists":[{"id":"b","name":"list b","tasks":[]}]}"#;
    let expected = AppData { categories: vec![], lists: vec![list("b", vec![])] };
    assert_eq!(loaded(text), expected);
}

#[test]
fn document_that_the_json_reader_refuses_loads_as_empty_data() {
    assert_eq!(loaded(r#"{"categories":[],"lists":[],"n":1e999}"#), AppData::empty());
    assert_eq!(loaded(r#"{"categories":[],"lists":[],"s":"\ud800"}"#), AppData::empty());
    let deep = format!(
        "{{\"categories\":[],\"lists\":[],\"d\":{}{}}}",
        "[".repeat(200),
        "]".repeat(200)
    );
    assert_eq!(loaded(&deep), AppData::empty());
}

#[test]
fn unknown_members_of_the_document_are_ignored() {
    let text = r#"{"version":2,"categories":[],"theme":{"dark":true},"lists":[]}"#;
    assert_eq!(loaded(text), AppData::empty());
    let text =
        r#"{"version":2,"lists":[{"id":"b","name":"list b","tasks":[],"x":1}],"categories":[]}"#;
    let expected = AppData { categories: vec![], lists: vec![list("b", vec![])] };
    assert_eq!(loaded(text), expected);
}

#[test]
fn one_malformed_task_empties_the_whole_load() {
    let text = r#"{"categories":[],"lists":[{"id":"l1","name":"n","tasks":[
        {"id":"t1","title":"ok","isDone":false},
        {"id":"t2","title":"no flag"}]}]}"#;
    assert_eq!(loaded(text), AppData::empty());
}

#[test]
fn document_in_the_later_schema_is_loaded() {
    let text = r##"
    {
      "categories": [ { "id": "work", "icon": "briefcase", "label": "Work",
                        "color": "#111111", "bgColor": "#222222", "borderColor": "#333333" } ],
      "lists": [ { "id": "l1", "name": "list l1", "tasks": [
          { "id": "t1", "title": "task t1", "isDone": false,
            "description": null, "category": null } ] } ]
    }"##;
    let expected = AppData {
        categories: vec![category("work")],
        lists: vec![list("l1", vec![task("t1", None, None)])],
    };
    assert_eq!(loaded(text), expected);
    assert_eq!(parse_app_data(text), expected);
}

#[test]
fn document_in_the_earlier_flat_schema_loads_as_empty_data() {
    let text =
        r#"[ { "id": 1, "title": "a", "isDone": false, "description": null, "category": null } ]"#;
    assert_eq!(loaded(text), AppData::empty());
}

#[test]
fn loading_twice_gives_the_same_data() {
    let text = saved(&sample_data());
    assert_eq!(loaded(&text), loaded(&text));
    assert_eq!(load_app_data(&StoredFile::Missing), load_app_data(&StoredFile::Missing));
}

#[test]
fn empty_data_is_saved_as_two_empty_arrays() {
    let text = save_app_data(Vec::new(), Vec::new()).unwrap();
    assert_eq!(text, "{\n  \"categories\": [],\n  \"lists\": []\n}");
}

#[test]
fn saved_text_is_pretty_printed_in_declaration_order() {
    let data = AppData {
        categories: vec![category("work")],
        lists: vec![list("l1", vec![task("t1", None, Some("work"))])],
    };
    let expected = r##"{
  "categories": [
    {
      "id": "work",
      "icon": "briefcase",
      "label": "Work",
      "color": "#111111",
      "bgColor": "#222222",
      "borderColor": "#333333"
    }
  ],
  "lists": [
    {
      "id": "l1",
      "name": "list l1",
      "tasks": [
        {
          "id": "t1",
          "title": "task t1",
          "isDone": false,
          "description": null,
          "category": "work"
        }
      ]
    }
  ]
}"##;
    assert_eq!(saved(&data), expected);
    assert_eq!(render_app_data(&data), Ok(expected.to_string()));
}

#[test]
fn saved_data_is_loaded_back() {
    let data = sample_data();
    assert_eq!(loaded(&saved(&data)), data);
    assert_eq!(loaded(&saved(&AppData::empty())), AppData::empty());
}

#[test]
fn saved_data_with_awkward_texts_is_loaded_back() {
    let mut data = sample_data();
    data.categories[0].label = "quote \" backslash \\ slash / tab \t newline \n".to_string();
    data.lists[0].name = "ünïcödé ✓ \u{1F600}".to_string();
    data.lists[0].tasks[0].title = String::new();
    data.lists[0].tasks[0].description = Some("\u{0}\u{1f}\u{7f}\u{2028}".to_string());
    data.lists[0].tasks[1].category = Some("null".to_string());
    assert_eq!(loaded(&saved(&data)), data);
}

#[test]
fn tasks_that_share_an_identifier_are_kept_as_they_are() {
    let data = AppData {
        categories: vec![category("work"), category("work")],
        lists: vec![
            list("l1", vec![task("t1", None, None), task("t1", Some("again"), None)]),
            list("l1", vec![task("t1", None, None)]),
        ],
    };
    assert_eq!(loaded(&saved(&data)), data);
}

#[test]
fn category_reference_to_no_category_is_kept() {
    let data = AppData {
        categories: vec![],
        lists: vec![list("l1", vec![task("t1", None, Some("nowhere"))])],
    };
    let back = loaded(&saved(&data));
    assert_eq!(back.lists[0].tasks[0].category, Some("nowhere".to_string()));
    assert_eq!(back, data);
}

#[test]
fn saving_what_was_loaded_gives_the_same_text() {
    let text = saved(&sample_data());
    let again = saved(&loaded(&text));
    assert_eq!(again, text);
}

#[test]
fn task_without_description_and_category_is_saved_with_nulls() {
    let data = AppData { categories: vec![], lists: vec![list("l1", vec![task("t1", None, None)])] };
    let text = saved(&data);
    assert!(text.contains("\"description\": null"));
    assert!(text.contains("\"category\": null"));
    let back = loaded(&text);
    assert_eq!(back.lists[0].tasks[0].description, None);
    assert_eq!(back.lists[0].tasks[0].category, None);
    assert_eq!(back, data);
}

#[test]
fn second_save_leaves_no_trace_of_the_first() {
    let first = sample_data();
    let second = AppData {
        categories: vec![category("garden")],
        lists: vec![list("l9", vec![task("t9", None, Some("garden"))])],
    };
    let _ = saved(&first);
    let text = saved(&second);
    assert_eq!(loaded(&text), second);
    for gone in ["work", "home", "l1", "l2", "t1", "t2", "two pages"] {
        assert!(!text.contains(&format!("\"{}\"", gone)), "{} is still there", gone);
    }
}

#[test]
fn document_of_the_right_shape_is_taken_from_the_reader() {
    let parsed = serde_json::from_str::<Value>(
        r#"{"categories":[],"lists":[{"id":"a","name":"list a","tasks":[]}]}"#,
    );
    let expected = AppData { categories: vec![], lists: vec![list("a", vec![])] };
    assert_eq!(data_of_parsed(parsed), expected);
}

#[test]
fn reader_error_and_wrong_shape_give_empty_data() {
    assert_eq!(data_of_parsed(serde_json::from_str::<Value>("not json")), AppData::empty());
    assert_eq!(data_of_parsed(serde_json::from_str::<Value>("[1, 2]")), AppData::empty());
    assert_eq!(data_of_parsed(Ok(Value::Null)), AppData::empty());
}

#[test]
fn printer_error_becomes_a_save_error() {
    let error = serde_json::from_str::<Value>("not json").unwrap_err();
    assert_eq!(save_outcome(Err(error)), Err(SaveError::Serialize));
}

#[test]
fn printed_text_is_handed_on_unchanged() {
    assert_eq!(save_outcome(Ok("{}".to_string())), Ok("{}".to_string()));
}
