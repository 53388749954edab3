use hypr_visr::model::{AppData, Category, Task, ToDoList};

#[test]
fn empty_data_has_no_categories_and_no_lists() {
    let data = AppData::empty();
    assert!(data.categories.is_empty());
    assert!(data.lists.is_empty());
}

#[test]
fn empty_data_equals_data_built_from_empty_vectors() {
    let built = AppData { categories: Vec::new(), lists: Vec::new() };
    assert_eq!(AppData::empty(), built);
}

#[test]
fn data_keeps_the_order_of_its_sequences() {
    let first = Category {
        id: "a".to_string(),
        icon: "i".to_string(),
        label: "A".to_string(),
        color: "c".to_string(),
        bg_color: "b".to_string(),
        border_color: "d".to_string(),
    };
    let mut second = first.clone();
    second.id = "b".to_string();
    let task = Task {
        id: "1".to_string(),
        title: "t".to_string(),
        is_done: true,
        description: None,
        category: Some("a".to_string()),
    };
    let list = ToDoList { id: "l".to_string(), name: "n".to_string(), tasks: vec![task.clone()] };
    let data = AppData { categories: vec![first.clone(), second.clone()], lists: vec![list] };
    assert_eq!(data.categories[0], first);
    assert_eq!(data.categories[1], second);
    assert_eq!(data.lists[0].tasks[0], task);
}
