//! How the application data maps onto JSON.
//!
//! Every record is written as an object whose members carry the record's
//! fields under fixed names, in declaration order. A record is read back from
//! such an object, whatever else the object holds and in whatever order, or
//! from an array that lists exactly the record's fields in declaration order.

use crate::json::{
    bool_value, dict_value, distinct_names, first_named, lemma_first_named_of_distinct, list_value,
    member, members_of, null_value, text_value, tree_of, trees_of, JsonTree,
};
use crate::model::{
    opt_text, AppData, AppDataView, Category, CategoryView, Task, TaskView, ToDoList, ToDoListView,
};
use vstd::prelude::*;

verus! {

/// Whether a tree has the shape of a record of `arity` fields: any object,
/// or an array of exactly `arity` elements.
pub open spec fn is_record(t: JsonTree, arity: nat) -> bool {
    match t {
        JsonTree::Dict(_) => true,
        JsonTree::List(items) => items.len() == arity,
        _ => false,
    }
}

/// What a tree offers for the field declared at `index` under `name`: the
/// member of that name of an object, the element at that place of an array.
pub open spec fn field(t: JsonTree, index: int, name: Seq<char>) -> Option<JsonTree> {
    match t {
        JsonTree::Dict(members) => first_named(members, name),
        JsonTree::List(items) => if 0 <= index < items.len() {
            Some(items[index])
        } else {
            None
        },
        _ => None,
    }
}

/// A field that must hold a text.
pub open spec fn text_field(t: Option<JsonTree>) -> Option<Seq<char>> {
    match t {
        Some(JsonTree::Text(s)) => Some(s),
        _ => None,
    }
}

/// A field that must hold a boolean.
pub open spec fn flag_field(t: Option<JsonTree>) -> Option<bool> {
    match t {
        Some(JsonTree::Bool(b)) => Some(b),
        _ => None,
    }
}

/// A field that may hold a text: a missing member and `null` both read as
/// unset, anything but a text or `null` is refused.
pub open spec fn optional_text_field(t: Option<JsonTree>) -> Option<Option<Seq<char>>> {
    match t {
        None => Some(None),
        Some(JsonTree::Null) => Some(None),
        Some(JsonTree::Text(s)) => Some(Some(s)),
        _ => None,
    }
}

/// The tree written for a text that may be unset.
pub open spec fn optional_text_tree(s: Option<Seq<char>>) -> JsonTree {
    match s {
        Some(s) => JsonTree::Text(s),
        None => JsonTree::Null,
    }
}

/// A text that may be unset is read back as it was written: an unset text
/// is written as `null` and read back as unset, not as an empty text, and a
/// text that is set, the empty text too, is read back as that text.
pub proof fn lemma_optional_text_round_trip(s: Option<Seq<char>>)
    ensures
        optional_text_field(Some(optional_text_tree(s))) == Some(s),
        s is None <==> optional_text_tree(s) == JsonTree::Null,
{
}

/// The members written for a task.
pub open spec fn task_members(task: TaskView) -> Seq<(Seq<char>, JsonTree)> {
    seq![
        ("id"@, JsonTree::Text(task.id)),
        ("title"@, JsonTree::Text(task.title)),
        ("isDone"@, JsonTree::Bool(task.is_done)),
        ("description"@, optional_text_tree(task.description)),
        ("category"@, optional_text_tree(task.category)),
    ]
}

/// The tree written for a task.
pub open spec fn task_tree(task: TaskView) -> JsonTree {
    JsonTree::Dict(task_members(task))
}

/// The task that a tree is read as, if it is read as one.
pub open spec fn task_of_tree(t: JsonTree) -> Option<TaskView> {
    if !is_record(t, 5) {
        None
    } else {
        match (
            text_field(field(t, 0, "id"@)),
            text_field(field(t, 1, "title"@)),
            flag_field(field(t, 2, "isDone"@)),
            optional_text_field(field(t, 3, "description"@)),
            optional_text_field(field(t, 4, "category"@)),
        ) {
            (Some(id), Some(title), Some(is_done), Some(description), Some(category)) => Some(
                TaskView { id, title, is_done, description, category },
            ),
            _ => None,
        }
    }
}

/// Whether `v` has the shape of a record of `arity` fields.
fn has_record_shape(v: &serde_json::Value, arity: usize) -> (r: bool)
    ensures
        r == is_record(tree_of(*v), arity as nat),
{
    match v.as_array() {
        Some(items) => items.len() == arity,
        None => v.is_object(),
    }
}

/// What `v` offers for the field declared at `index` under `name`.
fn field_of<'a>(v: &'a serde_json::Value, index: usize, name: &str) -> (r: Option<
    &'a serde_json::Value,
>)
    ensures
        match r {
            Some(m) => field(tree_of(*v), index as int, name@) == Some(tree_of(*m)),
            None => field(tree_of(*v), index as int, name@) is None,
        },
{
    match v.as_array() {
        Some(items) => if index < items.len() {
            Some(&items[index])
        } else {
            None
        },
        None => member(v, name),
    }
}

/// The tree offered for a field, if any.
spec fn offered(v: Option<&serde_json::Value>) -> Option<JsonTree> {
    match v {
        Some(v) => Some(tree_of(*v)),
        None => None,
    }
}

/// Reads a field that must hold a text.
fn read_text(v: Option<&serde_json::Value>) -> (r: Option<String>)
    ensures
        opt_text(r) == text_field(offered(v)),
{
    match v {
        Some(v) => match v.as_str() {
            Some(s) => Some(s.to_owned()),
            None => None,
        },
        None => None,
    }
}

/// Reads a field that must hold a boolean.
fn read_flag(v: Option<&serde_json::Value>) -> (r: Option<bool>)
    ensures
        r == flag_field(offered(v)),
{
    match v {
        Some(v) => v.as_bool(),
        None => None,
    }
}

/// Reads a field that may hold a text.
fn read_optional_text(v: Option<&serde_json::Value>) -> (r: Option<Option<String>>)
    ensures
        match r {
            Some(s) => optional_text_field(offered(v)) == Some(opt_text(s)),
            None => optional_text_field(offered(v)) is None,
        },
{
    match v {
        None => Some(None),
        Some(v) => if v.is_null() {
            Some(None)
        } else {
            match v.as_str() {
                Some(s) => Some(Some(s.to_owned())),
                None => None,
            }
        },
    }
}

/// Reads a task from a JSON value.
pub fn task_from_value(v: &serde_json::Value) -> (r: Option<Task>)
    ensures
        match r {
            Some(task) => task_of_tree(tree_of(*v)) == Some(task@),
            None => task_of_tree(tree_of(*v)) is None,
        },
{
    if !has_record_shape(v, 5) {
        return None;
    }
    let id = read_text(field_of(v, 0, "id"));
    let title = read_text(field_of(v, 1, "title"));
    let is_done = read_flag(field_of(v, 2, "isDone"));
    let description = read_optional_text(field_of(v, 3, "description"));
    let category = read_optional_text(field_of(v, 4, "category"));
    match (id, title, is_done, description, category) {
        (Some(id), Some(title), Some(is_done), Some(description), Some(category)) => Some(
            Task { id, title, is_done, description, category },
        ),
        _ => None,
    }
}

/// The names under which a task is written are all different.
proof fn lemma_task_names_distinct(task: TaskView)
    ensures
        distinct_names(task_members(task)),
{
    reveal_strlit("id");
    reveal_strlit("title");
    reveal_strlit("isDone");
    reveal_strlit("description");
    reveal_strlit("category");
    let members = task_members(task);
    assert(members[0].0.len() == 2);
    assert(members[1].0.len() == 5);
    assert(members[2].0.len() == 6);
    assert(members[3].0.len() == 11);
    assert(members[4].0.len() == 8);
}

/// The value written for a text that may be unset.
fn optional_text_value(s: &Option<String>) -> (v: serde_json::Value)
    ensures
        tree_of(v) == optional_text_tree(opt_text(*s)),
{
    match s {
        Some(s) => text_value(s.clone()),
        None => null_value(),
    }
}

/// Writes a task as a JSON value.
pub fn task_to_value(task: &Task) -> (v: serde_json::Value)
    ensures
        tree_of(v) == task_tree(task@),
{
    let mut entries: Vec<(String, serde_json::Value)> = Vec::new();
    entries.push(("id".to_owned(), text_value(task.id.clone())));
    entries.push(("title".to_owned(), text_value(task.title.clone())));
    entries.push(("isDone".to_owned(), bool_value(task.is_done)));
    entries.push(("description".to_owned(), optional_text_value(&task.description)));
    entries.push(("category".to_owned(), optional_text_value(&task.category)));
    proof {
        assert(members_of(entries@) =~= task_members(task@));
        lemma_task_names_distinct(task@);
    }
    dict_value(entries)
}

/// A task that is written and read back is the task that was written.
pub proof fn lemma_task_round_trip(task: TaskView)
    ensures
        task_of_tree(task_tree(task)) == Some(task),
{
    let members = task_members(task);
    lemma_task_names_distinct(task);
    lemma_first_named_of_distinct(members, 0);
    lemma_first_named_of_distinct(members, 1);
    lemma_first_named_of_distinct(members, 2);
    lemma_first_named_of_distinct(members, 3);
    lemma_first_named_of_distinct(members, 4);
}

/// The members written for a category.
pub open spec fn category_members(category: CategoryView) -> Seq<(Seq<char>, JsonTree)> {
    seq![
        ("id"@, JsonTree::Text(category.id)),
        ("icon"@, JsonTree::Text(category.icon)),
        ("label"@, JsonTree::Text(category.label)),
        ("color"@, JsonTree::Text(category.color)),
        ("bgColor"@, JsonTree::Text(category.bg_color)),
        ("borderColor"@, JsonTree::Text(category.border_color)),
    ]
}

/// The tree written for a category.
pub open spec fn category_tree(category: CategoryView) -> JsonTree {
    JsonTree::Dict(category_members(category))
}

/// The category that a tree is read as, if it is read as one.
pub open spec fn category_of_tree(t: JsonTree) -> Option<CategoryView> {
    if !is_record(t, 6) {
        None
    } else {
        match (
            text_field(field(t, 0, "id"@)),
            text_field(field(t, 1, "icon"@)),
            text_field(field(t, 2, "label"@)),
            text_field(field(t, 3, "color"@)),
            text_field(field(t, 4, "bgColor"@)),
            text_field(field(t, 5, "borderColor"@)),
        ) {
            (
                Some(id),
                Some(icon),
                Some(label),
                Some(color),
                Some(bg_color),
                Some(border_color),
            ) => Some(CategoryView { id, icon, label, color, bg_color, border_color }),
            _ => None,
        }
    }
}

/// Reads a category from a JSON value.
pub fn category_from_value(v: &serde_json::Value) -> (r: Option<Category>)
    ensures
        match r {
            Some(category) => category_of_tree(tree_of(*v)) == Some(category@),
            None => category_of_tree(tree_of(*v)) is None,
        },
{
    if !has_record_shape(v, 6) {
        return None;
    }
    let id = read_text(field_of(v, 0, "id"));
    let icon = read_text(field_of(v, 1, "icon"));
    let label = read_text(field_of(v, 2, "label"));
    let color = read_text(field_of(v, 3, "color"));
    let bg_color = read_text(field_of(v, 4, "bgColor"));
    let border_color = read_text(field_of(v, 5, "borderColor"));
    match (id, icon, label, color, bg_color, border_color) {
        (
            Some(id),
            Some(icon),
            Some(label),
            Some(color),
            Some(bg_color),
            Some(border_color),
        ) => Some(Category { id, icon, label, color, bg_color, border_color }),
        _ => None,
    }
}

/// The names under which a category is written are all different.
proof fn lemma_category_names_distinct(category: CategoryView)
    ensures
        distinct_names(category_members(category)),
{
    reveal_strlit("id");
    reveal_strlit("icon");
    reveal_strlit("label");
    reveal_strlit("color");
    reveal_strlit("bgColor");
    reveal_strlit("borderColor");
    let members = category_members(category);
    assert(members[0].0.len() == 2);
    assert(members[1].0.len() == 4);
    assert(members[2].0.len() == 5 && members[2].0[0] == 'l');
    assert(members[3].0.len() == 5 && members[3].0[0] == 'c');
    assert(members[4].0.len() == 7);
    assert(members[5].0.len() == 11);
}

/// Writes a category as a JSON value.
pub fn category_to_value(category: &Category) -> (v: serde_json::Value)
    ensures
        tree_of(v) == category_tree(category@),
{
    let mut entries: Vec<(String, serde_json::Value)> = Vec::new();
    entries.push(("id".to_owned(), text_value(category.id.clone())));
    entries.push(("icon".to_owned(), text_value(category.icon.clone())));
    entries.push(("label".to_owned(), text_value(category.label.clone())));
    entries.push(("color".to_owned(), text_value(category.color.clone())));
    entries.push(("bgColor".to_owned(), text_value(category.bg_color.clone())));
    entries.push(("borderColor".to_owned(), text_value(category.border_color.clone())));
    proof {
        assert(members_of(entries@) =~= category_members(category@));
        lemma_category_names_distinct(category@);
    }
    dict_value(entries)
}

/// A category that is written and read back is the category that was
/// written.
pub proof fn lemma_category_round_trip(category: CategoryView)
    ensures
        category_of_tree(category_tree(category)) == Some(category),
{
    let members = category_members(category);
    lemma_category_names_distinct(category);
    lemma_first_named_of_distinct(members, 0);
    lemma_first_named_of_distinct(members, 1);
    lemma_first_named_of_distinct(members, 2);
    lemma_first_named_of_distinct(members, 3);
    lemma_first_named_of_distinct(members, 4);
    lemma_first_named_of_distinct(members, 5);
}

/// A field that must hold an array, each element of which `read` accepts:
/// the elements as read, in order.
pub open spec fn each_of<T>(t: Option<JsonTree>, read: spec_fn(JsonTree) -> Option<T>) -> Option<
    Seq<T>,
> {
    match t {
        Some(JsonTree::List(items)) => if forall|i: int|
            0 <= i < items.len() ==> read(#[trigger] items[i]) is Some {
            Some(items.map_values(|x: JsonTree| read(x).unwrap()))
        } else {
            None
        },
        _ => None,
    }
}

/// A field that must hold an array of tasks.
pub open spec fn tasks_field(t: Option<JsonTree>) -> Option<Seq<TaskView>> {
    each_of(t, |x: JsonTree| task_of_tree(x))
}

/// The trees written for a sequence of tasks.
pub open spec fn task_trees(tasks: Seq<TaskView>) -> Seq<JsonTree> {
    tasks.map_values(|task: TaskView| task_tree(task))
}

/// Reads a field that must hold an array of tasks.
fn read_tasks(v: Option<&serde_json::Value>) -> (r: Option<Vec<Task>>)
    ensures
        match r {
            Some(tasks) => tasks_field(offered(v)) == Some(tasks@.map_values(|t: Task| t@)),
            None => tasks_field(offered(v)) is None,
        },
{
    let items = match v {
        Some(v) => match v.as_array() {
            Some(items) => items,
            None => { return None; },
        },
        None => { return None; },
    };
    let ghost trees = trees_of(items@);
    let mut tasks: Vec<Task> = Vec::new();
    let mut i: usize = 0;
    while i < items.len()
        invariant
            i <= items.len(),
            tasks.len() == i,
            trees == trees_of(items@),
            offered(v) == Some(JsonTree::List(trees)),
            forall|j: int| 0 <= j < i ==> task_of_tree(#[trigger] trees[j]) == Some(tasks[j]@),
        decreases items.len() - i,
    {
        match task_from_value(&items[i]) {
            Some(task) => {
                tasks.push(task);
            },
            None => {
                assert(task_of_tree(trees[i as int]) is None);
                return None;
            },
        }
        i += 1;
    }
    assert(tasks@.map_values(|t: Task| t@) =~= tasks_field(offered(v)).unwrap());
    Some(tasks)
}

/// Writes a sequence of tasks as a JSON array.
fn tasks_to_value(tasks: &Vec<Task>) -> (v: serde_json::Value)
    ensures
        tree_of(v) == JsonTree::List(task_trees(tasks@.map_values(|t: Task| t@))),
{
    let mut items: Vec<serde_json::Value> = Vec::new();
    let mut i: usize = 0;
    while i < tasks.len()
        invariant
            i <= tasks.len(),
            items.len() == i,
            forall|j: int| 0 <= j < i ==> tree_of(#[trigger] items[j]) == task_tree(tasks[j]@),
        decreases tasks.len() - i,
    {
        items.push(task_to_value(&tasks[i]));
        i += 1;
    }
    assert(trees_of(items@) =~= task_trees(tasks@.map_values(|t: Task| t@)));
    list_value(items)
}

/// The members written for a list.
pub open spec fn list_members(list: ToDoListView) -> Seq<(Seq<char>, JsonTree)> {
    seq![
        ("id"@, JsonTree::Text(list.id)),
        ("name"@, JsonTree::Text(list.name)),
        ("tasks"@, JsonTree::List(task_trees(list.tasks))),
    ]
}

/// The tree written for a list.
pub open spec fn list_tree(list: ToDoListView) -> JsonTree {
    JsonTree::Dict(list_members(list))
}

/// The list that a tree is read as, if it is read as one.
pub open spec fn list_of_tree(t: JsonTree) -> Option<ToDoListView> {
    if !is_record(t, 3) {
        None
    } else {
        match (
            text_field(field(t, 0, "id"@)),
            text_field(field(t, 1, "name"@)),
            tasks_field(field(t, 2, "tasks"@)),
        ) {
            (Some(id), Some(name), Some(tasks)) => Some(ToDoListView { id, name, tasks }),
            _ => None,
        }
    }
}

/// Reads a list from a JSON value.
pub fn list_from_value(v: &serde_json::Value) -> (r: Option<ToDoList>)
    ensures
        match r {
            Some(list) => list_of_tree(tree_of(*v)) == Some(list@),
            None => list_of_tree(tree_of(*v)) is None,
        },
{
    if !has_record_shape(v, 3) {
        return None;
    }
    let id = read_text(field_of(v, 0, "id"));
    let name = read_text(field_of(v, 1, "name"));
    let tasks = read_tasks(field_of(v, 2, "tasks"));
    match (id, name, tasks) {
        (Some(id), Some(name), Some(tasks)) => Some(ToDoList { id, name, tasks }),
        _ => None,
    }
}

/// The names under which a list is written are all different.
proof fn lemma_list_names_distinct(list: ToDoListView)
    ensures
        distinct_names(list_members(list)),
{
    reveal_strlit("id");
    reveal_strlit("name");
    reveal_strlit("tasks");
    let members = list_members(list);
    assert(members[0].0.len() == 2);
    assert(members[1].0.len() == 4);
    assert(members[2].0.len() == 5);
}

/// Writes a list as a JSON value.
pub fn list_to_value(list: &ToDoList) -> (v: serde_json::Value)
    ensures
        tree_of(v) == list_tree(list@),
{
    let mut entries: Vec<(String, serde_json::Value)> = Vec::new();
    entries.push(("id".to_owned(), text_value(list.id.clone())));
    entries.push(("name".to_owned(), text_value(list.name.clone())));
    entries.push(("tasks".to_owned(), tasks_to_value(&list.tasks)));
    proof {
        assert(members_of(entries@) =~= list_members(list@));
        lemma_list_names_distinct(list@);
    }
    dict_value(entries)
}

/// Tasks that are written as an array and read back are the tasks that
/// were written, in the same order.
pub proof fn lemma_tasks_round_trip(tasks: Seq<TaskView>)
    ensures
        tasks_field(Some(JsonTree::List(task_trees(tasks)))) == Some(tasks),
{
    let trees = task_trees(tasks);
    assert forall|i: int| 0 <= i < trees.len() implies task_of_tree(#[trigger] trees[i]) == Some(
        tasks[i],
    ) by {
        lemma_task_round_trip(tasks[i]);
    }
    assert(tasks_field(Some(JsonTree::List(trees))).unwrap() =~= tasks);
}

/// A list that is written and read back is the list that was written.
pub proof fn lemma_list_round_trip(list: ToDoListView)
    ensures
        list_of_tree(list_tree(list)) == Some(list),
{
    let members = list_members(list);
    lemma_list_names_distinct(list);
    lemma_first_named_of_distinct(members, 0);
    lemma_first_named_of_distinct(members, 1);
    lemma_first_named_of_distinct(members, 2);
    lemma_tasks_round_trip(list.tasks);
}

/// A field that must hold an array of categories.
pub open spec fn categories_field(t: Option<JsonTree>) -> Option<Seq<CategoryView>> {
    each_of(t, |x: JsonTree| category_of_tree(x))
}

/// The trees written for a sequence of categories.
pub open spec fn category_trees(categories: Seq<CategoryView>) -> Seq<JsonTree> {
    categories.map_values(|category: CategoryView| category_tree(category))
}

/// A field that must hold an array of lists.
pub open spec fn lists_field(t: Option<JsonTree>) -> Option<Seq<ToDoListView>> {
    each_of(t, |x: JsonTree| list_of_tree(x))
}

/// The trees written for a sequence of lists.
pub open spec fn list_trees(lists: Seq<ToDoListView>) -> Seq<JsonTree> {
    lists.map_values(|list: ToDoListView| list_tree(list))
}

/// Reads a field that must hold an array of categories.
fn read_categories(v: Option<&serde_json::Value>) -> (r: Option<Vec<Category>>)
    ensures
        match r {
            Some(categories) => categories_field(offered(v)) == Some(
                categories@.map_values(|c: Category| c@),
            ),
            None => categories_field(offered(v)) is None,
        },
{
    let items = match v {
        Some(v) => match v.as_array() {
            Some(items) => items,
            None => { return None; },
        },
        None => { return None; },
    };
    let ghost trees = trees_of(items@);
    let mut categories: Vec<Category> = Vec::new();
    let mut i: usize = 0;
    while i < items.len()
        invariant
            i <= items.len(),
            categories.len() == i,
            trees == trees_of(items@),
            offered(v) == Some(JsonTree::List(trees)),
            forall|j: int|
                0 <= j < i ==> category_of_tree(#[trigger] trees[j]) == Some(categories[j]@),
        decreases items.len() - i,
    {
        match category_from_value(&items[i]) {
            Some(category) => {
                categories.push(category);
            },
            None => {
                assert(category_of_tree(trees[i as int]) is None);
                return None;
            },
        }
        i += 1;
    }
    assert(categories@.map_values(|c: Category| c@) =~= categories_field(offered(v)).unwrap());
    Some(categories)
}

/// Reads a field that must hold an array of lists.
fn read_lists(v: Option<&serde_json::Value>) -> (r: Option<Vec<ToDoList>>)
    ensures
        match r {
            Some(lists) => lists_field(offered(v)) == Some(lists@.map_values(|l: ToDoList| l@)),
            None => lists_field(offered(v)) is None,
        },
{
    let items = match v {
        Some(v) => match v.as_array() {
            Some(items) => items,
            None => { return None; },
        },
        None => { return None; },
    };
    let ghost trees = trees_of(items@);
    let mut lists: Vec<ToDoList> = Vec::new();
    let mut i: usize = 0;
    while i < items.len()
        invariant
            i <= items.len(),
            lists.len() == i,
            trees == trees_of(items@),
            offered(v) == Some(JsonTree::List(trees)),
            forall|j: int| 0 <= j < i ==> list_of_tree(#[trigger] trees[j]) == Some(lists[j]@),
        decreases items.len() - i,
    {
        match list_from_value(&items[i]) {
            Some(list) => {
                lists.push(list);
            },
            None => {
                assert(list_of_tree(trees[i as int]) is None);
                return None;
            },
        }
        i += 1;
    }
    assert(lists@.map_values(|l: ToDoList| l@) =~= lists_field(offered(v)).unwrap());
    Some(lists)
}

/// Writes a sequence of categories as a JSON array.
fn categories_to_value(categories: &Vec<Category>) -> (v: serde_json::Value)
    ensures
        tree_of(v) == JsonTree::List(category_trees(categories@.map_values(|c: Category| c@))),
{
    let mut items: Vec<serde_json::Value> = Vec::new();
    let mut i: usize = 0;
    while i < categories.len()
        invariant
            i <= categories.len(),
            items.len() == i,
            forall|j: int|
                0 <= j < i ==> tree_of(#[trigger] items[j]) == category_tree(categories[j]@),
        decreases categories.len() - i,
    {
        items.push(category_to_value(&categories[i]));
        i += 1;
    }
    assert(trees_of(items@) =~= category_trees(categories@.map_values(|c: Category| c@)));
    list_value(items)
}

/// Writes a sequence of lists as a JSON array.
fn lists_to_value(lists: &Vec<ToDoList>) -> (v: serde_json::Value)
    ensures
        tree_of(v) == JsonTree::List(list_trees(lists@.map_values(|l: ToDoList| l@))),
{
    let mut items: Vec<serde_json::Value> = Vec::new();
    let mut i: usize = 0;
    while i < lists.len()
        invariant
            i <= lists.len(),
            items.len() == i,
            forall|j: int| 0 <= j < i ==> tree_of(#[trigger] items[j]) == list_tree(lists[j]@),
        decreases lists.len() - i,
    {
        items.push(list_to_value(&lists[i]));
        i += 1;
    }
    assert(trees_of(items@) =~= list_trees(lists@.map_values(|l: ToDoList| l@)));
    list_value(items)
}

/// The members written for the application data.
pub open spec fn app_data_members(data: AppDataView) -> Seq<(Seq<char>, JsonTree)> {
    seq![
        ("categories"@, JsonTree::List(category_trees(data.categories))),
        ("lists"@, JsonTree::List(list_trees(data.lists))),
    ]
}

/// The tree written for the application data: the whole document.
pub open spec fn app_data_tree(data: AppDataView) -> JsonTree {
    JsonTree::Dict(app_data_members(data))
}

/// The application data that a tree is read as, if it is read as such.
pub open spec fn app_data_of_tree(t: JsonTree) -> Option<AppDataView> {
    if !is_record(t, 2) {
        None
    } else {
        match (
            categories_field(field(t, 0, "categories"@)),
            lists_field(field(t, 1, "lists"@)),
        ) {
            (Some(categories), Some(lists)) => Some(AppDataView { categories, lists }),
            _ => None,
        }
    }
}

/// Reads the application data from a JSON value.
pub fn app_data_from_value(v: &serde_json::Value) -> (r: Option<AppData>)
    ensures
        match r {
            Some(data) => app_data_of_tree(tree_of(*v)) == Some(data@),
            None => app_data_of_tree(tree_of(*v)) is None,
        },
{
    if !has_record_shape(v, 2) {
        return None;
    }
    let categories = read_categories(field_of(v, 0, "categories"));
    let lists = read_lists(field_of(v, 1, "lists"));
    match (categories, lists) {
        (Some(categories), Some(lists)) => Some(AppData { categories, lists }),
        _ => None,
    }
}

/// The names under which the application data is written are different.
proof fn lemma_app_data_names_distinct(data: AppDataView)
    ensures
        distinct_names(app_data_members(data)),
{
    reveal_strlit("categories");
    reveal_strlit("lists");
    let members = app_data_members(data);
    assert(members[0].0.len() == 10);
    assert(members[1].0.len() == 5);
}

/// Writes the application data as a JSON value: the document from which
/// exactly this data is read back.
pub fn app_data_to_value(data: &AppData) -> (v: serde_json::Value)
    ensures
        tree_of(v) == app_data_tree(data@),
        app_data_of_tree(tree_of(v)) == Some(data@),
{
    let mut entries: Vec<(String, serde_json::Value)> = Vec::new();
    entries.push(("categories".to_owned(), categories_to_value(&data.categories)));
    entries.push(("lists".to_owned(), lists_to_value(&data.lists)));
    proof {
        assert(members_of(entries@) =~= app_data_members(data@));
        lemma_app_data_names_distinct(data@);
        lemma_app_data_round_trip(data@);
    }
    dict_value(entries)
}

/// Categories that are written as an array and read back are the
/// categories that were written, in the same order.
pub proof fn lemma_categories_round_trip(categories: Seq<CategoryView>)
    ensures
        categories_field(Some(JsonTree::List(category_trees(categories)))) == Some(categories),
{
    let trees = category_trees(categories);
    assert forall|i: int| 0 <= i < trees.len() implies category_of_tree(#[trigger] trees[i])
        == Some(categories[i]) by {
        lemma_category_round_trip(categories[i]);
    }
    assert(categories_field(Some(JsonTree::List(trees))).unwrap() =~= categories);
}

/// Lists that are written as an array and read back are the lists that
/// were written, in the same order.
pub proof fn lemma_lists_round_trip(lists: Seq<ToDoListView>)
    ensures
        lists_field(Some(JsonTree::List(list_trees(lists)))) == Some(lists),
{
    let trees = list_trees(lists);
    assert forall|i: int| 0 <= i < trees.len() implies list_of_tree(#[trigger] trees[i]) == Some(
        lists[i],
    ) by {
        lemma_list_round_trip(lists[i]);
    }
    assert(lists_field(Some(JsonTree::List(trees))).unwrap() =~= lists);
}

/// Reading back the document written for some application data yields
/// that data: every category, list and task, with every field, in the order
/// written.
pub proof fn lemma_app_data_round_trip(data: AppDataView)
    ensures
        app_data_of_tree(app_data_tree(data)) == Some(data),
{
    let members = app_data_members(data);
    lemma_app_data_names_distinct(data);
    lemma_first_named_of_distinct(members, 0);
    lemma_first_named_of_distinct(members, 1);
    lemma_categories_round_trip(data.categories);
    lemma_lists_round_trip(data.lists);
}

/// A document holds nothing but the data it was written for: two pieces of
/// data with the same document are the same data.
pub proof fn lemma_document_determines_data(first: AppDataView, second: AppDataView)
    requires
        app_data_tree(first) == app_data_tree(second),
    ensures
        first == second,
{
    lemma_app_data_round_trip(first);
    lemma_app_data_round_trip(second);
}

} // verus!
