//! The application data and its mathematical view.

use vstd::prelude::*;

verus! {

/// One entry of a to-do list. Identifiers are meant to be unique among all
/// tasks; nothing here enforces it.
#[derive(Clone, Debug, PartialEq, Eq)]
pub struct Task {
    pub id: String,
    pub title: String,
    pub is_done: bool,
    pub description: Option<String>,
    /// Identifier of a category; nothing checks that such a category exists.
    pub category: Option<String>,
}

/// A label that tasks can refer to, with the way it is drawn.
#[derive(Clone, Debug, PartialEq, Eq)]
pub struct Category {
    pub id: String,
    pub icon: String,
    pub label: String,
    pub color: String,
    pub bg_color: String,
    pub border_color: String,
}

/// A named, ordered list of tasks.
#[derive(Clone, Debug, PartialEq, Eq)]
pub struct ToDoList {
    pub id: String,
    pub name: String,
    pub tasks: Vec<Task>,
}

/// Everything the application persists.
#[derive(Clone, Debug, PartialEq, Eq)]
pub struct AppData {
    pub categories: Vec<Category>,
    pub lists: Vec<ToDoList>,
}

/// A text field that may be unset, as a sequence of characters.
pub open spec fn opt_text(s: Option<String>) -> Option<Seq<char>> {
    match s {
        Some(s) => Some(s@),
        None => None,
    }
}

pub ghost struct TaskView {
    pub id: Seq<char>,
    pub title: Seq<char>,
    pub is_done: bool,
    pub description: Option<Seq<char>>,
    pub category: Option<Seq<char>>,
}

pub ghost struct CategoryView {
    pub id: Seq<char>,
    pub icon: Seq<char>,
    pub label: Seq<char>,
    pub color: Seq<char>,
    pub bg_color: Seq<char>,
    pub border_color: Seq<char>,
}

pub ghost struct ToDoListView {
    pub id: Seq<char>,
    pub name: Seq<char>,
    pub tasks: Seq<TaskView>,
}

pub ghost struct AppDataView {
    pub categories: Seq<CategoryView>,
    pub lists: Seq<ToDoListView>,
}

impl AppDataView {
    /// The state of an application that has stored nothing yet.
    pub open spec fn empty() -> AppDataView {
        AppDataView { categories: Seq::empty(), lists: Seq::empty() }
    }
}

impl View for Task {
    type V = TaskView;

    open spec fn view(&self) -> TaskView {
        TaskView {
            id: self.id@,
            title: self.title@,
            is_done: self.is_done,
            description: opt_text(self.description),
            category: opt_text(self.category),
        }
    }
}

impl View for Category {
    type V = CategoryView;

    open spec fn view(&self) -> CategoryView {
        CategoryView {
            id: self.id@,
            icon: self.icon@,
            label: self.label@,
            color: self.color@,
            bg_color: self.bg_color@,
            border_color: self.border_color@,
        }
    }
}

impl View for ToDoList {
    type V = ToDoListView;

    open spec fn view(&self) -> ToDoListView {
        ToDoListView {
            id: self.id@,
            name: self.name@,
            tasks: self.tasks@.map_values(|t: Task| t@),
        }
    }
}

impl View for AppData {
    type V = AppDataView;

    open spec fn view(&self) -> AppDataView {
        AppDataView {
            categories: self.categories@.map_values(|c: Category| c@),
            lists: self.lists@.map_values(|l: ToDoList| l@),
        }
    }
}

impl AppData {
    /// The data of an application that has stored nothing yet.
    pub fn empty() -> (data: AppData)
        ensures
            data@ == AppDataView::empty(),
            data.categories@.len() == 0,
            data.lists@.len() == 0,
    {
        let data = AppData { categories: Vec::new(), lists: Vec::new() };
        assert(data@.categories =~= Seq::empty());
        assert(data@.lists =~= Seq::empty());
        data
    }
}

} // verus!
