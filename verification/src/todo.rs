//! A single task record and its mathematical model.

use vstd::prelude::*;

verus! {

/// What a record is in contracts: its three fields as plain values.
pub struct TodoView {
    pub id: Seq<char>,
    pub title: Seq<char>,
    pub done: bool,
}

/// One task: an identifier that never changes, the title as it was
/// submitted, and whether the task is done.
#[derive(Debug, PartialEq, Eq)]
pub struct Todo {
    pub id: String,
    pub title: String,
    pub done: bool,
}

impl View for Todo {
    type V = TodoView;

    open spec fn view(&self) -> TodoView {
        TodoView { id: self.id@, title: self.title@, done: self.done }
    }
}

/// A list of records as contracts see it: the model of each, in order.
pub open spec fn records(todos: Seq<Todo>) -> Seq<TodoView> {
    Seq::new(todos.len(), |i: int| todos[i]@)
}

impl Clone for Todo {
    fn clone(&self) -> (copy: Todo)
        ensures
            copy@ == self@,
    {
        Todo { id: self.id.clone(), title: self.title.clone(), done: self.done }
    }
}

impl Todo {
    /// A record that is not yet done.
    pub fn new(id: String, title: String) -> (todo: Todo)
        ensures
            todo@ == (TodoView { id: id@, title: title@, done: false }),
    {
        Todo { id, title, done: false }
    }
}

} // verus!
