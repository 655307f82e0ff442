use vstd::prelude::*;

verus! {

/// User-defined task intended to be done.
#[derive(Debug, PartialEq, Eq)]
pub struct ToDo {
    /// Unique identifier.
    pub id: u128,
    /// Description of what is to be done.
    pub title: String,
    /// Whether the task has been completed.
    pub is_done: bool,
}

/// The mathematical value of a task: its identifier, the characters of its
/// title, and its completion flag.
pub ghost struct ToDoView {
    pub id: u128,
    pub title: Seq<char>,
    pub is_done: bool,
}

impl View for ToDo {
    type V = ToDoView;

    open spec fn view(&self) -> ToDoView {
        ToDoView { id: self.id, title: self.title@, is_done: self.is_done }
    }
}

impl DeepView for ToDo {
    type V = ToDoView;

    open spec fn deep_view(&self) -> ToDoView {
        self.view()
    }
}

impl Clone for ToDo {
    fn clone(&self) -> (r: Self)
        ensures
            r == *self,
    {
        ToDo { id: self.id, title: self.title.clone(), is_done: self.is_done }
    }
}

} // verus!
