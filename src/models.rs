use vstd::prelude::*;

verus! {

/// A stored todo: `id` is assigned by the store and never changes.
#[derive(Debug, Clone, PartialEq, Eq)]
pub struct Todo {
    pub id: i32,
    pub title: String,
    pub content: String,
}

/// The input of a create: the store assigns the id.
#[derive(Debug, Clone, PartialEq, Eq)]
pub struct NewTodo {
    pub title: String,
    pub content: String,
}

/// The input of an update: both fields replace those of the stored record.
#[derive(Debug, Clone, PartialEq, Eq)]
pub struct UpdateTodo {
    pub title: String,
    pub content: String,
}

} // verus!
