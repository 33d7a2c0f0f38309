use vstd::prelude::*;

use crate::dto::Todo;

verus! {

/// The page shell.
pub struct HelloTemplate;

/// The page shell that opens the event stream.
pub struct StreamTemplate;

/// The list fragment of all todos.
pub struct Records {
    pub todos: Vec<Todo>,
}

/// The fragment for one newly created todo.
pub struct TodoNewTemplate {
    pub todo: Todo,
}

} // verus!
