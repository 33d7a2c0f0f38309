use vstd::prelude::*;

verus! {

/// A stored todo: the id that the store assigned and its text.
#[derive(Debug)]
pub struct Todo {
    pub id: i32,
    pub description: String,
}

} // verus!
