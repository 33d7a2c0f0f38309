use vstd::prelude::*;
use vstd::string::*;

verus! {

/// The kind of change that a mutation made to the todo list.
#[derive(Clone, Copy, Debug, PartialEq, Eq, Structural)]
pub enum MutationKind {
    Create,
    Delete,
}

/// The tag under which an event of the given kind is sent to clients.
pub open spec fn kind_name(k: MutationKind) -> Seq<char> {
    match k {
        MutationKind::Create => "Create"@,
        MutationKind::Delete => "Delete"@,
    }
}

impl MutationKind {
    /// The event tag of this kind: its variant's name.
    pub fn get_id(&self) -> (r: String)
        ensures
            r@ == kind_name(*self),
    {
        match self {
            MutationKind::Create => String::from_str("Create"),
            MutationKind::Delete => String::from_str("Delete"),
        }
    }
}

/// A notice that one todo was created or deleted.
#[derive(Clone, Copy, Debug, PartialEq, Eq, Structural)]
pub struct TodoUpdate {
    pub mutation_kind: MutationKind,
    pub id: i32,
}

impl TodoUpdate {
    pub fn new(mutation_kind: MutationKind, id: i32) -> (r: TodoUpdate)
        ensures
            r.mutation_kind == mutation_kind,
            r.id == id,
    {
        TodoUpdate { mutation_kind, id }
    }
}

} // verus!
