use vstd::prelude::*;

use crate::bus::Bus;
use crate::dto::Todo;
use crate::templates::TodoNewTemplate;
use crate::update::{MutationKind, TodoUpdate};

verus! {

/// Why the todo store could not do what it was asked.
#[derive(Clone, Copy, Debug, PartialEq, Eq, Structural)]
pub enum StoreError {
    /// The datastore cannot be reached.
    Unavailable,
    /// The datastore refused the write (a constraint was violated).
    Rejected,
}

/// Why a request failed.
#[derive(Clone, Copy, Debug, PartialEq, Eq, Structural)]
pub enum RequestError {
    /// A create request came without a description, or with an empty one.
    MissingDescription,
    /// The store failed.
    Store(StoreError),
}

pub open spec fn status_of(e: RequestError) -> u16 {
    match e {
        RequestError::MissingDescription => 400,
        RequestError::Store(StoreError::Rejected) => 422,
        RequestError::Store(StoreError::Unavailable) => 500,
    }
}

/// The HTTP status that answers a failed request: the client's errors get a
/// 4xx status, an unreachable store a 5xx one.
pub fn error_status(e: RequestError) -> (r: u16)
    ensures
        r == status_of(e),
        e != RequestError::Store(StoreError::Unavailable) ==> 400 <= r < 500,
        e == RequestError::Store(StoreError::Unavailable) ==> 500 <= r < 600,
{
    match e {
        RequestError::MissingDescription => 400,
        RequestError::Store(StoreError::Rejected) => 422,
        RequestError::Store(StoreError::Unavailable) => 500,
    }
}

/// The description of a create request, which must be present and not empty.
pub fn validate_description(description: Option<String>) -> (r: Result<String, RequestError>)
    ensures
        match description {
            Some(d) => if d@.len() > 0 {
                r is Ok && r->Ok_0@ == d@
            } else {
                r == Err::<String, RequestError>(RequestError::MissingDescription)
            },
            None => r == Err::<String, RequestError>(RequestError::MissingDescription),
        },
{
    match description {
        Some(d) => {
            if d.as_str().is_empty() {
                Err(RequestError::MissingDescription)
            } else {
                Ok(d)
            }
        },
        None => Err(RequestError::MissingDescription),
    }
}

/// After the store created `todo`: tells every subscriber of its creation and
/// gives the fragment for the requesting client, with how many subscribers
/// were told. None told is no failure: the todo was created all the same.
pub fn todo_created(bus: &mut Bus, todo: Todo) -> (r: (TodoNewTemplate, usize))
    requires
        old(bus)@.wf(),
    ensures
        final(bus)@.wf(),
        final(bus)@ == old(bus)@.published(
            TodoUpdate { mutation_kind: MutationKind::Create, id: todo.id },
        ),
        r.0.todo.id == todo.id,
        r.0.todo.description@ == todo.description@,
        r.1 == old(bus)@.subs.len(),
{
    let n = bus.publish(TodoUpdate::new(MutationKind::Create, todo.id));
    (TodoNewTemplate { todo }, n)
}

/// After the store deleted todo `id` (whether or not it existed): tells every
/// subscriber of its deletion and says how many were told.
pub fn todo_deleted(bus: &mut Bus, id: i32) -> (r: usize)
    requires
        old(bus)@.wf(),
    ensures
        final(bus)@.wf(),
        final(bus)@ == old(bus)@.published(TodoUpdate { mutation_kind: MutationKind::Delete, id }),
        r == old(bus)@.subs.len(),
{
    bus.publish(TodoUpdate::new(MutationKind::Delete, id))
}

} // verus!
