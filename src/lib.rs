use vstd::prelude::*;

pub mod bus;
pub mod dto;
pub mod handlers;
pub mod stream;
pub mod templates;
pub mod update;

pub use bus::{Bus, Received, SubscriptionId};
pub use dto::Todo;
pub use handlers::{error_status, todo_created, todo_deleted, validate_description, RequestError, StoreError};
pub use stream::{fragment, stream_step, StreamAction, StreamEvent, StreamInput, KEEP_ALIVE_SECS, KEEP_ALIVE_TEXT};
pub use templates::{HelloTemplate, Records, StreamTemplate, TodoNewTemplate};
pub use update::{MutationKind, TodoUpdate};

verus! {

/// How many updates each subscriber's queue holds before the oldest is dropped.
pub const BUS_CAPACITY: usize = 10;

} // verus!
