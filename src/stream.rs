use vstd::prelude::*;
use vstd::string::*;

use crate::bus::Received;
use crate::update::{kind_name, MutationKind, TodoUpdate};

verus! {

/// Seconds of silence after which an open stream sends a keep-alive record.
pub const KEEP_ALIVE_SECS: u64 = 600;

/// The text of a keep-alive record.
pub const KEEP_ALIVE_TEXT: &'static str = "keep-alive-text";

/// The base-ten digit `d`.
pub open spec fn digit_char(d: nat) -> char {
    seq!['0', '1', '2', '3', '4', '5', '6', '7', '8', '9'][d as int]
}

/// The base-ten digits of `n`, most significant first, with no leading zero.
pub open spec fn digits(n: nat) -> Seq<char>
    decreases n,
{
    if n < 10 {
        seq![digit_char(n)]
    } else {
        digits(n / 10).push(digit_char(n % 10))
    }
}

/// `n` written in base ten, with a leading `-` below zero.
pub open spec fn int_text(n: int) -> Seq<char> {
    if n < 0 {
        seq!['-'] + digits((-n) as nat)
    } else {
        digits(n as nat)
    }
}

/// Relies on `ToString::to_string` through `i32`'s `Display`: the number in
/// base ten, with a leading `-` below zero.
#[verifier::external_body]
fn decimal(n: i32) -> (r: String)
    ensures
        r@ == int_text(n as int),
{
    n.to_string()
}

/// The fragment pushed for a deletion: the element of todo `id` removes itself
/// as soon as it is loaded.
pub open spec fn delete_fragment_text(id: int) -> Seq<char> {
    "<div hx-trigger='load' hx-swap='delete' hx-target='#shuttle-todo-"@ + int_text(id)
        + "'></div>"@
}

/// The fragment pushed for a creation. The creating client shows the new row
/// from its own response, so the stream pushes no insertion: the fragment only
/// asks for any stale element of that id to be removed.
pub open spec fn create_fragment_text(id: int) -> Seq<char> {
    "<div sse-swap='Delete' hx-swap='delete' hx-target='closest #shuttle-todo-"@ + int_text(id)
        + "'></div>"@
}

pub open spec fn fragment_text(u: TodoUpdate) -> Seq<char> {
    match u.mutation_kind {
        MutationKind::Create => create_fragment_text(u.id as int),
        MutationKind::Delete => delete_fragment_text(u.id as int),
    }
}

/// The markup fragment that tells a client's page how to apply `u`.
pub fn fragment(u: &TodoUpdate) -> (r: String)
    ensures
        r@ == fragment_text(*u),
{
    let digits = decimal(u.id);
    let mut r = match u.mutation_kind {
        MutationKind::Create => String::from_str(
            "<div sse-swap='Delete' hx-swap='delete' hx-target='closest #shuttle-todo-",
        ),
        MutationKind::Delete => String::from_str(
            "<div hx-trigger='load' hx-swap='delete' hx-target='#shuttle-todo-",
        ),
    };
    r.append(digits.as_str());
    r.append("'></div>");
    r
}

/// One record of the event stream: a tag and its payload.
#[derive(Debug)]
pub struct StreamEvent {
    pub event: String,
    pub data: String,
}

/// What a stream connection is told when it next has something to do.
pub enum StreamInput {
    /// What a read from the bus gave.
    Bus(Received),
    /// The keep-alive interval went by with nothing to read.
    Idle,
}

/// What a stream connection does next.
#[derive(Debug)]
pub enum StreamAction {
    /// Send this record to the client.
    Send(StreamEvent),
    /// Send a keep-alive comment with this text.
    KeepAlive(String),
    /// Report that this many updates were missed, then go on reading.
    Warn(u64),
    /// Wait for the next publish or for the keep-alive interval to pass.
    Wait,
    /// The subscription is gone: end the stream.
    Finish,
}

/// Whether `a` is the action that answers `input`.
pub open spec fn answers(input: StreamInput, a: StreamAction) -> bool {
    match input {
        StreamInput::Idle => a is KeepAlive && a->KeepAlive_0@ == KEEP_ALIVE_TEXT@,
        StreamInput::Bus(Received::Update(u)) => a is Send && a->Send_0.event@ == kind_name(
            u.mutation_kind,
        ) && a->Send_0.data@ == fragment_text(u),
        StreamInput::Bus(Received::Lagged(n)) => a == StreamAction::Warn(n),
        StreamInput::Bus(Received::Empty) => a is Wait,
        StreamInput::Bus(Received::Closed) => a is Finish,
    }
}

/// Decides what a stream connection does with what it was just told: an
/// update becomes a record tagged with its kind, a lag is reported and
/// skipped, an idle interval gets one keep-alive record.
pub fn stream_step(input: StreamInput) -> (r: StreamAction)
    ensures
        answers(input, r),
{
    match input {
        StreamInput::Idle => StreamAction::KeepAlive(String::from_str(KEEP_ALIVE_TEXT)),
        StreamInput::Bus(Received::Update(u)) => StreamAction::Send(
            StreamEvent { event: u.mutation_kind.get_id(), data: fragment(&u) },
        ),
        StreamInput::Bus(Received::Lagged(n)) => StreamAction::Warn(n),
        StreamInput::Bus(Received::Empty) => StreamAction::Wait,
        StreamInput::Bus(Received::Closed) => StreamAction::Finish,
    }
}

} // verus!
