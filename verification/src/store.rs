//! The vocabulary of the event store that the grant and role services write to:
//! event identifiers, optimistic-concurrency conditions, pages of events and
//! the outcome of a write.

use crate::authority::Authority;
use vstd::prelude::*;

verus! {

/// The position of an event in the store.
#[derive(Clone, Copy, PartialEq, Eq, Structural, Debug, Hash)]
pub struct EventId(pub u64);

/// The condition under which a new event is recorded: the stream must be empty, or its
/// latest event must be the given one.
#[derive(Clone, Copy, PartialEq, Eq, Structural, Debug, Hash)]
pub enum When {
    Empty,
    Within(EventId),
}

/// Where a read starts.
#[derive(Clone, Copy, PartialEq, Eq, Structural, Debug, Hash)]
pub enum After {
    Start,
    Specific(EventId),
}

/// The result of trying to record an event.
#[derive(Clone, Copy, PartialEq, Eq, Structural, Debug, Hash)]
pub enum Outcome {
    /// The event was recorded with this identifier.
    Recorded(EventId),
    /// The condition did not hold; nothing was recorded.
    Skipped,
}

/// An event of one stream: where it stands, which entity it concerns, what happened.
#[derive(Clone, Copy, Debug)]
pub struct Event<I, P> {
    pub event_id: EventId,
    pub id: I,
    pub payload: P,
}

/// A page of a read: the events, whether more follow, and where the next page starts.
#[derive(Clone, Debug)]
pub struct Page<T> {
    pub items: Vec<T>,
    pub more: bool,
    pub next: EventId,
}

/// A point in time, in milliseconds since the Unix epoch.
#[derive(Clone, Copy, PartialEq, Eq, Structural, Debug, Hash)]
pub struct Timestamp(pub i64);

/// What a writer does after one attempt to record an event.
#[derive(Clone, Copy, PartialEq, Eq, Structural, Debug)]
pub enum Retry {
    /// The event was recorded: the operation is done.
    Done,
    /// Another writer got there first: try again.
    Again,
    /// Another writer got there first and no attempts are left.
    Exhausted,
}

/// Decides what follows an attempt to record an event, given how many attempts have been
/// made so far (this one included) and how many are allowed.
pub fn after_attempt(attempts_made: usize, max_attempts: usize, outcome: Outcome) -> (r: Retry)
    ensures
        outcome is Recorded ==> r == Retry::Done,
        outcome is Skipped && attempts_made < max_attempts ==> r == Retry::Again,
        outcome is Skipped && attempts_made >= max_attempts ==> r == Retry::Exhausted,
{
    match outcome {
        Outcome::Recorded(_) => Retry::Done,
        Outcome::Skipped => if attempts_made < max_attempts {
            Retry::Again
        } else {
            Retry::Exhausted
        },
    }
}

/// A call that a service asks its caller to make on the event store.
#[derive(Clone, Copy, PartialEq, Eq, Debug)]
pub enum StoreCall<I, P> {
    /// Record the payload on the stream of `id`, on behalf of the authority, if the
    /// stream's latest event is still `when`.
    Record { authority: Authority, id: I, payload: P, when: When },
    /// Read up to `limit` events of the stream of `id`, after the given position.
    Review { id: I, after: After, limit: usize },
    /// Read up to `limit` events of all streams, after the given position.
    Observe { after: After, limit: usize },
}

/// What a service does next: make a call on the store and hand back its reply, or finish.
#[derive(Debug)]
pub enum Step<I, P, T> {
    Call(StoreCall<I, P>),
    Done(T),
}

/// The number of attempts after one more, kept within `usize`.
pub fn one_more_attempt(attempts: usize) -> (r: usize)
    ensures
        attempts < usize::MAX ==> r == attempts + 1,
        attempts == usize::MAX ==> r == attempts,
{
    if attempts < usize::MAX {
        attempts + 1
    } else {
        attempts
    }
}

} // verus!
