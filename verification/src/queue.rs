//! A queue of recorded events that readers wait on. A reader that fell behind gets the
//! identifier of the next event without the event, and must read what it missed itself.

use vstd::prelude::*;

verus! {

/// Why the queue cannot be used.
#[derive(Debug, Clone, Copy, PartialEq, Eq, Structural)]
pub enum QueueError {
    QueueClosed,
}

/// A queue of events with their identifiers.
pub trait Queue<Eid, Event> {
    /// Waits for the next event; `None` in place of the event when events were missed.
    fn await_next(&self) -> Result<(Eid, Option<Event>), QueueError>;

    /// Records an event into the queue.
    fn record(&self, event_id: Eid, event: Event) -> Result<(), QueueError>;
}

/// What one receive from the channel under a queue gave.
#[derive(Debug)]
pub enum Received<Eid, Event> {
    /// The next event.
    Event(Eid, Event),
    /// Events were missed.
    Lagged,
    /// The channel is closed.
    Closed,
}

/// What waiting for the next event does after a receive, given whether events were
/// missed before it: an event is returned (without its content if events were missed),
/// a missed-events notice means receiving again, and a closed channel is an error.
pub fn after_receive<Eid, Event>(lagged: bool, received: Received<Eid, Event>) -> (r: Option<
    Result<(Eid, Option<Event>), QueueError>,
>)
    ensures
        received matches Received::Event(id, e) ==> r == Some(
            Ok::<(Eid, Option<Event>), QueueError>((id, if lagged { None } else { Some(e) })),
        ),
        received is Lagged ==> r is None,
        received is Closed ==> r == Some(Err::<(Eid, Option<Event>), QueueError>(QueueError::QueueClosed)),
{
    match received {
        Received::Event(id, e) => if lagged {
            Some(Ok((id, None)))
        } else {
            Some(Ok((id, Some(e))))
        },
        Received::Lagged => None,
        Received::Closed => Some(Err(QueueError::QueueClosed)),
    }
}

} // verus!
