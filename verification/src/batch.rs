//! The multiplexer's event buffer, as the reactor reads it.
use vstd::prelude::*;
use crate::reactor::Event;
use crate::reactor::PollOutcome;
use crate::routing::Notification;
use crate::timing::Moment;
use crate::tokens::MAX_EVENTS;

verus! {

/// `mio::Events`, the buffer that a wait on the multiplexer fills.  Nothing
/// of its inside is known here; contracts speak of it through [`held`].
#[verifier::external_type_specification]
#[verifier::external_body]
pub struct ExEvents(mio::Events);

/// The notifications that an event buffer holds, in the order in which it
/// hands them out: of each event its token and whether it is readable.
pub uninterp spec fn held(events: mio::Events) -> Seq<Notification>;

/// Calls `mio::Events::with_capacity`.  Trusted: the buffer it returns holds
/// no event.  The capacity is bounded so that the allocation cannot overflow.
#[verifier::external_body]
fn events_with_capacity(capacity: usize) -> (events: mio::Events)
    requires
        capacity <= MAX_EVENTS,
    ensures
        held(events) == Seq::<Notification>::empty(),
{
    mio::Events::with_capacity(capacity)
}

/// Walks the buffer with `mio::Events::iter` and reads each event with
/// `Event::token` and `Event::is_readable`.  Trusted: the result lists the
/// buffer's events one for one, in the buffer's order.
#[verifier::external_body]
fn notifications_in(events: &mio::Events) -> (batch: Vec<Notification>)
    ensures
        batch@ == held(*events),
{
    let mut batch: Vec<Notification> = Vec::new();
    for event in events.iter() {
        batch.push(Notification { token: event.token().0, readable: event.is_readable() });
    }
    batch
}

/// An empty buffer with room for the most notifications that one wait may
/// collect.
pub fn event_buffer() -> (events: mio::Events)
    ensures
        held(events) == Seq::<Notification>::empty(),
{
    events_with_capacity(MAX_EVENTS)
}

/// The event to report when a wait has returned without error at time
/// `now`: the batch is what the buffer holds, in the buffer's order.
pub fn wait_returned(events: &mio::Events, now: Moment) -> (event: Event)
    ensures
        event matches Event::Polled { outcome: PollOutcome::Ready(found), now: at } && found@
            == held(*events) && at == now,
{
    Event::Polled { outcome: PollOutcome::Ready(notifications_in(events)), now }
}

} // verus!
