//! Points in time, lengths of time, and the length of one wait.
use vstd::prelude::*;

verus! {

/// Nanoseconds in one second.
pub const NANOS_PER_SEC: u128 = 1_000_000_000;

/// Nanoseconds in one millisecond.
pub const NANOS_PER_MILLI: u128 = 1_000_000;

/// An absolute point in time, in nanoseconds since the epoch of the clock
/// that the caller reads.
#[derive(Clone, Copy, Debug, PartialEq, Eq, Structural)]
pub struct Moment {
    pub nanos: u128,
}

/// A non-negative length of time in nanoseconds.
#[derive(Clone, Copy, Debug, PartialEq, Eq, Structural)]
pub struct Span {
    pub nanos: u128,
}

impl Moment {
    /// The moment `secs` seconds and `subsec_nanos` nanoseconds after the epoch.
    pub fn new(secs: u64, subsec_nanos: u32) -> (moment: Moment)
        ensures
            moment.nanos == secs * NANOS_PER_SEC + subsec_nanos,
    {
        let whole: u128 = secs as u128 * NANOS_PER_SEC;
        Moment { nanos: whole + subsec_nanos as u128 }
    }

    /// The moment `millis` milliseconds after the epoch.
    pub fn from_millis(millis: u64) -> (moment: Moment)
        ensures
            moment.nanos == millis * NANOS_PER_MILLI,
    {
        Moment { nanos: millis as u128 * NANOS_PER_MILLI }
    }
}

impl Span {
    /// The empty span.
    pub fn zero() -> (span: Span)
        ensures
            span.nanos == 0,
    {
        Span { nanos: 0 }
    }

    /// A span of `millis` milliseconds.
    pub fn from_millis(millis: u64) -> (span: Span)
        ensures
            span.nanos == millis * NANOS_PER_MILLI,
    {
        Span { nanos: millis as u128 * NANOS_PER_MILLI }
    }

    /// The whole seconds of the span.
    pub fn whole_secs(&self) -> (secs: u128)
        ensures
            secs == self.nanos / NANOS_PER_SEC,
    {
        self.nanos / NANOS_PER_SEC
    }

    /// The nanoseconds of the span beyond its whole seconds.
    pub fn subsec_nanos(&self) -> (nanos: u32)
        ensures
            nanos == self.nanos % NANOS_PER_SEC,
    {
        let rest: u128 = self.nanos % NANOS_PER_SEC;
        rest as u32
    }
}

/// How long a wait may last: nothing when there is no deadline, otherwise the
/// time from `now` to the deadline, and zero once the deadline has passed.
pub open spec fn timeout_of(deadline: Option<Moment>, now: Moment) -> Option<Span> {
    match deadline {
        None => None,
        Some(at) => Some(
            Span { nanos: if at.nanos > now.nanos { (at.nanos - now.nanos) as u128 } else { 0 } },
        ),
    }
}

/// Computes the timeout of the next wait from the relay endpoint's deadline.
pub fn wait_timeout(deadline: Option<Moment>, now: Moment) -> (timeout: Option<Span>)
    ensures
        timeout == timeout_of(deadline, now),
        deadline is None <==> timeout is None,
{
    match deadline {
        None => None,
        Some(at) => {
            if at.nanos > now.nanos {
                Some(Span { nanos: at.nanos - now.nanos })
            } else {
                Some(Span::zero())
            }
        },
    }
}

/// A wait bounded by a deadline that lies ahead ends exactly at the deadline,
/// so it never lasts past it.
pub proof fn law_wait_ends_at_deadline(at: Moment, now: Moment)
    requires
        at.nanos > now.nanos,
    ensures
        timeout_of(Some(at), now) is Some,
        now.nanos + timeout_of(Some(at), now).unwrap().nanos == at.nanos,
{
}

/// A deadline that has passed gives a wait of length zero.
pub proof fn law_past_deadline_is_zero(at: Moment, now: Moment)
    requires
        at.nanos <= now.nanos,
    ensures
        timeout_of(Some(at), now) == Some(Span { nanos: 0 }),
{
}

/// Without a deadline the wait has no bound at all.
pub proof fn law_no_deadline_no_bound(now: Moment)
    ensures
        timeout_of(None, now) is None,
{
}

} // verus!
