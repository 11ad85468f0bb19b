//! The reactor loop as a state machine.
//!
//! The program that owns the sockets performs one action at a time and
//! reports what came of it as an event; [`Reactor::step`] answers with the
//! next action.  One turn of the loop is: read the deadline, wait, advance
//! the relay endpoint's clock, then handle the collected notifications in the
//! order the multiplexer gave them.
use vstd::prelude::*;
use crate::routing::route;
use crate::routing::route_of;
use crate::routing::Notification;
use crate::routing::Route;
use crate::timing::timeout_of;
use crate::timing::wait_timeout;
use crate::timing::Moment;
use crate::timing::Span;
use crate::tokens::TokenSpace;

verus! {

/// Where the loop stands.
#[derive(Clone, Copy, Debug, PartialEq, Eq, Structural)]
pub enum Phase {
    /// About to compute the timeout of the next wait.
    Planning,
    /// Blocked on the multiplexer.
    Waiting,
    /// The wait is over; the relay endpoint's clock is being advanced.
    Advancing,
    /// Handling the notifications of the last wait.
    Dispatching,
    /// Left the loop on the wake token.
    Stopped,
    /// Left the loop because the wait itself failed.
    Failed,
}

/// How a wait on the multiplexer ended.
#[derive(Debug)]
pub enum PollOutcome {
    /// The notifications collected, in the multiplexer's order.
    Ready(Vec<Notification>),
    /// A signal interrupted the wait.
    Interrupted,
    /// The multiplexer reported any other error.
    Failed,
}

/// What the program reports to the reactor.
#[derive(Debug)]
pub enum Event {
    /// The relay endpoint's next deadline and the current time.
    Deadline { deadline: Option<Moment>, now: Moment },
    /// The wait is over; `now` is the clock's reading after it.
    Polled { outcome: PollOutcome, now: Moment },
    /// The last action was carried out; `failed` tells whether its handler
    /// returned an error.
    Done { failed: bool },
}

/// What the program is to do next.
#[derive(Clone, Copy, Debug, PartialEq, Eq)]
pub enum Action {
    /// Ask the relay endpoint for its deadline and read the clock.
    ReadDeadline,
    /// Block on the multiplexer, for `timeout` at most.
    Wait { timeout: Option<Span> },
    /// Advance the relay endpoint's clock to `now`.
    Advance { now: Moment },
    /// Let the relay endpoint handle its socket.
    ServeRelay,
    /// Let the control server accept connections with tokens from
    /// `min_token ..= max_token`.
    Accept { min_token: usize, max_token: usize },
    /// Let the control server serve the client named by notification `index`
    /// of the batch, registered under `token`.
    ServeClient { index: usize, token: usize },
    /// Report the notification's token as unknown; no region holds it.
    Reject { token: usize },
    /// Nothing to do for this notification.
    Pass,
    /// Leave the loop with success.
    Stop,
    /// Leave the loop with the multiplexer's error.
    Abort,
    /// The event does not answer the last action; nothing changed.
    Unexpected,
}

/// The reactor as contracts see it.
pub struct ReactorState {
    pub space: TokenSpace,
    pub phase: Phase,
    pub batch: Seq<Notification>,
    pub cursor: nat,
    pub failures: nat,
    pub clock: Option<Moment>,
}

/// The state of the loop between two actions.
pub struct Reactor {
    space: TokenSpace,
    phase: Phase,
    batch: Vec<Notification>,
    cursor: usize,
    failures: u64,
    clock: Option<Moment>,
}

/// The action that carries out a route; `index` is the notification's place
/// in the batch.
pub open spec fn action_for(to: Route, index: nat) -> Action {
    match to {
        Route::Shutdown => Action::Stop,
        Route::Relay => Action::ServeRelay,
        Route::Accept { min_token, max_token } => Action::Accept { min_token, max_token },
        Route::Client { token } => Action::ServeClient { index: index as usize, token },
        Route::Pass => Action::Pass,
        Route::Unknown { token } => Action::Reject { token },
    }
}

/// The failure count after one more handler has returned.  It stops at the
/// largest value instead of wrapping.
pub open spec fn tally(failures: nat, failed: bool) -> nat {
    if failed && failures < u64::MAX {
        failures + 1
    } else {
        failures
    }
}

/// The time to advance the relay endpoint's clock to: the clock's reading,
/// unless the endpoint was already advanced beyond it.  The endpoint's time
/// never goes back, even when the clock that is read does.
pub open spec fn advance_to(clock: Option<Moment>, now: Moment) -> Moment {
    match clock {
        Some(last) => if last.nanos > now.nanos {
            last
        } else {
            now
        },
        None => now,
    }
}

/// Turns to the next notification of the batch, or back to planning when
/// the batch is used up.  The wake token ends the loop at once, whatever
/// comes after it in the batch.
pub open spec fn take_next(s: ReactorState) -> (ReactorState, Action) {
    if s.cursor < s.batch.len() {
        let to = route_of(s.space, s.batch[s.cursor as int]);
        let phase = if to == Route::Shutdown {
            Phase::Stopped
        } else {
            Phase::Dispatching
        };
        (ReactorState { phase, cursor: s.cursor + 1, ..s }, action_for(to, s.cursor))
    } else {
        (ReactorState { phase: Phase::Planning, ..s }, Action::ReadDeadline)
    }
}

/// The state and the action that follow state `s` on event `e`.
pub open spec fn transition(s: ReactorState, e: Event) -> (ReactorState, Action) {
    match s.phase {
        Phase::Planning => match e {
            Event::Deadline { deadline, now } => (
                ReactorState { phase: Phase::Waiting, batch: Seq::empty(), cursor: 0, ..s },
                Action::Wait { timeout: timeout_of(deadline, now) },
            ),
            _ => (s, Action::Unexpected),
        },
        Phase::Waiting => match e {
            Event::Polled { outcome: PollOutcome::Ready(found), now } => (
                ReactorState {
                    phase: Phase::Advancing,
                    batch: found@,
                    cursor: 0,
                    clock: Some(advance_to(s.clock, now)),
                    ..s
                },
                Action::Advance { now: advance_to(s.clock, now) },
            ),
            Event::Polled { outcome: PollOutcome::Interrupted, now } => (
                ReactorState {
                    phase: Phase::Advancing,
                    batch: Seq::empty(),
                    cursor: 0,
                    clock: Some(advance_to(s.clock, now)),
                    ..s
                },
                Action::Advance { now: advance_to(s.clock, now) },
            ),
            Event::Polled { outcome: PollOutcome::Failed, now } => (
                ReactorState { phase: Phase::Failed, ..s },
                Action::Abort,
            ),
            _ => (s, Action::Unexpected),
        },
        Phase::Advancing => match e {
            Event::Done { failed } => take_next(s),
            _ => (s, Action::Unexpected),
        },
        Phase::Dispatching => match e {
            Event::Done { failed } => take_next(
                ReactorState { failures: tally(s.failures, failed), ..s },
            ),
            _ => (s, Action::Unexpected),
        },
        Phase::Stopped => (s, Action::Stop),
        Phase::Failed => (s, Action::Abort),
    }
}

impl Reactor {
    /// The reactor as contracts see it.
    pub closed spec fn view(&self) -> ReactorState {
        ReactorState {
            space: self.space,
            phase: self.phase,
            batch: self.batch@,
            cursor: self.cursor as nat,
            failures: self.failures as nat,
            clock: self.clock,
        }
    }

    /// The cursor stays inside the batch, and the token space is laid out as
    /// its constructor lays it out.
    pub open spec fn well_formed(&self) -> bool {
        &&& self@.space.well_formed()
        &&& self@.cursor <= self@.batch.len()
        &&& self@.failures <= u64::MAX
    }

    /// A reactor at the start of its first turn: the program reads the
    /// deadline and reports it.
    pub fn new(space: TokenSpace) -> (reactor: Self)
        requires
            space.well_formed(),
        ensures
            reactor.well_formed(),
            reactor@ == (ReactorState {
                space,
                phase: Phase::Planning,
                batch: Seq::empty(),
                cursor: 0,
                failures: 0,
                clock: None,
            }),
    {
        Reactor {
            space,
            phase: Phase::Planning,
            batch: Vec::new(),
            cursor: 0,
            failures: 0,
            clock: None,
        }
    }

    /// Where the loop stands.
    pub fn phase(&self) -> (phase: Phase)
        ensures
            phase == self@.phase,
    {
        self.phase
    }

    /// The token space the reactor routes by.
    pub fn space(&self) -> (space: TokenSpace)
        ensures
            space == self@.space,
    {
        self.space
    }

    /// How many handlers have returned an error so far.
    pub fn failures(&self) -> (count: u64)
        ensures
            count == self@.failures,
    {
        self.failures
    }

    /// Whether the loop has ended, with success or with failure.
    pub fn is_over(&self) -> (over: bool)
        ensures
            over == (self@.phase == Phase::Stopped || self@.phase == Phase::Failed),
    {
        match self.phase {
            Phase::Stopped => true,
            Phase::Failed => true,
            _ => false,
        }
    }

    /// The exit code of the process once the loop has ended: zero after a
    /// stop on the wake token, one after a failed wait.
    pub fn exit_code(&self) -> (code: Option<u8>)
        ensures
            code == match self@.phase {
                Phase::Stopped => Some(0u8),
                Phase::Failed => Some(1u8),
                _ => None,
            },
    {
        match self.phase {
            Phase::Stopped => Some(0),
            Phase::Failed => Some(1),
            _ => None,
        }
    }

    /// The time the relay endpoint was last advanced to, if it ever was.
    pub fn clock(&self) -> (clock: Option<Moment>)
        ensures
            clock == self@.clock,
    {
        self.clock
    }

    fn advance_clock(&mut self, now: Moment) -> (to: Moment)
        ensures
            to == advance_to(old(self)@.clock, now),
            final(self)@ == (ReactorState { clock: Some(to), ..old(self)@ }),
    {
        let to = match self.clock {
            Some(last) => if last.nanos > now.nanos {
                last
            } else {
                now
            },
            None => now,
        };
        self.clock = Some(to);
        to
    }

    fn next_notification(&mut self) -> (action: Action)
        requires
            old(self).well_formed(),
        ensures
            final(self).well_formed(),
            (final(self)@, action) == take_next(old(self)@),
    {
        if self.cursor < self.batch.len() {
            let index: usize = self.cursor;
            let to = route(&self.space, &self.batch[index]);
            self.cursor = index + 1;
            match to {
                Route::Shutdown => {
                    self.phase = Phase::Stopped;
                    Action::Stop
                },
                Route::Relay => {
                    self.phase = Phase::Dispatching;
                    Action::ServeRelay
                },
                Route::Accept { min_token, max_token } => {
                    self.phase = Phase::Dispatching;
                    Action::Accept { min_token, max_token }
                },
                Route::Client { token } => {
                    self.phase = Phase::Dispatching;
                    Action::ServeClient { index, token }
                },
                Route::Pass => {
                    self.phase = Phase::Dispatching;
                    Action::Pass
                },
                Route::Unknown { token } => {
                    self.phase = Phase::Dispatching;
                    Action::Reject { token }
                },
            }
        } else {
            self.phase = Phase::Planning;
            Action::ReadDeadline
        }
    }

    /// Takes the event that answers the last action and gives the next
    /// action.  An event that does not fit the phase changes nothing.
    pub fn step(&mut self, event: Event) -> (action: Action)
        requires
            old(self).well_formed(),
        ensures
            final(self).well_formed(),
            (final(self)@, action) == transition(old(self)@, event),
    {
        match self.phase {
            Phase::Planning => match event {
                Event::Deadline { deadline, now } => {
                    self.phase = Phase::Waiting;
                    self.batch = Vec::new();
                    self.cursor = 0;
                    Action::Wait { timeout: wait_timeout(deadline, now) }
                },
                _ => Action::Unexpected,
            },
            Phase::Waiting => match event {
                Event::Polled { outcome, now } => match outcome {
                    PollOutcome::Ready(found) => {
                        self.phase = Phase::Advancing;
                        self.batch = found;
                        self.cursor = 0;
                        Action::Advance { now: self.advance_clock(now) }
                    },
                    PollOutcome::Interrupted => {
                        self.phase = Phase::Advancing;
                        self.batch = Vec::new();
                        self.cursor = 0;
                        Action::Advance { now: self.advance_clock(now) }
                    },
                    PollOutcome::Failed => {
                        self.phase = Phase::Failed;
                        Action::Abort
                    },
                },
                _ => Action::Unexpected,
            },
            Phase::Advancing => match event {
                Event::Done { failed } => self.next_notification(),
                _ => Action::Unexpected,
            },
            Phase::Dispatching => match event {
                Event::Done { failed } => {
                    if failed && self.failures < u64::MAX {
                        self.failures = self.failures + 1;
                    }
                    self.next_notification()
                },
                _ => Action::Unexpected,
            },
            Phase::Stopped => Action::Stop,
            Phase::Failed => Action::Abort,
        }
    }
}

/// Two states that agree on everything but the failure count.
pub open spec fn alike(a: ReactorState, b: ReactorState) -> bool {
    &&& a.space == b.space
    &&& a.phase == b.phase
    &&& a.batch == b.batch
    &&& a.cursor == b.cursor
    &&& a.clock == b.clock
}

/// The state after the handlers of one batch have returned: `results` holds,
/// for each action carried out since the wait, whether it failed.
pub open spec fn after_handlers(s: ReactorState, results: Seq<bool>) -> ReactorState
    decreases results.len(),
{
    if results.len() == 0 {
        s
    } else {
        transition(
            after_handlers(s, results.drop_last()),
            Event::Done { failed: results.last() },
        ).0
    }
}

/// The timeout of a wait is computed from the deadline reported for this very
/// turn, and nothing but that report starts a wait.
pub proof fn law_wait_is_planned(s: ReactorState, e: Event)
    ensures
        transition(s, e).1 is Wait ==> s.phase == Phase::Planning && e is Deadline,
        s.phase == Phase::Planning ==> forall|deadline: Option<Moment>, now: Moment|
            #[trigger] transition(s, Event::Deadline { deadline, now }).1 == (Action::Wait {
                timeout: timeout_of(deadline, now),
            }),
        s.phase == Phase::Waiting && !(e is Polled) ==> transition(s, e) == (s, Action::Unexpected),
{
}

/// The clock is advanced only in answer to a wait that is over, once for
/// each such wait.
pub proof fn law_advance_follows_wait(s: ReactorState, e: Event)
    ensures
        transition(s, e).1 is Advance ==> s.phase == Phase::Waiting && e is Polled && transition(
            s,
            e,
        ).0.phase == Phase::Advancing,
        s.phase == Phase::Advancing ==> !(transition(s, e).1 is Advance),
{
}

/// The clock is advanced once after every wait that did not fail, an
/// interrupted one included, and before any notification is handled: routing
/// begins only in answer to the advance.
pub proof fn law_advance_precedes_routing(s: ReactorState, e: Event)
    requires
        s.phase == Phase::Waiting,
        e is Polled,
    ensures
        !(e->outcome is Failed) ==> transition(s, e).1 is Advance && transition(
            s,
            e,
        ).0.phase == Phase::Advancing && transition(s, e).0.cursor == 0,
        e->outcome is Interrupted ==> transition(s, e).0.batch.len() == 0,
        e->outcome is Failed ==> transition(s, e).1 == Action::Abort && transition(s, e).0.phase
            == Phase::Failed,
{
}

/// The relay endpoint's time never goes back: each advance is to a time that
/// is no earlier than the one before it and no earlier than the clock's
/// reading, and it is the reading itself whenever the clock has not gone back.
pub proof fn law_clock_never_goes_back(s: ReactorState, e: Event)
    ensures
        s.clock is Some ==> transition(s, e).0.clock is Some && transition(
            s,
            e,
        ).0.clock.unwrap().nanos >= s.clock.unwrap().nanos,
        transition(s, e).1 is Advance ==> {
            let to = transition(s, e).1->Advance_now;
            &&& transition(s, e).0.clock == Some(to)
            &&& to.nanos >= e->Polled_now.nanos
            &&& s.clock is Some ==> to.nanos >= s.clock.unwrap().nanos
            &&& (s.clock is None || s.clock.unwrap().nanos <= e->Polled_now.nanos) ==> to
                == e->Polled_now
        },
        !(transition(s, e).1 is Advance) ==> transition(s, e).0.clock == s.clock,
{
}

/// A handler is called only while a batch is being handled, that is after
/// the advance of the same turn.
pub proof fn law_handlers_follow_advance(s: ReactorState, e: Event)
    requires
        s.space.well_formed(),
    ensures
        ({
            let action = transition(s, e).1;
            action is ServeRelay || action is Accept || action is ServeClient || action is Reject
                || action is Pass
        }) ==> (s.phase == Phase::Advancing || s.phase == Phase::Dispatching) && e is Done,
{
}

/// When the next notification carries the wake token the loop stops with
/// success, whether or not the last handler failed and whatever else the
/// batch still holds.
pub proof fn law_wake_stops(s: ReactorState, failed: bool)
    requires
        s.space.well_formed(),
        s.phase == Phase::Advancing || s.phase == Phase::Dispatching,
        s.cursor < s.batch.len(),
        s.batch[s.cursor as int].token == s.space.wake,
    ensures
        transition(s, Event::Done { failed }).1 == Action::Stop,
        transition(s, Event::Done { failed }).0.phase == Phase::Stopped,
{
}

/// The loop stops with success on the wake token and on nothing else.
pub proof fn law_only_wake_stops(s: ReactorState, e: Event)
    requires
        s.space.well_formed(),
        s.phase != Phase::Stopped,
        transition(s, e).0.phase == Phase::Stopped,
    ensures
        e is Done,
        s.cursor < s.batch.len(),
        s.batch[s.cursor as int].token == s.space.wake,
{
}

/// Once the loop has ended it stays ended.
pub proof fn law_end_is_final(s: ReactorState, e: Event)
    ensures
        s.phase == Phase::Stopped ==> transition(s, e) == (s, Action::Stop),
        s.phase == Phase::Failed ==> transition(s, e) == (s, Action::Abort),
{
}

/// A handler's error changes the failure count and nothing else: the next
/// action and the next state are those that follow a success.
pub proof fn law_error_is_contained(s: ReactorState)
    ensures
        transition(s, Event::Done { failed: true }).1 == transition(
            s,
            Event::Done { failed: false },
        ).1,
        alike(
            transition(s, Event::Done { failed: true }).0,
            transition(s, Event::Done { failed: false }).0,
        ),
{
}

/// The failure count never decides anything: from two states that differ
/// only in it, every event leads to the same action and again to two states
/// that differ only in it.  So an error is contained in every later turn too.
pub proof fn law_failures_decide_nothing(a: ReactorState, b: ReactorState, e: Event)
    requires
        alike(a, b),
    ensures
        transition(a, e).1 == transition(b, e).1,
        alike(transition(a, e).0, transition(b, e).0),
{
}

/// While the handlers of a batch return, and the wake token has not come up,
/// the reactor stays in the batch and moves one notification at a time.
pub proof fn law_batch_in_order(s: ReactorState, results: Seq<bool>)
    requires
        s.space.well_formed(),
        s.phase == Phase::Advancing,
        s.cursor == 0,
        results.len() <= s.batch.len(),
        forall|j: int| 0 <= j < results.len() ==> s.batch[j].token != s.space.wake,
    ensures
        after_handlers(s, results).batch == s.batch,
        after_handlers(s, results).space == s.space,
        after_handlers(s, results).cursor == results.len(),
        after_handlers(s, results).phase == if results.len() == 0 {
            Phase::Advancing
        } else {
            Phase::Dispatching
        },
        results.len() > 0 ==> transition(
            after_handlers(s, results.drop_last()),
            Event::Done { failed: results.last() },
        ).1 == action_for(
            route_of(s.space, s.batch[results.len() - 1]),
            (results.len() - 1) as nat,
        ),
    decreases results.len(),
{
    if results.len() > 0 {
        law_batch_in_order(s, results.drop_last());
    }
}

/// A batch without the wake token is handled to its end, and then the loop
/// turns to the next deadline: the timeout is computed anew in every turn.
pub proof fn law_turn_ends_in_planning(s: ReactorState, results: Seq<bool>)
    requires
        s.space.well_formed(),
        s.phase == Phase::Advancing,
        s.cursor == 0,
        results.len() == s.batch.len() + 1,
        forall|j: int| 0 <= j < s.batch.len() ==> s.batch[j].token != s.space.wake,
    ensures
        after_handlers(s, results).phase == Phase::Planning,
        transition(after_handlers(s, results.drop_last()), Event::Done { failed: results.last() }).1
            == Action::ReadDeadline,
{
    law_batch_in_order(s, results.drop_last());
}

/// A batch that holds the wake token ends the loop within that batch: once
/// the notifications before the wake token are handled, whatever their
/// handlers returned, the reactor stops, and no further wait begins.
pub proof fn law_wake_ends_the_turn(s: ReactorState, at: int, results: Seq<bool>)
    requires
        s.space.well_formed(),
        s.phase == Phase::Advancing,
        s.cursor == 0,
        0 <= at < s.batch.len(),
        s.batch[at].token == s.space.wake,
        forall|j: int| 0 <= j < at ==> s.batch[j].token != s.space.wake,
        results.len() == at + 1,
    ensures
        after_handlers(s, results).phase == Phase::Stopped,
        transition(after_handlers(s, results.drop_last()), Event::Done { failed: results.last() }).1
            == Action::Stop,
{
    law_batch_in_order(s, results.drop_last());
}

} // verus!
