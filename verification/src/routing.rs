//! Who handles a readiness notification.
use vstd::prelude::*;
use crate::tokens::Owner;
use crate::tokens::TokenSpace;

verus! {

/// What the multiplexer reports of one ready resource, as far as routing
/// reads it.
#[derive(Clone, Copy, Debug, PartialEq, Eq, Structural)]
pub struct Notification {
    pub token: usize,
    pub readable: bool,
}

/// The handler a notification is routed to.
#[derive(Clone, Copy, Debug, PartialEq, Eq, Structural)]
pub enum Route {
    /// The wake token: leave the loop.
    Shutdown,
    /// The relay endpoint handles its readable socket.
    Relay,
    /// The control server accepts connections, with tokens from
    /// `min_token ..= max_token`.
    Accept { min_token: usize, max_token: usize },
    /// The control server serves the connection registered under `token`.
    Client { token: usize },
    /// A known resource that has nothing to read: nothing is done.
    Pass,
    /// No region holds `token`: a routing error for this notification alone.
    Unknown { token: usize },
}

/// The route of `note` in the token space `space`.
pub open spec fn route_of(space: TokenSpace, note: Notification) -> Route {
    match space.owner_of(note.token) {
        Owner::Wake => Route::Shutdown,
        Owner::Relay => if note.readable {
            Route::Relay
        } else {
            Route::Pass
        },
        Owner::Listener => if note.readable {
            Route::Accept { min_token: space.client_min, max_token: space.client_max }
        } else {
            Route::Pass
        },
        Owner::Client => Route::Client { token: note.token },
        Owner::Nobody => Route::Unknown { token: note.token },
    }
}

/// Routes one notification by its token.
pub fn route(space: &TokenSpace, note: &Notification) -> (to: Route)
    ensures
        to == route_of(*space, *note),
{
    match space.owner(note.token) {
        Owner::Wake => Route::Shutdown,
        Owner::Relay => {
            if note.readable {
                Route::Relay
            } else {
                Route::Pass
            }
        },
        Owner::Listener => {
            if note.readable {
                Route::Accept { min_token: space.client_min, max_token: space.client_max }
            } else {
                Route::Pass
            }
        },
        Owner::Client => Route::Client { token: note.token },
        Owner::Nobody => Route::Unknown { token: note.token },
    }
}

/// The wake token is routed to shutdown whatever readiness comes with it, and
/// nothing else is.
pub proof fn law_only_wake_shuts_down(space: TokenSpace, note: Notification)
    requires
        space.well_formed(),
    ensures
        route_of(space, note) == Route::Shutdown <==> note.token == space.wake,
{
}

/// A client token is routed to the control server for any readiness, and the
/// route carries that token.
pub proof fn law_client_tokens_reach_clients(space: TokenSpace, note: Notification)
    requires
        space.well_formed(),
    ensures
        space.is_client(note.token) <==> route_of(space, note) == (Route::Client {
            token: note.token,
        }),
        route_of(space, note) is Unknown <==> space.owner_of(note.token) == Owner::Nobody,
{
}

} // verus!
