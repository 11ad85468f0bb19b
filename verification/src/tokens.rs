//! The partition of the multiplexer's token space.
use vstd::prelude::*;
use vstd::set_lib::lemma_int_range;

verus! {

/// Token of the relay endpoint's socket.
pub const RELAY_TOKEN: usize = 1;

/// Token of the control listener.
pub const LISTENER_TOKEN: usize = 2;

/// First token of the control-client region.
pub const FIRST_CLIENT_TOKEN: usize = 3;

/// Token of the wake notification: the largest token, outside every region.
pub const WAKE_TOKEN: usize = usize::MAX;

/// Number of control connections a daemon serves unless configured otherwise.
pub const DEFAULT_CAPACITY: usize = 1000;

/// Most notifications collected by one wait.
pub const MAX_EVENTS: usize = 1024;

/// The resource kind that owns a token.
#[derive(Clone, Copy, Debug, PartialEq, Eq, Structural)]
pub enum Owner {
    Wake,
    Relay,
    Listener,
    Client,
    Nobody,
}

/// The four regions of the token space: three single tokens and the
/// contiguous client region `client_min ..= client_max`.
#[derive(Clone, Copy, Debug, PartialEq, Eq, Structural)]
pub struct TokenSpace {
    pub wake: usize,
    pub relay: usize,
    pub listener: usize,
    pub client_min: usize,
    pub client_max: usize,
    pub capacity: usize,
}

impl TokenSpace {
    /// The layout that every constructed token space has: fixed tokens at
    /// their constants, a non-empty client region right after them whose size
    /// is the capacity, and the wake token beyond it.
    pub open spec fn well_formed(self) -> bool {
        &&& self.wake == WAKE_TOKEN
        &&& self.relay == RELAY_TOKEN
        &&& self.listener == LISTENER_TOKEN
        &&& self.client_min == FIRST_CLIENT_TOKEN
        &&& self.capacity >= 1
        &&& self.client_min <= self.client_max
        &&& self.capacity == self.client_max - self.client_min + 1
        &&& self.client_max < self.wake
    }

    /// Whether a capacity leaves room for the wake token above the region.
    pub open spec fn fits(capacity: usize) -> bool {
        1 <= capacity <= usize::MAX - FIRST_CLIENT_TOKEN
    }

    /// Whether `token` lies in the client region.
    pub open spec fn is_client(self, token: usize) -> bool {
        self.client_min <= token <= self.client_max
    }

    /// The tokens of the client region, as a set of integers.
    pub open spec fn client_tokens(self) -> Set<int> {
        Set::new(|t: int| self.client_min <= t <= self.client_max)
    }

    /// The `index`-th token of the client region.
    pub open spec fn client_token(self, index: int) -> int {
        self.client_min + index
    }

    /// Who owns `token`.
    pub open spec fn owner_of(self, token: usize) -> Owner {
        if token == self.wake {
            Owner::Wake
        } else if token == self.relay {
            Owner::Relay
        } else if token == self.listener {
            Owner::Listener
        } else if self.is_client(token) {
            Owner::Client
        } else {
            Owner::Nobody
        }
    }

    /// Whether `capacity` can be given to [`TokenSpace::new`].
    pub fn admits(capacity: usize) -> (ok: bool)
        ensures
            ok == Self::fits(capacity),
    {
        1 <= capacity && capacity <= usize::MAX - FIRST_CLIENT_TOKEN
    }

    /// Lays out the token space for `capacity` concurrent control connections.
    pub fn new(capacity: usize) -> (space: Self)
        requires
            Self::fits(capacity),
        ensures
            space.well_formed(),
            space.capacity == capacity,
            space.client_max == FIRST_CLIENT_TOKEN + capacity - 1,
    {
        TokenSpace {
            wake: WAKE_TOKEN,
            relay: RELAY_TOKEN,
            listener: LISTENER_TOKEN,
            client_min: FIRST_CLIENT_TOKEN,
            client_max: FIRST_CLIENT_TOKEN + (capacity - 1),
            capacity,
        }
    }

    /// Validates the layout once, before any I/O: whether the regions are where
    /// [`TokenSpace::new`] puts them, the client region is not empty, its
    /// bounds are in order and its size is the capacity.
    pub fn validate(&self) -> (valid: bool)
        ensures
            valid == self.well_formed(),
    {
        self.wake == WAKE_TOKEN && self.relay == RELAY_TOKEN && self.listener == LISTENER_TOKEN
            && self.client_min == FIRST_CLIENT_TOKEN && self.capacity >= 1 && self.client_min
            <= self.client_max && self.client_max < self.wake && self.capacity - 1
            == self.client_max - self.client_min
    }

    /// The resource kind that owns `token`.
    pub fn owner(&self, token: usize) -> (owner: Owner)
        ensures
            owner == self.owner_of(token),
    {
        if token == self.wake {
            Owner::Wake
        } else if token == self.relay {
            Owner::Relay
        } else if token == self.listener {
            Owner::Listener
        } else if self.client_min <= token && token <= self.client_max {
            Owner::Client
        } else {
            Owner::Nobody
        }
    }

    /// The client region holds exactly `capacity` distinct tokens, and none of
    /// them is the wake, relay or listener token.
    pub proof fn law_client_region(self)
        requires
            self.well_formed(),
        ensures
            self.client_tokens().finite(),
            self.client_tokens().len() == self.capacity,
            !self.client_tokens().contains(self.wake as int),
            !self.client_tokens().contains(self.relay as int),
            !self.client_tokens().contains(self.listener as int),
            forall|i: int, j: int|
                0 <= i < j < self.capacity ==> self.client_token(i) != self.client_token(j),
            forall|i: int|
                0 <= i < self.capacity ==> #[trigger] self.client_tokens().contains(
                    self.client_token(i),
                ),
    {
        lemma_int_range(self.client_min as int, self.client_max + 1);
        assert(self.client_tokens() =~= vstd::set_lib::set_int_range(
            self.client_min as int,
            self.client_max + 1,
        ));
    }

    /// Every token has one owner, and the owner is decided by the region the
    /// token lies in: the four regions do not overlap.
    pub proof fn law_regions_disjoint(self, token: usize)
        requires
            self.well_formed(),
        ensures
            self.owner_of(token) == Owner::Wake <==> token == self.wake,
            self.owner_of(token) == Owner::Relay <==> token == self.relay,
            self.owner_of(token) == Owner::Listener <==> token == self.listener,
            self.owner_of(token) == Owner::Client <==> self.is_client(token),
            self.owner_of(token) == Owner::Nobody <==> (token != self.wake && token != self.relay
                && token != self.listener && !self.is_client(token)),
    {
    }
}

} // verus!
