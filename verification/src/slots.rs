//! The free list of the control-client token region.
use vstd::prelude::*;
use vstd::set_lib::lemma_int_range;
use vstd::set_lib::lemma_len_subset;
use vstd::set_lib::set_int_range;
use crate::tokens::TokenSpace;

verus! {

/// One flag per token of the client region: whether a live connection is
/// registered under it.
pub struct ClientSlots {
    first: usize,
    used: Vec<bool>,
}

impl ClientSlots {
    /// The first token of the region.
    pub closed spec fn first_token(&self) -> usize {
        self.first
    }

    /// The flags, in token order.
    pub closed spec fn occupancy(&self) -> Seq<bool> {
        self.used@
    }

    /// The region does not run past the largest token.
    pub open spec fn well_formed(&self) -> bool {
        self.first_token() + self.occupancy().len() <= usize::MAX
    }

    /// The number of tokens in the region.
    pub open spec fn spec_capacity(&self) -> nat {
        self.occupancy().len()
    }

    /// Whether `token` lies in the region.
    pub open spec fn covers(&self, token: usize) -> bool {
        self.first_token() <= token < self.first_token() + self.occupancy().len()
    }

    /// Whether a connection is registered under `token`.
    pub open spec fn holds(&self, token: usize) -> bool {
        self.covers(token) && self.occupancy()[token - self.first_token()]
    }

    /// Whether every token of the region is taken.
    pub open spec fn is_full(&self) -> bool {
        forall|i: int| 0 <= i < self.occupancy().len() ==> self.occupancy()[i]
    }

    /// The tokens under which a connection is registered.
    pub open spec fn held_tokens(&self) -> Set<int> {
        Set::new(|t: int| 0 <= t <= usize::MAX && self.holds(t as usize))
    }

    /// A free list for the client region of `space`, with every token free.
    pub fn new(space: &TokenSpace) -> (slots: Self)
        requires
            space.well_formed(),
        ensures
            slots.well_formed(),
            slots.first_token() == space.client_min,
            slots.spec_capacity() == space.capacity,
            forall|token: usize| !slots.holds(token),
            forall|token: usize| slots.covers(token) <==> space.is_client(token),
            slots.held_tokens() == Set::<int>::empty(),
    {
        let mut used: Vec<bool> = Vec::new();
        let mut i: usize = 0;
        while i < space.capacity
            invariant
                i <= space.capacity,
                used@.len() == i,
                forall|k: int| 0 <= k < i ==> !used@[k],
            decreases space.capacity - i,
        {
            used.push(false);
            i += 1;
        }
        let slots = ClientSlots { first: space.client_min, used };
        assert(slots.held_tokens() =~= Set::<int>::empty());
        slots
    }

    /// The number of tokens in the region.
    pub fn capacity(&self) -> (n: usize)
        ensures
            n == self.spec_capacity(),
    {
        self.used.len()
    }

    /// Whether a connection is registered under `token`.
    pub fn is_held(&self, token: usize) -> (held: bool)
        ensures
            held == self.holds(token),
    {
        if token < self.first {
            return false;
        }
        let index: usize = token - self.first;
        index < self.used.len() && self.used[index]
    }

    /// Takes the lowest free token for a new connection.  When every token is
    /// taken the connection is refused and nothing changes.
    pub fn acquire(&mut self) -> (token: Option<usize>)
        requires
            old(self).well_formed(),
        ensures
            final(self).well_formed(),
            final(self).first_token() == old(self).first_token(),
            token is None <==> old(self).is_full(),
            token is None ==> final(self).occupancy() == old(self).occupancy(),
            token is Some ==> {
                let t = token.unwrap();
                &&& old(self).covers(t)
                &&& !old(self).holds(t)
                &&& forall|lower: usize|
                    old(self).covers(lower) && lower < t ==> old(self).holds(lower)
                &&& final(self).occupancy() == old(self).occupancy().update(
                    t - old(self).first_token(),
                    true,
                )
                &&& final(self).held_tokens() == old(self).held_tokens().insert(t as int)
            },
    {
        let mut i: usize = 0;
        while i < self.used.len()
            invariant
                i <= self.used@.len(),
                self.used@ == old(self).used@,
                self.first == old(self).first,
                self.first + self.used@.len() <= usize::MAX,
                forall|k: int| 0 <= k < i ==> self.used@[k],
            decreases self.used@.len() - i,
        {
            if !self.used[i] {
                assert(!old(self).occupancy()[i as int]);
                self.used.set(i, true);
                assert(self.held_tokens() =~= old(self).held_tokens().insert(self.first + i));
                return Some(self.first + i);
            }
            i += 1;
        }
        None
    }

    /// Frees `token` when its connection closes.  Returns whether a
    /// connection was registered under it; if none was, nothing changes.
    pub fn release(&mut self, token: usize) -> (freed: bool)
        requires
            old(self).well_formed(),
        ensures
            final(self).well_formed(),
            final(self).first_token() == old(self).first_token(),
            freed == old(self).holds(token),
            freed ==> final(self).occupancy() == old(self).occupancy().update(
                token - old(self).first_token(),
                false,
            ),
            !freed ==> final(self).occupancy() == old(self).occupancy(),
            final(self).held_tokens() == old(self).held_tokens().remove(token as int),
    {
        if token < self.first {
            assert(self.held_tokens() =~= old(self).held_tokens().remove(token as int));
            return false;
        }
        let index: usize = token - self.first;
        if index < self.used.len() && self.used[index] {
            self.used.set(index, false);
            assert(self.held_tokens() =~= old(self).held_tokens().remove(token as int));
            true
        } else {
            assert(self.held_tokens() =~= old(self).held_tokens().remove(token as int));
            false
        }
    }

    /// The capacity is a hard bound: never are more tokens held than the
    /// region has, and every held token lies in the region.
    pub proof fn law_capacity_bound(&self)
        requires
            self.well_formed(),
        ensures
            self.held_tokens().finite(),
            self.held_tokens().len() <= self.spec_capacity(),
            forall|token: usize| self.holds(token) ==> self.covers(token),
    {
        let lo = self.first_token() as int;
        let hi = self.first_token() + self.occupancy().len();
        lemma_int_range(lo, hi);
        assert(self.held_tokens().subset_of(set_int_range(lo, hi)));
        lemma_len_subset(self.held_tokens(), set_int_range(lo, hi));
    }

    /// Taking a token and freeing a token touch no other token: whoever held
    /// one before an update at another index holds it afterwards.
    pub proof fn law_other_tokens_untouched(
        before: Self,
        after: Self,
        changed: usize,
        flag: bool,
        other: usize,
    )
        requires
            before.covers(changed),
            after.first_token() == before.first_token(),
            after.occupancy() == before.occupancy().update(changed - before.first_token(), flag),
            other != changed,
        ensures
            after.holds(other) == before.holds(other),
            after.holds(changed) == flag,
    {
    }
}

} // verus!
