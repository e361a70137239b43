//! The requests that this node has bid on.
//!
//! A dispatch for any other request is refused. The signature of the dispatch token is the real
//! authority; this is a second line of defence.

use std::collections::HashSet;
use vstd::prelude::*;
use vstd::std_specs::hash::group_hash_axioms;

verus! {

broadcast use group_hash_axioms;

/// The identifiers of the requests with a bid of ours that has not been served yet.
pub struct Inflight {
    set: HashSet<u128>,
}

impl View for Inflight {
    type V = Set<u128>;

    closed spec fn view(&self) -> Set<u128> {
        self.set@
    }
}

impl Inflight {
    pub fn new() -> (r: Self)
        ensures
            r@ == Set::<u128>::empty(),
    {
        Inflight { set: HashSet::new() }
    }

    /// Notes a bid on request `id`.
    pub fn record_bid(&mut self, id: u128)
        ensures
            final(self)@ == old(self)@.insert(id),
    {
        self.set.insert(id);
    }

    /// Whether there is a bid on request `id`.
    pub fn contains(&self, id: &u128) -> (r: bool)
        ensures
            r == self@.contains(*id),
    {
        self.set.contains(id)
    }

    /// Forgets the bid on request `id`.
    pub fn forget(&mut self, id: &u128)
        ensures
            final(self)@ == old(self)@.remove(*id),
    {
        self.set.remove(id);
    }
}

impl Default for Inflight {
    fn default() -> (r: Self)
        ensures
            r@ == Set::<u128>::empty(),
    {
        Inflight::new()
    }
}

/// A bid is known from when it is recorded until it is forgotten, whatever else is recorded.
pub proof fn law_bid_is_known_until_forgotten(bids: Set<u128>, id: u128, other: u128)
    ensures
        bids.insert(id).contains(id),
        bids.insert(id).insert(other).contains(id),
        id != other ==> bids.insert(id).remove(other).contains(id),
        !bids.insert(id).remove(id).contains(id),
{
}

} // verus!
