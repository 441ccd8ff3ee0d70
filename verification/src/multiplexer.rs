//! Request correlation for the client transport.
//!
//! A client keeps one multiplexer per connection: sending a request
//! registers a response slot under the message's hop-by-hop identifier,
//! and the connection's reader delivers each incoming answer to the slot
//! registered under the answer's own identifier. Slots are named here by
//! plain tokens; the transport around the library maps tokens to its
//! actual channels.

use vstd::prelude::*;

use std::collections::HashMap;

verus! {

broadcast use vstd::std_specs::hash::group_hash_axioms;

/// The pending-request table of one client connection, plus the
/// convenience sequence counter for picking fresh identifiers.
pub struct Multiplexer {
    pending: HashMap<u32, u64>,
    seq_num: u32,
}

impl View for Multiplexer {
    type V = Map<u32, u64>;

    closed spec fn view(&self) -> Map<u32, u64> {
        self.pending@
    }
}

impl Multiplexer {
    /// The current value of the sequence counter.
    pub closed spec fn spec_seq_num(&self) -> u32 {
        self.seq_num
    }

    /// A fresh table with no requests in flight.
    pub fn new() -> (r: Multiplexer)
        ensures
            r@ == Map::<u32, u64>::empty(),
            r.spec_seq_num() == 0,
    {
        Multiplexer { pending: HashMap::new(), seq_num: 0 }
    }

    /// The number of requests in flight.
    pub fn len(&self) -> (r: usize)
        ensures
            r == self@.len(),
    {
        self.pending.len()
    }

    /// Registers a response slot under a hop-by-hop identifier. An
    /// identifier already in flight is overwritten: the caller reused an
    /// id, and the newer request claims it.
    pub fn register(&mut self, hop_by_hop_id: u32, slot: u64)
        ensures
            final(self)@ == old(self)@.insert(hop_by_hop_id, slot),
            final(self).spec_seq_num() == old(self).spec_seq_num(),
    {
        self.pending.insert(hop_by_hop_id, slot);
    }

    /// Removes and returns the slot registered under an identifier:
    /// exactly the slot whose request carried that id, and no other.
    /// `None` when no request with that id is in flight.
    pub fn take(&mut self, hop_by_hop_id: u32) -> (r: Option<u64>)
        ensures
            final(self)@ == old(self)@.remove(hop_by_hop_id),
            r matches Some(slot) ==> old(self)@.contains_key(hop_by_hop_id) && slot == old(
                self,
            )@[hop_by_hop_id],
            r is None ==> !old(self)@.contains_key(hop_by_hop_id),
            final(self).spec_seq_num() == old(self).spec_seq_num(),
    {
        self.pending.remove(&hop_by_hop_id)
    }

    /// The next value of the sequence counter: each call increments it
    /// by one, wrapping at the 32-bit boundary.
    pub fn next_seq(&mut self) -> (r: u32)
        ensures
            final(self)@ == old(self)@,
            old(self).spec_seq_num() < u32::MAX ==> r == old(self).spec_seq_num() + 1,
            old(self).spec_seq_num() == u32::MAX ==> r == 0,
            final(self).spec_seq_num() == r,
    {
        self.seq_num = self.seq_num.wrapping_add(1);
        self.seq_num
    }
}

/// Multiplex correlation: delivering the answer for one identifier
/// hands out exactly the slot registered under that identifier, removes
/// only that identifier, and leaves every other in-flight request — so
/// a batch of distinct identifiers yields correctly paired responses in
/// whatever order the answers arrive.
pub proof fn lemma_multiplex_correlation(pending: Map<u32, u64>, h: u32, other: u32)
    requires
        pending.contains_key(h),
        other != h,
    ensures
        !pending.remove(h).contains_key(h),
        pending.remove(h).contains_key(other) <==> pending.contains_key(other),
        pending.contains_key(other) ==> pending.remove(h)[other] == pending[other],
{
}

} // verus!
