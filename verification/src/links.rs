//! Message links: which relayed message belongs to which source message, so
//! a deleted source can take its relay with it. Messages are named by their
//! numeric ids.

use vstd::prelude::*;
use std::collections::HashMap;

verus! {

broadcast use vstd::std_specs::hash::group_hash_axioms;

/// The source-to-relay message links.
pub struct MessageLink {
    pub links: HashMap<u64, u64>,
}

impl View for MessageLink {
    type V = Map<u64, u64>;

    open spec fn view(&self) -> Map<u64, u64> {
        self.links@
    }
}

impl MessageLink {
    /// No links yet.
    pub fn new() -> (r: MessageLink)
        ensures
            r@ == Map::<u64, u64>::empty(),
    {
        MessageLink { links: HashMap::new() }
    }

    /// Records that `from` is linked to `to`, replacing any earlier link.
    pub fn link(&mut self, from: u64, to: u64)
        ensures
            final(self)@ == old(self)@.insert(from, to),
    {
        self.links.insert(from, to);
    }

    /// Removes the link of `from` and hands its target out, so the caller
    /// can delete the relayed message; reports when there was none.
    pub fn delete_if_linked(&mut self, from: u64) -> (r: Option<u64>)
        ensures
            final(self)@ == old(self)@.remove(from),
            match r {
                Some(to) => old(self)@.contains_key(from) && to == old(self)@[from],
                None => !old(self)@.contains_key(from),
            },
    {
        self.links.remove(&from)
    }
}

} // verus!
