//! Which nodes are busy.
//!
//! Reads and writes of one node must not overlap, so an operation claims its
//! node first and gives it back at the end.

use std::collections::HashSet;

use vstd::prelude::*;

use crate::error::{Error, Result};
use crate::text::{node_message, node_text};

verus! {

/// The nodes with an operation in progress.
#[derive(Debug)]
pub struct InflightOps {
    nodes: HashSet<u8>,
}

impl View for InflightOps {
    type V = Set<u8>;

    closed spec fn view(&self) -> Set<u8> {
        self.nodes@
    }
}

/// The message when a node is busy.
pub open spec fn busy_text(nid: u8, op_name: Seq<char>) -> Seq<char> {
    node_text(nid) + ": another exclusive op already in progress (requested: "@ + op_name + ")"@
}

impl InflightOps {
    /// No node is busy.
    pub fn new() -> (r: Self)
        ensures
            r@ == Set::<u8>::empty(),
    {
        InflightOps { nodes: HashSet::new() }
    }

    /// Claims a node if it is free. Returns whether it was.
    pub fn claim(&mut self, nid: u8) -> (r: bool)
        ensures
            r == !old(self)@.contains(nid),
            final(self)@ == old(self)@.insert(nid),
    {
        broadcast use vstd::std_specs::hash::group_hash_axioms;

        self.nodes.insert(nid)
    }

    /// Whether a node is busy.
    pub fn is_busy(&self, nid: u8) -> (r: bool)
        ensures
            r == self@.contains(nid),
    {
        broadcast use vstd::std_specs::hash::group_hash_axioms;

        self.nodes.contains(&nid)
    }

    /// Claims a node for the named operation. A node that is busy is refused.
    pub fn acquire(&mut self, nid: u8, op_name: &str) -> (r: Result<()>)
        ensures
            match r {
                Ok(()) => !old(self)@.contains(nid) && final(self)@ == old(self)@.insert(nid),
                Err(e) => old(self)@.contains(nid) && final(self)@ == old(self)@ && e.says(
                    busy_text(nid, op_name@),
                ),
            },
    {
        let free = self.claim(nid);
        if !free {
            assert(self@ =~= old(self)@);
            let mut text = node_message(nid);
            text.append(": another exclusive op already in progress (requested: ");
            text.append(op_name);
            text.append(")");
            return Err(Error::Internal(text));
        }
        Ok(())
    }

    /// Gives a node back.
    pub fn release(&mut self, nid: u8)
        ensures
            final(self)@ == old(self)@.remove(nid),
    {
        broadcast use vstd::std_specs::hash::group_hash_axioms;

        let _ = self.nodes.remove(&nid);
    }
}

/// Giving back what was claimed leaves everything as it was before.
pub proof fn release_undoes_acquire(before: Set<u8>, nid: u8)
    requires
        !before.contains(nid),
    ensures
        before.insert(nid).remove(nid) == before,
{
    assert(before.insert(nid).remove(nid) =~= before);
}

/// The message about a busy node starts with the node and ends with the
/// operation that was asked for.
pub proof fn busy_message(nid: u8, op_name: Seq<char>)
    ensures
        busy_text(nid, op_name) == node_text(nid) + (
        ": another exclusive op already in progress (requested: "@ + (op_name + ")"@)),
{
    assert(busy_text(nid, op_name) =~= node_text(nid) + (
    ": another exclusive op already in progress (requested: "@ + (op_name + ")"@)));
}

} // verus!
