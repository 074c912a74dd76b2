use vstd::prelude::*;

verus! {

/// A node in the branch-and-bound tree: a handle on a `SCIP_NODE`.
#[derive(Debug, Clone, Copy, PartialEq, Eq)]
pub struct Node {
    pub(crate) raw: u64,
}

impl View for Node {
    type V = u64;

    closed spec fn view(&self) -> u64 {
        self.raw
    }
}

impl Node {
    /// The handle on the `SCIP_NODE` at address `raw`.
    pub fn from_raw(raw: u64) -> (n: Node)
        ensures
            n@ == raw,
    {
        Node { raw }
    }

    /// Returns the address of the underlying `SCIP_NODE` struct.
    pub fn inner(&self) -> (r: u64)
        ensures
            r == self@,
    {
        self.raw
    }

    /// Returns the number of the node, given what `SCIPnodeGetNumber` reports.
    pub fn number(&self, raw_number: i64) -> (r: usize)
        ensures
            r == raw_number as usize,
    {
        raw_number as usize
    }

    /// Returns the depth of the node in the branch-and-bound tree, given what
    /// `SCIPnodeGetDepth` reports.
    pub fn depth(&self, raw_depth: i32) -> (r: usize)
        ensures
            r == raw_depth as usize,
    {
        raw_depth as usize
    }
}

} // verus!
