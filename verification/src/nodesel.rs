use vstd::prelude::*;
use core::cmp::Ordering;
use crate::model::{Model, Solving};
use crate::node::Node;

verus! {

/// A trait for defining custom node selectors.
///
/// A node selector decides which of the currently open (leaf) nodes of the
/// branch-and-bound tree should be processed next. It does so through two
/// callbacks: `select` picks the next node to be processed, and `comp`
/// defines a total order on the open nodes, which SCIP uses to keep its
/// internal node queue sorted.
pub trait NodeSel {
    /// Selects the next node to be processed, or `None` to let SCIP fall back
    /// to the node with the best `comp` ranking.
    fn select(&mut self, model: Model<Solving>) -> Option<Node>;

    /// Compares two nodes to define their processing order: `Less` if `node1`
    /// should be processed before `node2`, `Greater` if after, `Equal` if both
    /// are considered equally good.
    fn comp(&mut self, node1: Node, node2: Node) -> Ordering;
}

/// The value SCIP's node comparison callback returns for an ordering: negative
/// when the first node comes first.
pub open spec fn comparison_value(o: Ordering) -> i32 {
    match o {
        Ordering::Less => -1i32,
        Ordering::Equal => 0i32,
        Ordering::Greater => 1i32,
    }
}

/// SCIP's node comparison gets a negative value exactly when the first node
/// comes first, zero exactly when both are equally good, and a positive value
/// exactly when the first node comes after.
pub proof fn law_comparison_values(o: Ordering)
    ensures
        comparison_value(o) < 0 <==> o is Less,
        comparison_value(o) == 0 <==> o is Equal,
        comparison_value(o) > 0 <==> o is Greater,
{
}

/// Converts the ordering a node selector reports into the value SCIP's node
/// comparison callback returns.
pub fn comparison_result(o: Ordering) -> (r: i32)
    ensures
        r == comparison_value(o),
{
    match o {
        Ordering::Less => -1,
        Ordering::Equal => 0,
        Ordering::Greater => 1,
    }
}

/// The node SCIP's selection callback reports, given the node a selector
/// chose and the null address it reports when it chose none.
pub fn selected_node(choice: Option<Node>) -> (r: u64)
    ensures
        r == (match choice { Some(n) => n@, None => 0u64 }),
{
    match choice {
        Some(n) => n.inner(),
        None => 0,
    }
}

/// A handle on a `SCIP_NODESEL`.
#[derive(Debug)]
pub struct SCIPNodesel {
    pub(crate) raw: u64,
}

impl View for SCIPNodesel {
    type V = u64;

    closed spec fn view(&self) -> u64 {
        self.raw
    }
}

impl SCIPNodesel {
    /// The handle on the `SCIP_NODESEL` at address `raw`.
    pub fn from_raw(raw: u64) -> (h: SCIPNodesel)
        ensures
            h@ == raw,
    {
        SCIPNodesel { raw }
    }

    /// Returns the address of the internal `SCIP_NODESEL`.
    pub fn inner(&self) -> (r: u64)
        ensures
            r == self@,
    {
        self.raw
    }
}

} // verus!
