use vstd::prelude::*;

verus! {

/// `SCIP_DIDNOTRUN`: the method was not executed.
pub const SCIP_DIDNOTRUN: u32 = 1;
/// `SCIP_DELAYED`: the method was not executed, but should be called again later.
pub const SCIP_DELAYED: u32 = 2;
/// `SCIP_DIDNOTFIND`: the method was executed, but failed finding anything.
pub const SCIP_DIDNOTFIND: u32 = 3;
/// `SCIP_FEASIBLE`: no infeasibility could be found.
pub const SCIP_FEASIBLE: u32 = 4;
/// `SCIP_INFEASIBLE`: an infeasibility was detected.
pub const SCIP_INFEASIBLE: u32 = 5;
/// `SCIP_UNBOUNDED`: an unboundedness was detected.
pub const SCIP_UNBOUNDED: u32 = 6;
/// `SCIP_CUTOFF`: the current node is infeasible and can be cut off.
pub const SCIP_CUTOFF: u32 = 7;
/// `SCIP_SEPARATED`: the method added a cutting plane.
pub const SCIP_SEPARATED: u32 = 8;
/// `SCIP_NEWROUND`: the method added a cutting plane and a new separation round should immediately start.
pub const SCIP_NEWROUND: u32 = 9;
/// `SCIP_REDUCEDDOM`: the method reduced the domain of a variable.
pub const SCIP_REDUCEDDOM: u32 = 10;
/// `SCIP_CONSADDED`: the method added a constraint.
pub const SCIP_CONSADDED: u32 = 11;
/// `SCIP_CONSCHANGED`: the method changed a constraint.
pub const SCIP_CONSCHANGED: u32 = 12;
/// `SCIP_BRANCHED`: the method created a branching.
pub const SCIP_BRANCHED: u32 = 13;
/// `SCIP_SOLVELP`: the current node's LP must be solved.
pub const SCIP_SOLVELP: u32 = 14;
/// `SCIP_FOUNDSOL`: the method found a feasible primal solution.
pub const SCIP_FOUNDSOL: u32 = 15;
/// `SCIP_SUSPENDED`: the method interrupted its execution, but can continue if needed.
pub const SCIP_SUSPENDED: u32 = 16;
/// `SCIP_SUCCESS`: the method was successfully executed.
pub const SCIP_SUCCESS: u32 = 17;
/// `SCIP_DELAYNODE`: the processing of the branch-and-bound node should stop and continue later.
pub const SCIP_DELAYNODE: u32 = 18;

/// SCIP's boolean `TRUE`.
pub const SCIP_TRUE: u32 = 1;
/// SCIP's boolean `FALSE`.
pub const SCIP_FALSE: u32 = 0;

/// The `SCIP_Bool` that stands for `b`.
pub open spec fn scip_bool(b: bool) -> u32 {
    if b { SCIP_TRUE } else { SCIP_FALSE }
}

/// Converts a Rust `bool` to a `SCIP_Bool`.
pub fn to_scip_bool(b: bool) -> (r: u32)
    ensures
        r == scip_bool(b),
{
    if b { SCIP_TRUE } else { SCIP_FALSE }
}

/// Reads a `SCIP_Bool`: any non-zero value is true.
pub fn from_scip_bool(v: u32) -> (r: bool)
    ensures
        r == (v != 0),
{
    v != 0
}

/// Reading back a converted `bool` gives the `bool`.
pub proof fn lemma_scip_bool_roundtrip(b: bool)
    ensures
        (scip_bool(b) != 0) == b,
{
}

/// A `bool` reaches SCIP as `SCIP_TRUE` exactly when it is true, and as
/// `SCIP_FALSE` otherwise.
pub proof fn law_scip_bool(b: bool)
    ensures
        scip_bool(b) == SCIP_TRUE <==> b,
        scip_bool(b) == SCIP_FALSE <==> !b,
{
}

} // verus!
