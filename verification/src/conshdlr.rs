use vstd::prelude::*;
use crate::model::{Model, Solving};
use crate::result::{
    SCIP_BRANCHED, SCIP_CONSADDED, SCIP_CUTOFF, SCIP_FEASIBLE, SCIP_INFEASIBLE, SCIP_REDUCEDDOM,
    SCIP_SEPARATED, SCIP_SOLVELP,
};
use crate::solution::Solution;

verus! {

/// A trait for implementing custom constraint handlers.
pub trait Conshdlr {
    /// Check if the (primal) solution satisfies the constraint.
    fn check(&mut self, model: Model<Solving>, conshdlr: SCIPConshdlr, solution: &Solution) -> bool;

    /// Enforce the constraint for the current sub-problem's (LP) solution.
    fn enforce(&mut self, model: Model<Solving>, conshdlr: SCIPConshdlr) -> ConshdlrResult;
}

/// The result of enforcing a constraint handler.
#[derive(Debug, Clone, Copy, PartialEq, Eq, Structural)]
pub enum ConshdlrResult {
    /// States that the problem is feasible.
    Feasible,
    /// States that the problem is infeasible.
    CutOff,
    /// Added another constraint that resolves the infeasibility.
    ConsAdded,
    /// Reduced the domain of a variable.
    ReducedDom,
    /// Added a cutting plane that separates the lp solution.
    Separated,
    /// Request to resolve the LP.
    SolveLP,
    /// Created a branching.
    Branched,
}

/// The `SCIP_RESULT` that reports the enforcement result `r`.
pub open spec fn conshdlr_result_code(r: ConshdlrResult) -> u32 {
    match r {
        ConshdlrResult::Feasible => SCIP_FEASIBLE,
        ConshdlrResult::CutOff => SCIP_CUTOFF,
        ConshdlrResult::ConsAdded => SCIP_CONSADDED,
        ConshdlrResult::ReducedDom => SCIP_REDUCEDDOM,
        ConshdlrResult::Separated => SCIP_SEPARATED,
        ConshdlrResult::SolveLP => SCIP_SOLVELP,
        ConshdlrResult::Branched => SCIP_BRANCHED,
    }
}

impl From<ConshdlrResult> for u32 {
    /// Converts an enforcement result to the `SCIP_RESULT` that reports it.
    fn from(result: ConshdlrResult) -> (r: u32) {
        match result {
            ConshdlrResult::Feasible => SCIP_FEASIBLE,
            ConshdlrResult::CutOff => SCIP_CUTOFF,
            ConshdlrResult::ConsAdded => SCIP_CONSADDED,
            ConshdlrResult::ReducedDom => SCIP_REDUCEDDOM,
            ConshdlrResult::Separated => SCIP_SEPARATED,
            ConshdlrResult::SolveLP => SCIP_SOLVELP,
            ConshdlrResult::Branched => SCIP_BRANCHED,
        }
    }
}

impl vstd::std_specs::convert::FromSpecImpl<ConshdlrResult> for u32 {
    open spec fn obeys_from_spec() -> bool {
        true
    }

    open spec fn from_spec(v: ConshdlrResult) -> u32 {
        conshdlr_result_code(v)
    }
}

/// The `SCIP_RESULT` that reports whether a checked solution is feasible.
pub open spec fn check_result_code(feasible: bool) -> u32 {
    if feasible {
        SCIP_FEASIBLE
    } else {
        SCIP_INFEASIBLE
    }
}

/// SCIP's check callback for a constraint handler: runs `check` on the
/// solution and reports its answer with [`check_result_code`]. Returns the
/// handler's answer and the code.
pub fn conshdlr_check<C: Conshdlr>(
    handler: &mut C,
    model: Model<Solving>,
    conshdlr: SCIPConshdlr,
    solution: &Solution,
) -> (r: (bool, u32))
    ensures
        exists|h: &mut C| call_ensures(C::check, (h, model, conshdlr, solution), r.0),
        r.1 == check_result_code(r.0),
{
    let feasible = handler.check(model, conshdlr, solution);
    let r = (feasible, if feasible { SCIP_FEASIBLE } else { SCIP_INFEASIBLE });
    assert(r.0 == feasible);
    r
}

/// SCIP's LP enforcement callback for a constraint handler: runs `enforce`
/// and reports its answer with [`conshdlr_result_code`]. Returns the
/// handler's answer and the code.
pub fn conshdlr_enforce<C: Conshdlr>(handler: &mut C, model: Model<Solving>, conshdlr: SCIPConshdlr) -> (r: (
    ConshdlrResult,
    u32,
))
    ensures
        exists|h: &mut C| call_ensures(C::enforce, (h, model, conshdlr), r.0),
        r.1 == conshdlr_result_code(r.0),
{
    let res = handler.enforce(model, conshdlr);
    let r = (res, u32::from(res));
    assert(r.0 == res);
    r
}

/// Each enforcement result reaches SCIP as the `SCIP_RESULT` constant of the same meaning:
/// a handler that added a constraint reports `SCIP_CONSADDED`, one that separated
/// `SCIP_SEPARATED`, and so on.
pub proof fn law_conshdlr_result_codes(x: ConshdlrResult)
    ensures
        conshdlr_result_code(x) == SCIP_FEASIBLE <==> x is Feasible,
        conshdlr_result_code(x) == SCIP_CUTOFF <==> x is CutOff,
        conshdlr_result_code(x) == SCIP_CONSADDED <==> x is ConsAdded,
        conshdlr_result_code(x) == SCIP_REDUCEDDOM <==> x is ReducedDom,
        conshdlr_result_code(x) == SCIP_SEPARATED <==> x is Separated,
        conshdlr_result_code(x) == SCIP_SOLVELP <==> x is SolveLP,
        conshdlr_result_code(x) == SCIP_BRANCHED <==> x is Branched,
{
}
/// A checked solution reaches SCIP as `SCIP_FEASIBLE` exactly when the handler
/// found it feasible, and as `SCIP_INFEASIBLE` otherwise.
pub proof fn law_check_result_codes(feasible: bool)
    ensures
        check_result_code(feasible) == SCIP_FEASIBLE <==> feasible,
        check_result_code(feasible) == SCIP_INFEASIBLE <==> !feasible,
{
}

/// Distinct enforcement results are reported with distinct codes.
pub proof fn lemma_conshdlr_codes_distinct(a: ConshdlrResult, b: ConshdlrResult)
    requires
        a != b,
    ensures
        conshdlr_result_code(a) != conshdlr_result_code(b),
{
}

/// A handle on a `SCIP_CONSHDLR`.
#[derive(Debug)]
pub struct SCIPConshdlr {
    pub(crate) raw: u64,
}

impl View for SCIPConshdlr {
    type V = u64;

    closed spec fn view(&self) -> u64 {
        self.raw
    }
}

impl SCIPConshdlr {
    /// The handle on the `SCIP_CONSHDLR` at address `raw`.
    pub fn from_raw(raw: u64) -> (c: SCIPConshdlr)
        ensures
            c@ == raw,
    {
        SCIPConshdlr { raw }
    }

    /// Returns the address of the underlying `SCIP_CONSHDLR` struct.
    pub fn inner(&self) -> (r: u64)
        ensures
            r == self@,
    {
        self.raw
    }
}

} // verus!
