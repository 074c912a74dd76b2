use vstd::prelude::*;
use crate::model::{Model, Solving};
use crate::result::{
    SCIP_CONSADDED, SCIP_CUTOFF, SCIP_DELAYED, SCIP_DIDNOTFIND, SCIP_DIDNOTRUN, SCIP_NEWROUND,
    SCIP_REDUCEDDOM, SCIP_SEPARATED,
};

verus! {

/// A trait for defining custom separation routines.
pub trait Separator {
    /// Execute the separation routine on LP solutions.
    ///
    /// # Arguments
    /// * `model` - the current model of the SCIP instance in `Solving` stage.
    /// * `sep` - the internal separator object.
    ///
    /// # Returns
    /// * `SeparationResult` indicating the result of the separation routine.
    fn execute_lp(&mut self, model: Model<Solving>, sep: SCIPSeparator) -> SeparationResult;
}

/// The result of a separation routine.
#[derive(Debug, Clone, Copy, PartialEq, Eq, Structural)]
pub enum SeparationResult {
    /// Detected that the node is infeasible in the variable's bounds and can be cut off
    Cutoff,
    /// Added a constraint to the problem
    ConsAdded,
    /// Reduced the domain of a variable
    ReducedDomain,
    /// Added a cutting plane to the LP
    Separated,
    /// The separator searched, but did not find domain reductions, cutting planes, or cut constraints
    DidNotFind,
    /// The separator was skipped
    DidNotRun,
    /// The separator was skipped, but should be called again
    Delayed,
    /// A new separation round should be started without calling the remaining separator methods
    NewRound,
}

/// The `SCIP_RESULT` that reports the separation result `r`.
pub open spec fn separation_code(r: SeparationResult) -> u32 {
    match r {
        SeparationResult::Cutoff => SCIP_CUTOFF,
        SeparationResult::ConsAdded => SCIP_CONSADDED,
        SeparationResult::ReducedDomain => SCIP_REDUCEDDOM,
        SeparationResult::Separated => SCIP_SEPARATED,
        SeparationResult::DidNotFind => SCIP_DIDNOTFIND,
        SeparationResult::DidNotRun => SCIP_DIDNOTRUN,
        SeparationResult::Delayed => SCIP_DELAYED,
        SeparationResult::NewRound => SCIP_NEWROUND,
    }
}

/// The `SCIP_RESULT` values that a separation may report.
pub open spec fn is_separation_code(code: u32) -> bool {
    code == SCIP_CUTOFF || code == SCIP_CONSADDED || code == SCIP_REDUCEDDOM || code == SCIP_SEPARATED
        || code == SCIP_DIDNOTFIND || code == SCIP_DIDNOTRUN || code == SCIP_DELAYED || code == SCIP_NEWROUND
}

/// The separation result that the `SCIP_RESULT` value `code` reports.
pub open spec fn separation_of(code: u32) -> SeparationResult {
    if code == SCIP_CUTOFF { SeparationResult::Cutoff }
    else if code == SCIP_CONSADDED { SeparationResult::ConsAdded }
    else if code == SCIP_REDUCEDDOM { SeparationResult::ReducedDomain }
    else if code == SCIP_SEPARATED { SeparationResult::Separated }
    else if code == SCIP_DIDNOTFIND { SeparationResult::DidNotFind }
    else if code == SCIP_DIDNOTRUN { SeparationResult::DidNotRun }
    else if code == SCIP_DELAYED { SeparationResult::Delayed }
    else { SeparationResult::NewRound }
}

/// Each separation result reaches SCIP as the `SCIP_RESULT` constant of the same name:
/// a separator that ran and found nothing reports `SCIP_DIDNOTFIND`, one that was
/// skipped `SCIP_DIDNOTRUN`, and so on.
pub proof fn law_separation_codes(x: SeparationResult)
    ensures
        separation_code(x) == SCIP_CUTOFF <==> x is Cutoff,
        separation_code(x) == SCIP_CONSADDED <==> x is ConsAdded,
        separation_code(x) == SCIP_REDUCEDDOM <==> x is ReducedDomain,
        separation_code(x) == SCIP_SEPARATED <==> x is Separated,
        separation_code(x) == SCIP_DIDNOTFIND <==> x is DidNotFind,
        separation_code(x) == SCIP_DIDNOTRUN <==> x is DidNotRun,
        separation_code(x) == SCIP_DELAYED <==> x is Delayed,
        separation_code(x) == SCIP_NEWROUND <==> x is NewRound,
{
}
/// Each `SCIP_RESULT` a separation may report reads back as the result of the same name.
pub proof fn law_separation_of_codes(code: u32)
    ensures
        code == SCIP_CUTOFF ==> separation_of(code) == SeparationResult::Cutoff,
        code == SCIP_CONSADDED ==> separation_of(code) == SeparationResult::ConsAdded,
        code == SCIP_REDUCEDDOM ==> separation_of(code) == SeparationResult::ReducedDomain,
        code == SCIP_SEPARATED ==> separation_of(code) == SeparationResult::Separated,
        code == SCIP_DIDNOTFIND ==> separation_of(code) == SeparationResult::DidNotFind,
        code == SCIP_DIDNOTRUN ==> separation_of(code) == SeparationResult::DidNotRun,
        code == SCIP_DELAYED ==> separation_of(code) == SeparationResult::Delayed,
        code == SCIP_NEWROUND ==> separation_of(code) == SeparationResult::NewRound,
{
}

impl SeparationResult {
    /// Reads a `SCIP_RESULT` value that a separation reports.
    pub fn from_code(result: u32) -> (r: SeparationResult)
        requires
            is_separation_code(result),
        ensures
            r == separation_of(result),
    {
        if result == SCIP_CUTOFF {
            SeparationResult::Cutoff
        } else if result == SCIP_CONSADDED {
            SeparationResult::ConsAdded
        } else if result == SCIP_REDUCEDDOM {
            SeparationResult::ReducedDomain
        } else if result == SCIP_SEPARATED {
            SeparationResult::Separated
        } else if result == SCIP_DIDNOTFIND {
            SeparationResult::DidNotFind
        } else if result == SCIP_DIDNOTRUN {
            SeparationResult::DidNotRun
        } else if result == SCIP_DELAYED {
            SeparationResult::Delayed
        } else {
            SeparationResult::NewRound
        }
    }
}

impl From<SeparationResult> for u32 {
    /// Converts a separation result to the `SCIP_RESULT` that reports it.
    fn from(val: SeparationResult) -> (r: u32) {
        match val {
            SeparationResult::Cutoff => SCIP_CUTOFF,
            SeparationResult::ConsAdded => SCIP_CONSADDED,
            SeparationResult::ReducedDomain => SCIP_REDUCEDDOM,
            SeparationResult::Separated => SCIP_SEPARATED,
            SeparationResult::DidNotFind => SCIP_DIDNOTFIND,
            SeparationResult::DidNotRun => SCIP_DIDNOTRUN,
            SeparationResult::Delayed => SCIP_DELAYED,
            SeparationResult::NewRound => SCIP_NEWROUND,
        }
    }
}

impl vstd::std_specs::convert::FromSpecImpl<SeparationResult> for u32 {
    open spec fn obeys_from_spec() -> bool {
        true
    }

    open spec fn from_spec(v: SeparationResult) -> u32 {
        separation_code(v)
    }
}

/// A separation result survives being reported to SCIP and read back, and a
/// reported code survives being read and reported again.
pub proof fn lemma_separation_roundtrip(r: SeparationResult, code: u32)
    ensures
        is_separation_code(separation_code(r)),
        separation_of(separation_code(r)) == r,
        is_separation_code(code) ==> separation_code(separation_of(code)) == code,
{
}

/// SCIP's LP execution callback for a separator: runs `execute_lp` and
/// reports its answer with [`separation_code`]. Returns the separator's
/// answer and the code.
pub fn sepa_exec_lp<S: Separator>(sep: &mut S, model: Model<Solving>, handle: SCIPSeparator) -> (r: (
    SeparationResult,
    u32,
))
    ensures
        exists|h: &mut S| call_ensures(S::execute_lp, (h, model, handle), r.0),
        r.1 == separation_code(r.0),
{
    let res = sep.execute_lp(model, handle);
    let r = (res, u32::from(res));
    assert(r.0 == res);
    r
}

/// A handle on a `SCIP_SEPA`.
#[derive(Debug)]
pub struct SCIPSeparator {
    pub(crate) raw: u64,
}

impl View for SCIPSeparator {
    type V = u64;

    closed spec fn view(&self) -> u64 {
        self.raw
    }
}

impl SCIPSeparator {
    /// The handle on the `SCIP_SEPA` at address `raw`.
    pub fn from_raw(raw: u64) -> (s: SCIPSeparator)
        ensures
            s@ == raw,
    {
        SCIPSeparator { raw }
    }

    /// Returns the address of the internal `SCIP_SEPA`.
    pub fn inner(&self) -> (r: u64)
        ensures
            r == self@,
    {
        self.raw
    }

    /// Returns whether the separator is delayed, given the `SCIP_Bool` that
    /// `SCIPsepaIsDelayed` reports.
    pub fn is_delayed(&self, flag: u32) -> (b: bool)
        ensures
            b == (flag != 0),
    {
        flag != 0
    }
}

} // verus!
