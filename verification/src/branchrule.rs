use vstd::prelude::*;
use crate::result::{SCIP_BRANCHED, SCIP_CONSADDED, SCIP_CUTOFF, SCIP_DIDNOTRUN, SCIP_REDUCEDDOM, SCIP_SEPARATED};

verus! {

/// What a branching rule decided. A branching candidate is named by the
/// problem index of its variable; its LP value stays with the runtime, which
/// hands it to SCIP when it branches.
#[derive(Debug, Clone, Copy, PartialEq, Eq, Structural)]
pub enum BranchingChoice {
    /// The rule did not run.
    DidNotRun,
    /// Branch on the candidate whose variable has this problem index.
    BranchOn { var_prob_id: usize },
    /// The current node is infeasible and can be cut off.
    CutOff,
    /// The rule created the child nodes itself.
    CustomBranching,
    /// A cutting plane was added.
    Separated,
    /// A domain was reduced.
    ReduceDom,
    /// A constraint was added.
    ConsAdded,
}

/// The `SCIP_RESULT` that reports a branching choice.
pub open spec fn branching_result_code(c: BranchingChoice) -> u32 {
    match c {
        BranchingChoice::DidNotRun => SCIP_DIDNOTRUN,
        BranchingChoice::BranchOn { .. } => SCIP_BRANCHED,
        BranchingChoice::CutOff => SCIP_CUTOFF,
        BranchingChoice::CustomBranching => SCIP_BRANCHED,
        BranchingChoice::Separated => SCIP_SEPARATED,
        BranchingChoice::ReduceDom => SCIP_REDUCEDDOM,
        BranchingChoice::ConsAdded => SCIP_CONSADDED,
    }
}

/// Each branching choice reaches SCIP as the `SCIP_RESULT` constant of the same meaning;
/// branching on a variable and branching by the rule itself both report
/// `SCIP_BRANCHED`.
pub proof fn law_branching_result_codes(x: BranchingChoice)
    ensures
        branching_result_code(x) == SCIP_DIDNOTRUN <==> x is DidNotRun,
        branching_result_code(x) == SCIP_BRANCHED <==> (x is BranchOn || x is CustomBranching),
        branching_result_code(x) == SCIP_CUTOFF <==> x is CutOff,
        branching_result_code(x) == SCIP_SEPARATED <==> x is Separated,
        branching_result_code(x) == SCIP_REDUCEDDOM <==> x is ReduceDom,
        branching_result_code(x) == SCIP_CONSADDED <==> x is ConsAdded,
{
}

impl From<BranchingChoice> for u32 {
    /// Converts a branching choice to the `SCIP_RESULT` that reports it.
    fn from(val: BranchingChoice) -> (r: u32) {
        match val {
            BranchingChoice::DidNotRun => SCIP_DIDNOTRUN,
            BranchingChoice::BranchOn { .. } => SCIP_BRANCHED,
            BranchingChoice::CutOff => SCIP_CUTOFF,
            BranchingChoice::CustomBranching => SCIP_BRANCHED,
            BranchingChoice::Separated => SCIP_SEPARATED,
            BranchingChoice::ReduceDom => SCIP_REDUCEDDOM,
            BranchingChoice::ConsAdded => SCIP_CONSADDED,
        }
    }
}

impl vstd::std_specs::convert::FromSpecImpl<BranchingChoice> for u32 {
    open spec fn obeys_from_spec() -> bool {
        true
    }

    open spec fn from_spec(v: BranchingChoice) -> u32 {
        branching_result_code(v)
    }
}

/// What the branching callback does after the rule ran: the `SCIP_RESULT` to
/// report, and the candidate to branch on, if any.
#[derive(Debug, Clone, Copy, PartialEq, Eq)]
pub struct BranchingReport {
    pub result: u32,
    pub branch_on: Option<usize>,
}

/// Why the branching callback stops the solve: the rule claims to have
/// branched itself, but the focus node has no child.
#[derive(Debug, Clone, Copy, PartialEq, Eq, Structural)]
pub enum BranchingFault {
    NoChildCreated,
}

/// What the branching callback does with the rule's choice, given how many
/// children the focus node has after the rule ran.
pub open spec fn branching_outcome(choice: BranchingChoice, n_children: i32) -> Result<BranchingReport, BranchingFault> {
    if choice == BranchingChoice::CustomBranching && n_children <= 0 {
        Err(BranchingFault::NoChildCreated)
    } else {
        Ok(
            BranchingReport {
                result: branching_result_code(choice),
                branch_on: match choice {
                    BranchingChoice::BranchOn { var_prob_id } => Some(var_prob_id),
                    _ => None,
                },
            },
        )
    }
}

/// What the branching callback does with the rule's choice, over every
/// choice and child count: it stops the solve exactly when the rule claims to
/// have branched itself but the focus node has no child; otherwise it reports
/// the choice under the `SCIP_RESULT` of the same meaning, and branches on a
/// variable exactly when the rule chose one, on the variable it chose.
pub proof fn law_branching_outcome(choice: BranchingChoice, n_children: i32)
    ensures
        ({
            let r = branching_outcome(choice, n_children);
            &&& r is Err <==> choice == BranchingChoice::CustomBranching && n_children <= 0
            &&& r matches Ok(rep) ==> {
                &&& rep.result == branching_result_code(choice)
                &&& (rep.branch_on is Some <==> choice is BranchOn)
                &&& (choice matches BranchingChoice::BranchOn { var_prob_id } ==> rep.branch_on == Some(
                    var_prob_id,
                ))
            }
        }),
{
}

/// Decides what the branching callback does with the rule's choice, or the
/// fault that stops the solve, as [`branching_outcome`] says.
pub fn branching_report(choice: BranchingChoice, n_children: i32) -> (r: Result<BranchingReport, BranchingFault>)
    ensures
        r == branching_outcome(choice, n_children),
{
    if choice == BranchingChoice::CustomBranching && n_children <= 0 {
        return Err(BranchingFault::NoChildCreated);
    }
    let branch_on = match choice {
        BranchingChoice::BranchOn { var_prob_id } => Some(var_prob_id),
        _ => None,
    };
    Ok(BranchingReport { result: u32::from(choice), branch_on })
}

/// A handle on a `SCIP_BRANCHRULE`.
#[derive(Debug)]
pub struct SCIPBranchRule {
    pub(crate) raw: u64,
}

impl View for SCIPBranchRule {
    type V = u64;

    closed spec fn view(&self) -> u64 {
        self.raw
    }
}

impl SCIPBranchRule {
    /// The handle on the `SCIP_BRANCHRULE` at address `raw`.
    pub fn from_raw(raw: u64) -> (h: SCIPBranchRule)
        ensures
            h@ == raw,
    {
        SCIPBranchRule { raw }
    }

    /// Returns the address of the internal `SCIP_BRANCHRULE`.
    pub fn inner(&self) -> (r: u64)
        ensures
            r == self@,
    {
        self.raw
    }

    /// Returns the name of the branch rule, given the string that
    /// `SCIPbranchruleGetName` points to.
    pub fn name(&self, raw_name: &str) -> (r: String)
        ensures
            r@ == raw_name@,
    {
        raw_name.to_owned()
    }

    /// Returns the description of the branch rule, given the string that
    /// `SCIPbranchruleGetDesc` points to.
    pub fn desc(&self, raw_desc: &str) -> (r: String)
        ensures
            r@ == raw_desc@,
    {
        raw_desc.to_owned()
    }

    /// Returns the priority of the branch rule, given what
    /// `SCIPbranchruleGetPriority` reports.
    pub fn priority(&self, raw_priority: i32) -> (r: i32)
        ensures
            r == raw_priority,
    {
        raw_priority
    }

    /// Returns the maximal depth of the branch rule, given what
    /// `SCIPbranchruleGetMaxdepth` reports.
    pub fn maxdepth(&self, raw_maxdepth: i32) -> (r: i32)
        ensures
            r == raw_maxdepth,
    {
        raw_maxdepth
    }
}

} // verus!
