use vstd::prelude::*;

verus! {

/// A handle on a SCIP solution (`SCIP_SOL`).
#[derive(Debug, Clone, Copy, PartialEq, Eq)]
pub struct Solution {
    pub(crate) raw: u64,
}

impl View for Solution {
    type V = u64;

    closed spec fn view(&self) -> u64 {
        self.raw
    }
}

impl Solution {
    /// The handle on the `SCIP_SOL` at address `raw`.
    pub fn from_raw(raw: u64) -> (s: Solution)
        ensures
            s@ == raw,
    {
        Solution { raw }
    }

    /// Returns the address of the underlying `SCIP_SOL` struct.
    pub fn inner(&self) -> (r: u64)
        ensures
            r == self@,
    {
        self.raw
    }
}

/// Represents and error that can occur when adding a solution.
#[derive(Debug, PartialEq, Eq, Clone, Copy, Structural)]
pub enum SolError {
    /// The solution is infeasible.
    Infeasible,
}

/// Whether adding a solution succeeded, given the `SCIP_Bool` that
/// `SCIPaddSolFree` wrote to tell whether SCIP stored it.
pub fn add_sol_result(stored: u32) -> (r: Result<(), SolError>)
    ensures
        r is Ok <==> stored != 0,
        r is Err ==> r == Err::<(), SolError>(SolError::Infeasible),
{
    if stored != 0 {
        Ok(())
    } else {
        Err(SolError::Infeasible)
    }
}

} // verus!
