use vstd::prelude::*;

verus! {

/// A handle on a `SCIP_EXPR`.
#[derive(Debug)]
pub struct ScipExpr {
    pub(crate) raw: u64,
}

impl View for ScipExpr {
    type V = u64;

    closed spec fn view(&self) -> u64 {
        self.raw
    }
}

impl ScipExpr {
    /// The handle on the `SCIP_EXPR` at address `raw`.
    pub fn from_raw(raw: u64) -> (h: ScipExpr)
        ensures
            h@ == raw,
    {
        ScipExpr { raw }
    }

    /// Returns the address of the internal `SCIP_EXPR`.
    pub fn inner(&self) -> (r: u64)
        ensures
            r == self@,
    {
        self.raw
    }
}

} // verus!
