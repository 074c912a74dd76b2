use vstd::prelude::*;
use crate::conshdlr::SCIPConshdlr;
use crate::constraint::Constraint;
use crate::separator::SCIPSeparator;

verus! {

/// A row of the LP relaxation: a handle on a `SCIP_ROW`.
#[derive(Debug, Clone, Copy, PartialEq, Eq)]
pub struct Row {
    pub(crate) raw: u64,
}

impl View for Row {
    type V = u64;

    closed spec fn view(&self) -> u64 {
        self.raw
    }
}

impl Row {
    /// The handle on the `SCIP_ROW` at address `raw`.
    pub fn from_raw(raw: u64) -> (r: Row)
        ensures
            r@ == raw,
    {
        Row { raw }
    }

    /// Returns the address of the underlying `SCIP_ROW` struct.
    pub fn inner(&self) -> (r: u64)
        ensures
            r == self@,
    {
        self.raw
    }
}

/// The basis status of a row or column.
#[derive(Debug, Clone, Copy, PartialEq, Eq, Structural)]
pub enum BasisStatus {
    /// At its lower bound.
    Lower,
    /// Basic.
    Basic,
    /// At its upper bound.
    Upper,
    /// Free and zero.
    Zero,
    /// Not known.
    Unknown,
}

/// `SCIP_BASESTAT_LOWER`
pub const SCIP_BASESTAT_LOWER: u32 = 0;
/// `SCIP_BASESTAT_BASIC`
pub const SCIP_BASESTAT_BASIC: u32 = 1;
/// `SCIP_BASESTAT_UPPER`
pub const SCIP_BASESTAT_UPPER: u32 = 2;
/// `SCIP_BASESTAT_ZERO`
pub const SCIP_BASESTAT_ZERO: u32 = 3;

/// The basis status that the `SCIP_BASESTAT` `code` stands for; any other
/// code stands for an unknown status.
pub open spec fn basis_status_of(code: u32) -> BasisStatus {
    if code == SCIP_BASESTAT_LOWER {
        BasisStatus::Lower
    } else if code == SCIP_BASESTAT_BASIC {
        BasisStatus::Basic
    } else if code == SCIP_BASESTAT_UPPER {
        BasisStatus::Upper
    } else if code == SCIP_BASESTAT_ZERO {
        BasisStatus::Zero
    } else {
        BasisStatus::Unknown
    }
}

/// Each `SCIP_BASESTAT` constant reads as the basis status of the same name.
pub proof fn law_basis_status_of_codes(code: u32)
    ensures
        code == SCIP_BASESTAT_LOWER ==> basis_status_of(code) == BasisStatus::Lower,
        code == SCIP_BASESTAT_BASIC ==> basis_status_of(code) == BasisStatus::Basic,
        code == SCIP_BASESTAT_UPPER ==> basis_status_of(code) == BasisStatus::Upper,
        code == SCIP_BASESTAT_ZERO ==> basis_status_of(code) == BasisStatus::Zero,
{
}

impl BasisStatus {
    /// The basis status that a `SCIP_BASESTAT` stands for.
    pub fn from_code(code: u32) -> (s: BasisStatus)
        ensures
            s == basis_status_of(code),
    {
        if code == SCIP_BASESTAT_LOWER {
            BasisStatus::Lower
        } else if code == SCIP_BASESTAT_BASIC {
            BasisStatus::Basic
        } else if code == SCIP_BASESTAT_UPPER {
            BasisStatus::Upper
        } else if code == SCIP_BASESTAT_ZERO {
            BasisStatus::Zero
        } else {
            BasisStatus::Unknown
        }
    }
}

/// The origin of a row built with the row builder.
#[derive(Debug)]
pub enum RowSource<'a> {
    /// The row comes from a separator
    Separator(&'a SCIPSeparator),
    /// The row comes from a constraint handler
    ConstraintHandler(&'a SCIPConshdlr),
    /// The row comes from a specific constraint
    Constraint(&'a Constraint),
}

} // verus!
