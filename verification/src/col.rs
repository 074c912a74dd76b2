use vstd::prelude::*;
use crate::row::{basis_status_of, BasisStatus, Row};

verus! {

/// A handle on a `SCIP_COL`.
#[derive(Debug)]
pub struct Col {
    pub(crate) raw: u64,
}

impl View for Col {
    type V = u64;

    closed spec fn view(&self) -> u64 {
        self.raw
    }
}

impl Col {
    /// The handle on the `SCIP_COL` at address `raw`.
    pub fn from_raw(raw: u64) -> (h: Col)
        ensures
            h@ == raw,
    {
        Col { raw }
    }

    /// Returns the address of the internal `SCIP_COL`.
    pub fn inner(&self) -> (r: u64)
        ensures
            r == self@,
    {
        self.raw
    }

    /// Returns the number of non-zero entries in the column, given the count
    /// that `SCIPcolGetNNonz` reports, which is never negative.
    pub fn len(&self, raw_len: i32) -> (r: usize)
        requires
            raw_len >= 0,
        ensures
            r == raw_len,
    {
        raw_len as usize
    }

    /// Returns the index of the column, given the index that `SCIPcolGetIndex`
    /// reports, which is never negative.
    pub fn index(&self, raw_index: i32) -> (r: usize)
        requires
            raw_index >= 0,
        ensures
            r == raw_index,
    {
        raw_index as usize
    }

    /// Returns the basis status of the column in the LP solution, given the
    /// `SCIP_BASESTAT` that `SCIPcolGetBasisStatus` reports.
    pub fn basis_status(&self, raw_status: u32) -> (s: BasisStatus)
        ensures
            s == basis_status_of(raw_status),
    {
        BasisStatus::from_code(raw_status)
    }

    /// Returns the problem index of the column's variable, given the index
    /// that `SCIPcolGetVarProbindex` reports: `None` where it is negative,
    /// as for a variable that is not active.
    pub fn var_probindex(&self, raw: i32) -> (r: Option<usize>)
        ensures
            r is None <==> raw < 0,
            r matches Some(i) ==> i == raw,
    {
        if raw < 0 {
            None
        } else {
            Some(raw as usize)
        }
    }

    /// Returns whether the column is of integral type, given the `SCIP_Bool`
    /// that `SCIPcolIsIntegral` reports.
    pub fn is_integral(&self, flag: u32) -> (b: bool)
        ensures
            b == (flag != 0),
    {
        flag != 0
    }

    /// Returns whether the column is removable from the LP, given the
    /// `SCIP_Bool` that `SCIPcolIsRemovable` reports.
    pub fn is_removable(&self, flag: u32) -> (b: bool)
        ensures
            b == (flag != 0),
    {
        flag != 0
    }

    /// Returns the position of the column in the current LP, given the
    /// position that `SCIPcolGetLPPos` reports: `None` where it is negative,
    /// as for a column that is not in the LP.
    pub fn lp_pos(&self, raw: i32) -> (r: Option<usize>)
        ensures
            r is None <==> raw < 0,
            r matches Some(i) ==> i == raw,
    {
        if raw < 0 {
            None
        } else {
            Some(raw as usize)
        }
    }

    /// Returns the depth in the tree where the column entered the LP, given
    /// the depth that `SCIPcolGetLPDepth` reports: `None` where it is negative.
    pub fn lp_depth(&self, raw: i32) -> (r: Option<usize>)
        ensures
            r is None <==> raw < 0,
            r matches Some(i) ==> i == raw,
    {
        if raw < 0 {
            None
        } else {
            Some(raw as usize)
        }
    }

    /// Returns whether the column is in the current LP, given the
    /// `SCIP_Bool` that `SCIPcolIsInLP` reports.
    pub fn is_in_lp(&self, flag: u32) -> (b: bool)
        ensures
            b == (flag != 0),
    {
        flag != 0
    }

    /// Returns the number of non-zero entries, given the count that
    /// `SCIPcolGetNNonz` reports, which is never negative.
    pub fn n_non_zeros(&self, raw: i32) -> (r: usize)
        requires
            raw >= 0,
        ensures
            r == raw,
    {
        raw as usize
    }

    /// Returns the number of non-zero entries that correspond to rows
    /// currently in the LP, given the count that `SCIPcolGetNLPNonz` reports,
    /// which is never negative.
    pub fn n_lp_non_zeros(&self, raw: i32) -> (r: usize)
        requires
            raw >= 0,
        ensures
            r == raw,
    {
        raw as usize
    }

    /// Returns the rows of the non-zero entries, given the addresses that
    /// `SCIPcolGetRows` holds, in its order.
    pub fn rows(&self, raw_rows: &Vec<u64>) -> (r: Vec<Row>)
        ensures
            r@.len() == raw_rows@.len(),
            forall|k: int| 0 <= k < r@.len() ==> (#[trigger] r@[k])@ == raw_rows@[k],
    {
        let mut r: Vec<Row> = Vec::new();
        let mut k: usize = 0;
        while k < raw_rows.len()
            invariant
                k <= raw_rows.len(),
                r@.len() == k,
                forall|j: int| 0 <= j < k ==> (#[trigger] r@[j])@ == raw_rows@[j],
            decreases raw_rows.len() - k,
        {
            r.push(Row::from_raw(raw_rows[k]));
            k = k + 1;
        }
        r
    }

    /// Returns the number of the last node of the current run where strong
    /// branching was used on the column, given the number that
    /// `SCIPcolGetStrongbranchNode` reports: `None` where it is negative.
    pub fn strong_branching_node(&self, raw: i64) -> (r: Option<i64>)
        ensures
            r is None <==> raw < 0,
            r matches Some(n) ==> n == raw,
    {
        if raw < 0 {
            None
        } else {
            Some(raw)
        }
    }

    /// Returns the number of times strong branching was applied on the
    /// column in the current run, given the count that
    /// `SCIPcolGetNStrongbranchs` reports, which is never negative.
    pub fn n_strong_branches(&self, raw: i32) -> (r: usize)
        requires
            raw >= 0,
        ensures
            r == raw,
    {
        raw as usize
    }

    /// Returns the age of the column: how many successive times it was in
    /// the LP and 0.0 in the solution, given the age that `SCIPcolGetAge`
    /// reports, which is never negative.
    pub fn age(&self, raw: i32) -> (r: usize)
        requires
            raw >= 0,
        ensures
            r == raw,
    {
        raw as usize
    }
}

} // verus!
