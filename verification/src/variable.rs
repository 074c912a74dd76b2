use vstd::prelude::*;
use std::collections::BTreeMap;

verus! {

/// `SCIP_VARTYPE_BINARY`
pub const SCIP_VARTYPE_BINARY: u32 = 0;
/// `SCIP_VARTYPE_INTEGER`
pub const SCIP_VARTYPE_INTEGER: u32 = 1;
/// `SCIP_VARTYPE_IMPLINT`
pub const SCIP_VARTYPE_IMPLINT: u32 = 2;
/// `SCIP_VARTYPE_CONTINUOUS`
pub const SCIP_VARTYPE_CONTINUOUS: u32 = 3;

/// `SCIP_VARSTATUS_ORIGINAL`
pub const SCIP_VARSTATUS_ORIGINAL: u32 = 0;
/// `SCIP_VARSTATUS_LOOSE`
pub const SCIP_VARSTATUS_LOOSE: u32 = 1;
/// `SCIP_VARSTATUS_COLUMN`
pub const SCIP_VARSTATUS_COLUMN: u32 = 2;
/// `SCIP_VARSTATUS_FIXED`
pub const SCIP_VARSTATUS_FIXED: u32 = 3;
/// `SCIP_VARSTATUS_AGGREGATED`
pub const SCIP_VARSTATUS_AGGREGATED: u32 = 4;
/// `SCIP_VARSTATUS_MULTAGGR`
pub const SCIP_VARSTATUS_MULTAGGR: u32 = 5;
/// `SCIP_VARSTATUS_NEGATED`
pub const SCIP_VARSTATUS_NEGATED: u32 = 6;

/// A type alias for a variable ID.
pub type VarId = usize;

/// A handle on a SCIP variable.
#[derive(Debug, PartialEq, Eq)]
pub struct Variable {
    pub(crate) raw: u64,
}

impl View for Variable {
    type V = u64;

    closed spec fn view(&self) -> u64 {
        self.raw
    }
}

impl Variable {
    /// The handle on the `SCIP_VAR` at address `raw`.
    pub fn from_raw(raw: u64) -> (v: Variable)
        ensures
            v@ == raw,
    {
        Variable { raw }
    }

    /// Returns the address of the underlying `SCIP_VAR` C struct.
    pub fn inner(&self) -> (r: u64)
        ensures
            r == self@,
    {
        self.raw
    }

    /// Returns the index of the variable, given the value that
    /// `SCIPvarGetIndex` reports for it, which is never negative.
    pub fn index(&self, raw_index: i32) -> (r: usize)
        requires
            raw_index >= 0,
        ensures
            r == raw_index,
    {
        raw_index as usize
    }
}

/// The type of a variable in an optimization problem.
#[derive(Debug, PartialEq, Eq, Clone, Copy, Structural)]
pub enum VarType {
    /// The variable is a continuous variable.
    Continuous,
    /// The variable is an integer variable.
    Integer,
    /// The variable is a binary variable.
    Binary,
    /// The variable is an implicit integer variable.
    ImplInt,
}

/// SCIP's raw value for the variable type `t`.
pub open spec fn var_type_code(t: VarType) -> u32 {
    match t {
        VarType::Continuous => SCIP_VARTYPE_CONTINUOUS,
        VarType::Integer => SCIP_VARTYPE_INTEGER,
        VarType::Binary => SCIP_VARTYPE_BINARY,
        VarType::ImplInt => SCIP_VARTYPE_IMPLINT,
    }
}

/// The variable type that SCIP's raw value `code` stands for.
pub open spec fn var_type_of(code: u32) -> VarType {
    if code == SCIP_VARTYPE_CONTINUOUS { VarType::Continuous }
    else if code == SCIP_VARTYPE_INTEGER { VarType::Integer }
    else if code == SCIP_VARTYPE_BINARY { VarType::Binary }
    else { VarType::ImplInt }
}

impl From<VarType> for u32 {
    /// Converts a variable type to its `SCIP_VARTYPE` value.
    fn from(var_type: VarType) -> (r: u32) {
        match var_type {
            VarType::Continuous => SCIP_VARTYPE_CONTINUOUS,
            VarType::Integer => SCIP_VARTYPE_INTEGER,
            VarType::Binary => SCIP_VARTYPE_BINARY,
            VarType::ImplInt => SCIP_VARTYPE_IMPLINT,
        }
    }
}

impl vstd::std_specs::convert::FromSpecImpl<VarType> for u32 {
    open spec fn obeys_from_spec() -> bool {
        true
    }

    open spec fn from_spec(v: VarType) -> u32 {
        var_type_code(v)
    }
}

impl VarType {
    /// Reads a `SCIP_VARTYPE` value; SCIP has no other variable types.
    pub fn from_code(code: u32) -> (t: VarType)
        requires
            code <= SCIP_VARTYPE_CONTINUOUS,
        ensures
            t == var_type_of(code),
    {
        if code == SCIP_VARTYPE_CONTINUOUS {
            VarType::Continuous
        } else if code == SCIP_VARTYPE_INTEGER {
            VarType::Integer
        } else if code == SCIP_VARTYPE_BINARY {
            VarType::Binary
        } else {
            VarType::ImplInt
        }
    }
}

/// An enum representing the status of a SCIP variable.
#[derive(Debug, PartialEq, Eq, Clone, Copy, Structural)]
pub enum VarStatus {
    /// The variable is an original variable in the problem.
    Original,
    /// The variable is a loose variable in the problem.
    Loose,
    /// The variable is a column variable in the problem.
    Column,
    /// The variable is a fixed variable in the problem.
    Fixed,
    /// The variable is an aggregated variable in the problem.
    Aggregated,
    /// The variable is a multi-aggregated variable in the problem.
    MultiAggregated,
    /// The variable is a negated variable in the problem.
    NegatedVar,
}

/// The variable status that SCIP's raw value `code` stands for.
pub open spec fn var_status_of(code: u32) -> VarStatus {
    if code == SCIP_VARSTATUS_ORIGINAL { VarStatus::Original }
    else if code == SCIP_VARSTATUS_LOOSE { VarStatus::Loose }
    else if code == SCIP_VARSTATUS_COLUMN { VarStatus::Column }
    else if code == SCIP_VARSTATUS_FIXED { VarStatus::Fixed }
    else if code == SCIP_VARSTATUS_AGGREGATED { VarStatus::Aggregated }
    else if code == SCIP_VARSTATUS_MULTAGGR { VarStatus::MultiAggregated }
    else { VarStatus::NegatedVar }
}

/// SCIP's raw value for the variable status `s`.
pub open spec fn var_status_code(s: VarStatus) -> u32 {
    match s {
        VarStatus::Original => SCIP_VARSTATUS_ORIGINAL,
        VarStatus::Loose => SCIP_VARSTATUS_LOOSE,
        VarStatus::Column => SCIP_VARSTATUS_COLUMN,
        VarStatus::Fixed => SCIP_VARSTATUS_FIXED,
        VarStatus::Aggregated => SCIP_VARSTATUS_AGGREGATED,
        VarStatus::MultiAggregated => SCIP_VARSTATUS_MULTAGGR,
        VarStatus::NegatedVar => SCIP_VARSTATUS_NEGATED,
    }
}

impl VarStatus {
    /// Reads a `SCIP_VARSTATUS` value; SCIP has no other variable statuses.
    pub fn from_code(code: u32) -> (s: VarStatus)
        requires
            code <= SCIP_VARSTATUS_NEGATED,
        ensures
            s == var_status_of(code),
    {
        if code == SCIP_VARSTATUS_ORIGINAL {
            VarStatus::Original
        } else if code == SCIP_VARSTATUS_LOOSE {
            VarStatus::Loose
        } else if code == SCIP_VARSTATUS_COLUMN {
            VarStatus::Column
        } else if code == SCIP_VARSTATUS_FIXED {
            VarStatus::Fixed
        } else if code == SCIP_VARSTATUS_AGGREGATED {
            VarStatus::Aggregated
        } else if code == SCIP_VARSTATUS_MULTAGGR {
            VarStatus::MultiAggregated
        } else {
            VarStatus::NegatedVar
        }
    }
}

/// A variable type survives being written as a raw value and read back.
pub proof fn lemma_var_type_roundtrip(t: VarType)
    ensures
        var_type_code(t) <= SCIP_VARTYPE_CONTINUOUS,
        var_type_of(var_type_code(t)) == t,
{
}

/// A variable status survives being written as a raw value and read back.
pub proof fn lemma_var_status_roundtrip(s: VarStatus)
    ensures
        var_status_code(s) <= SCIP_VARSTATUS_NEGATED,
        var_status_of(var_status_code(s)) == s,
{
}

/// The variables SCIP reports, each an address and an index, as a map from
/// index to address; where two share an index, the one reported later stays.
pub open spec fn vars_by_index(s: Seq<(u64, usize)>) -> Map<u64, u64>
    decreases s.len(),
{
    if s.len() == 0 {
        Map::empty()
    } else {
        vars_by_index(s.drop_last()).insert(s.last().1 as u64, s.last().0)
    }
}

/// The variables by index hold exactly the reported indices, each mapped to
/// the address reported last under it: a variable reported later under the
/// same index replaces the earlier one.
pub proof fn law_vars_by_index(s: Seq<(u64, usize)>, j: int)
    requires
        0 <= j < s.len(),
        forall|k: int| j < k < s.len() ==> (#[trigger] s[k]).1 != s[j].1,
    ensures
        vars_by_index(s).contains_key(s[j].1 as u64),
        vars_by_index(s)[s[j].1 as u64] == s[j].0,
    decreases s.len(),
{
    if j < s.len() - 1 {
        assert(s.drop_last()[j] == s[j]);
        assert forall|k: int| j < k < s.drop_last().len() implies (#[trigger] s.drop_last()[k]).1 != s.drop_last()[j].1 by {
            assert(s.drop_last()[k] == s[k]);
        }
        law_vars_by_index(s.drop_last(), j);
        assert(s.last() == s[s.len() - 1]);
        assert(s.last().1 != s[j].1);
        assert(s.last().1 as u64 != s[j].1 as u64);
    }
}

/// The variables by index hold no index that was not reported.
pub proof fn law_vars_by_index_domain(s: Seq<(u64, usize)>, idx: u64)
    ensures
        vars_by_index(s).contains_key(idx) ==> exists|j: int| 0 <= j < s.len() && (#[trigger] s[j]).1 as u64 == idx,
    decreases s.len(),
{
    if s.len() > 0 {
        law_vars_by_index_domain(s.drop_last(), idx);
        if vars_by_index(s).contains_key(idx) && idx != s.last().1 as u64 {
            let j = choose|j: int| 0 <= j < s.drop_last().len() && (#[trigger] s.drop_last()[j]).1 as u64 == idx;
            assert(s[j] == s.drop_last()[j]);
        }
        if idx == s.last().1 as u64 {
            assert(s[s.len() - 1] == s.last());
        }
    }
}

/// Keys that a `BTreeMap` hands out in increasing order increase by `<`.
pub(crate) proof fn lemma_increasing_keys(ks: Seq<u64>)
    requires
        vstd::std_specs::btree::increasing_seq(ks),
    ensures
        forall|i: int, j: int| 0 <= i < j < ks.len() ==> ks[i] < ks[j],
{
    assert(vstd::laws_cmp::obeys_cmp::<u64>());
    assert forall|i: int, j: int| 0 <= i < j < ks.len() implies ks[i] < ks[j] by {
        assert(vstd::std_specs::cmp::OrdSpec::cmp_spec(&ks[i], &ks[j]) is Less);
    }
}

/// Collects the variables SCIP reports, each an address and an index, into a
/// map ordered by index, as [`vars_by_index`] says.
pub fn by_index(reported: &Vec<(u64, usize)>) -> (m: BTreeMap<u64, u64>)
    ensures
        m@ == vars_by_index(reported@),
{
    let mut m: BTreeMap<u64, u64> = BTreeMap::new();
    let mut i: usize = 0;
    while i < reported.len()
        invariant
            i <= reported.len(),
            m@ == vars_by_index(reported@.take(i as int)),
        decreases reported.len() - i,
    {
        let (addr, idx) = reported[i];
        m.insert(idx as u64, addr);
        assert(reported@.take(i + 1).drop_last() =~= reported@.take(i as int));
        i = i + 1;
    }
    assert(reported@.take(reported.len() as int) =~= reported@);
    m
}

/// Each variable type is SCIP's `SCIP_VARTYPE` constant of the same name.
pub proof fn law_var_type_codes(x: VarType)
    ensures
        var_type_code(x) == SCIP_VARTYPE_CONTINUOUS <==> x is Continuous,
        var_type_code(x) == SCIP_VARTYPE_INTEGER <==> x is Integer,
        var_type_code(x) == SCIP_VARTYPE_BINARY <==> x is Binary,
        var_type_code(x) == SCIP_VARTYPE_IMPLINT <==> x is ImplInt,
{
}
/// Each `SCIP_VARTYPE` constant reads as the variable type of the same name.
pub proof fn law_var_type_of_codes(code: u32)
    ensures
        code == SCIP_VARTYPE_CONTINUOUS ==> var_type_of(code) == VarType::Continuous,
        code == SCIP_VARTYPE_INTEGER ==> var_type_of(code) == VarType::Integer,
        code == SCIP_VARTYPE_BINARY ==> var_type_of(code) == VarType::Binary,
        code == SCIP_VARTYPE_IMPLINT ==> var_type_of(code) == VarType::ImplInt,
{
}
/// Each variable status is SCIP's `SCIP_VARSTATUS` constant of the same name.
pub proof fn law_var_status_codes(x: VarStatus)
    ensures
        var_status_code(x) == SCIP_VARSTATUS_ORIGINAL <==> x is Original,
        var_status_code(x) == SCIP_VARSTATUS_LOOSE <==> x is Loose,
        var_status_code(x) == SCIP_VARSTATUS_COLUMN <==> x is Column,
        var_status_code(x) == SCIP_VARSTATUS_FIXED <==> x is Fixed,
        var_status_code(x) == SCIP_VARSTATUS_AGGREGATED <==> x is Aggregated,
        var_status_code(x) == SCIP_VARSTATUS_MULTAGGR <==> x is MultiAggregated,
        var_status_code(x) == SCIP_VARSTATUS_NEGATED <==> x is NegatedVar,
{
}
/// Each `SCIP_VARSTATUS` constant reads as the variable status of the same name.
pub proof fn law_var_status_of_codes(code: u32)
    ensures
        code == SCIP_VARSTATUS_ORIGINAL ==> var_status_of(code) == VarStatus::Original,
        code == SCIP_VARSTATUS_LOOSE ==> var_status_of(code) == VarStatus::Loose,
        code == SCIP_VARSTATUS_COLUMN ==> var_status_of(code) == VarStatus::Column,
        code == SCIP_VARSTATUS_FIXED ==> var_status_of(code) == VarStatus::Fixed,
        code == SCIP_VARSTATUS_AGGREGATED ==> var_status_of(code) == VarStatus::Aggregated,
        code == SCIP_VARSTATUS_MULTAGGR ==> var_status_of(code) == VarStatus::MultiAggregated,
        code == SCIP_VARSTATUS_NEGATED ==> var_status_of(code) == VarStatus::NegatedVar,
{
}

} // verus!
