use vstd::prelude::*;

verus! {

/// The three kinds of set constraints over binary variables: at most, at
/// least, or exactly one of them is one.
#[derive(Debug, Clone, Copy, PartialEq, Eq, Structural)]
pub enum SetppcKind {
    /// Exactly one: a set partitioning constraint.
    Partitioning,
    /// At least one: a set covering constraint.
    Covering,
    /// At most one: a set packing constraint.
    Packing,
}

/// One call of SCIP's C API, with its arguments as SCIP takes them.
///
/// The library decides which calls a model makes, in which order and with
/// which arguments; the runtime that owns the SCIP instance makes them.
#[allow(inconsistent_fields)]
#[derive(Debug, Clone, PartialEq, Eq)]
pub enum ScipCall {
    /// `SCIPcreate`
    Create,
    /// `SCIPincludeDefaultPlugins`
    IncludeDefaultPlugins,
    /// `SCIPcreateProbBasic(name)`
    CreateProbBasic { name: String },
    /// `SCIPreadProb(filename, NULL)`
    ReadProb { filename: String },
    /// `SCIPsetObjsense(sense)`
    SetObjsense { sense: i32 },
    /// `SCIPsetObjIntegral`
    SetObjIntegral,
    /// `SCIPsetConsModifiable(cons, modifiable)`
    SetConsModifiable { cons: u64, modifiable: u32 },
    /// `SCIPcreateConsBasicSetpart`, `..Setcover` or `..Setpack` with no
    /// variables, which writes the new constraint's address.
    CreateConsBasicSetppc { kind: SetppcKind, name: String },
    /// `SCIPaddCoefSetppc(cons, var)`
    AddCoefSetppc { cons: u64, var: u64 },
    /// `SCIPaddCons(cons)`
    AddCons { cons: u64 },
    /// `SCIPincludeHeur` with the given settings and the library's callbacks.
    IncludeHeur {
        name: String,
        desc: String,
        dispchar: char,
        priority: i32,
        freq: i32,
        freqofs: i32,
        maxdepth: i32,
        timing: u32,
        usessubscip: u32,
    },
    /// `SCIPincludeEventhdlr` with the given name and description and the library's callbacks.
    IncludeEventhdlr { name: String, desc: String },
    /// `SCIPincludeNodesel` with the given settings and the library's callbacks.
    IncludeNodesel { name: String, desc: String, std_priority: i32, mem_save_priority: i32 },
    /// `SCIPincludeConshdlrBasic` with the given settings and the library's
    /// enforcement and check callbacks.
    IncludeConshdlr { name: String, desc: String, enfopriority: i32, chckpriority: i32 },
    /// `SCIPincludePricer` with the given settings and the library's callbacks.
    IncludePricer { name: String, desc: String, priority: i32, delay: u32 },
    /// `SCIPactivatePricer` of the pricer named `name`.
    ActivatePricer { name: String },
    /// `SCIPwriteOrigProblem(path, ext, genericnames)`
    WriteOrigProblem { path: String, ext: String, generic_names: u32 },
    /// `SCIPsolve`
    Solve,
    /// `SCIPfreeTransform`
    FreeTransform,
    /// `SCIPprintVersion(NULL)`
    PrintVersion,
    /// `SCIPsetStringParam(name, value)`
    SetStringParam { name: String, value: String },
    /// `SCIPsetBoolParam(name, value)`
    SetBoolParam { name: String, value: u32 },
    /// `SCIPsetIntParam(name, value)`
    SetIntParam { name: String, value: i32 },
    /// `SCIPsetLongintParam(name, value)`
    SetLongintParam { name: String, value: i64 },
    /// `SCIPsetRealParam(name, value)` with a whole-numbered value.
    SetRealParamWhole { name: String, value: usize },
    /// `SCIPsetPresolving(setting, quiet)`
    SetPresolving { setting: u32, quiet: u32 },
    /// `SCIPsetSeparating(setting, quiet)`
    SetSeparating { setting: u32, quiet: u32 },
    /// `SCIPsetHeuristics(setting, quiet)`
    SetHeuristics { setting: u32, quiet: u32 },
    /// `SCIPcreateChild` of the focus node.
    CreateChild,
    /// `SCIPaddRow(row, forcecut)`
    AddRow { row: u64, force_cut: u32 },
    /// `SCIPnewProbingNode`
    NewProbingNode,
    /// `SCIPbacktrackProbing(depth)`
    BacktrackProbing { depth: i32 },
    /// `SCIPpropagateProbing(maxproprounds)`
    PropagateProbing { max_rounds: i32 },
    /// `SCIPpropagateProbingImplications`
    PropagateProbingImplications,
    /// `SCIPconstructLP`
    ConstructLp,
    /// `SCIPsolveProbingLP(itlim)`
    SolveProbingLp { iteration_limit: i32 },
    /// `SCIPsolveProbingLPWithPricing(pretendroot, displayinfo, maxpricerounds)`
    SolveProbingLpWithPricing { pretend_root: u32, display_info: u32, max_pricing_rounds: i32 },
    /// `SCIPaddRowProbing(row)`
    AddRowProbing { row: u64 },
    /// `SCIPsolveDiveLP(itlim)`
    SolveDiveLp { iteration_limit: i32 },
    /// `SCIPaddRowDive(row)`
    AddRowDive { row: u64 },
    /// `SCIPendProbing`
    EndProbing,
    /// `SCIPendDive`
    EndDive,
    /// `SCIPreleaseVar(var)`
    ReleaseVar { var: u64 },
    /// `SCIPreleaseCons(cons)`
    ReleaseCons { cons: u64 },
    /// `SCIPfree`
    Free,
}

/// A SCIP call as specifications see it: strings by their characters.
#[allow(inconsistent_fields)]
pub enum CallView {
    Create,
    IncludeDefaultPlugins,
    CreateProbBasic { name: Seq<char> },
    ReadProb { filename: Seq<char> },
    SetObjsense { sense: i32 },
    SetObjIntegral,
    SetConsModifiable { cons: u64, modifiable: u32 },
    CreateConsBasicSetppc { kind: SetppcKind, name: Seq<char> },
    AddCoefSetppc { cons: u64, var: u64 },
    AddCons { cons: u64 },
    IncludeHeur {
        name: Seq<char>,
        desc: Seq<char>,
        dispchar: char,
        priority: i32,
        freq: i32,
        freqofs: i32,
        maxdepth: i32,
        timing: u32,
        usessubscip: u32,
    },
    IncludeEventhdlr { name: Seq<char>, desc: Seq<char> },
    IncludeNodesel { name: Seq<char>, desc: Seq<char>, std_priority: i32, mem_save_priority: i32 },
    IncludeConshdlr { name: Seq<char>, desc: Seq<char>, enfopriority: i32, chckpriority: i32 },
    IncludePricer { name: Seq<char>, desc: Seq<char>, priority: i32, delay: u32 },
    ActivatePricer { name: Seq<char> },
    WriteOrigProblem { path: Seq<char>, ext: Seq<char>, generic_names: u32 },
    Solve,
    FreeTransform,
    PrintVersion,
    SetStringParam { name: Seq<char>, value: Seq<char> },
    SetBoolParam { name: Seq<char>, value: u32 },
    SetIntParam { name: Seq<char>, value: i32 },
    SetLongintParam { name: Seq<char>, value: i64 },
    SetRealParamWhole { name: Seq<char>, value: usize },
    SetPresolving { setting: u32, quiet: u32 },
    SetSeparating { setting: u32, quiet: u32 },
    SetHeuristics { setting: u32, quiet: u32 },
    CreateChild,
    AddRow { row: u64, force_cut: u32 },
    NewProbingNode,
    BacktrackProbing { depth: i32 },
    PropagateProbing { max_rounds: i32 },
    PropagateProbingImplications,
    ConstructLp,
    SolveProbingLp { iteration_limit: i32 },
    SolveProbingLpWithPricing { pretend_root: u32, display_info: u32, max_pricing_rounds: i32 },
    AddRowProbing { row: u64 },
    SolveDiveLp { iteration_limit: i32 },
    AddRowDive { row: u64 },
    EndProbing,
    EndDive,
    ReleaseVar { var: u64 },
    ReleaseCons { cons: u64 },
    Free,
}

impl View for ScipCall {
    type V = CallView;

    open spec fn view(&self) -> CallView {
        match self {
            ScipCall::Create => CallView::Create,
            ScipCall::IncludeDefaultPlugins => CallView::IncludeDefaultPlugins,
            ScipCall::CreateProbBasic { name } => CallView::CreateProbBasic { name: name@ },
            ScipCall::ReadProb { filename } => CallView::ReadProb { filename: filename@ },
            ScipCall::SetObjsense { sense } => CallView::SetObjsense { sense: *sense },
            ScipCall::SetObjIntegral => CallView::SetObjIntegral,
            ScipCall::SetConsModifiable { cons, modifiable } => CallView::SetConsModifiable {
                cons: *cons,
                modifiable: *modifiable,
            },
            ScipCall::CreateConsBasicSetppc { kind, name } => CallView::CreateConsBasicSetppc {
                kind: *kind,
                name: name@,
            },
            ScipCall::AddCoefSetppc { cons, var } => CallView::AddCoefSetppc { cons: *cons, var: *var },
            ScipCall::AddCons { cons } => CallView::AddCons { cons: *cons },
            ScipCall::IncludeHeur {
                name,
                desc,
                dispchar,
                priority,
                freq,
                freqofs,
                maxdepth,
                timing,
                usessubscip,
            } => CallView::IncludeHeur {
                name: name@,
                desc: desc@,
                dispchar: *dispchar,
                priority: *priority,
                freq: *freq,
                freqofs: *freqofs,
                maxdepth: *maxdepth,
                timing: *timing,
                usessubscip: *usessubscip,
            },
            ScipCall::IncludeEventhdlr { name, desc } => CallView::IncludeEventhdlr {
                name: name@,
                desc: desc@,
            },
            ScipCall::IncludeNodesel { name, desc, std_priority, mem_save_priority } =>
                CallView::IncludeNodesel {
                    name: name@,
                    desc: desc@,
                    std_priority: *std_priority,
                    mem_save_priority: *mem_save_priority,
                },
            ScipCall::IncludeConshdlr { name, desc, enfopriority, chckpriority } => CallView::IncludeConshdlr {
                name: name@,
                desc: desc@,
                enfopriority: *enfopriority,
                chckpriority: *chckpriority,
            },
            ScipCall::IncludePricer { name, desc, priority, delay } => CallView::IncludePricer {
                name: name@,
                desc: desc@,
                priority: *priority,
                delay: *delay,
            },
            ScipCall::ActivatePricer { name } => CallView::ActivatePricer { name: name@ },
            ScipCall::WriteOrigProblem { path, ext, generic_names } => CallView::WriteOrigProblem {
                path: path@,
                ext: ext@,
                generic_names: *generic_names,
            },
            ScipCall::Solve => CallView::Solve,
            ScipCall::FreeTransform => CallView::FreeTransform,
            ScipCall::PrintVersion => CallView::PrintVersion,
            ScipCall::SetStringParam { name, value } => CallView::SetStringParam {
                name: name@,
                value: value@,
            },
            ScipCall::SetBoolParam { name, value } => CallView::SetBoolParam { name: name@, value: *value },
            ScipCall::SetIntParam { name, value } => CallView::SetIntParam { name: name@, value: *value },
            ScipCall::SetLongintParam { name, value } => CallView::SetLongintParam {
                name: name@,
                value: *value,
            },
            ScipCall::SetRealParamWhole { name, value } => CallView::SetRealParamWhole {
                name: name@,
                value: *value,
            },
            ScipCall::SetPresolving { setting, quiet } => CallView::SetPresolving {
                setting: *setting,
                quiet: *quiet,
            },
            ScipCall::SetSeparating { setting, quiet } => CallView::SetSeparating {
                setting: *setting,
                quiet: *quiet,
            },
            ScipCall::SetHeuristics { setting, quiet } => CallView::SetHeuristics {
                setting: *setting,
                quiet: *quiet,
            },
            ScipCall::CreateChild => CallView::CreateChild,
            ScipCall::AddRow { row, force_cut } => CallView::AddRow { row: *row, force_cut: *force_cut },
            ScipCall::NewProbingNode => CallView::NewProbingNode,
            ScipCall::BacktrackProbing { depth } => CallView::BacktrackProbing { depth: *depth },
            ScipCall::PropagateProbing { max_rounds } => CallView::PropagateProbing {
                max_rounds: *max_rounds,
            },
            ScipCall::PropagateProbingImplications => CallView::PropagateProbingImplications,
            ScipCall::ConstructLp => CallView::ConstructLp,
            ScipCall::SolveProbingLp { iteration_limit } => CallView::SolveProbingLp {
                iteration_limit: *iteration_limit,
            },
            ScipCall::SolveProbingLpWithPricing { pretend_root, display_info, max_pricing_rounds } =>
                CallView::SolveProbingLpWithPricing {
                    pretend_root: *pretend_root,
                    display_info: *display_info,
                    max_pricing_rounds: *max_pricing_rounds,
                },
            ScipCall::AddRowProbing { row } => CallView::AddRowProbing { row: *row },
            ScipCall::SolveDiveLp { iteration_limit } => CallView::SolveDiveLp {
                iteration_limit: *iteration_limit,
            },
            ScipCall::AddRowDive { row } => CallView::AddRowDive { row: *row },
            ScipCall::EndProbing => CallView::EndProbing,
            ScipCall::EndDive => CallView::EndDive,
            ScipCall::ReleaseVar { var } => CallView::ReleaseVar { var: *var },
            ScipCall::ReleaseCons { cons } => CallView::ReleaseCons { cons: *cons },
            ScipCall::Free => CallView::Free,
        }
    }
}

/// The calls of a log, as specifications see them.
pub open spec fn calls_view(calls: Seq<ScipCall>) -> Seq<CallView> {
    calls.map_values(|c: ScipCall| c@)
}

/// A string can be handed to SCIP's C API: it holds no NUL character.
pub open spec fn c_string_ok(s: Seq<char>) -> bool {
    !s.contains('\0')
}

/// `SCIP_STAGE_PROBLEM`: the problem is being created and modified.
pub const SCIP_STAGE_PROBLEM: u32 = 1;
/// `SCIP_STAGE_TRANSFORMED`: the problem was transformed into solving data space.
pub const SCIP_STAGE_TRANSFORMED: u32 = 3;
/// `SCIP_STAGE_EXITSOLVE`: the solving process data is being freed.
pub const SCIP_STAGE_EXITSOLVE: u32 = 11;

/// Whether SCIP holds variables and constraints in the stage with code
/// `stage`: from `SCIP_STAGE_PROBLEM` to `SCIP_STAGE_EXITSOLVE`, except while
/// the problem is being transformed.
pub open spec fn holds_problem_data(stage: u32) -> bool {
    stage == SCIP_STAGE_PROBLEM || (SCIP_STAGE_TRANSFORMED <= stage && stage <= SCIP_STAGE_EXITSOLVE)
}

/// `SCIPreleaseVar` of each of `vars`, in order.
pub open spec fn release_var_calls(vars: Seq<u64>) -> Seq<CallView> {
    vars.map_values(|v: u64| CallView::ReleaseVar { var: v })
}

/// `SCIPreleaseCons` of each of `conss`, in order.
pub open spec fn release_cons_calls(conss: Seq<u64>) -> Seq<CallView> {
    conss.map_values(|c: u64| CallView::ReleaseCons { cons: c })
}

/// The calls that free an instance in the stage with code `stage`: where it
/// holds problem data, first the release of the original variables, of the
/// variables added while solving and of the original constraints; then
/// `SCIPfree`.
pub open spec fn teardown(stage: u32, orig_vars: Seq<u64>, added_vars: Seq<u64>, orig_conss: Seq<u64>) -> Seq<CallView> {
    if holds_problem_data(stage) {
        release_var_calls(orig_vars) + release_var_calls(added_vars) + release_cons_calls(orig_conss)
            + seq![CallView::Free]
    } else {
        seq![CallView::Free]
    }
}

/// Pushes `ReleaseVar` of each of `vars` onto `calls`.
fn push_release_vars(calls: &mut Vec<ScipCall>, vars: &Vec<u64>)
    ensures
        calls_view(final(calls)@) == calls_view(old(calls)@) + release_var_calls(vars@),
{
    let ghost start = calls_view(calls@);
    let mut i: usize = 0;
    while i < vars.len()
        invariant
            i <= vars.len(),
            calls_view(calls@) == start + release_var_calls(vars@.take(i as int)),
        decreases vars.len() - i,
    {
        let ghost before = calls@;
        calls.push(ScipCall::ReleaseVar { var: vars[i] });
        proof {
            assert(calls_view(calls@) =~= calls_view(before).push(CallView::ReleaseVar { var: vars@[i as int] }));
            assert(release_var_calls(vars@.take(i + 1)) =~= release_var_calls(vars@.take(i as int)).push(
                CallView::ReleaseVar { var: vars@[i as int] },
            ));
        }
        i = i + 1;
    }
    assert(vars@.take(vars.len() as int) =~= vars@);
}

/// Pushes `ReleaseCons` of each of `conss` onto `calls`.
fn push_release_conss(calls: &mut Vec<ScipCall>, conss: &Vec<u64>)
    ensures
        calls_view(final(calls)@) == calls_view(old(calls)@) + release_cons_calls(conss@),
{
    let ghost start = calls_view(calls@);
    let mut i: usize = 0;
    while i < conss.len()
        invariant
            i <= conss.len(),
            calls_view(calls@) == start + release_cons_calls(conss@.take(i as int)),
        decreases conss.len() - i,
    {
        let ghost before = calls@;
        calls.push(ScipCall::ReleaseCons { cons: conss[i] });
        proof {
            assert(calls_view(calls@) =~= calls_view(before).push(CallView::ReleaseCons { cons: conss@[i as int] }));
            assert(release_cons_calls(conss@.take(i + 1)) =~= release_cons_calls(conss@.take(i as int)).push(
                CallView::ReleaseCons { cons: conss@[i as int] },
            ));
        }
        i = i + 1;
    }
    assert(conss@.take(conss.len() as int) =~= conss@);
}

/// A handle on a SCIP instance, and the calls this library has made on it.
#[derive(Debug)]
pub struct ScipPtr {
    pub(crate) raw: u64,
    pub(crate) consumed: bool,
    pub(crate) calls: Vec<ScipCall>,
}

impl ScipPtr {
    /// The address of the SCIP instance.
    pub closed spec fn handle(&self) -> u64 {
        self.raw
    }

    /// Whether this handle shares the instance with the one that frees it.
    pub closed spec fn is_consumed(&self) -> bool {
        self.consumed
    }

    /// The calls made on the instance through this handle, oldest first.
    pub closed spec fn log(&self) -> Seq<CallView> {
        calls_view(self.calls@)
    }

    /// A handle on the instance at `raw`, just created by `SCIPcreate`.
    pub fn new(raw: u64) -> (s: ScipPtr)
        ensures
            s.handle() == raw,
            !s.is_consumed(),
            s.log() == seq![CallView::Create],
    {
        let mut calls = Vec::new();
        calls.push(ScipCall::Create);
        let s = ScipPtr { raw, consumed: false, calls };
        assert(s.log() =~= seq![CallView::Create]);
        s
    }

    /// A second handle on the same instance; it does not free the instance.
    pub fn clone(&self) -> (s: ScipPtr)
        ensures
            s.handle() == self.handle(),
            s.is_consumed(),
            s.log() == Seq::<CallView>::empty(),
    {
        let s = ScipPtr { raw: self.raw, consumed: true, calls: Vec::new() };
        assert(s.log() =~= Seq::<CallView>::empty());
        s
    }

    /// The address of the SCIP instance.
    pub fn raw(&self) -> (r: u64)
        ensures
            r == self.handle(),
    {
        self.raw
    }

    /// The calls made on the instance through this handle, oldest first.
    pub fn calls(&self) -> (c: &Vec<ScipCall>)
        ensures
            calls_view(c@) == self.log(),
    {
        &self.calls
    }

    /// The calls that free the instance when this handle goes away, given the
    /// stage SCIP reports, its original variables and constraints, and the
    /// variables added while solving: none for a handle that shares the
    /// instance, and [`teardown`] for the one that owns it.
    pub fn drop_calls(&self, stage: u32, orig_vars: &Vec<u64>, added_vars: &Vec<u64>, orig_conss: &Vec<u64>) -> (r: Vec<ScipCall>)
        ensures
            calls_view(r@) == (if self.is_consumed() {
                Seq::<CallView>::empty()
            } else {
                teardown(stage, orig_vars@, added_vars@, orig_conss@)
            }),
    {
        let mut calls: Vec<ScipCall> = Vec::new();
        if self.consumed {
            assert(calls_view(calls@) =~= Seq::<CallView>::empty());
            return calls;
        }
        assert(calls_view(calls@) =~= Seq::<CallView>::empty());
        if stage == SCIP_STAGE_PROBLEM || (SCIP_STAGE_TRANSFORMED <= stage && stage <= SCIP_STAGE_EXITSOLVE) {
            push_release_vars(&mut calls, orig_vars);
            push_release_vars(&mut calls, added_vars);
            push_release_conss(&mut calls, orig_conss);
        }
        let ghost before = calls@;
        calls.push(ScipCall::Free);
        assert(calls_view(calls@) =~= calls_view(before).push(CallView::Free));
        calls
    }

    /// Records that `call` is made on the instance.
    pub fn issue(&mut self, call: ScipCall)
        ensures
            final(self).handle() == old(self).handle(),
            final(self).is_consumed() == old(self).is_consumed(),
            final(self).log() == old(self).log().push(call@),
    {
        let ghost before = self.calls@;
        self.calls.push(call);
        assert(calls_view(self.calls@) =~= calls_view(before).push(call@));
    }
}

/// Freeing an instance ends with `SCIPfree`, made once; where the instance
/// holds problem data, every original variable, every variable added while
/// solving and every original constraint is released before it, each once
/// and in order, and nothing else is called.
pub proof fn law_teardown(stage: u32, orig_vars: Seq<u64>, added_vars: Seq<u64>, orig_conss: Seq<u64>)
    ensures
        ({
            let t = teardown(stage, orig_vars, added_vars, orig_conss);
            let nv = orig_vars.len() as int;
            let na = added_vars.len() as int;
            let nc = orig_conss.len() as int;
            &&& t.last() == CallView::Free
            &&& forall|k: int| 0 <= k < t.len() - 1 ==> t[k] != CallView::Free
            &&& !holds_problem_data(stage) ==> t.len() == 1
            &&& holds_problem_data(stage) ==> {
                &&& t.len() == nv + na + nc + 1
                &&& forall|k: int| 0 <= k < nv ==> t[k] == CallView::ReleaseVar { var: orig_vars[k] }
                &&& forall|k: int| 0 <= k < na ==> t[nv + k] == CallView::ReleaseVar { var: added_vars[k] }
                &&& forall|k: int| 0 <= k < nc ==> t[nv + na + k] == CallView::ReleaseCons { cons: orig_conss[k] }
            }
        }),
{
    let t = teardown(stage, orig_vars, added_vars, orig_conss);
    if holds_problem_data(stage) {
        let nv = orig_vars.len() as int;
        let na = added_vars.len() as int;
        assert forall|k: int| 0 <= k < t.len() - 1 implies t[k] != CallView::Free by {
            if k < nv {
                assert(t[k] == release_var_calls(orig_vars)[k]);
            } else if k < nv + na {
                assert(t[k] == release_var_calls(added_vars)[k - nv]);
            } else {
                assert(t[k] == release_cons_calls(orig_conss)[k - nv - na]);
            }
        }
    }
}

} // verus!
