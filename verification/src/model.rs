use vstd::prelude::*;
use crate::constraint::Constraint;
use crate::heuristic::{HeurTiming, Heuristic, IncludedHeur};
use crate::node::Node;
use crate::pricer::IncludedPricer;
use crate::builder::CanBeAddedToModel;
use crate::nodesel::SCIPNodesel;
use crate::result::{scip_bool, to_scip_bool, SCIP_TRUE};
use crate::retcode::{call_result, scip_call, Retcode};
use crate::row::Row;
use crate::scip::{c_string_ok, teardown, CallView, ScipCall, ScipPtr, SetppcKind};
use crate::variable::{by_index, lemma_increasing_keys, vars_by_index, VarType, Variable};
use crate::solution::Solution;
use crate::status::{is_status_code, status_of, Status};

verus! {

/// `SCIP_PARAMSETTING_DEFAULT`
pub const SCIP_PARAMSETTING_DEFAULT: u32 = 0;
/// `SCIP_PARAMSETTING_AGGRESSIVE`
pub const SCIP_PARAMSETTING_AGGRESSIVE: u32 = 1;
/// `SCIP_PARAMSETTING_FAST`
pub const SCIP_PARAMSETTING_FAST: u32 = 2;
/// `SCIP_PARAMSETTING_OFF`
pub const SCIP_PARAMSETTING_OFF: u32 = 3;

/// `SCIP_OBJSENSE_MAXIMIZE`
pub const SCIP_OBJSENSE_MAXIMIZE: i32 = -1;
/// `SCIP_OBJSENSE_MINIMIZE`
pub const SCIP_OBJSENSE_MINIMIZE: i32 = 1;

/// An enum representing the possible settings for a SCIP parameter.
#[derive(Debug, Clone, Copy, PartialEq, Eq, Structural)]
pub enum ParamSetting {
    /// Use default values.
    Default,
    /// Set to aggressive settings.
    Aggressive,
    /// Set to fast settings.
    Fast,
    /// Turn off.
    Off,
}

/// The `SCIP_PARAMSETTING` value of the setting `p`.
pub open spec fn param_setting_code(p: ParamSetting) -> u32 {
    match p {
        ParamSetting::Default => SCIP_PARAMSETTING_DEFAULT,
        ParamSetting::Aggressive => SCIP_PARAMSETTING_AGGRESSIVE,
        ParamSetting::Fast => SCIP_PARAMSETTING_FAST,
        ParamSetting::Off => SCIP_PARAMSETTING_OFF,
    }
}

impl From<ParamSetting> for u32 {
    /// Converts a `ParamSetting` enum variant into its `SCIP_PARAMSETTING` value.
    fn from(val: ParamSetting) -> (r: u32) {
        match val {
            ParamSetting::Default => SCIP_PARAMSETTING_DEFAULT,
            ParamSetting::Aggressive => SCIP_PARAMSETTING_AGGRESSIVE,
            ParamSetting::Fast => SCIP_PARAMSETTING_FAST,
            ParamSetting::Off => SCIP_PARAMSETTING_OFF,
        }
    }
}

impl vstd::std_specs::convert::FromSpecImpl<ParamSetting> for u32 {
    open spec fn obeys_from_spec() -> bool {
        true
    }

    open spec fn from_spec(v: ParamSetting) -> u32 {
        param_setting_code(v)
    }
}

/// An enum representing the objective sense of a SCIP optimization model.
#[derive(Debug, Clone, Copy, PartialEq, Eq, Structural)]
pub enum ObjSense {
    /// The problem is a minimization problem.
    Minimize,
    /// The problem is a maximization problem.
    Maximize,
}

/// The `SCIP_OBJSENSE` value of the sense `s`.
pub open spec fn obj_sense_code(s: ObjSense) -> i32 {
    match s {
        ObjSense::Maximize => SCIP_OBJSENSE_MAXIMIZE,
        ObjSense::Minimize => SCIP_OBJSENSE_MINIMIZE,
    }
}

/// The objective sense reaches SCIP as SCIP's constant of the same name: maximizing as
/// `SCIP_OBJSENSE_MAXIMIZE`, minimizing as `SCIP_OBJSENSE_MINIMIZE`.
pub proof fn law_obj_sense_codes(x: ObjSense)
    ensures
        obj_sense_code(x) == SCIP_OBJSENSE_MAXIMIZE <==> x is Maximize,
        obj_sense_code(x) == SCIP_OBJSENSE_MINIMIZE <==> x is Minimize,
{
}
/// Each emphasis setting reaches SCIP as the `SCIP_PARAMSETTING` constant of the same name.
pub proof fn law_param_setting_codes(x: ParamSetting)
    ensures
        param_setting_code(x) == SCIP_PARAMSETTING_DEFAULT <==> x is Default,
        param_setting_code(x) == SCIP_PARAMSETTING_AGGRESSIVE <==> x is Aggressive,
        param_setting_code(x) == SCIP_PARAMSETTING_FAST <==> x is Fast,
        param_setting_code(x) == SCIP_PARAMSETTING_OFF <==> x is Off,
{
}

impl From<ObjSense> for i32 {
    /// Converts an `ObjSense` enum variant into its `SCIP_OBJSENSE` value.
    fn from(val: ObjSense) -> (r: i32) {
        match val {
            ObjSense::Maximize => SCIP_OBJSENSE_MAXIMIZE,
            ObjSense::Minimize => SCIP_OBJSENSE_MINIMIZE,
        }
    }
}

impl vstd::std_specs::convert::FromSpecImpl<ObjSense> for i32 {
    open spec fn obeys_from_spec() -> bool {
        true
    }

    open spec fn from_spec(v: ObjSense) -> i32 {
        obj_sense_code(v)
    }
}

/// Represents an optimization model, in the stage `State` of its life.
///
/// The model knows its SCIP instance by address and records every call it
/// makes on it; the stage decides which calls are allowed.
#[derive(Debug)]
pub struct Model<State> {
    pub(crate) scip: ScipPtr,
    pub(crate) state: State,
}

/// Represents the state of an optimization model that has not yet been solved.
#[derive(Debug)]
pub struct Unsolved;

/// Represents the state of an optimization model where all plugins have been included.
#[derive(Debug)]
pub struct PluginsIncluded;

/// Represents the state of an optimization model where the problem has been created.
#[derive(Debug)]
pub struct ProblemCreated;

/// Represents the state of an optimization model during the solving process (to be used in plugins).
#[derive(Debug)]
pub struct Solving;

/// Represents the state of an optimization model that has been solved.
#[derive(Debug)]
pub struct Solved;

/// The name of the parameter that sets SCIP's verbosity.
pub open spec fn verblevel_param() -> Seq<char> {
    seq!['d', 'i', 's', 'p', 'l', 'a', 'y', '/', 'v', 'e', 'r', 'b', 'l', 'e', 'v', 'e', 'l']
}

/// The name of the parameter that limits SCIP's solving time.
pub open spec fn time_limit_param() -> Seq<char> {
    seq!['l', 'i', 'm', 'i', 't', 's', '/', 't', 'i', 'm', 'e']
}

/// The name of the parameter that limits SCIP's memory.
pub open spec fn memory_limit_param() -> Seq<char> {
    seq!['l', 'i', 'm', 'i', 't', 's', '/', 'm', 'e', 'm', 'o', 'r', 'y']
}

/// The name that `Model::default` gives the problem it creates.
pub open spec fn default_problem_name() -> Seq<char> {
    seq!['p', 'r', 'o', 'b', 'l', 'e', 'm']
}

/// `SCIPaddCoefSetppc` of each of `vars`, in order, on the constraint `cons`.
pub open spec fn coef_calls(cons: u64, vars: Seq<Variable>) -> Seq<CallView> {
    vars.map_values(|v: Variable| CallView::AddCoefSetppc { cons, var: v@ })
}

/// The log after a set constraint of kind `kind` named `name` is created at
/// `cons` over `vars` and added to the problem.
pub open spec fn setppc_calls(log: Seq<CallView>, kind: SetppcKind, name: Seq<char>, cons: u64, vars: Seq<Variable>) -> Seq<CallView> {
    log.push(CallView::CreateConsBasicSetppc { kind, name }) + coef_calls(cons, vars) + seq![CallView::AddCons { cons }]
}

impl<S> Model<S> {
    /// The address of the model's SCIP instance.
    pub closed spec fn handle(&self) -> u64 {
        self.scip.handle()
    }

    /// The calls the model has made on its SCIP instance, oldest first.
    pub closed spec fn log(&self) -> Seq<CallView> {
        self.scip.log()
    }

    /// Whether the model's handle is the one that frees the instance.
    pub closed spec fn owns_instance(&self) -> bool {
        !self.scip.is_consumed()
    }

    /// Returns the address of the SCIP instance. This is useful for passing to
    /// functions of SCIP's C API.
    pub fn scip_ptr(&self) -> (r: u64)
        ensures
            r == self.handle(),
    {
        self.scip.raw()
    }

    /// The calls that free the model's SCIP instance when the model goes
    /// away, given the stage SCIP reports, its original variables and
    /// constraints and the variables added while solving: none where the
    /// model shares the instance, [`teardown`] where it owns it.
    pub fn teardown_calls(&self, stage: u32, orig_vars: &Vec<u64>, added_vars: &Vec<u64>, orig_conss: &Vec<u64>) -> (r: Vec<ScipCall>)
        ensures
            crate::scip::calls_view(r@) == (if self.owns_instance() {
                teardown(stage, orig_vars@, added_vars@, orig_conss@)
            } else {
                Seq::<CallView>::empty()
            }),
    {
        self.scip.drop_calls(stage, orig_vars, added_vars, orig_conss)
    }

    /// The node selector named `name`, given the address `SCIPfindNodesel`
    /// answered for it: none where SCIP answered the null address.
    pub fn find_nodesel(&self, name: &str, found: u64) -> (r: Option<SCIPNodesel>)
        requires
            c_string_ok(name@),
        ensures
            r is None <==> found == 0,
            r matches Some(n) ==> n@ == found,
    {
        if found == 0 {
            None
        } else {
            Some(SCIPNodesel::from_raw(found))
        }
    }

    /// The calls the model has made on its SCIP instance, oldest first.
    pub fn calls(&self) -> (c: &Vec<ScipCall>)
        ensures
            crate::scip::calls_view(c@) == self.log(),
    {
        self.scip.calls()
    }

    /// A second handle on the model's instance, with no calls of its own; it
    /// does not free the instance.
    pub(crate) fn share_instance(&self) -> (s: ScipPtr)
        ensures
            s.handle() == self.handle(),
            s.is_consumed(),
            s.log() == Seq::<CallView>::empty(),
    {
        self.scip.clone()
    }

    /// Moves the model to another stage, with its instance and its calls.
    fn into_stage<T>(self, state: T) -> (m: Model<T>)
        ensures
            m.handle() == self.handle(),
            m.log() == self.log(),
            m.owns_instance() == self.owns_instance(),
    {
        Model { scip: self.scip, state }
    }

    /// Returns the status of the optimization model, given the raw status
    /// that `SCIPgetStatus` reports.
    pub fn status(&self, raw_status: u32) -> (s: Status)
        requires
            is_status_code(raw_status),
        ensures
            s == status_of(raw_status),
    {
        Status::from_code(raw_status)
    }

    /// The call that prints the version of SCIP used by the optimization model.
    pub fn print_version(&self) -> (c: ScipCall)
        ensures
            c@ == CallView::PrintVersion,
    {
        ScipCall::PrintVersion
    }

    /// Hides the output of the optimization model by setting the
    /// `display/verblevel` parameter to 0.
    pub fn hide_output(self) -> (m: Self)
        ensures
            m.handle() == self.handle(),
            m.owns_instance() == self.owns_instance(),
            m.log() == self.log().push(CallView::SetIntParam { name: verblevel_param(), value: 0 }),
    {
        let mut m = self;
        let name = "display/verblevel".to_owned();
        proof {
            reveal_strlit("display/verblevel");
            assert(name@ =~= verblevel_param());
        }
        m.scip.issue(ScipCall::SetIntParam { name, value: 0 });
        m
    }

    /// Sets the time limit for the optimization model, in seconds.
    pub fn set_time_limit(self, time_limit: usize) -> (m: Self)
        ensures
            m.handle() == self.handle(),
            m.owns_instance() == self.owns_instance(),
            m.log() == self.log().push(
                CallView::SetRealParamWhole { name: time_limit_param(), value: time_limit },
            ),
    {
        let mut m = self;
        let name = "limits/time".to_owned();
        proof {
            reveal_strlit("limits/time");
            assert(name@ =~= time_limit_param());
        }
        m.scip.issue(ScipCall::SetRealParamWhole { name, value: time_limit });
        m
    }

    /// Sets the memory limit for the optimization model, in MB.
    pub fn set_memory_limit(self, memory_limit: usize) -> (m: Self)
        ensures
            m.handle() == self.handle(),
            m.owns_instance() == self.owns_instance(),
            m.log() == self.log().push(
                CallView::SetRealParamWhole { name: memory_limit_param(), value: memory_limit },
            ),
    {
        let mut m = self;
        let name = "limits/memory".to_owned();
        proof {
            reveal_strlit("limits/memory");
            assert(name@ =~= memory_limit_param());
        }
        m.scip.issue(ScipCall::SetRealParamWhole { name, value: memory_limit });
        m
    }

    /// Includes all default plugins in the SCIP instance and returns a new
    /// `Model` instance with a `PluginsIncluded` state.
    pub fn include_default_plugins(self) -> (m: Model<PluginsIncluded>)
        ensures
            m.handle() == self.handle(),
            m.owns_instance() == self.owns_instance(),
            m.log() == self.log().push(CallView::IncludeDefaultPlugins),
    {
        let mut m = self;
        m.scip.issue(ScipCall::IncludeDefaultPlugins);
        m.into_stage(PluginsIncluded)
    }

    /// Sets a SCIP string parameter, given the raw code `rc` that
    /// `SCIPsetStringParam(param, value)` returned, and returns the model, or
    /// the error SCIP reported.
    pub fn set_str_param(self, param: &str, value: &str, rc: i32) -> (r: Result<Self, Retcode>)
        requires
            c_string_ok(param@),
            c_string_ok(value@),
        ensures
            r is Ok <==> call_result(rc) is Ok,
            r matches Err(e) ==> call_result(rc) == Err::<(), Retcode>(e),
            r matches Ok(m) ==> m.handle() == self.handle() && m.owns_instance() == self.owns_instance()
                && m.log() == self.log().push(CallView::SetStringParam { name: param@, value: value@ }),
    {
        let mut m = self;
        m.scip.issue(ScipCall::SetStringParam { name: param.to_owned(), value: value.to_owned() });
        match scip_call(rc) {
            Ok(()) => Ok(m),
            Err(e) => Err(e),
        }
    }

    /// Sets a SCIP boolean parameter, given the raw code `rc` that
    /// `SCIPsetBoolParam(param, value)` returned, and returns the model, or
    /// the error SCIP reported.
    pub fn set_bool_param(self, param: &str, value: bool, rc: i32) -> (r: Result<Self, Retcode>)
        requires
            c_string_ok(param@),
        ensures
            r is Ok <==> call_result(rc) is Ok,
            r matches Err(e) ==> call_result(rc) == Err::<(), Retcode>(e),
            r matches Ok(m) ==> m.handle() == self.handle() && m.owns_instance() == self.owns_instance()
                && m.log() == self.log().push(CallView::SetBoolParam { name: param@, value: scip_bool(value) }),
    {
        let mut m = self;
        m.scip.issue(ScipCall::SetBoolParam { name: param.to_owned(), value: to_scip_bool(value) });
        match scip_call(rc) {
            Ok(()) => Ok(m),
            Err(e) => Err(e),
        }
    }

    /// Sets a SCIP integer parameter, given the raw code `rc` that
    /// `SCIPsetIntParam(param, value)` returned, and returns the model, or the
    /// error SCIP reported.
    pub fn set_int_param(self, param: &str, value: i32, rc: i32) -> (r: Result<Self, Retcode>)
        requires
            c_string_ok(param@),
        ensures
            r is Ok <==> call_result(rc) is Ok,
            r matches Err(e) ==> call_result(rc) == Err::<(), Retcode>(e),
            r matches Ok(m) ==> m.handle() == self.handle() && m.owns_instance() == self.owns_instance()
                && m.log() == self.log().push(CallView::SetIntParam { name: param@, value }),
    {
        let mut m = self;
        m.scip.issue(ScipCall::SetIntParam { name: param.to_owned(), value });
        match scip_call(rc) {
            Ok(()) => Ok(m),
            Err(e) => Err(e),
        }
    }

    /// Sets a SCIP long integer parameter, given the raw code `rc` that
    /// `SCIPsetLongintParam(param, value)` returned, and returns the model, or
    /// the error SCIP reported.
    pub fn set_longint_param(self, param: &str, value: i64, rc: i32) -> (r: Result<Self, Retcode>)
        requires
            c_string_ok(param@),
        ensures
            r is Ok <==> call_result(rc) is Ok,
            r matches Err(e) ==> call_result(rc) == Err::<(), Retcode>(e),
            r matches Ok(m) ==> m.handle() == self.handle() && m.owns_instance() == self.owns_instance()
                && m.log() == self.log().push(CallView::SetLongintParam { name: param@, value }),
    {
        let mut m = self;
        m.scip.issue(ScipCall::SetLongintParam { name: param.to_owned(), value });
        match scip_call(rc) {
            Ok(()) => Ok(m),
            Err(e) => Err(e),
        }
    }

    /// Sets the presolving parameters of the SCIP instance quietly and returns
    /// the same `Model` instance.
    pub fn set_presolving(self, presolving: ParamSetting) -> (m: Self)
        ensures
            m.handle() == self.handle(),
            m.owns_instance() == self.owns_instance(),
            m.log() == self.log().push(
                CallView::SetPresolving { setting: param_setting_code(presolving), quiet: SCIP_TRUE },
            ),
    {
        let mut m = self;
        m.scip.issue(ScipCall::SetPresolving { setting: u32::from(presolving), quiet: SCIP_TRUE });
        m
    }

    /// Sets the separating parameters of the SCIP instance quietly and returns
    /// the same `Model` instance.
    pub fn set_separating(self, separating: ParamSetting) -> (m: Self)
        ensures
            m.handle() == self.handle(),
            m.owns_instance() == self.owns_instance(),
            m.log() == self.log().push(
                CallView::SetSeparating { setting: param_setting_code(separating), quiet: SCIP_TRUE },
            ),
    {
        let mut m = self;
        m.scip.issue(ScipCall::SetSeparating { setting: u32::from(separating), quiet: SCIP_TRUE });
        m
    }

    /// Sets the heuristics parameters of the SCIP instance quietly and returns
    /// the same `Model` instance.
    pub fn set_heuristics(self, heuristics: ParamSetting) -> (m: Self)
        ensures
            m.handle() == self.handle(),
            m.owns_instance() == self.owns_instance(),
            m.log() == self.log().push(
                CallView::SetHeuristics { setting: param_setting_code(heuristics), quiet: SCIP_TRUE },
            ),
    {
        let mut m = self;
        m.scip.issue(ScipCall::SetHeuristics { setting: u32::from(heuristics), quiet: SCIP_TRUE });
        m
    }
}

impl Model<Unsolved> {
    /// Creates a new `Model` instance with an `Unsolved` state, for the SCIP
    /// instance that `SCIPcreate` created at address `raw`.
    pub fn new(raw: u64) -> (m: Self)
        ensures
            m.handle() == raw,
            m.owns_instance(),
            m.log() == seq![CallView::Create],
    {
        Model { scip: ScipPtr::new(raw), state: Unsolved }
    }

    /// Tries to create a new `Model` instance with an `Unsolved` state, given
    /// what `SCIPcreate` returned (`rc`) and the address it wrote (`raw`).
    ///
    /// Returns the new model on success, or the error SCIP reported.
    pub fn try_new(raw: u64, rc: i32) -> (r: Result<Self, Retcode>)
        ensures
            r is Ok <==> call_result(rc) is Ok,
            r matches Err(e) ==> call_result(rc) == Err::<(), Retcode>(e),
            r matches Ok(m) ==> m.handle() == raw && m.owns_instance() && m.log() == seq![CallView::Create],
    {
        match scip_call(rc) {
            Ok(()) => Ok(Model::new(raw)),
            Err(e) => Err(e),
        }
    }
}

impl Model<PluginsIncluded> {
    /// Creates a new problem in the SCIP instance with the given name and
    /// returns a new `Model` instance with a `ProblemCreated` state.
    pub fn create_prob(self, name: &str) -> (m: Model<ProblemCreated>)
        requires
            c_string_ok(name@),
        ensures
            m.handle() == self.handle(),
            m.owns_instance() == self.owns_instance(),
            m.log() == self.log().push(CallView::CreateProbBasic { name: name@ }),
    {
        let mut m = self;
        m.scip.issue(ScipCall::CreateProbBasic { name: name.to_owned() });
        m.into_stage(ProblemCreated)
    }

    /// Reads a problem from the given file, given the raw code `rc` that
    /// `SCIPreadProb(filename)` returned, and returns a new `Model` instance
    /// with a `ProblemCreated` state, or the error SCIP reported.
    pub fn read_prob(self, filename: &str, rc: i32) -> (r: Result<Model<ProblemCreated>, Retcode>)
        requires
            c_string_ok(filename@),
        ensures
            r is Ok <==> call_result(rc) is Ok,
            r matches Err(e) ==> call_result(rc) == Err::<(), Retcode>(e),
            r matches Ok(m) ==> m.handle() == self.handle() && m.owns_instance() == self.owns_instance()
                && m.log() == self.log().push(CallView::ReadProb { filename: filename@ }),
    {
        let mut m = self;
        m.scip.issue(ScipCall::ReadProb { filename: filename.to_owned() });
        match scip_call(rc) {
            Ok(()) => Ok(m.into_stage(ProblemCreated)),
            Err(e) => Err(e),
        }
    }
}

impl Model<ProblemCreated> {
    /// Adds what a builder describes to the model: makes the calls the
    /// builder lists, and hands back the plugin the builder holds.
    pub fn add<B: CanBeAddedToModel>(&mut self, builder: B) -> (r: B::Return)
        requires
            builder.can_be_added(),
        ensures
            builder.hands_back(r),
            final(self).handle() == old(self).handle(),
            final(self).owns_instance() == old(self).owns_instance(),
            final(self).log() == old(self).log() + builder.add_calls(),
    {
        builder.add(self)
    }

    /// A model with the default plugins included and a problem named
    /// "problem", for the SCIP instance that `SCIPcreate` created at `raw`.
    pub fn default(raw: u64) -> (m: Self)
        ensures
            m.handle() == raw,
            m.owns_instance(),
            m.log() == seq![
                CallView::Create,
                CallView::IncludeDefaultPlugins,
                CallView::CreateProbBasic { name: default_problem_name() },
            ],
    {
        let name = "problem";
        proof {
            reveal_strlit("problem");
            assert(name@ =~= default_problem_name());
        }
        let m = Model::new(raw).include_default_plugins().create_prob(name);
        assert(m.log() =~= seq![
            CallView::Create,
            CallView::IncludeDefaultPlugins,
            CallView::CreateProbBasic { name: default_problem_name() },
        ]);
        m
    }

    /// Sets the objective sense of the model to the given value and returns
    /// the same `Model` instance.
    pub fn set_obj_sense(self, sense: ObjSense) -> (m: Self)
        ensures
            m.handle() == self.handle(),
            m.owns_instance() == self.owns_instance(),
            m.log() == self.log().push(CallView::SetObjsense { sense: obj_sense_code(sense) }),
    {
        let mut m = self;
        m.scip.issue(ScipCall::SetObjsense { sense: i32::from(sense) });
        m
    }

    /// Sets the constraint as modifiable or not.
    pub fn set_cons_modifiable(&mut self, cons: &Constraint, modifiable: bool)
        ensures
            final(self).handle() == old(self).handle(),
            final(self).owns_instance() == old(self).owns_instance(),
            final(self).log() == old(self).log().push(
                CallView::SetConsModifiable { cons: cons.handle(), modifiable: scip_bool(modifiable) },
            ),
    {
        self.scip.issue(ScipCall::SetConsModifiable { cons: cons.inner(), modifiable: to_scip_bool(modifiable) });
    }

    /// Informs the SCIP instance that the objective value is always integral
    /// and returns the same `Model` instance.
    pub fn set_obj_integral(self) -> (m: Self)
        ensures
            m.handle() == self.handle(),
            m.owns_instance() == self.owns_instance(),
            m.log() == self.log().push(CallView::SetObjIntegral),
    {
        let mut m = self;
        m.scip.issue(ScipCall::SetObjIntegral);
        m
    }

    /// Includes a new primal heuristic with the given settings in the model,
    /// and hands it back paired with its name: SCIP's execution callback,
    /// which the runtime that makes the call attaches, runs
    /// [`IncludedHeur::exec`] on what is handed back.
    ///
    /// * `name` - The name of the heuristic. This should be a unique identifier.
    /// * `desc` - A brief description of the heuristic.
    /// * `priority` - The priority of the heuristic; a higher value indicates a higher priority.
    /// * `dispchar` - The display character of the heuristic (used in logs).
    /// * `freq` - The frequency for calling the heuristic in the tree; 1 means at every node, -1 turns it off.
    /// * `freqofs` - The depth of the branching tree at which the heuristic is executed for the first time.
    /// * `maxdepth` - The maximum depth level up to which this heuristic should be used; -1 for any depth.
    /// * `timing` - The timing mask of the heuristic.
    /// * `usessubscip` - Should the heuristic use a secondary SCIP instance?
    pub fn include_heur<H: Heuristic>(
        &mut self,
        name: &str,
        desc: &str,
        priority: i32,
        dispchar: char,
        freq: i32,
        freqofs: i32,
        maxdepth: i32,
        timing: HeurTiming,
        usessubscip: bool,
        heur: H,
    ) -> (h: IncludedHeur<H>)
        requires
            c_string_ok(name@),
            c_string_ok(desc@),
        ensures
            h.name() == name@,
            h.heuristic() == heur,
            final(self).handle() == old(self).handle(),
            final(self).owns_instance() == old(self).owns_instance(),
            final(self).log() == old(self).log().push(
                CallView::IncludeHeur {
                    name: name@,
                    desc: desc@,
                    dispchar,
                    priority,
                    freq,
                    freqofs,
                    maxdepth,
                    timing: timing@,
                    usessubscip: scip_bool(usessubscip),
                },
            ),
    {
        self.scip.issue(
            ScipCall::IncludeHeur {
                name: name.to_owned(),
                desc: desc.to_owned(),
                dispchar,
                priority,
                freq,
                freqofs,
                maxdepth,
                timing: timing.bits(),
                usessubscip: to_scip_bool(usessubscip),
            },
        );
        IncludedHeur::new(name, heur)
    }

    /// Includes a new event handler with the given name and description in the
    /// model. The handler's callbacks are attached by the runtime that makes
    /// the call.
    pub fn include_eventhdlr(&mut self, name: &str, desc: &str)
        requires
            c_string_ok(name@),
            c_string_ok(desc@),
        ensures
            final(self).handle() == old(self).handle(),
            final(self).owns_instance() == old(self).owns_instance(),
            final(self).log() == old(self).log().push(CallView::IncludeEventhdlr { name: name@, desc: desc@ }),
    {
        self.scip.issue(ScipCall::IncludeEventhdlr { name: name.to_owned(), desc: desc.to_owned() });
    }

    /// Includes a new node selector with the given settings in the model. The
    /// selector's callbacks are attached by the runtime that makes the call.
    pub fn include_nodesel(
        &mut self,
        name: &str,
        desc: &str,
        std_priority: i32,
        mem_save_priority: i32,
    )
        requires
            c_string_ok(name@),
            c_string_ok(desc@),
        ensures
            final(self).handle() == old(self).handle(),
            final(self).owns_instance() == old(self).owns_instance(),
            final(self).log() == old(self).log().push(
                CallView::IncludeNodesel { name: name@, desc: desc@, std_priority, mem_save_priority },
            ),
    {
        self.scip.issue(
            ScipCall::IncludeNodesel {
                name: name.to_owned(),
                desc: desc.to_owned(),
                std_priority,
                mem_save_priority,
            },
        );
    }

    /// Includes a new constraint handler with the given name, description and
    /// enforcement and check priorities in the model. The handler's callbacks
    /// are attached by the runtime that makes the call.
    pub fn include_conshdlr(&mut self, name: &str, desc: &str, enfopriority: i32, chckpriority: i32)
        requires
            c_string_ok(name@),
            c_string_ok(desc@),
        ensures
            final(self).handle() == old(self).handle(),
            final(self).owns_instance() == old(self).owns_instance(),
            final(self).log() == old(self).log().push(
                CallView::IncludeConshdlr { name: name@, desc: desc@, enfopriority, chckpriority },
            ),
    {
        self.scip.issue(
            ScipCall::IncludeConshdlr { name: name.to_owned(), desc: desc.to_owned(), enfopriority, chckpriority },
        );
    }

    /// Includes a new pricer with the given settings in the model, activates
    /// it, and hands it back paired with its name: SCIP's pricing callbacks,
    /// which the runtime that makes the calls attaches, run
    /// [`IncludedPricer::exec`] on what is handed back.
    pub fn include_pricer<P>(&mut self, name: &str, desc: &str, priority: i32, delay: bool, pricer: P) -> (p: IncludedPricer<P>)
        requires
            c_string_ok(name@),
            c_string_ok(desc@),
        ensures
            p.name() == name@,
            p.pricer() == pricer,
            final(self).handle() == old(self).handle(),
            final(self).owns_instance() == old(self).owns_instance(),
            final(self).log() == old(self).log().push(
                CallView::IncludePricer { name: name@, desc: desc@, priority, delay: scip_bool(delay) },
            ).push(CallView::ActivatePricer { name: name@ }),
    {
        self.scip.issue(
            ScipCall::IncludePricer {
                name: name.to_owned(),
                desc: desc.to_owned(),
                priority,
                delay: to_scip_bool(delay),
            },
        );
        self.scip.issue(ScipCall::ActivatePricer { name: name.to_owned() });
        IncludedPricer::new(name, pricer)
    }

    /// Creates a set constraint of the given kind with the given name, adds
    /// the variables to it in order and adds it to the problem. `created` is
    /// the address SCIP wrote for the new constraint and `var_types` the types
    /// SCIP reports for the variables, which must all be binary.
    fn add_cons_setppc(
        &mut self,
        kind: SetppcKind,
        vars: &Vec<Variable>,
        var_types: &Vec<VarType>,
        name: &str,
        created: u64,
    ) -> (c: Constraint)
        requires
            var_types.len() == vars.len(),
            forall|i: int| 0 <= i < var_types.len() ==> var_types[i] == VarType::Binary,
            c_string_ok(name@),
        ensures
            c.handle() == created,
            c.owner() == old(self).handle(),
            final(self).handle() == old(self).handle(),
            final(self).owns_instance() == old(self).owns_instance(),
            final(self).log() == setppc_calls(old(self).log(), kind, name@, created, vars@),
    {
        self.scip.issue(ScipCall::CreateConsBasicSetppc { kind, name: name.to_owned() });
        let ghost start = self.log();
        let mut i: usize = 0;
        while i < vars.len()
            invariant
                i <= vars.len(),
                self.handle() == old(self).handle(),
                self.owns_instance() == old(self).owns_instance(),
                start == old(self).log().push(CallView::CreateConsBasicSetppc { kind, name: name@ }),
                self.log() == start + coef_calls(created, vars@.take(i as int)),
            decreases vars.len() - i,
        {
            self.scip.issue(ScipCall::AddCoefSetppc { cons: created, var: vars[i].inner() });
            proof {
                assert(vars@.take(i + 1) =~= vars@.take(i as int).push(vars@[i as int]));
                assert(coef_calls(created, vars@.take(i + 1)) =~= coef_calls(created, vars@.take(i as int)).push(
                    CallView::AddCoefSetppc { cons: created, var: vars@[i as int]@ },
                ));
            }
            i = i + 1;
        }
        assert(vars@.take(vars.len() as int) =~= vars@);
        self.scip.issue(ScipCall::AddCons { cons: created });
        Constraint::from_raw(created, self.scip.raw())
    }

    /// Adds a set partitioning constraint over the given binary variables:
    /// exactly one of them is one. `created` is the address SCIP wrote for the
    /// new constraint and `var_types` the types SCIP reports for the
    /// variables, which must all be binary.
    pub fn add_cons_set_part(&mut self, vars: &Vec<Variable>, var_types: &Vec<VarType>, name: &str, created: u64) -> (c: Constraint)
        requires
            var_types.len() == vars.len(),
            forall|i: int| 0 <= i < var_types.len() ==> var_types[i] == VarType::Binary,
            c_string_ok(name@),
        ensures
            c.handle() == created,
            c.owner() == old(self).handle(),
            final(self).handle() == old(self).handle(),
            final(self).owns_instance() == old(self).owns_instance(),
            final(self).log() == setppc_calls(old(self).log(), SetppcKind::Partitioning, name@, created, vars@),
    {
        self.add_cons_setppc(SetppcKind::Partitioning, vars, var_types, name, created)
    }

    /// Adds a set covering constraint over the given binary variables: at
    /// least one of them is one.
    pub fn add_cons_set_cover(&mut self, vars: &Vec<Variable>, var_types: &Vec<VarType>, name: &str, created: u64) -> (c: Constraint)
        requires
            var_types.len() == vars.len(),
            forall|i: int| 0 <= i < var_types.len() ==> var_types[i] == VarType::Binary,
            c_string_ok(name@),
        ensures
            c.handle() == created,
            c.owner() == old(self).handle(),
            final(self).handle() == old(self).handle(),
            final(self).owns_instance() == old(self).owns_instance(),
            final(self).log() == setppc_calls(old(self).log(), SetppcKind::Covering, name@, created, vars@),
    {
        self.add_cons_setppc(SetppcKind::Covering, vars, var_types, name, created)
    }

    /// Adds a set packing constraint over the given binary variables: at most
    /// one of them is one.
    pub fn add_cons_set_pack(&mut self, vars: &Vec<Variable>, var_types: &Vec<VarType>, name: &str, created: u64) -> (c: Constraint)
        requires
            var_types.len() == vars.len(),
            forall|i: int| 0 <= i < var_types.len() ==> var_types[i] == VarType::Binary,
            c_string_ok(name@),
        ensures
            c.handle() == created,
            c.owner() == old(self).handle(),
            final(self).handle() == old(self).handle(),
            final(self).owns_instance() == old(self).owns_instance(),
            final(self).log() == setppc_calls(old(self).log(), SetppcKind::Packing, name@, created, vars@),
    {
        self.add_cons_setppc(SetppcKind::Packing, vars, var_types, name, created)
    }

    /// Adds a binary variable to the given set partitioning, packing or
    /// covering constraint. `var_type` is the type SCIP reports for the
    /// variable, which must be binary.
    pub fn add_cons_coef_setppc(&mut self, cons: &Constraint, var: &crate::variable::Variable, var_type: crate::variable::VarType)
        requires
            var_type == crate::variable::VarType::Binary,
        ensures
            final(self).handle() == old(self).handle(),
            final(self).owns_instance() == old(self).owns_instance(),
            final(self).log() == old(self).log().push(CallView::AddCoefSetppc { cons: cons.handle(), var: var@ }),
    {
        self.scip.issue(ScipCall::AddCoefSetppc { cons: cons.inner(), var: var.inner() });
    }

    /// Solves the model and returns a new `Model` instance with a `Solved` state.
    pub fn solve(self) -> (m: Model<Solved>)
        ensures
            m.handle() == self.handle(),
            m.owns_instance() == self.owns_instance(),
            m.log() == self.log().push(CallView::Solve),
    {
        let mut m = self;
        m.scip.issue(ScipCall::Solve);
        m.into_stage(Solved)
    }
}

impl Model<Solving> {
    /// The model that a plugin is handed while SCIP solves the instance at
    /// `raw`; it does not free the instance.
    pub fn solving(raw: u64) -> (m: Self)
        ensures
            m.handle() == raw,
            !m.owns_instance(),
            m.log() == Seq::<CallView>::empty(),
    {
        let owner = ScipPtr::new(raw);
        Model { scip: owner.clone(), state: Solving }
    }

    /// Returns the current node of the model, given the node that
    /// `SCIPgetFocusNode` reports.
    pub fn focus_node(&self, raw_node: u64) -> (n: Node)
        ensures
            n@ == raw_node,
    {
        Node::from_raw(raw_node)
    }

    /// Creates a new child node of the current node and returns it, given the
    /// node that `SCIPcreateChild` created.
    pub fn create_child(&mut self, child: u64) -> (n: Node)
        ensures
            n@ == child,
            final(self).handle() == old(self).handle(),
            final(self).owns_instance() == old(self).owns_instance(),
            final(self).log() == old(self).log().push(CallView::CreateChild),
    {
        self.scip.issue(ScipCall::CreateChild);
        Node::from_raw(child)
    }

    /// Adds a new cut (row) to the model, forcing its selection if `force_cut`
    /// is true. `infeasible` is the `SCIP_Bool` that `SCIPaddRow` wrote.
    ///
    /// Returns whether the row is infeasible from the local bounds.
    pub fn add_cut(&mut self, cut: Row, force_cut: bool, infeasible: u32) -> (b: bool)
        ensures
            b == (infeasible != 0),
            final(self).handle() == old(self).handle(),
            final(self).owns_instance() == old(self).owns_instance(),
            final(self).log() == old(self).log().push(
                CallView::AddRow { row: cut@, force_cut: scip_bool(force_cut) },
            ),
    {
        self.scip.issue(ScipCall::AddRow { row: cut.inner(), force_cut: to_scip_bool(force_cut) });
        infeasible != 0
    }
}

impl Model<Solved> {
    /// Returns the number of nodes explored by the optimization model, given
    /// the count that `SCIPgetNNodes` reports.
    pub fn n_nodes(&self, raw_count: i64) -> (n: usize)
        ensures
            n == raw_count as usize,
    {
        raw_count as usize
    }

    /// Returns the number of LP iterations performed by the optimization model,
    /// given the count that `SCIPgetNLPIterations` reports.
    pub fn n_lp_iterations(&self, raw_count: i64) -> (n: usize)
        ensures
            n == raw_count as usize,
    {
        raw_count as usize
    }

    /// Frees the transformed problem and returns the model to the
    /// `ProblemCreated` state, where variables and constraints can be added;
    /// useful for iterated solving.
    pub fn free_transform(self) -> (m: Model<ProblemCreated>)
        ensures
            m.handle() == self.handle(),
            m.owns_instance() == self.owns_instance(),
            m.log() == self.log().push(CallView::FreeTransform),
    {
        let mut m = self;
        m.scip.issue(ScipCall::FreeTransform);
        m.into_stage(ProblemCreated)
    }
}

/// Creates a minimal `Model` instance and sets off a lot of SCIP plugins,
/// useful for writing tests; `raw` is the instance that `SCIPcreate` created.
pub fn minimal_model(raw: u64) -> (m: Model<ProblemCreated>)
    ensures
        m.handle() == raw,
        m.owns_instance(),
        m.log() == seq![
            CallView::Create,
            CallView::IncludeDefaultPlugins,
            CallView::CreateProbBasic { name: default_problem_name() },
            CallView::SetPresolving { setting: SCIP_PARAMSETTING_OFF, quiet: SCIP_TRUE },
            CallView::SetHeuristics { setting: SCIP_PARAMSETTING_OFF, quiet: SCIP_TRUE },
            CallView::SetSeparating { setting: SCIP_PARAMSETTING_OFF, quiet: SCIP_TRUE },
        ],
{
    Model::default(raw)
        .set_presolving(ParamSetting::Off)
        .set_heuristics(ParamSetting::Off)
        .set_separating(ParamSetting::Off)
}

/// The stages of a model that has a problem.
pub trait StageWithProblem {}

impl StageWithProblem for ProblemCreated {}

impl StageWithProblem for Solving {}

impl StageWithProblem for Solved {}

/// The stages of a model that may have solutions.
pub trait StageWithSolutions {}

impl StageWithSolutions for ProblemCreated {}

impl StageWithSolutions for Solving {}

impl StageWithSolutions for Solved {}

/// `r` holds the addresses of the reported variables `s`, one for each index
/// (the one reported last where two share it), in increasing order of index.
pub open spec fn addresses_in_index_order(s: Seq<(u64, usize)>, r: Seq<Variable>) -> bool {
    exists|ks: Seq<u64>|
        {
            &&& #[trigger] ks.to_set() == vars_by_index(s).dom()
            &&& forall|i: int, j: int| 0 <= i < j < ks.len() ==> ks[i] < ks[j]
            &&& r.len() == ks.len()
            &&& forall|k: int| 0 <= k < ks.len() ==> (#[trigger] r[k])@ == vars_by_index(s)[ks[k]]
        }
}

/// A trait for optimization models with a problem created.
pub trait ModelWithProblem {
    /// Returns the variables of the problem in the order of their indices,
    /// given the address and the index SCIP reports for each.
    fn vars(&self, reported: &Vec<(u64, usize)>) -> (r: Vec<Variable>)
        ensures
            addresses_in_index_order(reported@, r@),
    ;

    /// Returns the variable with the given index, if there is one, given the
    /// address and the index SCIP reports for each variable.
    fn var(&self, reported: &Vec<(u64, usize)>, var_id: usize) -> (r: Option<Variable>)
        ensures
            r is Some <==> vars_by_index(reported@).contains_key(var_id as u64),
            r matches Some(v) ==> v@ == vars_by_index(reported@)[var_id as u64],
    ;

    /// Returns the number of variables in the problem, given what SCIP reports.
    fn n_vars(&self, reported: i32) -> (n: usize)
        requires
            reported >= 0,
        ensures
            n == reported,
    ;

    /// Returns the number of constraints in the problem, given what SCIP reports.
    fn n_conss(&self, reported: i32) -> (n: usize)
        requires
            reported >= 0,
        ensures
            n == reported,
    ;

    /// Returns the constraints of the problem, given their addresses in the
    /// order SCIP reports them.
    fn conss(&self, reported: &Vec<u64>) -> (r: Vec<Constraint>)
        ensures
            r@.len() == reported@.len(),
            forall|k: int| 0 <= k < r@.len() ==> (#[trigger] r@[k]).handle() == reported@[k],
    ;

    /// Writes the problem to a file with the given path and extension; `rc`
    /// is what `SCIPwriteOrigProblem` returned.
    fn write(&mut self, path: &str, ext: &str, rc: i32) -> (r: Result<(), Retcode>)
        requires
            c_string_ok(path@),
            c_string_ok(ext@),
        ensures
            r == call_result(rc),
    ;
}

impl<S: StageWithProblem> ModelWithProblem for Model<S> {
    fn vars(&self, reported: &Vec<(u64, usize)>) -> (r: Vec<Variable>) {
        broadcast use vstd::std_specs::btree::group_btree_axioms;
        let m = by_index(reported);
        let ghost v = vstd::std_specs::iter::IteratorSpec::remaining(&m.iter());
        let mut r: Vec<Variable> = Vec::new();
        for kv in it: m.iter()
            invariant
                it.seq() == v,
                r@.len() == it.index(),
                forall|j: int| 0 <= j < it.index() ==> (#[trigger] r@[j])@ == *v[j].1,
        {
            let (_, addr) = kv;
            r.push(Variable::from_raw(*addr));
        }
        let ghost ks = v.map_values(|kv: (&u64, &u64)| *kv.0);
        proof {
            assert(vstd::laws_cmp::obeys_cmp::<u64>());
            lemma_increasing_keys(ks);
            assert forall|x: u64| ks.to_set().contains(x) <==> m@.dom().contains(x) by {
                if ks.to_set().contains(x) {
                    let i = choose|i: int| 0 <= i < ks.len() && ks[i] == x;
                    assert(m@.contains_key(*v[i].0));
                }
                if m@.dom().contains(x) {
                    assert(v.contains((&x, &m@[x])));
                    let i = choose|i: int| 0 <= i < v.len() && v[i] == (&x, &m@[x]);
                    assert(ks[i] == x);
                }
            }
            assert(ks.to_set() =~= m@.dom());
            assert forall|k: int| 0 <= k < ks.len() implies (#[trigger] r@[k])@ == m@[ks[k]] by {
                assert(m@[*v[k].0] == *v[k].1);
            }
        }
        r
    }

    fn var(&self, reported: &Vec<(u64, usize)>, var_id: usize) -> (r: Option<Variable>) {
        broadcast use vstd::std_specs::btree::group_btree_axioms;
        let m = by_index(reported);
        match m.get(&(var_id as u64)) {
            Some(addr) => Some(Variable::from_raw(*addr)),
            None => None,
        }
    }

    fn n_vars(&self, reported: i32) -> (n: usize) {
        reported as usize
    }

    fn n_conss(&self, reported: i32) -> (n: usize) {
        reported as usize
    }

    fn conss(&self, reported: &Vec<u64>) -> (r: Vec<Constraint>)
        ensures
            forall|k: int| 0 <= k < r@.len() ==> (#[trigger] r@[k]).owner() == self.handle(),
    {
        let mut r: Vec<Constraint> = Vec::new();
        let mut k: usize = 0;
        while k < reported.len()
            invariant
                k <= reported.len(),
                r@.len() == k,
                forall|j: int| 0 <= j < k ==> (#[trigger] r@[j]).handle() == reported@[j] && r@[j].owner() == self.handle(),
            decreases reported.len() - k,
        {
            r.push(Constraint::from_raw(reported[k], self.scip.raw()));
            k = k + 1;
        }
        r
    }

    fn write(&mut self, path: &str, ext: &str, rc: i32) -> (r: Result<(), Retcode>)
        ensures
            final(self).handle() == old(self).handle(),
            final(self).owns_instance() == old(self).owns_instance(),
            final(self).log() == old(self).log().push(
                CallView::WriteOrigProblem { path: path@, ext: ext@, generic_names: SCIP_TRUE },
            ),
    {
        self.scip.issue(ScipCall::WriteOrigProblem { path: path.to_owned(), ext: ext.to_owned(), generic_names: SCIP_TRUE });
        scip_call(rc)
    }
}

/// A trait for optimization models with any state that might have solutions.
pub trait WithSolutions {
    /// Returns the best solution, if one exists, given the number of
    /// solutions SCIP reports and the address of the best one.
    fn best_sol(&self, n_sols: i32, best: u64) -> (r: Option<Solution>)
        ensures
            r is Some <==> n_sols > 0,
            r matches Some(s) ==> s@ == best,
    ;

    /// Returns the number of solutions found, given what SCIP reports.
    fn n_sols(&self, reported: i32) -> (n: usize)
        requires
            reported >= 0,
        ensures
            n == reported,
    ;
}

impl<S: StageWithSolutions> WithSolutions for Model<S> {
    fn best_sol(&self, n_sols: i32, best: u64) -> (r: Option<Solution>) {
        if n_sols > 0 {
            Some(Solution::from_raw(best))
        } else {
            None
        }
    }

    fn n_sols(&self, reported: i32) -> (n: usize) {
        reported as usize
    }
}

} // verus!
