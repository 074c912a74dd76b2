use vstd::prelude::*;
use crate::result::{SCIP_DIDNOTRUN, SCIP_SUCCESS};

verus! {

/// An enum representing the possible states of a pricer's result.
#[derive(Debug, Clone, Copy, PartialEq, Eq, Structural)]
pub enum PricerResultState {
    /// The pricer did not run.
    DidNotRun,
    /// The pricer added new columns with negative reduced cost.
    FoundColumns,
    /// The pricer did not find any columns with negative reduced cost (i.e. current LP solution is optimal).
    NoColumns,
    /// The pricer wants to perform early branching.
    StopEarly,
}

/// The `SCIP_RESULT` that reports the pricer result state `s`.
pub open spec fn pricer_result_code(s: PricerResultState) -> u32 {
    match s {
        PricerResultState::DidNotRun => SCIP_DIDNOTRUN,
        PricerResultState::FoundColumns
        | PricerResultState::StopEarly
        | PricerResultState::NoColumns => SCIP_SUCCESS,
    }
}

/// A pricer that did not run is reported as `SCIP_DIDNOTRUN`; every other state as
/// `SCIP_SUCCESS`.
pub proof fn law_pricer_result_codes(x: PricerResultState)
    ensures
        pricer_result_code(x) == SCIP_DIDNOTRUN <==> x is DidNotRun,
        pricer_result_code(x) == SCIP_SUCCESS <==> (x is FoundColumns || x is NoColumns || x is StopEarly),
{
}

impl From<PricerResultState> for u32 {
    /// Converts a pricer result state to the `SCIP_RESULT` that reports it.
    fn from(val: PricerResultState) -> (r: u32) {
        match val {
            PricerResultState::DidNotRun => SCIP_DIDNOTRUN,
            PricerResultState::FoundColumns
            | PricerResultState::StopEarly
            | PricerResultState::NoColumns => SCIP_SUCCESS,
        }
    }
}

impl vstd::std_specs::convert::FromSpecImpl<PricerResultState> for u32 {
    open spec fn obeys_from_spec() -> bool {
        true
    }

    open spec fn from_spec(v: PricerResultState) -> u32 {
        pricer_result_code(v)
    }
}

/// What the pricing callbacks report to SCIP after the pricer ran.
#[derive(Debug, Clone, Copy, PartialEq, Eq)]
pub struct PricingReport {
    /// The `SCIP_RESULT` to report.
    pub result: u32,
    /// Whether to set SCIP's `stopearly` flag.
    pub stop_early: bool,
    /// Whether to hand SCIP the lower bound that the pricer computed.
    pub report_lower_bound: bool,
}

/// Why a pricing callback stops the solve: a pricer stopped early in Farkas
/// pricing, which would leave the LP infeasible, or claimed new columns but
/// SCIP holds no more variables than before it ran.
#[derive(Debug, Clone, Copy, PartialEq, Eq, Structural)]
pub enum PricingFault {
    FarkasStopEarly,
    NoColumnsAdded,
}

/// What the pricing callbacks do after the pricer ran, given the state it
/// returned, whether this is Farkas pricing, whether it computed a lower
/// bound, and the number of variables before and after it ran.
pub open spec fn pricing_outcome(
    state: PricerResultState,
    farkas: bool,
    has_lower_bound: bool,
    n_vars_before: i32,
    n_vars_after: i32,
) -> Result<PricingReport, PricingFault> {
    if farkas && state == PricerResultState::StopEarly {
        Err(PricingFault::FarkasStopEarly)
    } else if state == PricerResultState::FoundColumns && n_vars_after <= n_vars_before {
        Err(PricingFault::NoColumnsAdded)
    } else {
        Ok(
            PricingReport {
                result: pricer_result_code(state),
                stop_early: !farkas && state == PricerResultState::StopEarly,
                report_lower_bound: !farkas && has_lower_bound,
            },
        )
    }
}

/// Decides what the pricing callbacks report to SCIP, or the fault that
/// stops the solve, as [`pricing_outcome`] says.
pub fn pricing_report(
    state: PricerResultState,
    farkas: bool,
    has_lower_bound: bool,
    n_vars_before: i32,
    n_vars_after: i32,
) -> (r: Result<PricingReport, PricingFault>)
    ensures
        r == pricing_outcome(state, farkas, has_lower_bound, n_vars_before, n_vars_after),
{
    if farkas && state == PricerResultState::StopEarly {
        return Err(PricingFault::FarkasStopEarly);
    }
    if state == PricerResultState::FoundColumns && n_vars_after <= n_vars_before {
        return Err(PricingFault::NoColumnsAdded);
    }
    let stop_early = !farkas && state == PricerResultState::StopEarly;
    let report_lower_bound = !farkas && has_lower_bound;
    Ok(PricingReport { result: u32::from(state), stop_early, report_lower_bound })
}

/// What the pricing callbacks do after the pricer ran, over every answer:
/// they stop the solve exactly on stop-early in Farkas pricing or on claimed
/// columns that did not show up; otherwise they hand SCIP the computed lower
/// bound whenever there is one outside Farkas pricing, whatever the state,
/// set stop-early exactly on stop-early outside Farkas pricing, and report
/// `SCIP_DIDNOTRUN` exactly when the pricer did not run.
pub proof fn law_pricing_outcome(
    state: PricerResultState,
    farkas: bool,
    has_lower_bound: bool,
    n_vars_before: i32,
    n_vars_after: i32,
)
    ensures
        ({
            let r = pricing_outcome(state, farkas, has_lower_bound, n_vars_before, n_vars_after);
            &&& r is Err <==> (farkas && state == PricerResultState::StopEarly) || (state
                == PricerResultState::FoundColumns && n_vars_after <= n_vars_before)
            &&& (farkas && state == PricerResultState::StopEarly) ==> r == Err::<PricingReport, PricingFault>(
                PricingFault::FarkasStopEarly,
            )
            &&& !(farkas && state == PricerResultState::StopEarly) && state == PricerResultState::FoundColumns
                && n_vars_after <= n_vars_before ==> r == Err::<PricingReport, PricingFault>(
                PricingFault::NoColumnsAdded,
            )
            &&& r matches Ok(rep) ==> {
                &&& rep.report_lower_bound == (!farkas && has_lower_bound)
                &&& rep.stop_early == (!farkas && state == PricerResultState::StopEarly)
                &&& (rep.result == SCIP_DIDNOTRUN <==> state == PricerResultState::DidNotRun)
                &&& (rep.result == SCIP_SUCCESS <==> state != PricerResultState::DidNotRun)
            }
        }),
{
}

/// A pricer included in a model, together with the name it was included
/// under: what SCIP's pricing callbacks for it run.
pub struct IncludedPricer<P> {
    name: String,
    pricer: P,
}

impl<P> IncludedPricer<P> {
    /// The name the pricer was included under.
    pub closed spec fn name(&self) -> Seq<char> {
        self.name@
    }

    /// The included pricer.
    pub closed spec fn pricer(&self) -> P {
        self.pricer
    }

    /// Pairs a pricer with the name it is included under.
    pub(crate) fn new(name: &str, pricer: P) -> (p: Self)
        ensures
            p.name() == name@,
            p.pricer() == pricer,
    {
        IncludedPricer { name: name.to_owned(), pricer }
    }

    /// The name the pricer was included under.
    pub fn name_str(&self) -> (s: &str)
        ensures
            s@ == self.name(),
    {
        self.name.as_str()
    }

    /// SCIP's pricing callbacks for the pricer, in their Farkas form or not:
    /// counts the problem's variables with `n_vars`, lets `generate` run the
    /// pricer, which answers with the state the pricer returned and whether it
    /// computed a lower bound, counts again, and decides with
    /// [`pricing_outcome`]. Returns the pricer's answer, the two counts, and
    /// the outcome; the name stays the one it was included under.
    pub fn exec<C: Fn() -> i32, G: FnOnce(&mut P) -> (PricerResultState, bool)>(
        &mut self,
        farkas: bool,
        n_vars: &C,
        generate: G,
    ) -> (r: (PricerResultState, bool, i32, i32, Result<PricingReport, PricingFault>))
        requires
            forall|u: ()| #[trigger] n_vars.requires(u),
            forall|p: &mut P| #[trigger] generate.requires((p,)),
        ensures
            final(self).name() == old(self).name(),
            exists|p: &mut P| generate.ensures((p,), (r.0, r.1)),
            n_vars.ensures((), r.2),
            n_vars.ensures((), r.3),
            r.4 == pricing_outcome(r.0, farkas, r.1, r.2, r.3),
    {
        let before = n_vars();
        let (state, has_lower_bound) = generate(&mut self.pricer);
        let after = n_vars();
        (state, has_lower_bound, before, after, pricing_report(state, farkas, has_lower_bound, before, after))
    }
}

/// A handle on a `SCIP_PRICER`.
#[derive(Debug)]
pub struct SCIPPricer {
    pub(crate) raw: u64,
}

impl View for SCIPPricer {
    type V = u64;

    closed spec fn view(&self) -> u64 {
        self.raw
    }
}

impl SCIPPricer {
    /// The handle on the `SCIP_PRICER` at address `raw`.
    pub fn from_raw(raw: u64) -> (h: SCIPPricer)
        ensures
            h@ == raw,
    {
        SCIPPricer { raw }
    }

    /// Returns the address of the internal `SCIP_PRICER`.
    pub fn inner(&self) -> (r: u64)
        ensures
            r == self@,
    {
        self.raw
    }

    /// Returns whether the pricer is delayed, given the `SCIP_Bool` that
    /// `SCIPpricerIsDelayed` reports.
    pub fn is_delayed(&self, flag: u32) -> (b: bool)
        ensures
            b == (flag != 0),
    {
        flag != 0
    }

    /// Returns whether the pricer is active, given the `SCIP_Bool` that
    /// `SCIPpricerIsActive` reports.
    pub fn is_active(&self, flag: u32) -> (b: bool)
        ensures
            b == (flag != 0),
    {
        flag != 0
    }
}

} // verus!
