use vstd::prelude::*;
use crate::model::{Model, Solving};
use crate::result::{SCIP_DELAYED, SCIP_DIDNOTFIND, SCIP_DIDNOTRUN, SCIP_FOUNDSOL};

verus! {

/// Bits of `HeurTiming::BEFORE_NODE`: call the heuristic before the node is processed.
pub const BEFORE_NODE_BITS: u32 = 0x001;
/// Bits of `HeurTiming::DURING_LP_LOOP`: call the heuristic during the LP loop.
pub const DURING_LP_LOOP_BITS: u32 = 0x002;
/// Bits of `HeurTiming::AFTER_LP_LOOP`: call the heuristic after the LP loop.
pub const AFTER_LP_LOOP_BITS: u32 = 0x004;
/// Bits of `HeurTiming::AFTER_LP_NODE`: call the heuristic after an LP was solved.
pub const AFTER_LP_NODE_BITS: u32 = 0x008;
/// Bits of `HeurTiming::AFTER_PSEUDO_NODE`: call the heuristic after a pseudo node was processed.
pub const AFTER_PSEUDO_NODE_BITS: u32 = 0x010;
/// Bits of `HeurTiming::AFTER_LP_PLUNGE`: call the heuristic after a plunge with LP nodes.
pub const AFTER_LP_PLUNGE_BITS: u32 = 0x020;
/// Bits of `HeurTiming::AFTER_PSEUDO_PLUNGE`: call the heuristic after a plunge with pseudo nodes.
pub const AFTER_PSEUDO_PLUNGE_BITS: u32 = 0x040;
/// Bits of `HeurTiming::DURING_PRICING_LOOP`: call the heuristic during the pricing loop.
pub const DURING_PRICING_LOOP_BITS: u32 = 0x080;
/// Bits of `HeurTiming::BEFORE_PRESOL`: call the heuristic before presolving.
pub const BEFORE_PRESOL_BITS: u32 = 0x100;
/// Bits of `HeurTiming::DURING_PRESOL_LOOP`: call the heuristic during the presolving loop.
pub const DURING_PRESOL_LOOP_BITS: u32 = 0x200;
/// Bits of `HeurTiming::AFTER_PROP_LOOP`: call the heuristic after propagation.
pub const AFTER_PROP_LOOP_BITS: u32 = 0x400;

/// The timing mask of a primal heuristic: the points of the solving process at
/// which SCIP calls it.
#[derive(Debug, Clone, Copy)]
pub struct HeurTiming(u32);

impl View for HeurTiming {
    type V = u32;

    closed spec fn view(&self) -> u32 {
        self.0
    }
}

#[allow(non_snake_case)]
impl HeurTiming {
    /// Call the heuristic before the node is processed.
    pub fn BEFORE_NODE() -> (t: HeurTiming)
        ensures
            t@ == BEFORE_NODE_BITS,
    {
        HeurTiming(BEFORE_NODE_BITS)
    }

    /// Call the heuristic during the LP loop.
    pub fn DURING_LP_LOOP() -> (t: HeurTiming)
        ensures
            t@ == DURING_LP_LOOP_BITS,
    {
        HeurTiming(DURING_LP_LOOP_BITS)
    }

    /// Call the heuristic after the LP loop.
    pub fn AFTER_LP_LOOP() -> (t: HeurTiming)
        ensures
            t@ == AFTER_LP_LOOP_BITS,
    {
        HeurTiming(AFTER_LP_LOOP_BITS)
    }

    /// Call the heuristic after an LP was solved.
    pub fn AFTER_LP_NODE() -> (t: HeurTiming)
        ensures
            t@ == AFTER_LP_NODE_BITS,
    {
        HeurTiming(AFTER_LP_NODE_BITS)
    }

    /// Call the heuristic after a pseudo node was processed.
    pub fn AFTER_PSEUDO_NODE() -> (t: HeurTiming)
        ensures
            t@ == AFTER_PSEUDO_NODE_BITS,
    {
        HeurTiming(AFTER_PSEUDO_NODE_BITS)
    }

    /// Call the heuristic after a plunge with LP nodes.
    pub fn AFTER_LP_PLUNGE() -> (t: HeurTiming)
        ensures
            t@ == AFTER_LP_PLUNGE_BITS,
    {
        HeurTiming(AFTER_LP_PLUNGE_BITS)
    }

    /// Call the heuristic after a plunge with pseudo nodes.
    pub fn AFTER_PSEUDO_PLUNGE() -> (t: HeurTiming)
        ensures
            t@ == AFTER_PSEUDO_PLUNGE_BITS,
    {
        HeurTiming(AFTER_PSEUDO_PLUNGE_BITS)
    }

    /// Call the heuristic during the pricing loop.
    pub fn DURING_PRICING_LOOP() -> (t: HeurTiming)
        ensures
            t@ == DURING_PRICING_LOOP_BITS,
    {
        HeurTiming(DURING_PRICING_LOOP_BITS)
    }

    /// Call the heuristic before presolving.
    pub fn BEFORE_PRESOL() -> (t: HeurTiming)
        ensures
            t@ == BEFORE_PRESOL_BITS,
    {
        HeurTiming(BEFORE_PRESOL_BITS)
    }

    /// Call the heuristic during the presolving loop.
    pub fn DURING_PRESOL_LOOP() -> (t: HeurTiming)
        ensures
            t@ == DURING_PRESOL_LOOP_BITS,
    {
        HeurTiming(DURING_PRESOL_LOOP_BITS)
    }

    /// Call the heuristic after propagation.
    pub fn AFTER_PROP_LOOP() -> (t: HeurTiming)
        ensures
            t@ == AFTER_PROP_LOOP_BITS,
    {
        HeurTiming(AFTER_PROP_LOOP_BITS)
    }

    /// The timing with exactly the given bits, as SCIP hands it to a heuristic.
    pub fn from_bits(bits: u32) -> (t: HeurTiming)
        ensures
            t@ == bits,
    {
        HeurTiming(bits)
    }

    /// The `SCIP_HEURTIMING` bits of this timing.
    pub fn bits(&self) -> (b: u32)
        ensures
            b == self@,
    {
        self.0
    }

    /// Whether every point of `other` is in this timing.
    pub fn contains(&self, other: HeurTiming) -> (b: bool)
        ensures
            b == (self@ & other@ == other@),
    {
        self.0 & other.0 == other.0
    }

    /// The timing with exactly the given bits, in specifications.
    pub closed spec fn spec_from_bits(bits: u32) -> HeurTiming {
        HeurTiming(bits)
    }

    /// A timing is determined by its bits.
    pub proof fn lemma_from_bits(bits: u32)
        ensures
            HeurTiming::spec_from_bits(bits)@ == bits,
    {
    }
}

impl core::ops::BitOr for HeurTiming {
    type Output = Self;

    fn bitor(self, rhs: Self) -> (r: Self::Output) {
        HeurTiming(self.0 | rhs.0)
    }
}

impl vstd::std_specs::ops::BitOrSpecImpl for HeurTiming {
    open spec fn obeys_bitor_spec() -> bool {
        true
    }

    open spec fn bitor_req(self, rhs: HeurTiming) -> bool {
        true
    }

    open spec fn bitor_spec(self, rhs: HeurTiming) -> HeurTiming {
        HeurTiming::spec_from_bits(self@ | rhs@)
    }
}

/// The result of a primal heuristic execution.
#[derive(Debug, Clone, Copy, PartialEq, Eq, Structural)]
pub enum HeurResult {
    /// The heuristic found a feasible solution.
    FoundSol,
    /// The heuristic ran but did not find a feasible solution.
    NoSolFound,
    /// The heuristic was skipped.
    DidNotRun,
    /// The heuristic was skipped, but should be called again as soon as possible.
    Delayed,
}

/// The `SCIP_RESULT` that reports the heuristic result `r`.
pub open spec fn heur_result_code(r: HeurResult) -> u32 {
    match r {
        HeurResult::FoundSol => SCIP_FOUNDSOL,
        HeurResult::NoSolFound => SCIP_DIDNOTFIND,
        HeurResult::DidNotRun => SCIP_DIDNOTRUN,
        HeurResult::Delayed => SCIP_DELAYED,
    }
}

impl From<HeurResult> for u32 {
    /// Converts a heuristic result to the `SCIP_RESULT` that reports it to SCIP.
    fn from(val: HeurResult) -> (r: u32) {
        match val {
            HeurResult::FoundSol => SCIP_FOUNDSOL,
            HeurResult::NoSolFound => SCIP_DIDNOTFIND,
            HeurResult::DidNotRun => SCIP_DIDNOTRUN,
            HeurResult::Delayed => SCIP_DELAYED,
        }
    }
}

impl vstd::std_specs::convert::FromSpecImpl<HeurResult> for u32 {
    open spec fn obeys_from_spec() -> bool {
        true
    }

    open spec fn from_spec(v: HeurResult) -> u32 {
        heur_result_code(v)
    }
}

/// A trait for defining custom primal heuristics.
pub trait Heuristic {
    /// Executes the heuristic.
    ///
    /// # Arguments
    /// * `model` - the current model of the SCIP instance in `Solving` stage.
    /// * `timing` - the point of the solving process at which the heuristic is called.
    /// * `node_inf` - whether the current node was detected to be infeasible.
    fn execute(&mut self, model: Model<Solving>, timing: HeurTiming, node_inf: bool) -> HeurResult;
}

/// Why the heuristic callback stops the solve: the heuristic claimed a
/// solution, but SCIP holds no more solutions than before it ran.
#[derive(Debug, Clone, Copy, PartialEq, Eq, Structural)]
pub enum HeurFault {
    NoSolutionAdded,
}

/// What the heuristic callback does after the heuristic ran, given the
/// number of solutions SCIP holds before and after: it stops the solve where
/// the heuristic claimed a solution but none was added, and reports the
/// heuristic's result to SCIP otherwise.
pub open spec fn heur_outcome(result: HeurResult, n_sols_before: i64, n_sols_after: i64) -> Result<u32, HeurFault> {
    if result == HeurResult::FoundSol && n_sols_after <= n_sols_before {
        Err(HeurFault::NoSolutionAdded)
    } else {
        Ok(heur_result_code(result))
    }
}

/// The `SCIP_RESULT` the heuristic callback reports after the heuristic ran,
/// given the number of solutions SCIP had before and after it ran, or the
/// fault that stops the solve.
pub fn heur_exec_result(result: HeurResult, n_sols_before: i64, n_sols_after: i64) -> (r: Result<u32, HeurFault>)
    ensures
        r == heur_outcome(result, n_sols_before, n_sols_after),
{
    if result == HeurResult::FoundSol && n_sols_after <= n_sols_before {
        Err(HeurFault::NoSolutionAdded)
    } else {
        Ok(u32::from(result))
    }
}

/// The execution callback of an included heuristic: counts SCIP's
/// solutions with `n_sols`, runs the heuristic, counts again, and decides
/// with [`heur_outcome`]. Returns what the heuristic answered, the two
/// counts, and the outcome.
pub fn heur_exec<H: Heuristic, C: Fn() -> i64>(
    heur: &mut H,
    model: Model<Solving>,
    timing: HeurTiming,
    node_inf: bool,
    n_sols: &C,
) -> (r: (HeurResult, i64, i64, Result<u32, HeurFault>))
    requires
        forall|u: ()| #[trigger] n_sols.requires(u),
    ensures
        exists|h: &mut H| call_ensures(H::execute, (h, model, timing, node_inf), r.0),
        n_sols.ensures((), r.1),
        n_sols.ensures((), r.2),
        r.3 == heur_outcome(r.0, r.1, r.2),
{
    let before = n_sols();
    let result = heur.execute(model, timing, node_inf);
    let after = n_sols();
    (result, before, after, heur_exec_result(result, before, after))
}

/// A heuristic included in a model, together with the name it was included
/// under: what SCIP's execution callback for it runs.
pub struct IncludedHeur<H: Heuristic> {
    name: String,
    heur: H,
}

impl<H: Heuristic> IncludedHeur<H> {
    /// The name the heuristic was included under.
    pub closed spec fn name(&self) -> Seq<char> {
        self.name@
    }

    /// The included heuristic.
    pub closed spec fn heuristic(&self) -> H {
        self.heur
    }

    /// Pairs a heuristic with the name it is included under.
    pub(crate) fn new(name: &str, heur: H) -> (h: Self)
        ensures
            h.name() == name@,
            h.heuristic() == heur,
    {
        IncludedHeur { name: name.to_owned(), heur }
    }

    /// The name the heuristic was included under.
    pub fn name_str(&self) -> (s: &str)
        ensures
            s@ == self.name(),
    {
        self.name.as_str()
    }

    /// SCIP's execution callback for the heuristic: counts SCIP's solutions
    /// with `n_sols`, runs the heuristic, counts again, and decides with
    /// [`heur_outcome`]. Returns what the heuristic answered, the two counts,
    /// and the outcome; the name stays the one it was included under.
    pub fn exec<C: Fn() -> i64>(
        &mut self,
        model: Model<Solving>,
        timing: HeurTiming,
        node_inf: bool,
        n_sols: &C,
    ) -> (r: (HeurResult, i64, i64, Result<u32, HeurFault>))
        requires
            forall|u: ()| #[trigger] n_sols.requires(u),
        ensures
            final(self).name() == old(self).name(),
            exists|h: &mut H| call_ensures(H::execute, (h, model, timing, node_inf), r.0),
            n_sols.ensures((), r.1),
            n_sols.ensures((), r.2),
            r.3 == heur_outcome(r.0, r.1, r.2),
    {
        heur_exec(&mut self.heur, model, timing, node_inf, n_sols)
    }
}

/// Each heuristic result reaches SCIP as the `SCIP_RESULT` constant of the same meaning:
/// a found solution as `SCIP_FOUNDSOL`, none found as `SCIP_DIDNOTFIND`, a skip as
/// `SCIP_DIDNOTRUN`, a delay as `SCIP_DELAYED`.
pub proof fn law_heur_result_codes(x: HeurResult)
    ensures
        heur_result_code(x) == SCIP_FOUNDSOL <==> x is FoundSol,
        heur_result_code(x) == SCIP_DIDNOTFIND <==> x is NoSolFound,
        heur_result_code(x) == SCIP_DIDNOTRUN <==> x is DidNotRun,
        heur_result_code(x) == SCIP_DELAYED <==> x is Delayed,
{
}

/// What the heuristic callback does after the heuristic ran, over every
/// answer and count: it stops the solve exactly when the heuristic claimed a
/// solution but SCIP holds no more solutions than before, and otherwise
/// reports the heuristic's answer under the `SCIP_RESULT` of the same
/// meaning.
pub proof fn law_heur_outcome(result: HeurResult, n_sols_before: i64, n_sols_after: i64)
    ensures
        ({
            let r = heur_outcome(result, n_sols_before, n_sols_after);
            &&& r is Err <==> result == HeurResult::FoundSol && n_sols_after <= n_sols_before
            &&& r is Err ==> r == Err::<u32, HeurFault>(HeurFault::NoSolutionAdded)
            &&& r matches Ok(code) ==> {
                &&& (code == SCIP_FOUNDSOL <==> result == HeurResult::FoundSol)
                &&& (code == SCIP_DIDNOTFIND <==> result == HeurResult::NoSolFound)
                &&& (code == SCIP_DIDNOTRUN <==> result == HeurResult::DidNotRun)
                &&& (code == SCIP_DELAYED <==> result == HeurResult::Delayed)
            }
        }),
{
}

/// Distinct heuristic results are reported with distinct codes.
pub proof fn lemma_heur_result_codes_distinct(a: HeurResult, b: HeurResult)
    requires
        a != b,
    ensures
        heur_result_code(a) != heur_result_code(b),
{
}

} // verus!
