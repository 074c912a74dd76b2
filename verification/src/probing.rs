use vstd::prelude::*;
use crate::model::{Model, Solving};
use crate::retcode::{call_result, scip_call, Retcode};
use crate::row::Row;
use crate::result::SCIP_TRUE;
use crate::scip::{calls_view, CallView, ScipCall, ScipPtr};

verus! {

/// The iteration or round limit SCIP takes for an optional limit: -1 for none.
pub open spec fn limit_arg(limit: Option<usize>) -> i32 {
    match limit {
        Some(n) => n as i32,
        None => -1i32,
    }
}

/// An optional limit that SCIP can take: one that fits its `int`.
pub open spec fn limit_fits(limit: Option<usize>) -> bool {
    match limit {
        Some(n) => n <= i32::MAX,
        None => true,
    }
}

/// Converts an optional limit to the `int` SCIP takes, -1 standing for none.
pub fn limit_to_c(limit: Option<usize>) -> (r: i32)
    requires
        limit_fits(limit),
    ensures
        r == limit_arg(limit),
{
    match limit {
        Some(n) => n as i32,
        None => -1,
    }
}

/// The outcome of solving an LP after, if it was not constructed yet,
/// constructing it: the error of the construction, else the error of the
/// solve, else an LP error if the LP solver failed, else whether a cutoff was
/// detected.
pub open spec fn lp_outcome(
    lp_constructed: bool,
    construct_rc: i32,
    solve_rc: i32,
    cutoff: u32,
    lperror: u32,
) -> Result<bool, Retcode> {
    if !lp_constructed && call_result(construct_rc) is Err {
        Err(call_result(construct_rc)->Err_0)
    } else if call_result(solve_rc) is Err {
        Err(call_result(solve_rc)->Err_0)
    } else if lperror != 0 {
        Err(Retcode::LpError)
    } else {
        Ok(cutoff != 0)
    }
}

/// The calls that solving an LP makes: the construction of the LP if it was
/// not constructed yet, and the solve unless the construction failed.
pub open spec fn lp_calls(lp_constructed: bool, construct_rc: i32, solve: CallView) -> Seq<CallView> {
    if lp_constructed {
        seq![solve]
    } else if call_result(construct_rc) is Err {
        seq![CallView::ConstructLp]
    } else {
        seq![CallView::ConstructLp, solve]
    }
}

/// The probing path that the calls `log` leave, for a prober that started
/// at probing depth `base`: one entry per probing node from the root, each
/// holding the calls made at that node. A new node opens an entry,
/// backtracking to a depth below the current one drops the entries deeper
/// than it, and every other call is made at the deepest node.
pub open spec fn probing_path(base: nat, log: Seq<CallView>) -> Seq<Seq<CallView>>
    decreases log.len(),
{
    if log.len() == 0 {
        Seq::new(base + 1, |i: int| Seq::<CallView>::empty())
    } else {
        let p = probing_path(base, log.drop_last());
        match log.last() {
            CallView::NewProbingNode => p.push(Seq::<CallView>::empty()),
            CallView::BacktrackProbing { depth } => if 0 <= depth < p.len() - 1 {
                p.take(depth + 1)
            } else {
                p
            },
            c => p.update(p.len() - 1, p.last().push(c)),
        }
    }
}

/// The probing depth that the calls `log` leave, for a prober that started
/// at probing depth `base`.
pub open spec fn probing_depth(base: nat, log: Seq<CallView>) -> int {
    probing_path(base, log).len() - 1
}

/// The probing path always holds the root node.
pub proof fn lemma_probing_path_nonempty(base: nat, log: Seq<CallView>)
    ensures
        probing_path(base, log).len() >= 1,
    decreases log.len(),
{
    if log.len() > 0 {
        lemma_probing_path_nonempty(base, log.drop_last());
    }
}

/// Backtracking to a depth below the current one makes it the current
/// depth, undoes what was done at the deeper probing nodes, and keeps what
/// was done at the nodes up to it.
pub proof fn law_backtrack(base: nat, log: Seq<CallView>, depth: i32)
    requires
        0 <= depth < probing_depth(base, log),
    ensures
        probing_depth(base, log.push(CallView::BacktrackProbing { depth })) == depth,
        forall|i: int|
            0 <= i <= depth ==> #[trigger] probing_path(base, log.push(CallView::BacktrackProbing { depth }))[i]
                == probing_path(base, log)[i],
{
    assert(log.push(CallView::BacktrackProbing { depth }).drop_last() =~= log);
}

/// A new probing node is one deeper than the current one, and starts with
/// nothing done at it.
pub proof fn law_new_node(base: nat, log: Seq<CallView>)
    ensures
        probing_depth(base, log.push(CallView::NewProbingNode)) == probing_depth(base, log) + 1,
        probing_path(base, log.push(CallView::NewProbingNode)).last() == Seq::<CallView>::empty(),
{
    assert(log.push(CallView::NewProbingNode).drop_last() =~= log);
}

/// Struct giving access to methods allowed in probing mode.
pub struct Prober {
    pub(crate) scip: ScipPtr,
}

impl Prober {
    /// The address of the SCIP instance being probed.
    pub closed spec fn handle(&self) -> u64 {
        self.scip.handle()
    }

    /// The calls made in probing mode, oldest first; [`probing_path`] reads
    /// the probing path they leave.
    pub closed spec fn log(&self) -> Seq<CallView> {
        self.scip.log()
    }

    /// The prober for the model's instance, which SCIP has put in probing mode.
    pub fn for_model(model: &Model<Solving>) -> (p: Prober)
        ensures
            p.handle() == model.handle(),
            p.log() == Seq::<CallView>::empty(),
    {
        Prober { scip: model.share_instance() }
    }

    /// Creates a new probing (sub-)node, whose changes can be undone by
    /// backtracking to a higher node in the probing path with a call to the
    /// `backtrack()` method.
    pub fn new_node(&mut self)
        ensures
            final(self).handle() == old(self).handle(),
            final(self).log() == old(self).log().push(CallView::NewProbingNode),
    {
        self.scip.issue(ScipCall::NewProbingNode);
    }

    /// Returns the current probing depth, given the depth that
    /// `SCIPgetProbingDepth` reports, which is never negative.
    pub fn depth(&self, raw_depth: i32) -> (d: usize)
        requires
            raw_depth >= 0,
        ensures
            d == raw_depth,
    {
        raw_depth as usize
    }

    /// Undoes all changes to the problem applied in probing up to the given
    /// probing depth, which must be less than the current one (`current_depth`,
    /// as `SCIPgetProbingDepth` reports it); the changes of the probing node of
    /// the given depth are the last ones that remain active.
    pub fn backtrack(&mut self, depth: usize, current_depth: i32)
        requires
            depth < current_depth,
        ensures
            final(self).handle() == old(self).handle(),
            final(self).log() == old(self).log().push(CallView::BacktrackProbing { depth: depth as i32 }),
            forall|base: nat|
                probing_depth(base, old(self).log()) == current_depth ==> #[trigger] probing_depth(
                    base,
                    final(self).log(),
                ) == depth,
    {
        let ghost before = self.log();
        self.scip.issue(ScipCall::BacktrackProbing { depth: depth as i32 });
        proof {
            assert forall|base: nat| probing_depth(base, before) == current_depth implies #[trigger] probing_depth(
                base,
                self.log(),
            ) == depth by {
                law_backtrack(base, before, depth as i32);
            }
        }
    }

    /// Applies domain propagation on the probing subproblem, with at most
    /// `max_rounds` rounds (`None` for no limit), given the cutoff flag and the
    /// number of reductions that `SCIPpropagateProbing` wrote.
    ///
    /// Returns whether a cutoff was detected and the number of reductions found.
    pub fn propagate(&mut self, max_rounds: Option<usize>, cutoff: u32, n_reductions: i64) -> (r: (bool, usize))
        requires
            limit_fits(max_rounds),
            0 <= n_reductions <= usize::MAX,
        ensures
            r == (cutoff != 0, n_reductions as usize),
            final(self).handle() == old(self).handle(),
            final(self).log() == old(self).log().push(
                CallView::PropagateProbing { max_rounds: limit_arg(max_rounds) },
            ),
    {
        let rounds = limit_to_c(max_rounds);
        self.scip.issue(ScipCall::PropagateProbing { max_rounds: rounds });
        (cutoff != 0, n_reductions as usize)
    }

    /// Applies the propagations of the implication graph and the clique table
    /// on the probing subproblem, given the cutoff flag that
    /// `SCIPpropagateProbingImplications` wrote; returns whether a cutoff was
    /// detected.
    pub fn propagate_implications(&mut self, cutoff: u32) -> (b: bool)
        ensures
            b == (cutoff != 0),
            final(self).handle() == old(self).handle(),
            final(self).log() == old(self).log().push(CallView::PropagateProbingImplications),
    {
        self.scip.issue(ScipCall::PropagateProbingImplications);
        cutoff != 0
    }

    /// Solves the probing LP with at most `iteration_limit` iterations (`None`
    /// for no limit), constructing the LP first if `lp_constructed` says it is
    /// not constructed yet.
    ///
    /// `construct_rc` is what `SCIPconstructLP` returned, and `rc`, `cutoff` and
    /// `lperror` what `SCIPsolveProbingLP` returned and wrote.
    ///
    /// Returns whether a cutoff was detected, or the error.
    pub fn solve_lp(
        &mut self,
        iteration_limit: Option<usize>,
        lp_constructed: bool,
        construct_rc: i32,
        rc: i32,
        cutoff: u32,
        lperror: u32,
    ) -> (r: Result<bool, Retcode>)
        requires
            limit_fits(iteration_limit),
        ensures
            r == lp_outcome(lp_constructed, construct_rc, rc, cutoff, lperror),
            final(self).handle() == old(self).handle(),
            final(self).log() == old(self).log() + lp_calls(
                lp_constructed,
                construct_rc,
                CallView::SolveProbingLp { iteration_limit: limit_arg(iteration_limit) },
            ),
    {
        let ghost before = self.log();
        if !lp_constructed {
            self.scip.issue(ScipCall::ConstructLp);
            if let Err(e) = scip_call(construct_rc) {
                assert(self.log() =~= before + lp_calls(
                    lp_constructed,
                    construct_rc,
                    CallView::SolveProbingLp { iteration_limit: limit_arg(iteration_limit) },
                ));
                return Err(e);
            }
        }
        let limit = limit_to_c(iteration_limit);
        self.scip.issue(ScipCall::SolveProbingLp { iteration_limit: limit });
        assert(self.log() =~= before + lp_calls(
            lp_constructed,
            construct_rc,
            CallView::SolveProbingLp { iteration_limit: limit_arg(iteration_limit) },
        ));
        scip_call(rc)?;
        if lperror != 0 {
            return Err(Retcode::LpError);
        }
        Ok(cutoff != 0)
    }

    /// Solves the probing LP with pricing, with at most `max_pricing_rounds`
    /// pricing rounds (`None` for no limit), constructing the LP first if
    /// `lp_constructed` says it is not constructed yet. The solve does not
    /// pretend to be at the root and displays information.
    ///
    /// `construct_rc` is what `SCIPconstructLP` returned, and `rc`, `cutoff` and
    /// `lperror` what `SCIPsolveProbingLPWithPricing` returned and wrote.
    ///
    /// Returns whether a cutoff was detected, or the error.
    pub fn solve_lp_with_pricing(
        &mut self,
        max_pricing_rounds: Option<usize>,
        lp_constructed: bool,
        construct_rc: i32,
        rc: i32,
        cutoff: u32,
        lperror: u32,
    ) -> (r: Result<bool, Retcode>)
        requires
            limit_fits(max_pricing_rounds),
        ensures
            r == lp_outcome(lp_constructed, construct_rc, rc, cutoff, lperror),
            final(self).handle() == old(self).handle(),
            final(self).log() == old(self).log() + lp_calls(
                lp_constructed,
                construct_rc,
                CallView::SolveProbingLpWithPricing {
                    pretend_root: 0,
                    display_info: 1,
                    max_pricing_rounds: limit_arg(max_pricing_rounds),
                },
            ),
    {
        let ghost before = self.log();
        let ghost solve = CallView::SolveProbingLpWithPricing {
            pretend_root: 0,
            display_info: 1,
            max_pricing_rounds: limit_arg(max_pricing_rounds),
        };
        if !lp_constructed {
            self.scip.issue(ScipCall::ConstructLp);
            if let Err(e) = scip_call(construct_rc) {
                assert(self.log() =~= before + lp_calls(lp_constructed, construct_rc, solve));
                return Err(e);
            }
        }
        let rounds = limit_to_c(max_pricing_rounds);
        self.scip.issue(
            ScipCall::SolveProbingLpWithPricing { pretend_root: 0, display_info: 1, max_pricing_rounds: rounds },
        );
        assert(self.log() =~= before + lp_calls(lp_constructed, construct_rc, solve));
        scip_call(rc)?;
        if lperror != 0 {
            return Err(Retcode::LpError);
        }
        Ok(cutoff != 0)
    }

    /// Adds a row to the probing subproblem.
    pub fn add_row(&mut self, row: &Row)
        ensures
            final(self).handle() == old(self).handle(),
            final(self).log() == old(self).log().push(CallView::AddRowProbing { row: row@ }),
    {
        self.scip.issue(ScipCall::AddRowProbing { row: row.inner() });
    }

    /// The calls made in probing mode, oldest first.
    pub fn calls(&self) -> (c: &Vec<ScipCall>)
        ensures
            calls_view(c@) == self.log(),
    {
        self.scip.calls()
    }

    /// Leaves probing mode, given the `SCIP_Bool` SCIP reports for whether it is
    /// in probing mode, which it must be.
    pub fn end(&mut self, in_probing: u32)
        requires
            in_probing == SCIP_TRUE,
        ensures
            final(self).handle() == old(self).handle(),
            final(self).log() == old(self).log().push(CallView::EndProbing),
    {
        self.scip.issue(ScipCall::EndProbing);
    }
}

/// SCIP takes no limit as -1 and a limit as itself.
pub proof fn law_limit_arg(limit: Option<usize>)
    ensures
        limit is None ==> limit_arg(limit) == -1,
        limit_fits(limit) && limit is Some ==> limit_arg(limit) == limit->0,
{
}

/// Solving the probing LP succeeds exactly when every SCIP call it makes
/// succeeds and the LP solver reports no error; the first error met is the
/// one reported, and on success the answer is whether a cutoff was found.
pub proof fn law_lp_outcome(lp_constructed: bool, construct_rc: i32, solve_rc: i32, cutoff: u32, lperror: u32)
    ensures
        ({
            let r = lp_outcome(lp_constructed, construct_rc, solve_rc, cutoff, lperror);
            &&& r is Ok <==> (lp_constructed || construct_rc == crate::retcode::SCIP_OKAY) && solve_rc
                == crate::retcode::SCIP_OKAY && lperror == 0
            &&& !lp_constructed && construct_rc != crate::retcode::SCIP_OKAY ==> r == Err::<bool, Retcode>(
                crate::retcode::retcode_of(construct_rc),
            )
            &&& r matches Ok(b) ==> (b <==> cutoff != 0)
        }),
{
}

} // verus!
