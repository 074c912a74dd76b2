use vstd::prelude::*;
use crate::model::{Model, Solving};
use crate::probing::{limit_arg, limit_fits, limit_to_c};
use crate::retcode::{call_result, scip_call, Retcode};
use crate::row::Row;
use crate::result::SCIP_TRUE;
use crate::scip::{calls_view, CallView, ScipCall, ScipPtr};

verus! {

/// The outcome of solving the diving LP: the error SCIP reported, else an LP
/// error if the LP solver failed, else whether the LP was solved to optimality.
pub open spec fn dive_outcome(rc: i32, lperror: u32, lpsolved: u32) -> Result<bool, Retcode> {
    if call_result(rc) is Err {
        Err(call_result(rc)->Err_0)
    } else if lperror != 0 {
        Err(Retcode::LpError)
    } else {
        Ok(lpsolved != 0)
    }
}

/// Struct giving access to methods allowed in diving mode.
pub struct Diver {
    pub(crate) scip: ScipPtr,
}

impl Diver {
    /// The address of the SCIP instance in diving mode.
    pub closed spec fn handle(&self) -> u64 {
        self.scip.handle()
    }

    /// The calls made in diving mode, oldest first.
    pub closed spec fn log(&self) -> Seq<CallView> {
        self.scip.log()
    }

    /// The diver for the model's instance, which SCIP has put in diving mode.
    pub fn for_model(model: &Model<Solving>) -> (d: Diver)
        ensures
            d.handle() == model.handle(),
            d.log() == Seq::<CallView>::empty(),
    {
        Diver { scip: model.share_instance() }
    }

    /// Solves the diving LP with at most `iteration_limit` iterations (`None`
    /// for no limit), given what `SCIPsolveDiveLP` returned (`rc`) and wrote
    /// (`lperror`, `lpsolved`).
    ///
    /// Returns whether the LP was successfully solved to optimality, or the
    /// error.
    pub fn solve_lp(&mut self, iteration_limit: Option<usize>, rc: i32, lperror: u32, lpsolved: u32) -> (r: Result<bool, Retcode>)
        requires
            limit_fits(iteration_limit),
        ensures
            r == dive_outcome(rc, lperror, lpsolved),
            final(self).handle() == old(self).handle(),
            final(self).log() == old(self).log().push(
                CallView::SolveDiveLp { iteration_limit: limit_arg(iteration_limit) },
            ),
    {
        let limit = limit_to_c(iteration_limit);
        self.scip.issue(ScipCall::SolveDiveLp { iteration_limit: limit });
        scip_call(rc)?;
        if lperror != 0 {
            return Err(Retcode::LpError);
        }
        Ok(lpsolved != 0)
    }

    /// Adds a row to the diving LP.
    pub fn add_row(&mut self, row: &Row)
        ensures
            final(self).handle() == old(self).handle(),
            final(self).log() == old(self).log().push(CallView::AddRowDive { row: row@ }),
    {
        self.scip.issue(ScipCall::AddRowDive { row: row.inner() });
    }

    /// The calls made in diving mode, oldest first.
    pub fn calls(&self) -> (c: &Vec<ScipCall>)
        ensures
            calls_view(c@) == self.log(),
    {
        self.scip.calls()
    }

    /// Leaves diving mode, given the `SCIP_Bool` SCIP reports for whether it is
    /// in diving mode, which it must be.
    pub fn end(&mut self, in_dive: u32)
        requires
            in_dive == SCIP_TRUE,
        ensures
            final(self).handle() == old(self).handle(),
            final(self).log() == old(self).log().push(CallView::EndDive),
    {
        self.scip.issue(ScipCall::EndDive);
    }
}

/// Solving the diving LP succeeds exactly when SCIP reports `SCIP_OKAY` and
/// no LP error; SCIP's own error comes first, an LP error next, and on
/// success the answer is whether the LP was solved.
pub proof fn law_dive_outcome(rc: i32, lperror: u32, lpsolved: u32)
    ensures
        dive_outcome(rc, lperror, lpsolved) is Ok <==> rc == crate::retcode::SCIP_OKAY && lperror == 0,
        rc != crate::retcode::SCIP_OKAY ==> dive_outcome(rc, lperror, lpsolved) == Err::<bool, Retcode>(
            crate::retcode::retcode_of(rc),
        ),
        rc == crate::retcode::SCIP_OKAY && lperror != 0 ==> dive_outcome(rc, lperror, lpsolved) == Err::<
            bool,
            Retcode,
        >(Retcode::LpError),
        dive_outcome(rc, lperror, lpsolved) matches Ok(b) ==> (b <==> lpsolved != 0),
{
}

} // verus!
