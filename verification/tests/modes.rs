//! Probing and diving modes: the calls made in them, with SCIP's answers as
//! inputs.

use russcip::diving::Diver;
use russcip::model::Model;
use russcip::probing::Prober;
use russcip::result::SCIP_TRUE;
use russcip::retcode::{Retcode, SCIP_LPERROR, SCIP_OKAY};
use russcip::row::Row;
use russcip::scip::ScipCall;

const INSTANCE: u64 = 0x5c1b_0000;

#[test]
fn test_prober() {
    let model = Model::solving(INSTANCE);
    let mut prober = Prober::for_model(&model);
    assert_eq!(prober.solve_lp(None, false, SCIP_OKAY, SCIP_OKAY, 0, 0), Ok(false));
    prober.end(SCIP_TRUE);
    assert_eq!(
        prober.calls().to_vec(),
        vec![ScipCall::ConstructLp, ScipCall::SolveProbingLp { iteration_limit: -1 }, ScipCall::EndProbing]
    );
}

#[test]
fn test_probing_add_row() {
    let model = Model::solving(INSTANCE);
    let mut prober = Prober::for_model(&model);
    prober.add_row(&Row::from_raw(0x70));
    // The row makes the LP infeasible: SCIP reports a cutoff.
    assert_eq!(prober.solve_lp(Some(50), true, SCIP_OKAY, SCIP_OKAY, 1, 0), Ok(true));
    assert_eq!(
        prober.calls().to_vec(),
        vec![ScipCall::AddRowProbing { row: 0x70 }, ScipCall::SolveProbingLp { iteration_limit: 50 }]
    );
}

#[test]
fn probing_reports_scips_errors() {
    let model = Model::solving(INSTANCE);
    let mut prober = Prober::for_model(&model);
    assert_eq!(prober.solve_lp(None, false, SCIP_LPERROR, SCIP_OKAY, 0, 0), Err(Retcode::LpError));
    assert_eq!(prober.calls().to_vec(), vec![ScipCall::ConstructLp]);
    assert_eq!(prober.solve_lp(None, true, SCIP_OKAY, SCIP_OKAY, 0, 1), Err(Retcode::LpError));
}

#[test]
fn test_diver() {
    let model = Model::solving(INSTANCE);
    let mut diver = Diver::for_model(&model);
    assert_eq!(diver.solve_lp(None, SCIP_OKAY, 0, 1), Ok(true));
    diver.add_row(&Row::from_raw(0x71));
    assert_eq!(diver.solve_lp(None, SCIP_OKAY, 0, 0), Ok(false));
    diver.end(SCIP_TRUE);
    assert_eq!(
        diver.calls().to_vec(),
        vec![
            ScipCall::SolveDiveLp { iteration_limit: -1 },
            ScipCall::AddRowDive { row: 0x71 },
            ScipCall::SolveDiveLp { iteration_limit: -1 },
            ScipCall::EndDive,
        ]
    );
}
