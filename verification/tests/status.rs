//! A model's status after solving, read from the raw status SCIP reports.
//!
//! The SCIP instance is known by its address, and what SCIP answers to the
//! calls the model makes is an input of these tests.

use russcip::model::{Model, ProblemCreated};
use russcip::retcode::SCIP_OKAY;
use russcip::scip::ScipCall;
use russcip::status::{
    Status, SCIP_STATUS_BESTSOLLIMIT, SCIP_STATUS_SOLLIMIT, SCIP_STATUS_STALLNODELIMIT,
    SCIP_STATUS_TOTALNODELIMIT, SCIP_STATUS_UNKNOWN,
};

const INSTANCE: u64 = 0x5c1b_0000;

fn read_simple_lp(model: Model<russcip::model::Unsolved>) -> Model<ProblemCreated> {
    model
        .include_default_plugins()
        .read_prob("data/test/simple.lp", SCIP_OKAY)
        .unwrap()
}

#[test]
fn solution_limit() {
    let model = Model::new(INSTANCE)
        .hide_output()
        .set_int_param("limits/solutions", 0, SCIP_OKAY)
        .unwrap();
    let model = read_simple_lp(model).solve();

    assert_eq!(model.status(SCIP_STATUS_SOLLIMIT), Status::SolutionLimit);
    assert!(model.calls().contains(&ScipCall::SetIntParam {
        name: "limits/solutions".to_string(),
        value: 0
    }));
    assert_eq!(model.calls().last(), Some(&ScipCall::Solve));
}

#[test]
fn total_node_limit() {
    let model = Model::new(INSTANCE)
        .hide_output()
        .set_longint_param("limits/totalnodes", 0, SCIP_OKAY)
        .unwrap();
    let model = read_simple_lp(model).solve();

    assert_eq!(model.status(SCIP_STATUS_TOTALNODELIMIT), Status::TotalNodeLimit);
    assert!(model.calls().contains(&ScipCall::SetLongintParam {
        name: "limits/totalnodes".to_string(),
        value: 0
    }));
}

#[test]
fn stall_node_limit() {
    let model = Model::new(INSTANCE)
        .hide_output()
        .set_longint_param("limits/stallnodes", 0, SCIP_OKAY)
        .unwrap();
    let model = read_simple_lp(model).solve();

    assert_eq!(model.status(SCIP_STATUS_STALLNODELIMIT), Status::StallNodeLimit);
    assert!(model.calls().contains(&ScipCall::SetLongintParam {
        name: "limits/stallnodes".to_string(),
        value: 0
    }));
}

#[test]
fn best_solution_limit() {
    let model = Model::new(INSTANCE)
        .hide_output()
        .set_int_param("limits/bestsol", 0, SCIP_OKAY)
        .unwrap();
    let model = read_simple_lp(model).solve();

    assert_eq!(model.status(SCIP_STATUS_BESTSOLLIMIT), Status::BestSolutionLimit);
    assert!(model.calls().contains(&ScipCall::SetIntParam {
        name: "limits/bestsol".to_string(),
        value: 0
    }));
}

#[test]
fn unknown() {
    assert_eq!(Model::new(INSTANCE).status(SCIP_STATUS_UNKNOWN), Status::Unknown);
}

#[test]
fn solving_pipeline_calls_in_order() {
    let model = Model::new(INSTANCE)
        .hide_output()
        .set_int_param("limits/solutions", 0, SCIP_OKAY)
        .unwrap();
    let model = read_simple_lp(model).solve();
    assert_eq!(
        model.calls(),
        &vec![
            ScipCall::Create,
            ScipCall::SetIntParam { name: "display/verblevel".to_string(), value: 0 },
            ScipCall::SetIntParam { name: "limits/solutions".to_string(), value: 0 },
            ScipCall::IncludeDefaultPlugins,
            ScipCall::ReadProb { filename: "data/test/simple.lp".to_string() },
            ScipCall::Solve,
        ]
    );
    assert_eq!(model.scip_ptr(), INSTANCE);
}
