//! Getting and setting SCIP parameters through `ScipParameter`.
//!
//! What SCIP answers (its return codes and the values its getters report) is
//! an input of these tests.

use russcip::model::Model;
use russcip::param::ScipParameter;
use russcip::result::{SCIP_FALSE, SCIP_TRUE};
use russcip::retcode::{Retcode, SCIP_OKAY, SCIP_PARAMETERUNKNOWN};
use russcip::scip::ScipCall;

const INSTANCE: u64 = 0x5c1b_0000;

#[test]
fn test_bool() {
    let model = Model::default(INSTANCE);
    let model = bool::set(model, "display/allviols", true, SCIP_OKAY).unwrap();
    assert!(model.param::<bool>("display/allviols", true));
    let model = model.set_param("display/allviols", false, SCIP_OKAY);
    assert!(!bool::get(&model, "display/allviols", false));
    let calls = model.calls();
    assert_eq!(
        calls[calls.len() - 2..].to_vec(),
        vec![
            ScipCall::SetBoolParam { name: "display/allviols".to_string(), value: SCIP_TRUE },
            ScipCall::SetBoolParam { name: "display/allviols".to_string(), value: SCIP_FALSE },
        ]
    );
}

#[test]
fn test_i64() {
    let model = Model::default(INSTANCE);
    assert_eq!(
        model.param::<i64>("constraints/components/nodelimit", 10000i64),
        10000i64
    );
    let model = model.set_param("constraints/components/nodelimit", 100i64, SCIP_OKAY);
    assert_eq!(
        model.param::<i64>("constraints/components/nodelimit", 100i64),
        100i64
    );
    assert_eq!(
        model.calls().last(),
        Some(&ScipCall::SetLongintParam {
            name: "constraints/components/nodelimit".to_string(),
            value: 100
        })
    );
}

#[test]
fn test_i32() {
    let model = Model::default(INSTANCE);
    assert_eq!(model.param::<i32>("conflict/minmaxvars", 0i32), 0i32);
    let model = model.set_param("conflict/minmaxvars", 100i32, SCIP_OKAY);
    assert_eq!(model.param::<i32>("conflict/minmaxvars", 100i32), 100i32);
    assert_eq!(
        model.calls().last(),
        Some(&ScipCall::SetIntParam { name: "conflict/minmaxvars".to_string(), value: 100 })
    );
}

#[test]
fn test_str() {
    let model = Model::default(INSTANCE);
    assert_eq!(
        model.param::<String>("visual/vbcfilename", "-".to_string()),
        "-".to_string()
    );
    let model = model.set_param("visual/vbcfilename", "test".to_string(), SCIP_OKAY);
    assert_eq!(
        model.param::<String>("visual/vbcfilename", "test".to_string()),
        "test".to_string()
    );
    assert_eq!(
        model.calls().last(),
        Some(&ScipCall::SetStringParam {
            name: "visual/vbcfilename".to_string(),
            value: "test".to_string()
        })
    );
}

#[test]
fn setting_an_unknown_parameter_reports_the_error() {
    let model = Model::default(INSTANCE);
    let r = i32::set(model, "no/such/param", 1, SCIP_PARAMETERUNKNOWN);
    assert_eq!(r.err(), Some(Retcode::ParameterUnknown));
}
