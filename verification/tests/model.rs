//! The calls a model makes on SCIP as it is set up, solved and torn down.
//!
//! The SCIP instance is known by its address, and what SCIP answers to the
//! calls the model makes is an input of these tests.

use russcip::branchrule::{branching_report, BranchingChoice, BranchingFault, BranchingReport};
use russcip::builder::pricer::{pricer, PricerBuilder};
use russcip::builder::CanBeAddedToModel;
use russcip::model::{Model, ModelWithProblem, ObjSense, ParamSetting, ProblemCreated, Unsolved, WithSolutions};
use russcip::pricer::{pricing_report, PricerResultState, PricingFault};
use russcip::result::{SCIP_BRANCHED, SCIP_CUTOFF, SCIP_DIDNOTRUN, SCIP_FALSE, SCIP_SUCCESS, SCIP_TRUE};
use russcip::retcode::{Retcode, SCIP_ERROR, SCIP_NOFILE, SCIP_NOMEMORY, SCIP_OKAY, SCIP_PARAMETERWRONGVAL};
use russcip::scip::{ScipCall, SetppcKind, SCIP_STAGE_EXITSOLVE, SCIP_STAGE_PROBLEM};
use russcip::status::{Status, SCIP_STATUS_MEMLIMIT, SCIP_STATUS_OPTIMAL, SCIP_STATUS_TIMELIMIT, SCIP_STATUS_UNKNOWN};
use russcip::variable::{VarType, Variable};

const INSTANCE: u64 = 0x5c1b_0000;

fn simple_lp(model: Model<Unsolved>) -> Model<ProblemCreated> {
    model
        .include_default_plugins()
        .read_prob("data/test/simple.lp", SCIP_OKAY)
        .unwrap()
}

fn test_prob(sense: ObjSense) -> Model<ProblemCreated> {
    Model::new(INSTANCE)
        .hide_output()
        .include_default_plugins()
        .create_prob("test")
        .set_obj_sense(sense)
}

#[test]
fn set_obj_integral() {
    let model = simple_lp(Model::new(INSTANCE).hide_output()).set_obj_integral().solve();
    assert_eq!(model.status(SCIP_STATUS_OPTIMAL), Status::Optimal);
    let calls = model.calls();
    assert_eq!(calls[calls.len() - 2..].to_vec(), vec![ScipCall::SetObjIntegral, ScipCall::Solve]);
}

#[test]
fn set_time_limit() {
    let model = simple_lp(Model::new(INSTANCE).hide_output().set_time_limit(0)).solve();
    assert_eq!(model.status(SCIP_STATUS_TIMELIMIT), Status::TimeLimit);
    assert_eq!(model.n_nodes(0), 0);
    assert_eq!(model.n_lp_iterations(0), 0);
    assert!(model.calls().contains(&ScipCall::SetRealParamWhole { name: "limits/time".to_string(), value: 0 }));
}

#[test]
fn set_memory_limit() {
    let model = simple_lp(Model::new(INSTANCE).hide_output().set_memory_limit(0)).solve();
    assert_eq!(model.status(SCIP_STATUS_MEMLIMIT), Status::MemoryLimit);
    assert_eq!(model.n_nodes(0), 0);
    assert_eq!(model.n_lp_iterations(0), 0);
    assert!(model.calls().contains(&ScipCall::SetRealParamWhole { name: "limits/memory".to_string(), value: 0 }));
}

#[test]
fn set_heurs_presolving_separation() {
    let model = simple_lp(
        Model::new(INSTANCE)
            .hide_output()
            .set_heuristics(ParamSetting::Aggressive)
            .set_presolving(ParamSetting::Fast)
            .set_separating(ParamSetting::Off),
    )
    .solve();
    assert_eq!(model.status(SCIP_STATUS_OPTIMAL), Status::Optimal);
    let calls = model.calls();
    assert_eq!(
        calls[2..5].to_vec(),
        vec![
            ScipCall::SetHeuristics { setting: 1, quiet: SCIP_TRUE },
            ScipCall::SetPresolving { setting: 2, quiet: SCIP_TRUE },
            ScipCall::SetSeparating { setting: 3, quiet: SCIP_TRUE },
        ]
    );
}

#[test]
fn print_version() {
    assert_eq!(Model::new(INSTANCE).print_version(), ScipCall::PrintVersion);
}

#[test]
fn set_bool_param() {
    let model = Model::new(INSTANCE)
        .hide_output()
        .set_bool_param("display/allviols", true, SCIP_OKAY)
        .unwrap();
    assert_eq!(
        model.calls().last(),
        Some(&ScipCall::SetBoolParam { name: "display/allviols".to_string(), value: SCIP_TRUE })
    );
}

#[test]
fn set_int_param() {
    let res = Model::new(INSTANCE)
        .hide_output()
        .set_int_param("display/verblevel", -1, SCIP_PARAMETERWRONGVAL)
        .unwrap_err();
    assert_eq!(res, Retcode::ParameterWrongVal);
}

#[test]
fn set_param_all_states() {
    let model = Model::new(INSTANCE)
        .set_int_param("display/verblevel", 0, SCIP_OKAY)
        .unwrap()
        .include_default_plugins()
        .set_int_param("display/verblevel", 0, SCIP_OKAY)
        .unwrap()
        .read_prob("data/test/simple.lp", SCIP_OKAY)
        .unwrap()
        .set_int_param("display/verblevel", 0, SCIP_OKAY)
        .unwrap()
        .solve()
        .set_int_param("display/verblevel", 0, SCIP_OKAY)
        .unwrap();
    let verblevel = ScipCall::SetIntParam { name: "display/verblevel".to_string(), value: 0 };
    assert_eq!(model.calls().iter().filter(|c| **c == verblevel).count(), 4);
}

#[test]
fn set_cover_partitioning_and_packing() {
    let mut model = test_prob(ObjSense::Minimize);
    let x1 = Variable::from_raw(0x100);
    let x2 = Variable::from_raw(0x200);
    let cons1 = model.add_cons_set_part(&vec![], &vec![], "c", 0x1000);
    model.add_cons_coef_setppc(&cons1, &x1, VarType::Binary);
    let cover = model.add_cons_set_cover(&vec![x2], &vec![VarType::Binary], "c", 0x2000);
    let pack = model.add_cons_set_pack(&vec![Variable::from_raw(0x200)], &vec![VarType::Binary], "c", 0x3000);
    assert_eq!((cons1.inner(), cover.inner(), pack.inner()), (0x1000, 0x2000, 0x3000));
    let calls = model.calls();
    assert_eq!(
        calls[calls.len() - 9..].to_vec(),
        vec![
            ScipCall::CreateConsBasicSetppc { kind: SetppcKind::Partitioning, name: "c".to_string() },
            ScipCall::AddCons { cons: 0x1000 },
            ScipCall::AddCoefSetppc { cons: 0x1000, var: 0x100 },
            ScipCall::CreateConsBasicSetppc { kind: SetppcKind::Covering, name: "c".to_string() },
            ScipCall::AddCoefSetppc { cons: 0x2000, var: 0x200 },
            ScipCall::AddCons { cons: 0x2000 },
            ScipCall::CreateConsBasicSetppc { kind: SetppcKind::Packing, name: "c".to_string() },
            ScipCall::AddCoefSetppc { cons: 0x3000, var: 0x200 },
            ScipCall::AddCons { cons: 0x3000 },
        ]
    );
    let model = model.solve();
    assert_eq!(model.status(SCIP_STATUS_OPTIMAL), Status::Optimal);
}

#[test]
fn set_constraints_add_every_variable_in_order() {
    let mut model = test_prob(ObjSense::Maximize);
    let vars = vec![Variable::from_raw(7), Variable::from_raw(3), Variable::from_raw(5)];
    let types = vec![VarType::Binary; 3];
    let cons = model.add_cons_set_pack(&vars, &types, "pack", 0xc0);
    assert_eq!(cons.inner(), 0xc0);
    let calls = model.calls();
    assert_eq!(
        calls[calls.len() - 5..].to_vec(),
        vec![
            ScipCall::CreateConsBasicSetppc { kind: SetppcKind::Packing, name: "pack".to_string() },
            ScipCall::AddCoefSetppc { cons: 0xc0, var: 7 },
            ScipCall::AddCoefSetppc { cons: 0xc0, var: 3 },
            ScipCall::AddCoefSetppc { cons: 0xc0, var: 5 },
            ScipCall::AddCons { cons: 0xc0 },
        ]
    );
}

#[test]
fn pricer_builder_includes_and_activates() {
    let b: PricerBuilder<u8> = pricer(7u8).name("MyPricer").desc("A custom pricer").priority(3).delay(true);
    let mut model = test_prob(ObjSense::Minimize);
    let back = b.add(&mut model);
    assert_eq!(back.name_str(), "MyPricer");
    let calls = model.calls();
    assert_eq!(
        calls[calls.len() - 2..].to_vec(),
        vec![
            ScipCall::IncludePricer {
                name: "MyPricer".to_string(),
                desc: "A custom pricer".to_string(),
                priority: 3,
                delay: SCIP_TRUE,
            },
            ScipCall::ActivatePricer { name: "MyPricer".to_string() },
        ]
    );
}

#[test]
fn pricer_builder_defaults() {
    let mut model = test_prob(ObjSense::Minimize);
    PricerBuilder::new(()).add(&mut model);
    let calls = model.calls();
    assert_eq!(
        calls[calls.len() - 2..].to_vec(),
        vec![
            ScipCall::IncludePricer { name: String::new(), desc: String::new(), priority: 0, delay: SCIP_FALSE },
            ScipCall::ActivatePricer { name: String::new() },
        ]
    );
}

#[test]
fn pricing_reports() {
    let r = pricing_report(PricerResultState::StopEarly, false, true, 3, 3).unwrap();
    assert_eq!((r.result, r.stop_early, r.report_lower_bound), (SCIP_SUCCESS, true, true));
    let r = pricing_report(PricerResultState::FoundColumns, true, true, 3, 4).unwrap();
    assert_eq!((r.result, r.stop_early, r.report_lower_bound), (SCIP_SUCCESS, false, false));
    let r = pricing_report(PricerResultState::DidNotRun, false, false, 3, 3).unwrap();
    assert_eq!((r.result, r.stop_early, r.report_lower_bound), (SCIP_DIDNOTRUN, false, false));
    let r = pricing_report(PricerResultState::NoColumns, true, false, 3, 3).unwrap();
    assert_eq!((r.result, r.stop_early, r.report_lower_bound), (SCIP_SUCCESS, false, false));
}

#[test]
fn pricing_faults() {
    assert_eq!(
        pricing_report(PricerResultState::StopEarly, true, false, 3, 3),
        Err(PricingFault::FarkasStopEarly)
    );
    assert_eq!(
        pricing_report(PricerResultState::FoundColumns, false, true, 3, 3),
        Err(PricingFault::NoColumnsAdded)
    );
    assert_eq!(
        pricing_report(PricerResultState::StopEarly, true, false, 3, 4),
        Err(PricingFault::FarkasStopEarly)
    );
}

#[test]
fn included_pricer_runs_through_its_decision() {
    let mut model = test_prob(ObjSense::Minimize);
    let mut inc = pricer(0u32).name("counting").add(&mut model);
    let counts = std::cell::Cell::new(10);
    let n_vars = || {
        let n = counts.get();
        counts.set(n + 1);
        n
    };
    let (state, has_lb, before, after, outcome) = inc.exec(false, &n_vars, |calls: &mut u32| {
        *calls += 1;
        (PricerResultState::FoundColumns, false)
    });
    assert_eq!((state, has_lb, before, after), (PricerResultState::FoundColumns, false, 10, 11));
    assert_eq!(outcome.unwrap().result, SCIP_SUCCESS);
    let (_, _, _, _, outcome) = inc.exec(false, &|| 4, |_: &mut u32| (PricerResultState::FoundColumns, false));
    assert_eq!(outcome, Err(PricingFault::NoColumnsAdded));
    assert_eq!(inc.name_str(), "counting");
}

#[test]
fn branching_reports() {
    assert_eq!(
        branching_report(BranchingChoice::BranchOn { var_prob_id: 4 }, 0),
        Ok(BranchingReport { result: SCIP_BRANCHED, branch_on: Some(4) })
    );
    assert_eq!(
        branching_report(BranchingChoice::CustomBranching, 2),
        Ok(BranchingReport { result: SCIP_BRANCHED, branch_on: None })
    );
    assert_eq!(
        branching_report(BranchingChoice::CutOff, 0),
        Ok(BranchingReport { result: SCIP_CUTOFF, branch_on: None })
    );
    assert_eq!(u32::from(BranchingChoice::DidNotRun), SCIP_DIDNOTRUN);
}

#[test]
fn branching_faults() {
    assert_eq!(branching_report(BranchingChoice::CustomBranching, 0), Err(BranchingFault::NoChildCreated));
    assert_eq!(branching_report(BranchingChoice::CustomBranching, -1), Err(BranchingFault::NoChildCreated));
    assert!(branching_report(BranchingChoice::CutOff, 0).is_ok());
}

#[test]
fn try_new_reports_creation() {
    let m = Model::try_new(0x5c1b, SCIP_OKAY).unwrap();
    assert_eq!(m.calls(), &vec![ScipCall::Create]);
    assert_eq!(m.status(SCIP_STATUS_UNKNOWN), Status::Unknown);
    assert_eq!(Model::try_new(0, SCIP_NOMEMORY).err(), Some(Retcode::NoMemory));
    assert_eq!(Model::try_new(0, SCIP_ERROR).err(), Some(Retcode::Error));
}

#[test]
fn teardown_releases_problem_data_before_freeing() {
    let model = test_prob(ObjSense::Minimize);
    let calls = model.teardown_calls(SCIP_STAGE_EXITSOLVE, &vec![1, 2], &vec![9], &vec![4]);
    assert_eq!(
        calls,
        vec![
            ScipCall::ReleaseVar { var: 1 },
            ScipCall::ReleaseVar { var: 2 },
            ScipCall::ReleaseVar { var: 9 },
            ScipCall::ReleaseCons { cons: 4 },
            ScipCall::Free,
        ]
    );
    let calls = model.teardown_calls(SCIP_STAGE_PROBLEM, &vec![], &vec![], &vec![]);
    assert_eq!(calls, vec![ScipCall::Free]);
    let calls = model.teardown_calls(0, &vec![1], &vec![], &vec![4]);
    assert_eq!(calls, vec![ScipCall::Free]);
    let calls = model.teardown_calls(2, &vec![1], &vec![], &vec![4]);
    assert_eq!(calls, vec![ScipCall::Free]);
}

#[test]
fn variables_come_in_the_order_of_their_indices() {
    let model = test_prob(ObjSense::Minimize);
    let reported = vec![(0x30, 2), (0x10, 0), (0x20, 1)];
    let vars: Vec<u64> = model.vars(&reported).iter().map(|v| v.inner()).collect();
    assert_eq!(vars, vec![0x10, 0x20, 0x30]);
    assert_eq!(model.var(&reported, 1).map(|v| v.inner()), Some(0x20));
    assert_eq!(model.var(&reported, 7), None);
    assert_eq!(model.n_vars(3), 3);
    let conss = model.conss(&vec![0xc1, 0xc0]);
    assert_eq!(conss.iter().map(|c| c.inner()).collect::<Vec<_>>(), vec![0xc1, 0xc0]);
    assert_eq!(model.n_conss(2), 2);
}

#[test]
fn a_variable_reported_again_under_an_index_replaces_the_earlier_one() {
    let model = test_prob(ObjSense::Minimize);
    let reported = vec![(0x30, 2), (0x10, 0), (0x31, 2)];
    let vars: Vec<u64> = model.vars(&reported).iter().map(|v| v.inner()).collect();
    assert_eq!(vars, vec![0x10, 0x31]);
    assert_eq!(model.var(&reported, 2).map(|v| v.inner()), Some(0x31));
    assert!(model.vars(&vec![]).is_empty());
}

#[test]
fn writing_the_problem_reports_scips_answer() {
    let mut model = test_prob(ObjSense::Minimize);
    assert_eq!(model.write("test.lp", "lp", SCIP_OKAY), Ok(()));
    assert_eq!(
        model.calls().last(),
        Some(&ScipCall::WriteOrigProblem { path: "test.lp".to_string(), ext: "lp".to_string(), generic_names: SCIP_TRUE })
    );
    assert_eq!(model.write("/nonexistent/test.lp", "lp", SCIP_NOFILE), Err(Retcode::NoFile));
}

#[test]
fn the_best_solution_exists_once_one_was_found() {
    let model = test_prob(ObjSense::Minimize).solve();
    assert_eq!(model.best_sol(0, 0), None);
    assert_eq!(model.best_sol(2, 0x50).map(|s| s.inner()), Some(0x50));
    assert_eq!(model.n_sols(2), 2);
}

#[test]
fn free_transform() {
    let solved = test_prob(ObjSense::Maximize).solve();
    assert_eq!(solved.status(SCIP_STATUS_OPTIMAL), Status::Optimal);
    let second = solved.free_transform();
    let calls = second.calls();
    assert_eq!(calls[calls.len() - 2..].to_vec(), vec![ScipCall::Solve, ScipCall::FreeTransform]);
    let second_solved = second.solve();
    assert_eq!(second_solved.status(SCIP_STATUS_OPTIMAL), Status::Optimal);
    assert_eq!(second_solved.calls().last(), Some(&ScipCall::Solve));
}

#[test]
fn node_after_solving() {
    // The branching rule of the original scenario looks at the focus node
    // when SCIP first calls it: node number 1, at depth 0.
    let model = Model::solving(INSTANCE);
    let node = model.focus_node(0xa0);
    assert_eq!(node.inner(), 0xa0);
    assert_eq!(node.number(1), 1);
    assert_eq!(node.depth(0), 0);
}
