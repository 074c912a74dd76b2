//! The library's laws, each on concrete values.

use russcip::constraint::Constraint;
use russcip::eventhdlr::EventMask;
use russcip::grammar::numeral::numeral;
use russcip::builder::heur::heur;
use russcip::heuristic::{heur_exec_result, HeurFault, HeurResult, HeurTiming, Heuristic};
use russcip::model::{Model, Solving};
use std::cell::Cell;
use russcip::result::{
    from_scip_bool, to_scip_bool, SCIP_CUTOFF, SCIP_DELAYED, SCIP_DIDNOTFIND, SCIP_DIDNOTRUN, SCIP_FOUNDSOL,
};
use russcip::retcode::{scip_call, Retcode, SCIP_NOMEMORY, SCIP_OKAY, SCIP_PARAMETERWRONGVAL};
use russcip::separator::SeparationResult;
use russcip::status::{Status, SCIP_STATUS_INFEASIBLE, SCIP_STATUS_OPTIMAL, SCIP_STATUS_UNKNOWN};
use russcip::variable::{VarStatus, VarType};

#[test]
fn return_codes_round_trip() {
    for code in -20..=1 {
        assert_eq!(i32::from(Retcode::from(code)), code);
    }
    assert_eq!(i32::from(Retcode::from(42)), 42);
    assert_eq!(Retcode::from(SCIP_OKAY), Retcode::Okay);
    assert_eq!(Retcode::from(SCIP_NOMEMORY), Retcode::NoMemory);
    assert_eq!(scip_call(SCIP_OKAY), Ok(()));
    assert_eq!(scip_call(SCIP_PARAMETERWRONGVAL), Err(Retcode::ParameterWrongVal));
}

#[test]
fn status_codes_read_back() {
    assert_eq!(Status::from_code(SCIP_STATUS_UNKNOWN), Status::Unknown);
    assert_eq!(Status::from_code(SCIP_STATUS_OPTIMAL), Status::Optimal);
    assert_eq!(Status::from_code(SCIP_STATUS_INFEASIBLE), Status::Infeasible);
}

#[test]
fn event_masks_form_a_union() {
    let a = EventMask::LP_EVENT();
    let b = EventMask::NODE_EVENT();
    let c = EventMask::SOL_FOUND();
    assert_eq!(u64::from(a | b), u64::from(b | a));
    assert_eq!(u64::from((a | b) | c), u64::from(a | (b | c)));
    assert_eq!(u64::from(a | a), u64::from(a));
    assert_eq!(u64::from(a | EventMask::DISABLED()), u64::from(a));
    assert_eq!(u64::from(a | b), u64::from(a) | u64::from(b));
    let mut m = a;
    m.bitor_assign(b);
    assert_eq!(u64::from(m), u64::from(a | b));
    assert_eq!(u64::from(EventMask::from_bits(u64::from(c))), u64::from(c));
}

#[test]
fn heuristic_timings_form_a_union() {
    let t = HeurTiming::BEFORE_NODE() | HeurTiming::AFTER_LP_NODE();
    assert!(t.contains(HeurTiming::BEFORE_NODE()));
    assert!(t.contains(HeurTiming::AFTER_LP_NODE()));
    assert!(!t.contains(HeurTiming::DURING_LP_LOOP()));
    assert_eq!(HeurTiming::from_bits(t.bits()).bits(), t.bits());
}

#[test]
fn heuristic_results_are_reported() {
    assert_eq!(heur_exec_result(HeurResult::FoundSol, 1, 2), Ok(SCIP_FOUNDSOL));
    assert_eq!(heur_exec_result(HeurResult::NoSolFound, 1, 1), Ok(SCIP_DIDNOTFIND));
    assert_eq!(heur_exec_result(HeurResult::DidNotRun, 1, 1), Ok(SCIP_DIDNOTRUN));
    assert_eq!(heur_exec_result(HeurResult::Delayed, 1, 1), Ok(SCIP_DELAYED));
    assert_eq!(heur_exec_result(HeurResult::NoSolFound, 1, 0), Ok(SCIP_DIDNOTFIND));
}

#[test]
fn a_claimed_solution_that_was_not_added_stops_the_solve() {
    assert_eq!(heur_exec_result(HeurResult::FoundSol, 1, 1), Err(HeurFault::NoSolutionAdded));
    assert_eq!(heur_exec_result(HeurResult::FoundSol, 3, 2), Err(HeurFault::NoSolutionAdded));
}

struct Finder {
    calls: u32,
    answer: HeurResult,
}

impl Heuristic for Finder {
    fn execute(&mut self, _model: Model<Solving>, _timing: HeurTiming, _node_inf: bool) -> HeurResult {
        self.calls += 1;
        self.answer
    }
}

#[test]
fn an_included_heuristic_runs_through_its_decision() {
    let mut model = Model::new(0x5c1b).include_default_plugins().create_prob("p");
    let mut inc = model.add(heur(Finder { calls: 0, answer: HeurResult::FoundSol }).name("finder"));
    assert_eq!(inc.name_str(), "finder");
    let sols = Cell::new(0i64);
    let n_sols = || {
        let n = sols.get();
        sols.set(n + 1);
        n
    };
    let (res, before, after, outcome) = inc.exec(Model::solving(0x5c1b), HeurTiming::BEFORE_NODE(), false, &n_sols);
    assert_eq!((res, before, after, outcome), (HeurResult::FoundSol, 0, 1, Ok(SCIP_FOUNDSOL)));
    let (_, _, _, outcome) = inc.exec(Model::solving(0x5c1b), HeurTiming::BEFORE_NODE(), false, &|| 2i64);
    assert_eq!(outcome, Err(HeurFault::NoSolutionAdded));
}

#[test]
fn separation_results_round_trip() {
    for r in [
        SeparationResult::Cutoff,
        SeparationResult::ConsAdded,
        SeparationResult::ReducedDomain,
        SeparationResult::Separated,
        SeparationResult::DidNotFind,
        SeparationResult::DidNotRun,
        SeparationResult::Delayed,
        SeparationResult::NewRound,
    ] {
        assert_eq!(SeparationResult::from_code(u32::from(r)), r);
    }
    assert_eq!(u32::from(SeparationResult::Cutoff), SCIP_CUTOFF);
}

#[test]
fn variable_types_round_trip() {
    for t in [VarType::Continuous, VarType::Integer, VarType::Binary, VarType::ImplInt] {
        assert_eq!(VarType::from_code(u32::from(t)), t);
    }
    assert_eq!(VarStatus::from_code(0), VarStatus::Original);
}

#[test]
fn scip_booleans_round_trip() {
    assert!(from_scip_bool(to_scip_bool(true)));
    assert!(!from_scip_bool(to_scip_bool(false)));
}

#[test]
fn a_downgraded_constraint_upgrades_while_its_model_lives() {
    let c = Constraint::from_raw(0xc0, 0x5c1b_0000);
    let r = c.downgrade();
    assert_eq!(r.upgrade(true), Some(c));
    assert_eq!(r.upgrade(false), None);
}

#[test]
fn a_numeral_reads_back_as_itself() {
    for lit in ["1_000", "2.0_f64", "1.5e3f32", "7u8", "0.25", "6E-2"] {
        let cs: Vec<char> = lit.chars().collect();
        let n = numeral(&cs).unwrap();
        assert_eq!(numeral(&n), Some(n.clone()));
    }
}
