//! Columns and branching rules, with the answers SCIP gives as inputs.

use russcip::branchrule::SCIPBranchRule;
use russcip::col::Col;
use russcip::row::{BasisStatus, SCIP_BASESTAT_BASIC, SCIP_BASESTAT_LOWER, SCIP_BASESTAT_UPPER, SCIP_BASESTAT_ZERO};

#[test]
fn column_positions_are_absent_where_scip_reports_a_negative_one() {
    let col = Col::from_raw(0xc01);
    assert_eq!(col.var_probindex(-1), None);
    assert_eq!(col.var_probindex(4), Some(4));
    assert_eq!(col.lp_pos(-1), None);
    assert_eq!(col.lp_pos(0), Some(0));
    assert_eq!(col.lp_depth(-1), None);
    assert_eq!(col.lp_depth(2), Some(2));
    assert_eq!(col.strong_branching_node(-1), None);
    assert_eq!(col.strong_branching_node(17), Some(17));
}

#[test]
fn column_flags_and_counts() {
    let col = Col::from_raw(0xc01);
    assert!(col.is_integral(1));
    assert!(!col.is_integral(0));
    assert!(col.is_removable(1));
    assert!(!col.is_in_lp(0));
    assert_eq!(col.n_non_zeros(3), 3);
    assert_eq!(col.n_lp_non_zeros(2), 2);
    assert_eq!(col.n_strong_branches(0), 0);
    assert_eq!(col.age(5), 5);
    let rows: Vec<u64> = col.rows(&vec![0xa1, 0xa2]).iter().map(|r| r.inner()).collect();
    assert_eq!(rows, vec![0xa1, 0xa2]);
}

#[test]
fn basis_statuses_are_read_from_their_codes() {
    let col = Col::from_raw(0xc01);
    assert_eq!(col.basis_status(SCIP_BASESTAT_LOWER), BasisStatus::Lower);
    assert_eq!(col.basis_status(SCIP_BASESTAT_BASIC), BasisStatus::Basic);
    assert_eq!(col.basis_status(SCIP_BASESTAT_UPPER), BasisStatus::Upper);
    assert_eq!(col.basis_status(SCIP_BASESTAT_ZERO), BasisStatus::Zero);
    assert_eq!(col.basis_status(9), BasisStatus::Unknown);
}

#[test]
fn branch_rule_settings_are_what_scip_reports() {
    let rule = SCIPBranchRule::from_raw(0xb1);
    assert_eq!(rule.name("mostinf"), "mostinf");
    assert_eq!(rule.desc("most infeasible branching"), "most infeasible branching");
    assert_eq!(rule.priority(-10), -10);
    assert_eq!(rule.maxdepth(-1), -1);
}
