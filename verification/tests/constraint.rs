//! Constraints and the references that do not own them, with the answers
//! SCIP gives as inputs.

use russcip::constraint::Constraint;
use russcip::retcode::{SCIP_INVALIDCALL, SCIP_OKAY};

const INSTANCE: u64 = 0x5c1b_0000;

#[test]
fn test_constraint_transformed_no_transformed() {
    let cons = Constraint::from_raw(0xc0, INSTANCE);
    // SCIP writes the null address where the constraint has no transformed one.
    assert!(cons.transformed(SCIP_OKAY, 0).is_none());
    assert_eq!(cons.inner(), 0xc0);
}

#[test]
fn test_constraint_transformed_with_transformed() {
    let cons = Constraint::from_raw(0xc0, INSTANCE);
    let transformed = cons.transformed(SCIP_OKAY, 0xd0);
    assert!(transformed.is_some());
    let t = transformed.unwrap();
    assert_eq!(t.inner(), 0xd0);
    assert_eq!(t.downgrade().upgrade(true).map(|c| c.inner()), Some(0xd0));
}

#[test]
fn a_failed_lookup_of_the_transformed_constraint_gives_none() {
    let cons = Constraint::from_raw(0xc0, INSTANCE);
    assert!(cons.transformed(SCIP_INVALIDCALL, 0xd0).is_none());
}

#[test]
fn cons_ref_does_not_keep_the_model_alive() {
    let c = Constraint::from_raw(0xc0, INSTANCE);
    let stored = c.downgrade();
    // While a strong reference to the instance lives, the reference upgrades
    // to the same constraint.
    let back = stored.upgrade(true).expect("model is alive");
    assert_eq!(back, c);
    assert_eq!(back.inner(), 0xc0);
    // Once the last strong reference is gone, it does not.
    assert!(stored.upgrade(false).is_none());
}
