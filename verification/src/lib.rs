//! A verified core for a safe interface to the SCIP optimization suite.
//!
//! The library holds the Rust-side logic of the interface: the reading of
//! SCIP's return, status and result codes, event and timing masks, the plugin
//! builders and what plugin callbacks answer SCIP, the typestate of a model
//! and the calls it makes on SCIP, and the grammar behind the `expr!` /
//! `cons!` macros. What SCIP answers is handed to the library as plain
//! values; the calls it decides on are recorded for the runtime that makes
//! them.

pub mod retcode;
pub mod status;
pub mod eventhdlr;
pub mod result;
pub mod scip;
pub mod branchrule;
pub mod col;
pub mod conshdlr;
pub mod constraint;
pub mod heuristic;
pub mod model;
pub mod node;
pub mod nodesel;
pub mod pricer;
pub mod row;
pub mod scip_expr;
pub mod separator;
pub mod solution;
pub mod variable;
pub mod builder;
pub mod diving;
pub mod probing;
pub mod param;
/// The grammar behind the expression and constraint macros.
pub mod grammar;
