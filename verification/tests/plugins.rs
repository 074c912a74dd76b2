//! Plugins: what including them asks of SCIP, and what their callbacks
//! answer it.
//!
//! The SCIP instance is known by its address; SCIP's answers, and the
//! callback invocations SCIP would make, are driven by these tests.

use russcip::builder::nodesel::nodesel;
use russcip::conshdlr::{conshdlr_check, conshdlr_enforce, ConshdlrResult, Conshdlr, SCIPConshdlr};
use russcip::eventhdlr::{EventMask, Eventhdlr};
use russcip::model::{Model, Solving};
use russcip::node::Node;
use russcip::nodesel::{comparison_result, selected_node, NodeSel};
use russcip::result::{SCIP_CUTOFF, SCIP_FEASIBLE, SCIP_INFEASIBLE, SCIP_SEPARATED};
use russcip::retcode::SCIP_OKAY;
use russcip::scip::ScipCall;
use russcip::separator::{sepa_exec_lp, SCIPSeparator, SeparationResult, Separator};
use russcip::solution::Solution;
use russcip::status::{Status, SCIP_STATUS_INFEASIBLE, SCIP_STATUS_NODELIMIT};
use std::cell::RefCell;
use std::cmp::Ordering;
use std::rc::Rc;

const INSTANCE: u64 = 0x5c1b_0000;

struct AllInfeasibleConshdlr;

impl Conshdlr for AllInfeasibleConshdlr {
    fn check(&mut self, _model: Model<Solving>, _conshdlr: SCIPConshdlr, _solution: &Solution) -> bool {
        false
    }

    fn enforce(&mut self, _model: Model<Solving>, _conshdlr: SCIPConshdlr) -> ConshdlrResult {
        ConshdlrResult::CutOff
    }
}

#[test]
fn all_inf_conshdlr() {
    let mut model = Model::default(INSTANCE);
    model.include_conshdlr("AllInfeasibleConshdlr", "All infeasible constraint handler", -1, -1);
    assert_eq!(
        model.calls().last(),
        Some(&ScipCall::IncludeConshdlr {
            name: "AllInfeasibleConshdlr".to_string(),
            desc: "All infeasible constraint handler".to_string(),
            enfopriority: -1,
            chckpriority: -1,
        })
    );

    // The callbacks SCIP makes while solving.
    let mut h = AllInfeasibleConshdlr;
    let handler = SCIPConshdlr::from_raw(0xc0);
    let checked = conshdlr_check(&mut h, Model::solving(INSTANCE), SCIPConshdlr::from_raw(0xc0), &Solution::from_raw(0x50));
    assert_eq!(checked, (false, SCIP_INFEASIBLE));
    let enforced = conshdlr_enforce(&mut h, Model::solving(INSTANCE), handler);
    assert_eq!(enforced, (ConshdlrResult::CutOff, SCIP_CUTOFF));

    let solved = model.solve();
    assert_eq!(solved.status(SCIP_STATUS_INFEASIBLE), Status::Infeasible);
}

struct CountingEventHdlr {
    counter: Rc<RefCell<usize>>,
}

impl Eventhdlr for CountingEventHdlr {
    fn get_type(&self) -> EventMask {
        EventMask::LP_EVENT() | EventMask::NODE_EVENT()
    }

    fn execute(&mut self) {
        *self.counter.borrow_mut() += 1;
    }
}

#[test]
fn test_eventhdlr() {
    let counter = Rc::new(RefCell::new(0));
    let mut eh = CountingEventHdlr { counter: counter.clone() };

    let mut model = Model::new(INSTANCE)
        .hide_output()
        .include_default_plugins()
        .read_prob("data/test/simple.lp", SCIP_OKAY)
        .unwrap();
    model.include_eventhdlr("PanickingEventHdlr", "");
    assert_eq!(
        model.calls().last(),
        Some(&ScipCall::IncludeEventhdlr { name: "PanickingEventHdlr".to_string(), desc: String::new() })
    );
    let mask = u64::from(eh.get_type());
    assert_eq!(mask, u64::from(EventMask::LP_EVENT()) | u64::from(EventMask::NODE_EVENT()));
    let _solved = model.solve();

    // SCIP reports an LP event and two node events while solving.
    eh.execute();
    eh.execute();
    eh.execute();
    assert!(*counter.borrow() > 1);
}

struct DfsNodeSel {
    select_calls: Rc<RefCell<usize>>,
    depths: Vec<(u64, i32)>,
}

impl DfsNodeSel {
    fn depth_of(&self, n: Node) -> usize {
        let raw = self.depths.iter().find(|(a, _)| *a == n.inner()).map(|(_, d)| *d).unwrap();
        n.depth(raw)
    }
}

impl NodeSel for DfsNodeSel {
    fn select(&mut self, _model: Model<Solving>) -> Option<Node> {
        *self.select_calls.borrow_mut() += 1;
        None
    }

    fn comp(&mut self, node1: Node, node2: Node) -> Ordering {
        // Deeper nodes first (depth-first search).
        self.depth_of(node2).cmp(&self.depth_of(node1))
    }
}

#[test]
fn dfs_node_selector() {
    let select_calls = Rc::new(RefCell::new(0));
    let ns = DfsNodeSel { select_calls: select_calls.clone(), depths: vec![(0xa, 1), (0xb, 4)] };

    let mut model = Model::new(INSTANCE)
        .hide_output()
        .set_longint_param("limits/nodes", 200, SCIP_OKAY)
        .unwrap()
        .include_default_plugins()
        .read_prob("data/test/gen-ip054.mps", SCIP_OKAY)
        .unwrap();

    let mut ns = model.add(nodesel(ns).name("DfsNodeSel").desc("A depth-first-search node selector"));
    assert_eq!(
        model.calls().last(),
        Some(&ScipCall::IncludeNodesel {
            name: "DfsNodeSel".to_string(),
            desc: "A depth-first-search node selector".to_string(),
            std_priority: 1000000,
            mem_save_priority: 1000000,
        })
    );

    // The callbacks SCIP makes while solving: it focuses three nodes and
    // asks once more when none is left.
    let shallow = Node::from_raw(0xa);
    let deep = Node::from_raw(0xb);
    assert_eq!(comparison_result(ns.comp(deep, shallow)), -1);
    assert_eq!(comparison_result(ns.comp(shallow, deep)), 1);
    assert_eq!(comparison_result(ns.comp(deep, deep)), 0);
    for _ in 0..4 {
        assert_eq!(selected_node(ns.select(Model::solving(INSTANCE))), 0);
    }

    let solved = model.solve();
    let n_nodes = solved.n_nodes(3);
    assert!(matches!(solved.status(SCIP_STATUS_NODELIMIT), Status::Optimal | Status::NodeLimit));
    assert_eq!(*select_calls.borrow(), n_nodes + 1);
}

struct InternalSCIPNodeSelTester;

impl NodeSel for InternalSCIPNodeSelTester {
    fn select(&mut self, _model: Model<Solving>) -> Option<Node> {
        None
    }

    fn comp(&mut self, _node1: Node, _node2: Node) -> Ordering {
        Ordering::Equal
    }
}

#[test]
fn find_nodesel() {
    let mut model = Model::new(INSTANCE)
        .hide_output()
        .include_default_plugins()
        .read_prob("data/test/simple.mps", SCIP_OKAY)
        .unwrap();

    // A default SCIP node selector should be found.
    assert!(model.find_nodesel("bfs", 0x7000).is_some());
    // A non-existing node selector should not be found.
    assert!(model.find_nodesel("does-not-exist", 0).is_none());
    // Our custom node selector is not included yet.
    assert!(model.find_nodesel("CustomNodeSel", 0).is_none());

    model.add(nodesel(InternalSCIPNodeSelTester).name("CustomNodeSel").desc("A custom node selector"));

    // After inclusion it should be found, with the high default priorities.
    let found = model.find_nodesel("CustomNodeSel", 0x7100).expect("custom node selector should be found after inclusion");
    assert_eq!(found.inner(), 0x7100);
    assert_eq!(
        model.calls().last(),
        Some(&ScipCall::IncludeNodesel {
            name: "CustomNodeSel".to_string(),
            desc: "A custom node selector".to_string(),
            std_priority: 1000000,
            mem_save_priority: 1000000,
        })
    );
}

struct AllFeasibleConshdlr;

impl Conshdlr for AllFeasibleConshdlr {
    fn check(&mut self, _model: Model<Solving>, _conshdlr: SCIPConshdlr, _solution: &Solution) -> bool {
        true
    }

    fn enforce(&mut self, _model: Model<Solving>, _conshdlr: SCIPConshdlr) -> ConshdlrResult {
        ConshdlrResult::Feasible
    }
}

#[test]
fn a_feasible_check_is_reported_feasible() {
    let mut h = AllFeasibleConshdlr;
    let checked = conshdlr_check(&mut h, Model::solving(INSTANCE), SCIPConshdlr::from_raw(0xc0), &Solution::from_raw(0x50));
    assert_eq!(checked, (true, SCIP_FEASIBLE));
    let enforced = conshdlr_enforce(&mut h, Model::solving(INSTANCE), SCIPConshdlr::from_raw(0xc0));
    assert_eq!(enforced, (ConshdlrResult::Feasible, SCIP_FEASIBLE));
}

struct CuttingSeparator {
    calls: u32,
}

impl Separator for CuttingSeparator {
    fn execute_lp(&mut self, _model: Model<Solving>, _sep: SCIPSeparator) -> SeparationResult {
        self.calls += 1;
        SeparationResult::Separated
    }
}

#[test]
fn a_separator_answer_reaches_scip_as_its_code() {
    let mut s = CuttingSeparator { calls: 0 };
    let r = sepa_exec_lp(&mut s, Model::solving(INSTANCE), SCIPSeparator::from_raw(0x5e));
    assert_eq!(r, (SeparationResult::Separated, SCIP_SEPARATED));
    assert_eq!(s.calls, 1);
}
