use vstd::prelude::*;

verus! {

/// Trait used to define custom event handlers.
pub trait Eventhdlr {
    /// Returns the type of the event handler.
    fn get_type(&self) -> EventMask;

    /// Executes the event handler.
    fn execute(&mut self);
}

/// Bits of `EventMask::DISABLED`: the event was disabled and has no effect any longer.
pub const DISABLED_BITS: u64 = 0x000000000;
/// Bits of `EventMask::VAR_ADDED`: a variable has been added to the transformed problem.
pub const VAR_ADDED_BITS: u64 = 0x000000001;
/// Bits of `EventMask::VAR_DELETED`: a variable will be deleted from the transformed problem.
pub const VAR_DELETED_BITS: u64 = 0x000000002;
/// Bits of `EventMask::VAR_FIXED`: a variable has been fixed, aggregated, or multi-aggregated.
pub const VAR_FIXED_BITS: u64 = 0x000000004;
/// Bits of `EventMask::VAR_UNLOCKED`: the number of rounding locks of a variable was reduced to zero or one.
pub const VAR_UNLOCKED_BITS: u64 = 0x000000008;
/// Bits of `EventMask::OBJ_CHANGED`: the objective value of a variable has been changed.
pub const OBJ_CHANGED_BITS: u64 = 0x000000010;
/// Bits of `EventMask::GLB_CHANGED`: the global lower bound of a variable has been changed.
pub const GLB_CHANGED_BITS: u64 = 0x000000020;
/// Bits of `EventMask::GUB_CHANGED`: the global upper bound of a variable has been changed.
pub const GUB_CHANGED_BITS: u64 = 0x000000040;
/// Bits of `EventMask::LB_TIGHTENED`: the local lower bound of a variable has been increased.
pub const LB_TIGHTENED_BITS: u64 = 0x000000080;
/// Bits of `EventMask::LB_RELAXED`: the local lower bound of a variable has been decreased.
pub const LB_RELAXED_BITS: u64 = 0x000000100;
/// Bits of `EventMask::UB_TIGHTENED`: the local upper bound of a variable has been decreased.
pub const UB_TIGHTENED_BITS: u64 = 0x000000200;
/// Bits of `EventMask::UB_RELAXED`: the local upper bound of a variable has been increased.
pub const UB_RELAXED_BITS: u64 = 0x000000400;
/// Bits of `EventMask::GHOLE_ADDED`: a global hole has been added to the hole list of a variable's domain.
pub const GHOLE_ADDED_BITS: u64 = 0x000000800;
/// Bits of `EventMask::GHOLE_REMOVED`: a global hole has been removed from the hole list of a variable's domain.
pub const GHOLE_REMOVED_BITS: u64 = 0x000001000;
/// Bits of `EventMask::LHOLE_ADDED`: a local hole has been added to the hole list of a variable's domain.
pub const LHOLE_ADDED_BITS: u64 = 0x000002000;
/// Bits of `EventMask::LHOLE_REMOVED`: a local hole has been removed from the hole list of a variable's domain.
pub const LHOLE_REMOVED_BITS: u64 = 0x000004000;
/// Bits of `EventMask::IMPL_ADDED`: the variable's implication list, variable bound, or clique information was extended.
pub const IMPL_ADDED_BITS: u64 = 0x000008000;
/// Bits of `EventMask::TYPE_CHANGED`: the type of a variable has changed.
pub const TYPE_CHANGED_BITS: u64 = 0x000010000;
/// Bits of `EventMask::PRESOLVE_ROUND`: a presolving round has been finished.
pub const PRESOLVE_ROUND_BITS: u64 = 0x000020000;
/// Bits of `EventMask::NODE_FOCUSED`: a node has been focused and is now the focus node.
pub const NODE_FOCUSED_BITS: u64 = 0x000040000;
/// Bits of `EventMask::NODE_FEASIBLE`: the LP/pseudo solution of the node was feasible.
pub const NODE_FEASIBLE_BITS: u64 = 0x000080000;
/// Bits of `EventMask::NODE_INFEASIBLE`: the focus node has been proven to be infeasible or was bounded.
pub const NODE_INFEASIBLE_BITS: u64 = 0x000100000;
/// Bits of `EventMask::NODE_BRANCHED`: the focus node has been solved by branching.
pub const NODE_BRANCHED_BITS: u64 = 0x000200000;
/// Bits of `EventMask::NODE_DELETE`: a node is about to be deleted from the tree.
pub const NODE_DELETE_BITS: u64 = 0x000400000;
/// Bits of `EventMask::FIRST_LP_SOLVED`: the node's initial LP was solved.
pub const FIRST_LP_SOLVED_BITS: u64 = 0x000800000;
/// Bits of `EventMask::LP_SOLVED`: the node's LP was completely solved with cut & price.
pub const LP_SOLVED_BITS: u64 = 0x001000000;
/// Bits of `EventMask::POOR_SOL_FOUND`: a good enough primal feasible (but not new best) solution was found.
pub const POOR_SOL_FOUND_BITS: u64 = 0x002000000;
/// Bits of `EventMask::BEST_SOL_FOUND`: a new best primal feasible solution was found.
pub const BEST_SOL_FOUND_BITS: u64 = 0x004000000;
/// Bits of `EventMask::ROW_ADDED_SEPA`: a row has been added to SCIP's separation storage.
pub const ROW_ADDED_SEPA_BITS: u64 = 0x008000000;
/// Bits of `EventMask::ROW_DELETED_SEPA`: a row has been removed from SCIP's separation storage.
pub const ROW_DELETED_SEPA_BITS: u64 = 0x010000000;
/// Bits of `EventMask::ROW_ADDED_LP`: a row has been added to the LP.
pub const ROW_ADDED_LP_BITS: u64 = 0x020000000;
/// Bits of `EventMask::ROW_DELETED_LP`: a row has been removed from the LP.
pub const ROW_DELETED_LP_BITS: u64 = 0x040000000;
/// Bits of `EventMask::ROW_COEF_CHANGED`: a coefficient of a row has been changed (row specific event).
pub const ROW_COEF_CHANGED_BITS: u64 = 0x080000000;
/// Bits of `EventMask::ROW_CONST_CHANGED`: the constant of a row has been changed (row specific event).
pub const ROW_CONST_CHANGED_BITS: u64 = 0x100000000;
/// Bits of `EventMask::ROW_SIDE_CHANGED`: a side of a row has been changed (row specific event).
pub const ROW_SIDE_CHANGED_BITS: u64 = 0x200000000;
/// Bits of `EventMask::SYNC`: synchronization event.
pub const SYNC_BITS: u64 = 0x400000000;
/// Bits of `EventMask::GBD_CHANGED`.
pub const GBD_CHANGED_BITS: u64 = GLB_CHANGED_BITS | GUB_CHANGED_BITS;
/// Bits of `EventMask::LB_CHANGED`.
pub const LB_CHANGED_BITS: u64 = LB_TIGHTENED_BITS | LB_RELAXED_BITS;
/// Bits of `EventMask::UB_CHANGED`.
pub const UB_CHANGED_BITS: u64 = UB_TIGHTENED_BITS | UB_RELAXED_BITS;
/// Bits of `EventMask::BOUND_TIGHTENED`.
pub const BOUND_TIGHTENED_BITS: u64 = LB_TIGHTENED_BITS | UB_TIGHTENED_BITS;
/// Bits of `EventMask::BOUND_RELAXED`.
pub const BOUND_RELAXED_BITS: u64 = LB_RELAXED_BITS | UB_RELAXED_BITS;
/// Bits of `EventMask::BOUND_CHANGED`.
pub const BOUND_CHANGED_BITS: u64 = LB_CHANGED_BITS | UB_CHANGED_BITS;
/// Bits of `EventMask::GHOLE_CHANGED`.
pub const GHOLE_CHANGED_BITS: u64 = GHOLE_ADDED_BITS | GHOLE_REMOVED_BITS;
/// Bits of `EventMask::LHOLE_CHANGED`.
pub const LHOLE_CHANGED_BITS: u64 = LHOLE_ADDED_BITS | LHOLE_REMOVED_BITS;
/// Bits of `EventMask::HOLE_CHANGED`.
pub const HOLE_CHANGED_BITS: u64 = GHOLE_CHANGED_BITS | LHOLE_CHANGED_BITS;
/// Bits of `EventMask::DOM_CHANGED`.
pub const DOM_CHANGED_BITS: u64 = BOUND_CHANGED_BITS | HOLE_CHANGED_BITS;
/// Bits of `EventMask::VAR_CHANGED`.
pub const VAR_CHANGED_BITS: u64 = VAR_FIXED_BITS | VAR_UNLOCKED_BITS | OBJ_CHANGED_BITS | GBD_CHANGED_BITS | DOM_CHANGED_BITS | IMPL_ADDED_BITS | VAR_DELETED_BITS | TYPE_CHANGED_BITS;
/// Bits of `EventMask::VAR_EVENT`.
pub const VAR_EVENT_BITS: u64 = VAR_ADDED_BITS | VAR_CHANGED_BITS | TYPE_CHANGED_BITS;
/// Bits of `EventMask::NODE_SOLVED`.
pub const NODE_SOLVED_BITS: u64 = NODE_FEASIBLE_BITS | NODE_INFEASIBLE_BITS | NODE_BRANCHED_BITS;
/// Bits of `EventMask::NODE_EVENT`.
pub const NODE_EVENT_BITS: u64 = NODE_FOCUSED_BITS | NODE_SOLVED_BITS;
/// Bits of `EventMask::LP_EVENT`.
pub const LP_EVENT_BITS: u64 = FIRST_LP_SOLVED_BITS | LP_SOLVED_BITS;
/// Bits of `EventMask::SOL_FOUND`.
pub const SOL_FOUND_BITS: u64 = POOR_SOL_FOUND_BITS | BEST_SOL_FOUND_BITS;
/// Bits of `EventMask::SOL_EVENT`.
pub const SOL_EVENT_BITS: u64 = SOL_FOUND_BITS;
/// Bits of `EventMask::ROW_CHANGED`.
pub const ROW_CHANGED_BITS: u64 = ROW_COEF_CHANGED_BITS | ROW_CONST_CHANGED_BITS | ROW_SIDE_CHANGED_BITS;
/// Bits of `EventMask::ROW_EVENT`.
pub const ROW_EVENT_BITS: u64 = ROW_ADDED_SEPA_BITS | ROW_DELETED_SEPA_BITS | ROW_ADDED_LP_BITS | ROW_DELETED_LP_BITS | ROW_CHANGED_BITS;

/// The EventMask represents different states or actions within an optimization problem.
#[derive(Debug, Clone, Copy)]
pub struct EventMask(u64);

impl View for EventMask {
    type V = u64;

    closed spec fn view(&self) -> u64 {
        self.0
    }
}

#[allow(non_snake_case)]
impl EventMask {
    /// The event was disabled and has no effect any longer.
    pub fn DISABLED() -> (m: EventMask)
        ensures
            m@ == DISABLED_BITS,
    {
        EventMask(DISABLED_BITS)
    }

    /// A variable has been added to the transformed problem.
    pub fn VAR_ADDED() -> (m: EventMask)
        ensures
            m@ == VAR_ADDED_BITS,
    {
        EventMask(VAR_ADDED_BITS)
    }

    /// A variable will be deleted from the transformed problem.
    pub fn VAR_DELETED() -> (m: EventMask)
        ensures
            m@ == VAR_DELETED_BITS,
    {
        EventMask(VAR_DELETED_BITS)
    }

    /// A variable has been fixed, aggregated, or multi-aggregated.
    pub fn VAR_FIXED() -> (m: EventMask)
        ensures
            m@ == VAR_FIXED_BITS,
    {
        EventMask(VAR_FIXED_BITS)
    }

    /// The number of rounding locks of a variable was reduced to zero or one.
    pub fn VAR_UNLOCKED() -> (m: EventMask)
        ensures
            m@ == VAR_UNLOCKED_BITS,
    {
        EventMask(VAR_UNLOCKED_BITS)
    }

    /// The objective value of a variable has been changed.
    pub fn OBJ_CHANGED() -> (m: EventMask)
        ensures
            m@ == OBJ_CHANGED_BITS,
    {
        EventMask(OBJ_CHANGED_BITS)
    }

    /// The global lower bound of a variable has been changed.
    pub fn GLB_CHANGED() -> (m: EventMask)
        ensures
            m@ == GLB_CHANGED_BITS,
    {
        EventMask(GLB_CHANGED_BITS)
    }

    /// The global upper bound of a variable has been changed.
    pub fn GUB_CHANGED() -> (m: EventMask)
        ensures
            m@ == GUB_CHANGED_BITS,
    {
        EventMask(GUB_CHANGED_BITS)
    }

    /// The local lower bound of a variable has been increased.
    pub fn LB_TIGHTENED() -> (m: EventMask)
        ensures
            m@ == LB_TIGHTENED_BITS,
    {
        EventMask(LB_TIGHTENED_BITS)
    }

    /// The local lower bound of a variable has been decreased.
    pub fn LB_RELAXED() -> (m: EventMask)
        ensures
            m@ == LB_RELAXED_BITS,
    {
        EventMask(LB_RELAXED_BITS)
    }

    /// The local upper bound of a variable has been decreased.
    pub fn UB_TIGHTENED() -> (m: EventMask)
        ensures
            m@ == UB_TIGHTENED_BITS,
    {
        EventMask(UB_TIGHTENED_BITS)
    }

    /// The local upper bound of a variable has been increased.
    pub fn UB_RELAXED() -> (m: EventMask)
        ensures
            m@ == UB_RELAXED_BITS,
    {
        EventMask(UB_RELAXED_BITS)
    }

    /// A global hole has been added to the hole list of a variable's domain.
    pub fn GHOLE_ADDED() -> (m: EventMask)
        ensures
            m@ == GHOLE_ADDED_BITS,
    {
        EventMask(GHOLE_ADDED_BITS)
    }

    /// A global hole has been removed from the hole list of a variable's domain.
    pub fn GHOLE_REMOVED() -> (m: EventMask)
        ensures
            m@ == GHOLE_REMOVED_BITS,
    {
        EventMask(GHOLE_REMOVED_BITS)
    }

    /// A local hole has been added to the hole list of a variable's domain.
    pub fn LHOLE_ADDED() -> (m: EventMask)
        ensures
            m@ == LHOLE_ADDED_BITS,
    {
        EventMask(LHOLE_ADDED_BITS)
    }

    /// A local hole has been removed from the hole list of a variable's domain.
    pub fn LHOLE_REMOVED() -> (m: EventMask)
        ensures
            m@ == LHOLE_REMOVED_BITS,
    {
        EventMask(LHOLE_REMOVED_BITS)
    }

    /// The variable's implication list, variable bound, or clique information was extended.
    pub fn IMPL_ADDED() -> (m: EventMask)
        ensures
            m@ == IMPL_ADDED_BITS,
    {
        EventMask(IMPL_ADDED_BITS)
    }

    /// The type of a variable has changed.
    pub fn TYPE_CHANGED() -> (m: EventMask)
        ensures
            m@ == TYPE_CHANGED_BITS,
    {
        EventMask(TYPE_CHANGED_BITS)
    }

    /// A presolving round has been finished.
    pub fn PRESOLVE_ROUND() -> (m: EventMask)
        ensures
            m@ == PRESOLVE_ROUND_BITS,
    {
        EventMask(PRESOLVE_ROUND_BITS)
    }

    /// A node has been focused and is now the focus node.
    pub fn NODE_FOCUSED() -> (m: EventMask)
        ensures
            m@ == NODE_FOCUSED_BITS,
    {
        EventMask(NODE_FOCUSED_BITS)
    }

    /// The LP/pseudo solution of the node was feasible.
    pub fn NODE_FEASIBLE() -> (m: EventMask)
        ensures
            m@ == NODE_FEASIBLE_BITS,
    {
        EventMask(NODE_FEASIBLE_BITS)
    }

    /// The focus node has been proven to be infeasible or was bounded.
    pub fn NODE_INFEASIBLE() -> (m: EventMask)
        ensures
            m@ == NODE_INFEASIBLE_BITS,
    {
        EventMask(NODE_INFEASIBLE_BITS)
    }

    /// The focus node has been solved by branching.
    pub fn NODE_BRANCHED() -> (m: EventMask)
        ensures
            m@ == NODE_BRANCHED_BITS,
    {
        EventMask(NODE_BRANCHED_BITS)
    }

    /// A node is about to be deleted from the tree.
    pub fn NODE_DELETE() -> (m: EventMask)
        ensures
            m@ == NODE_DELETE_BITS,
    {
        EventMask(NODE_DELETE_BITS)
    }

    /// The node's initial LP was solved.
    pub fn FIRST_LP_SOLVED() -> (m: EventMask)
        ensures
            m@ == FIRST_LP_SOLVED_BITS,
    {
        EventMask(FIRST_LP_SOLVED_BITS)
    }

    /// The node's LP was completely solved with cut & price.
    pub fn LP_SOLVED() -> (m: EventMask)
        ensures
            m@ == LP_SOLVED_BITS,
    {
        EventMask(LP_SOLVED_BITS)
    }

    /// A good enough primal feasible (but not new best) solution was found.
    pub fn POOR_SOL_FOUND() -> (m: EventMask)
        ensures
            m@ == POOR_SOL_FOUND_BITS,
    {
        EventMask(POOR_SOL_FOUND_BITS)
    }

    /// A new best primal feasible solution was found.
    pub fn BEST_SOL_FOUND() -> (m: EventMask)
        ensures
            m@ == BEST_SOL_FOUND_BITS,
    {
        EventMask(BEST_SOL_FOUND_BITS)
    }

    /// A row has been added to SCIP's separation storage.
    pub fn ROW_ADDED_SEPA() -> (m: EventMask)
        ensures
            m@ == ROW_ADDED_SEPA_BITS,
    {
        EventMask(ROW_ADDED_SEPA_BITS)
    }

    /// A row has been removed from SCIP's separation storage.
    pub fn ROW_DELETED_SEPA() -> (m: EventMask)
        ensures
            m@ == ROW_DELETED_SEPA_BITS,
    {
        EventMask(ROW_DELETED_SEPA_BITS)
    }

    /// A row has been added to the LP.
    pub fn ROW_ADDED_LP() -> (m: EventMask)
        ensures
            m@ == ROW_ADDED_LP_BITS,
    {
        EventMask(ROW_ADDED_LP_BITS)
    }

    /// A row has been removed from the LP.
    pub fn ROW_DELETED_LP() -> (m: EventMask)
        ensures
            m@ == ROW_DELETED_LP_BITS,
    {
        EventMask(ROW_DELETED_LP_BITS)
    }

    /// A coefficient of a row has been changed (row specific event).
    pub fn ROW_COEF_CHANGED() -> (m: EventMask)
        ensures
            m@ == ROW_COEF_CHANGED_BITS,
    {
        EventMask(ROW_COEF_CHANGED_BITS)
    }

    /// The constant of a row has been changed (row specific event).
    pub fn ROW_CONST_CHANGED() -> (m: EventMask)
        ensures
            m@ == ROW_CONST_CHANGED_BITS,
    {
        EventMask(ROW_CONST_CHANGED_BITS)
    }

    /// A side of a row has been changed (row specific event).
    pub fn ROW_SIDE_CHANGED() -> (m: EventMask)
        ensures
            m@ == ROW_SIDE_CHANGED_BITS,
    {
        EventMask(ROW_SIDE_CHANGED_BITS)
    }

    /// Synchronization event.
    pub fn SYNC() -> (m: EventMask)
        ensures
            m@ == SYNC_BITS,
    {
        EventMask(SYNC_BITS)
    }

    /// Event mask for the change of both global lower bound and global upper bound of a variable.
    pub fn GBD_CHANGED() -> (m: EventMask)
        ensures
            m@ == GBD_CHANGED_BITS,
    {
        EventMask(GBD_CHANGED_BITS)
    }

    /// Event mask for the change of the local lower bound of a variable.
    pub fn LB_CHANGED() -> (m: EventMask)
        ensures
            m@ == LB_CHANGED_BITS,
    {
        EventMask(LB_CHANGED_BITS)
    }

    /// Event mask for the change of the local upper bound of a variable.
    pub fn UB_CHANGED() -> (m: EventMask)
        ensures
            m@ == UB_CHANGED_BITS,
    {
        EventMask(UB_CHANGED_BITS)
    }

    /// Event mask for the tightening of both bounds of a variable.
    pub fn BOUND_TIGHTENED() -> (m: EventMask)
        ensures
            m@ == BOUND_TIGHTENED_BITS,
    {
        EventMask(BOUND_TIGHTENED_BITS)
    }

    /// Event mask for the relaxing of both bounds of a variable.
    pub fn BOUND_RELAXED() -> (m: EventMask)
        ensures
            m@ == BOUND_RELAXED_BITS,
    {
        EventMask(BOUND_RELAXED_BITS)
    }

    /// Event mask for the change of both bounds of a variable.
    pub fn BOUND_CHANGED() -> (m: EventMask)
        ensures
            m@ == BOUND_CHANGED_BITS,
    {
        EventMask(BOUND_CHANGED_BITS)
    }

    /// Event mask for the change of both global holes of a variable's domain.
    pub fn GHOLE_CHANGED() -> (m: EventMask)
        ensures
            m@ == GHOLE_CHANGED_BITS,
    {
        EventMask(GHOLE_CHANGED_BITS)
    }

    /// Event mask for the change of both local holes of a variable's domain.
    pub fn LHOLE_CHANGED() -> (m: EventMask)
        ensures
            m@ == LHOLE_CHANGED_BITS,
    {
        EventMask(LHOLE_CHANGED_BITS)
    }

    /// Event mask for the change of any hole of a variable's domain.
    pub fn HOLE_CHANGED() -> (m: EventMask)
        ensures
            m@ == HOLE_CHANGED_BITS,
    {
        EventMask(HOLE_CHANGED_BITS)
    }

    /// Event mask for the change of the domain of a variable.
    pub fn DOM_CHANGED() -> (m: EventMask)
        ensures
            m@ == DOM_CHANGED_BITS,
    {
        EventMask(DOM_CHANGED_BITS)
    }

    /// Event mask for the change of a variable's properties.
    pub fn VAR_CHANGED() -> (m: EventMask)
        ensures
            m@ == VAR_CHANGED_BITS,
    {
        EventMask(VAR_CHANGED_BITS)
    }

    /// Event mask for variable-related events.
    pub fn VAR_EVENT() -> (m: EventMask)
        ensures
            m@ == VAR_EVENT_BITS,
    {
        EventMask(VAR_EVENT_BITS)
    }

    /// Event mask for the events that solve a node.
    pub fn NODE_SOLVED() -> (m: EventMask)
        ensures
            m@ == NODE_SOLVED_BITS,
    {
        EventMask(NODE_SOLVED_BITS)
    }

    /// Event mask for node-related events.
    pub fn NODE_EVENT() -> (m: EventMask)
        ensures
            m@ == NODE_EVENT_BITS,
    {
        EventMask(NODE_EVENT_BITS)
    }

    /// Event mask for LP-related events.
    pub fn LP_EVENT() -> (m: EventMask)
        ensures
            m@ == LP_EVENT_BITS,
    {
        EventMask(LP_EVENT_BITS)
    }

    /// Event mask for primal solution-related events.
    pub fn SOL_FOUND() -> (m: EventMask)
        ensures
            m@ == SOL_FOUND_BITS,
    {
        EventMask(SOL_FOUND_BITS)
    }

    /// Event mask for primal solution-related events.
    pub fn SOL_EVENT() -> (m: EventMask)
        ensures
            m@ == SOL_EVENT_BITS,
    {
        EventMask(SOL_EVENT_BITS)
    }

    /// Event mask for the change of a row.
    pub fn ROW_CHANGED() -> (m: EventMask)
        ensures
            m@ == ROW_CHANGED_BITS,
    {
        EventMask(ROW_CHANGED_BITS)
    }

    /// Event mask for row-related events.
    pub fn ROW_EVENT() -> (m: EventMask)
        ensures
            m@ == ROW_EVENT_BITS,
    {
        EventMask(ROW_EVENT_BITS)
    }

    /// The mask with exactly the given bits.
    pub fn from_bits(bits: u64) -> (m: EventMask)
        ensures
            m@ == bits,
    {
        EventMask(bits)
    }

    /// Adds the events of `rhs` to this mask.
    pub fn bitor_assign(&mut self, rhs: Self)
        ensures
            final(self)@ == old(self)@ | rhs@,
    {
        self.0 = self.0 | rhs.0;
    }
}

impl core::ops::BitOr for EventMask {
    type Output = Self;

    fn bitor(self, rhs: Self) -> (r: Self::Output) {
        EventMask(self.0 | rhs.0)
    }
}

impl vstd::std_specs::ops::BitOrSpecImpl for EventMask {
    open spec fn obeys_bitor_spec() -> bool {
        true
    }

    open spec fn bitor_req(self, rhs: EventMask) -> bool {
        true
    }

    open spec fn bitor_spec(self, rhs: EventMask) -> EventMask {
        EventMask::spec_from_bits(self@ | rhs@)
    }
}

impl EventMask {
    /// The mask with exactly the given bits, in specifications.
    pub closed spec fn spec_from_bits(bits: u64) -> EventMask {
        EventMask(bits)
    }

    /// A mask is determined by its bits.
    pub proof fn lemma_from_bits(bits: u64)
        ensures
            EventMask::spec_from_bits(bits)@ == bits,
    {
    }
}

impl From<EventMask> for u64 {
    fn from(mask: EventMask) -> (r: u64) {
        mask.0
    }
}

impl vstd::std_specs::convert::FromSpecImpl<EventMask> for u64 {
    open spec fn obeys_from_spec() -> bool {
        true
    }

    open spec fn from_spec(v: EventMask) -> u64 {
        v@
    }
}

/// Whether every event of `b` is in `a`.
pub open spec fn mask_contains(a: u64, b: u64) -> bool {
    a & b == b
}

/// Combining masks does not depend on the order of the operands.
pub proof fn lemma_union_commutative(a: u64, b: u64)
    ensures
        a | b == b | a,
{
    assert(a | b == b | a) by (bit_vector);
}

/// Combining masks does not depend on how the operands are grouped.
pub proof fn lemma_union_associative(a: u64, b: u64, c: u64)
    ensures
        (a | b) | c == a | (b | c),
{
    assert((a | b) | c == a | (b | c)) by (bit_vector);
}

/// Adding a mask a second time changes nothing.
pub proof fn lemma_union_idempotent(a: u64, b: u64)
    ensures
        (a | b) | b == a | b,
        a | a == a,
{
    assert((a | b) | b == a | b) by (bit_vector);
    assert(a | a == a) by (bit_vector);
}

/// The disabled mask adds no events.
pub proof fn lemma_disabled_is_neutral(a: u64)
    ensures
        a | DISABLED_BITS == a,
{
    assert(a | 0u64 == a) by (bit_vector);
}

/// The combined mask holds the events of both operands, and nothing else.
pub proof fn lemma_union_contains(a: u64, b: u64)
    ensures
        mask_contains(a | b, a),
        mask_contains(a | b, b),
        forall|c: u64| mask_contains(c, a) && mask_contains(c, b) ==> #[trigger] mask_contains(c, a | b),
{
    assert((a | b) & a == a) by (bit_vector);
    assert((a | b) & b == b) by (bit_vector);
    assert forall|c: u64| mask_contains(c, a) && mask_contains(c, b) implies #[trigger] mask_contains(c, a | b) by {
        assert(c & a == a && c & b == b ==> c & (a | b) == a | b) by (bit_vector);
    }
}

/// The grouped masks hold the events they are documented to group.
pub proof fn lemma_grouped_masks()
    ensures
        mask_contains(VAR_EVENT_BITS, VAR_CHANGED_BITS),
        mask_contains(VAR_CHANGED_BITS, DOM_CHANGED_BITS),
        mask_contains(DOM_CHANGED_BITS, BOUND_CHANGED_BITS),
        mask_contains(DOM_CHANGED_BITS, HOLE_CHANGED_BITS),
        mask_contains(BOUND_CHANGED_BITS, BOUND_TIGHTENED_BITS),
        mask_contains(BOUND_CHANGED_BITS, BOUND_RELAXED_BITS),
        mask_contains(NODE_EVENT_BITS, NODE_SOLVED_BITS),
        mask_contains(ROW_EVENT_BITS, ROW_CHANGED_BITS),
        SOL_EVENT_BITS == SOL_FOUND_BITS,
        NODE_EVENT_BITS == NODE_FOCUSED_BITS | NODE_FEASIBLE_BITS | NODE_INFEASIBLE_BITS | NODE_BRANCHED_BITS,
{
    assert(mask_contains(VAR_EVENT_BITS, VAR_CHANGED_BITS)) by (bit_vector);
    assert(mask_contains(VAR_CHANGED_BITS, DOM_CHANGED_BITS)) by (bit_vector);
    assert(mask_contains(DOM_CHANGED_BITS, BOUND_CHANGED_BITS)) by (bit_vector);
    assert(mask_contains(DOM_CHANGED_BITS, HOLE_CHANGED_BITS)) by (bit_vector);
    assert(mask_contains(BOUND_CHANGED_BITS, BOUND_TIGHTENED_BITS)) by (bit_vector);
    assert(mask_contains(BOUND_CHANGED_BITS, BOUND_RELAXED_BITS)) by (bit_vector);
    assert(mask_contains(NODE_EVENT_BITS, NODE_SOLVED_BITS)) by (bit_vector);
    assert(mask_contains(ROW_EVENT_BITS, ROW_CHANGED_BITS)) by (bit_vector);
    assert(NODE_EVENT_BITS == NODE_FOCUSED_BITS | NODE_FEASIBLE_BITS | NODE_INFEASIBLE_BITS | NODE_BRANCHED_BITS) by (bit_vector);
}

} // verus!
