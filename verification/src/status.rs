use vstd::prelude::*;

verus! {

/// `SCIP_STATUS_UNKNOWN`
pub const SCIP_STATUS_UNKNOWN: u32 = 0;
/// `SCIP_STATUS_USERINTERRUPT`
pub const SCIP_STATUS_USERINTERRUPT: u32 = 1;
/// `SCIP_STATUS_NODELIMIT`
pub const SCIP_STATUS_NODELIMIT: u32 = 2;
/// `SCIP_STATUS_TOTALNODELIMIT`
pub const SCIP_STATUS_TOTALNODELIMIT: u32 = 3;
/// `SCIP_STATUS_STALLNODELIMIT`
pub const SCIP_STATUS_STALLNODELIMIT: u32 = 4;
/// `SCIP_STATUS_TIMELIMIT`
pub const SCIP_STATUS_TIMELIMIT: u32 = 5;
/// `SCIP_STATUS_MEMLIMIT`
pub const SCIP_STATUS_MEMLIMIT: u32 = 6;
/// `SCIP_STATUS_GAPLIMIT`
pub const SCIP_STATUS_GAPLIMIT: u32 = 7;
/// `SCIP_STATUS_PRIMALLIMIT` (no `Status` variant stands for it)
pub const SCIP_STATUS_PRIMALLIMIT: u32 = 8;
/// `SCIP_STATUS_DUALLIMIT` (no `Status` variant stands for it)
pub const SCIP_STATUS_DUALLIMIT: u32 = 9;
/// `SCIP_STATUS_SOLLIMIT`
pub const SCIP_STATUS_SOLLIMIT: u32 = 10;
/// `SCIP_STATUS_BESTSOLLIMIT`
pub const SCIP_STATUS_BESTSOLLIMIT: u32 = 11;
/// `SCIP_STATUS_RESTARTLIMIT`
pub const SCIP_STATUS_RESTARTLIMIT: u32 = 12;
/// `SCIP_STATUS_OPTIMAL`
pub const SCIP_STATUS_OPTIMAL: u32 = 13;
/// `SCIP_STATUS_INFEASIBLE`
pub const SCIP_STATUS_INFEASIBLE: u32 = 14;
/// `SCIP_STATUS_UNBOUNDED`
pub const SCIP_STATUS_UNBOUNDED: u32 = 15;
/// `SCIP_STATUS_INFORUNBD`
pub const SCIP_STATUS_INFORUNBD: u32 = 16;
/// `SCIP_STATUS_TERMINATE`
pub const SCIP_STATUS_TERMINATE: u32 = 17;

/// An enum representing the status of a SCIP optimization run.
#[derive(Debug, PartialEq, Eq, Clone, Copy, Structural)]
pub enum Status {
    /// The solving status is not yet known.
    Unknown,
    /// The user interrupted the solving process (by pressing CTRL-C).
    UserInterrupt,
    /// The solving process was interrupted because the node limit was reached.
    NodeLimit,
    /// The solving process was interrupted because the total node limit was reached (incl. restarts).
    TotalNodeLimit,
    /// The solving process was interrupted because the stalling node limit was reached (no improvement w.r.t. primal bound).
    StallNodeLimit,
    /// The solving process was interrupted because the time limit was reached.
    TimeLimit,
    /// The solving process was interrupted because the memory limit was reached.
    MemoryLimit,
    /// The solving process was interrupted because the gap limit was reached.
    GapLimit,
    /// The solving process was interrupted because the solution limit was reached.
    SolutionLimit,
    /// The solving process was interrupted because the solution improvement limit was reached.
    BestSolutionLimit,
    /// The solving process was interrupted because the restart limit was reached.
    RestartLimit,
    /// The problem was solved to optimality, an optimal solution is available.
    Optimal,
    /// The problem was proven to be infeasible.
    Infeasible,
    /// The problem was proven to be unbounded.
    Unbounded,
    /// The problem was proven to be either infeasible or unbounded.
    Inforunbd,
    /// Status if the process received a SIGTERM signal.
    Terminate,
}

/// The raw status values that a `Status` variant stands for: all of SCIP's
/// except the primal and dual limits.
pub open spec fn is_status_code(code: u32) -> bool {
    code <= SCIP_STATUS_TERMINATE && code != SCIP_STATUS_PRIMALLIMIT && code != SCIP_STATUS_DUALLIMIT
}

/// The status that SCIP's raw value `code` stands for.
pub open spec fn status_of(code: u32) -> Status {
    if code == SCIP_STATUS_UNKNOWN { Status::Unknown }
    else if code == SCIP_STATUS_USERINTERRUPT { Status::UserInterrupt }
    else if code == SCIP_STATUS_NODELIMIT { Status::NodeLimit }
    else if code == SCIP_STATUS_TOTALNODELIMIT { Status::TotalNodeLimit }
    else if code == SCIP_STATUS_STALLNODELIMIT { Status::StallNodeLimit }
    else if code == SCIP_STATUS_TIMELIMIT { Status::TimeLimit }
    else if code == SCIP_STATUS_MEMLIMIT { Status::MemoryLimit }
    else if code == SCIP_STATUS_GAPLIMIT { Status::GapLimit }
    else if code == SCIP_STATUS_SOLLIMIT { Status::SolutionLimit }
    else if code == SCIP_STATUS_BESTSOLLIMIT { Status::BestSolutionLimit }
    else if code == SCIP_STATUS_RESTARTLIMIT { Status::RestartLimit }
    else if code == SCIP_STATUS_OPTIMAL { Status::Optimal }
    else if code == SCIP_STATUS_INFEASIBLE { Status::Infeasible }
    else if code == SCIP_STATUS_UNBOUNDED { Status::Unbounded }
    else if code == SCIP_STATUS_INFORUNBD { Status::Inforunbd }
    else { Status::Terminate }
}

/// SCIP's raw value for the status `s`.
pub open spec fn status_code(s: Status) -> u32 {
    match s {
        Status::Unknown => SCIP_STATUS_UNKNOWN,
        Status::UserInterrupt => SCIP_STATUS_USERINTERRUPT,
        Status::NodeLimit => SCIP_STATUS_NODELIMIT,
        Status::TotalNodeLimit => SCIP_STATUS_TOTALNODELIMIT,
        Status::StallNodeLimit => SCIP_STATUS_STALLNODELIMIT,
        Status::TimeLimit => SCIP_STATUS_TIMELIMIT,
        Status::MemoryLimit => SCIP_STATUS_MEMLIMIT,
        Status::GapLimit => SCIP_STATUS_GAPLIMIT,
        Status::SolutionLimit => SCIP_STATUS_SOLLIMIT,
        Status::BestSolutionLimit => SCIP_STATUS_BESTSOLLIMIT,
        Status::RestartLimit => SCIP_STATUS_RESTARTLIMIT,
        Status::Optimal => SCIP_STATUS_OPTIMAL,
        Status::Infeasible => SCIP_STATUS_INFEASIBLE,
        Status::Unbounded => SCIP_STATUS_UNBOUNDED,
        Status::Inforunbd => SCIP_STATUS_INFORUNBD,
        Status::Terminate => SCIP_STATUS_TERMINATE,
    }
}

impl Status {
    /// Converts a raw `SCIP_Status` value to a `Status` enum variant.
    ///
    /// The value must be one that a variant stands for: SCIP's primal and
    /// dual limits, and values beyond `SCIP_STATUS_TERMINATE`, have none.
    pub fn from_code(val: u32) -> (s: Status)
        requires
            is_status_code(val),
        ensures
            s == status_of(val),
    {
        if val == SCIP_STATUS_UNKNOWN { Status::Unknown }
        else if val == SCIP_STATUS_USERINTERRUPT { Status::UserInterrupt }
        else if val == SCIP_STATUS_NODELIMIT { Status::NodeLimit }
        else if val == SCIP_STATUS_TOTALNODELIMIT { Status::TotalNodeLimit }
        else if val == SCIP_STATUS_STALLNODELIMIT { Status::StallNodeLimit }
        else if val == SCIP_STATUS_TIMELIMIT { Status::TimeLimit }
        else if val == SCIP_STATUS_MEMLIMIT { Status::MemoryLimit }
        else if val == SCIP_STATUS_GAPLIMIT { Status::GapLimit }
        else if val == SCIP_STATUS_SOLLIMIT { Status::SolutionLimit }
        else if val == SCIP_STATUS_BESTSOLLIMIT { Status::BestSolutionLimit }
        else if val == SCIP_STATUS_RESTARTLIMIT { Status::RestartLimit }
        else if val == SCIP_STATUS_OPTIMAL { Status::Optimal }
        else if val == SCIP_STATUS_INFEASIBLE { Status::Infeasible }
        else if val == SCIP_STATUS_UNBOUNDED { Status::Unbounded }
        else if val == SCIP_STATUS_INFORUNBD { Status::Inforunbd }
        else { Status::Terminate }
    }
}

/// Every status is read back from its own raw value.
pub proof fn lemma_status_roundtrip(s: Status)
    ensures
        is_status_code(status_code(s)),
        status_of(status_code(s)) == s,
{
}

/// Distinct accepted raw values give distinct statuses.
pub proof fn lemma_status_code_injective(a: u32, b: u32)
    requires
        is_status_code(a),
        is_status_code(b),
        status_of(a) == status_of(b),
    ensures
        a == b,
{
}

/// Each status is SCIP's `SCIP_STATUS` constant of the same name.
pub proof fn law_status_codes(x: Status)
    ensures
        status_code(x) == SCIP_STATUS_UNKNOWN <==> x is Unknown,
        status_code(x) == SCIP_STATUS_USERINTERRUPT <==> x is UserInterrupt,
        status_code(x) == SCIP_STATUS_NODELIMIT <==> x is NodeLimit,
        status_code(x) == SCIP_STATUS_TOTALNODELIMIT <==> x is TotalNodeLimit,
        status_code(x) == SCIP_STATUS_STALLNODELIMIT <==> x is StallNodeLimit,
        status_code(x) == SCIP_STATUS_TIMELIMIT <==> x is TimeLimit,
        status_code(x) == SCIP_STATUS_MEMLIMIT <==> x is MemoryLimit,
        status_code(x) == SCIP_STATUS_GAPLIMIT <==> x is GapLimit,
        status_code(x) == SCIP_STATUS_SOLLIMIT <==> x is SolutionLimit,
        status_code(x) == SCIP_STATUS_BESTSOLLIMIT <==> x is BestSolutionLimit,
        status_code(x) == SCIP_STATUS_RESTARTLIMIT <==> x is RestartLimit,
        status_code(x) == SCIP_STATUS_OPTIMAL <==> x is Optimal,
        status_code(x) == SCIP_STATUS_INFEASIBLE <==> x is Infeasible,
        status_code(x) == SCIP_STATUS_UNBOUNDED <==> x is Unbounded,
        status_code(x) == SCIP_STATUS_INFORUNBD <==> x is Inforunbd,
        status_code(x) == SCIP_STATUS_TERMINATE <==> x is Terminate,
{
}
/// Each `SCIP_STATUS` constant reads as the status of the same name.
pub proof fn law_status_of_codes(code: u32)
    ensures
        code == SCIP_STATUS_UNKNOWN ==> status_of(code) == Status::Unknown,
        code == SCIP_STATUS_USERINTERRUPT ==> status_of(code) == Status::UserInterrupt,
        code == SCIP_STATUS_NODELIMIT ==> status_of(code) == Status::NodeLimit,
        code == SCIP_STATUS_TOTALNODELIMIT ==> status_of(code) == Status::TotalNodeLimit,
        code == SCIP_STATUS_STALLNODELIMIT ==> status_of(code) == Status::StallNodeLimit,
        code == SCIP_STATUS_TIMELIMIT ==> status_of(code) == Status::TimeLimit,
        code == SCIP_STATUS_MEMLIMIT ==> status_of(code) == Status::MemoryLimit,
        code == SCIP_STATUS_GAPLIMIT ==> status_of(code) == Status::GapLimit,
        code == SCIP_STATUS_SOLLIMIT ==> status_of(code) == Status::SolutionLimit,
        code == SCIP_STATUS_BESTSOLLIMIT ==> status_of(code) == Status::BestSolutionLimit,
        code == SCIP_STATUS_RESTARTLIMIT ==> status_of(code) == Status::RestartLimit,
        code == SCIP_STATUS_OPTIMAL ==> status_of(code) == Status::Optimal,
        code == SCIP_STATUS_INFEASIBLE ==> status_of(code) == Status::Infeasible,
        code == SCIP_STATUS_UNBOUNDED ==> status_of(code) == Status::Unbounded,
        code == SCIP_STATUS_INFORUNBD ==> status_of(code) == Status::Inforunbd,
        code == SCIP_STATUS_TERMINATE ==> status_of(code) == Status::Terminate,
{
}

} // verus!
