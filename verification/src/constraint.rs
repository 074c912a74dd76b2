use vstd::prelude::*;
use crate::retcode::{call_result, scip_call};

verus! {

/// A constraint in an optimization problem: a handle on a `SCIP_CONS` of a
/// SCIP instance.
#[derive(Debug, Clone, Copy, PartialEq, Eq)]
pub struct Constraint {
    pub(crate) raw: u64,
    pub(crate) scip: u64,
}

/// A non-owning reference to a [`Constraint`].
///
/// Both name a constraint of a SCIP instance by its address. Whether the
/// instance is alive is the runtime's to track, which owns it and frees it
/// once no strong reference is left: upgrading a `ConsRef` takes the
/// runtime's answer, so a `ConsRef` can be stored where the model itself owns
/// it, in a plugin or the model's datastore.
#[derive(Debug, Clone, Copy, PartialEq, Eq)]
pub struct ConsRef {
    raw: u64,
    scip: u64,
}

impl Constraint {
    /// The address of the `SCIP_CONS`.
    pub closed spec fn handle(&self) -> u64 {
        self.raw
    }

    /// The address of the SCIP instance the constraint belongs to.
    pub closed spec fn owner(&self) -> u64 {
        self.scip
    }

    /// The handle on the `SCIP_CONS` at `raw` of the instance at `scip`.
    pub fn from_raw(raw: u64, scip: u64) -> (c: Constraint)
        ensures
            c.handle() == raw,
            c.owner() == scip,
    {
        Constraint { raw, scip }
    }

    /// Returns the address of the underlying `SCIP_CONS` C struct.
    pub fn inner(&self) -> (r: u64)
        ensures
            r == self.handle(),
    {
        self.raw
    }

    /// Produces a non-owning [`ConsRef`] to the same constraint. The runtime
    /// pairs it with a weak reference to the instance, so it can be stored
    /// in a plugin or the model's datastore without keeping the model alive.
    pub fn downgrade(&self) -> (r: ConsRef)
        ensures
            r.handle() == self.handle(),
            r.owner() == self.owner(),
    {
        ConsRef { raw: self.raw, scip: self.scip }
    }

    /// Returns the modifiable flag of the constraint, given the `SCIP_Bool`
    /// that `SCIPconsIsModifiable` reports for it.
    pub fn is_modifiable(&self, flag: u32) -> (b: bool)
        ensures
            b == (flag != 0),
    {
        flag != 0
    }

    /// Returns the removable flag of the constraint, given the `SCIP_Bool`
    /// that `SCIPconsIsRemovable` reports for it.
    pub fn is_removable(&self, flag: u32) -> (b: bool)
        ensures
            b == (flag != 0),
    {
        flag != 0
    }

    /// Returns whether the constraint should be separated during LP processing,
    /// given the `SCIP_Bool` that `SCIPconsIsSeparated` reports for it.
    pub fn is_separated(&self, flag: u32) -> (b: bool)
        ensures
            b == (flag != 0),
    {
        flag != 0
    }

    /// Returns the corresponding transformed constraint, given what
    /// `SCIPgetTransformedCons` returned (`rc`) and wrote (`transformed`, the
    /// null address when there is none).
    /// Returns `None` if the transformed constraint does not exist (yet).
    pub fn transformed(&self, rc: i32, transformed: u64) -> (r: Option<Constraint>)
        ensures
            r is Some <==> (call_result(rc) is Ok && transformed != 0),
            r matches Some(c) ==> c.handle() == transformed && c.owner() == self.owner(),
    {
        match scip_call(rc) {
            Ok(()) => {
                if transformed == 0 {
                    None
                } else {
                    Some(Constraint { raw: transformed, scip: self.scip })
                }
            },
            Err(_) => None,
        }
    }
}

impl ConsRef {
    /// The address of the `SCIP_CONS`.
    pub closed spec fn handle(&self) -> u64 {
        self.raw
    }

    /// The address of the SCIP instance the constraint belongs to.
    pub closed spec fn owner(&self) -> u64 {
        self.scip
    }

    /// Recovers the [`Constraint`], or `None` if the model has been dropped
    /// (`model_alive` tells whether it still lives).
    pub fn upgrade(&self, model_alive: bool) -> (r: Option<Constraint>)
        ensures
            r is Some <==> model_alive,
            r matches Some(c) ==> c.handle() == self.handle() && c.owner() == self.owner(),
    {
        if model_alive {
            Some(Constraint { raw: self.raw, scip: self.scip })
        } else {
            None
        }
    }
}

/// Downgrading a constraint and upgrading it while the model lives gives the
/// same constraint back.
pub proof fn lemma_downgrade_upgrade(c: Constraint, r: ConsRef, back: Option<Constraint>)
    requires
        r.handle() == c.handle(),
        r.owner() == c.owner(),
        back is Some,
        back matches Some(b) ==> b.handle() == r.handle() && b.owner() == r.owner(),
    ensures
        back == Some(c),
{
    let b = back->Some_0;
    assert(b.raw == c.raw && b.scip == c.scip);
}

} // verus!
