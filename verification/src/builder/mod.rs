/// A builder for event handlers.
pub mod eventhdlr;
/// A builder for primal heuristics.
pub mod heur;
/// A builder for node selectors.
pub mod nodesel;
/// A builder for pricers.
pub mod pricer;

use vstd::prelude::*;
use crate::model::{Model, ProblemCreated};
use crate::scip::{c_string_ok, CallView};

verus! {

/// Something a builder describes that can be added to a model.
pub trait CanBeAddedToModel {
    /// What adding it hands back.
    type Return;

    /// Whether it can be handed to SCIP: its strings hold no NUL character.
    spec fn can_be_added(&self) -> bool;

    /// Whether it can be handed to SCIP, as `can_be_added` says.
    fn addable(&self) -> (b: bool)
        ensures
            b == self.can_be_added(),
    ;

    /// Whether `r` is what adding it hands back: the plugin, for its
    /// callbacks to be attached.
    spec fn hands_back(&self, r: Self::Return) -> bool;

    /// The calls adding it makes on SCIP, in order.
    spec fn add_calls(&self) -> Seq<CallView>;

    /// Adds it to the model: makes the calls `add_calls` lists, and hands
    /// back what `hands_back` says.
    fn add(self, model: &mut Model<ProblemCreated>) -> (r: Self::Return)
        requires
            self.can_be_added(),
        ensures
            self.hands_back(r),
            final(model).handle() == old(model).handle(),
            final(model).owns_instance() == old(model).owns_instance(),
            final(model).log() == old(model).log() + self.add_calls(),
    ;
}

/// Whether a string can be handed to SCIP: it holds no NUL character.
pub fn no_nul(s: &str) -> (b: bool)
    ensures
        b == c_string_ok(s@),
{
    let mut ok = true;
    for c in it: s.chars()
        invariant
            it.seq() == s@,
            ok == !it.seq().take(it.index() as int).contains('\0'),
    {
        let ghost i = it.index() as int;
        let ghost before = it.seq().take(i);
        let ghost after = it.seq().take(i + 1);
        proof {
            assert(after =~= before.push(c));
        }
        if c == '\0' {
            ok = false;
            assert(after[i] == '\0');
        } else {
            assert(after.contains('\0') ==> before.contains('\0')) by {
                if after.contains('\0') {
                    let j = choose|j: int| 0 <= j < after.len() && after[j] == '\0';
                    assert(j < i);
                    assert(before[j] == '\0');
                }
            }
            assert(before.contains('\0') ==> after.contains('\0')) by {
                if before.contains('\0') {
                    let j = choose|j: int| 0 <= j < before.len() && before[j] == '\0';
                    assert(after[j] == '\0');
                }
            }
        }
    }
    proof {
        assert(s@.take(s@.len() as int) =~= s@);
    }
    ok
}

/// The view of an optional name: the empty string when none was set.
pub open spec fn name_or_empty(name: Option<Seq<char>>) -> Seq<char> {
    match name {
        Some(n) => n,
        None => Seq::<char>::empty(),
    }
}

/// The view of an optional string.
pub open spec fn opt_view(s: Option<String>) -> Option<Seq<char>> {
    match s {
        Some(v) => Some(v@),
        None => None,
    }
}

/// The string of an optional name: the empty string when none was set.
pub fn str_or_empty(name: &Option<String>) -> (s: &str)
    ensures
        s@ == name_or_empty(opt_view(*name)),
{
    match name {
        Some(n) => n.as_str(),
        None => {
            proof {
                reveal_strlit("");
            }
            let e = "";
            assert(e@ =~= Seq::<char>::empty());
            e
        },
    }
}

} // verus!
