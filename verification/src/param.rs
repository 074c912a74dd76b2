use vstd::prelude::*;
use crate::model::Model;
use crate::result::scip_bool;
use crate::retcode::{call_result, Retcode};
use crate::scip::{c_string_ok, CallView};

verus! {

/// A type of SCIP parameter: the values a parameter of that type takes.
pub trait ScipParameter: Sized {
    /// Whether the value can be handed to SCIP.
    spec fn admissible(&self) -> bool;

    /// The call that sets the parameter `name` to `value`.
    spec fn set_call(name: Seq<char>, value: Self) -> CallView;

    /// Sets the parameter `name` of the model to `value`, given the raw code
    /// `rc` that SCIP's setter returned; returns the model, or the error SCIP
    /// reported.
    fn set<T>(model: Model<T>, name: &str, value: Self, rc: i32) -> (r: Result<Model<T>, Retcode>)
        requires
            c_string_ok(name@),
            value.admissible(),
        ensures
            r is Ok <==> call_result(rc) is Ok,
            r matches Err(e) ==> call_result(rc) == Err::<(), Retcode>(e),
            r matches Ok(m) ==> m.handle() == model.handle() && m.owns_instance() == model.owns_instance()
                && m.log() == model.log().push(Self::set_call(name@, value)),
    ;

    /// The value of the parameter `name` of the model, given the value that
    /// SCIP's getter reports for it.
    fn get<T>(model: &Model<T>, name: &str, reported: Self) -> (v: Self)
        ensures
            v == reported,
    ;
}

impl ScipParameter for i32 {
    open spec fn admissible(&self) -> bool {
        true
    }

    open spec fn set_call(name: Seq<char>, value: i32) -> CallView {
        CallView::SetIntParam { name, value }
    }

    fn set<T>(model: Model<T>, name: &str, value: i32, rc: i32) -> (r: Result<Model<T>, Retcode>) {
        model.set_int_param(name, value, rc)
    }

    fn get<T>(model: &Model<T>, name: &str, reported: i32) -> (v: i32) {
        reported
    }
}

impl ScipParameter for bool {
    open spec fn admissible(&self) -> bool {
        true
    }

    open spec fn set_call(name: Seq<char>, value: bool) -> CallView {
        CallView::SetBoolParam { name, value: scip_bool(value) }
    }

    fn set<T>(model: Model<T>, name: &str, value: bool, rc: i32) -> (r: Result<Model<T>, Retcode>) {
        model.set_bool_param(name, value, rc)
    }

    fn get<T>(model: &Model<T>, name: &str, reported: bool) -> (v: bool) {
        reported
    }
}

impl ScipParameter for i64 {
    open spec fn admissible(&self) -> bool {
        true
    }

    open spec fn set_call(name: Seq<char>, value: i64) -> CallView {
        CallView::SetLongintParam { name, value }
    }

    fn set<T>(model: Model<T>, name: &str, value: i64, rc: i32) -> (r: Result<Model<T>, Retcode>) {
        model.set_longint_param(name, value, rc)
    }

    fn get<T>(model: &Model<T>, name: &str, reported: i64) -> (v: i64) {
        reported
    }
}

impl ScipParameter for String {
    open spec fn admissible(&self) -> bool {
        c_string_ok(self@)
    }

    open spec fn set_call(name: Seq<char>, value: String) -> CallView {
        CallView::SetStringParam { name, value: value@ }
    }

    fn set<T>(model: Model<T>, name: &str, value: String, rc: i32) -> (r: Result<Model<T>, Retcode>) {
        model.set_str_param(name, value.as_str(), rc)
    }

    fn get<T>(model: &Model<T>, name: &str, reported: String) -> (v: String) {
        reported
    }
}

impl<S> Model<S> {
    /// The value of the parameter `name`, given the value that SCIP's getter
    /// for its type reports.
    pub fn param<P: ScipParameter>(&self, name: &str, reported: P) -> (v: P)
        ensures
            v == reported,
    {
        P::get(self, name, reported)
    }

    /// Sets the parameter `name` to `value`, given the raw code `rc` that
    /// SCIP's setter returned, which must report success.
    pub fn set_param<P: ScipParameter>(self, name: &str, value: P, rc: i32) -> (m: Self)
        requires
            c_string_ok(name@),
            value.admissible(),
            call_result(rc) is Ok,
        ensures
            m.handle() == self.handle(),
            m.owns_instance() == self.owns_instance(),
            m.log() == self.log().push(P::set_call(name@, value)),
    {
        match P::set(self, name, value, rc) {
            Ok(m) => m,
            Err(_) => vstd::pervasive::unreached(),
        }
    }
}

} // verus!
