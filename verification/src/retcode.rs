use vstd::prelude::*;

verus! {

/// `SCIP_OKAY`: normal termination.
pub const SCIP_OKAY: i32 = 1;
/// `SCIP_ERROR`: unspecified error.
pub const SCIP_ERROR: i32 = 0;
/// `SCIP_NOMEMORY`: insufficient memory error.
pub const SCIP_NOMEMORY: i32 = -1;
/// `SCIP_READERROR`: read error.
pub const SCIP_READERROR: i32 = -2;
/// `SCIP_WRITEERROR`: write error.
pub const SCIP_WRITEERROR: i32 = -3;
/// `SCIP_NOFILE`: file not found error.
pub const SCIP_NOFILE: i32 = -4;
/// `SCIP_FILECREATEERROR`: cannot create file.
pub const SCIP_FILECREATEERROR: i32 = -5;
/// `SCIP_LPERROR`: error in LP solver.
pub const SCIP_LPERROR: i32 = -6;
/// `SCIP_NOPROBLEM`: no problem exists.
pub const SCIP_NOPROBLEM: i32 = -7;
/// `SCIP_INVALIDCALL`: method cannot be called at this time in solution process.
pub const SCIP_INVALIDCALL: i32 = -8;
/// `SCIP_INVALIDDATA`: error in input data.
pub const SCIP_INVALIDDATA: i32 = -9;
/// `SCIP_INVALIDRESULT`: method returned an invalid result code.
pub const SCIP_INVALIDRESULT: i32 = -10;
/// `SCIP_PLUGINNOTFOUND`: a required plugin was not found.
pub const SCIP_PLUGINNOTFOUND: i32 = -11;
/// `SCIP_PARAMETERUNKNOWN`: the parameter with the given name was not found.
pub const SCIP_PARAMETERUNKNOWN: i32 = -12;
/// `SCIP_PARAMETERWRONGTYPE`: the parameter is not of the expected type.
pub const SCIP_PARAMETERWRONGTYPE: i32 = -13;
/// `SCIP_PARAMETERWRONGVAL`: the value is invalid for the given parameter.
pub const SCIP_PARAMETERWRONGVAL: i32 = -14;
/// `SCIP_KEYALREADYEXISTING`: the given key is already existing in table.
pub const SCIP_KEYALREADYEXISTING: i32 = -15;
/// `SCIP_MAXDEPTHLEVEL`: maximal branching depth level exceeded.
pub const SCIP_MAXDEPTHLEVEL: i32 = -16;
/// `SCIP_BRANCHERROR`: no branching could be created.
pub const SCIP_BRANCHERROR: i32 = -17;
/// `SCIP_NOTIMPLEMENTED`: function not implemented.
pub const SCIP_NOTIMPLEMENTED: i32 = -18;

/// An enum representing the possible return codes from SCIP functions.
#[derive(Debug, Clone, Copy, PartialEq, Eq, Structural)]
pub enum Retcode {
    /// Normal termination.
    Okay,
    /// Unspecified error.
    Error,
    /// Insufficient memory error.
    NoMemory,
    /// Read error.
    ReadError,
    /// Write error.
    WriteError,
    /// File not found error.
    NoFile,
    /// Cannot create file.
    FileCreateError,
    /// Error in LP solver.
    LpError,
    /// No problem exists.
    NoProblem,
    /// Method cannot be called at this time in solution process.
    InvalidCall,
    /// Error in input data.
    InvalidData,
    /// Method returned an invalid result code.
    InvalidResult,
    /// A required plugin was not found.
    PluginNotFound,
    /// The parameter with the given name was not found.
    ParameterUnknown,
    /// The parameter is not of the expected type.
    ParameterWrongType,
    /// The value is invalid for the given parameter.
    ParameterWrongVal,
    /// The given key is already existing in table.
    KeyAlreadyExisting,
    /// Maximal branching depth level exceeded.
    MaxDepthLevel,
    /// No branching could be created.
    BranchError,
    /// Function not implemented.
    NotImplemented,
    /// Any status code not specifically represented in this enum.
    Unknown(i32),
}

/// The code of every named return code lies in `SCIP_NOTIMPLEMENTED ..= SCIP_OKAY`.
pub open spec fn is_named_code(code: int) -> bool {
    SCIP_NOTIMPLEMENTED <= code <= SCIP_OKAY
}

/// The return code that SCIP's raw value `code` stands for.
pub open spec fn retcode_of(code: i32) -> Retcode {
    if code == SCIP_OKAY { Retcode::Okay }
    else if code == SCIP_ERROR { Retcode::Error }
    else if code == SCIP_NOMEMORY { Retcode::NoMemory }
    else if code == SCIP_READERROR { Retcode::ReadError }
    else if code == SCIP_WRITEERROR { Retcode::WriteError }
    else if code == SCIP_NOFILE { Retcode::NoFile }
    else if code == SCIP_FILECREATEERROR { Retcode::FileCreateError }
    else if code == SCIP_LPERROR { Retcode::LpError }
    else if code == SCIP_NOPROBLEM { Retcode::NoProblem }
    else if code == SCIP_INVALIDCALL { Retcode::InvalidCall }
    else if code == SCIP_INVALIDDATA { Retcode::InvalidData }
    else if code == SCIP_INVALIDRESULT { Retcode::InvalidResult }
    else if code == SCIP_PLUGINNOTFOUND { Retcode::PluginNotFound }
    else if code == SCIP_PARAMETERUNKNOWN { Retcode::ParameterUnknown }
    else if code == SCIP_PARAMETERWRONGTYPE { Retcode::ParameterWrongType }
    else if code == SCIP_PARAMETERWRONGVAL { Retcode::ParameterWrongVal }
    else if code == SCIP_KEYALREADYEXISTING { Retcode::KeyAlreadyExisting }
    else if code == SCIP_MAXDEPTHLEVEL { Retcode::MaxDepthLevel }
    else if code == SCIP_BRANCHERROR { Retcode::BranchError }
    else if code == SCIP_NOTIMPLEMENTED { Retcode::NotImplemented }
    else { Retcode::Unknown(code) }
}

/// SCIP's raw value for the return code `r`.
pub open spec fn code_of(r: Retcode) -> i32 {
    match r {
        Retcode::Okay => SCIP_OKAY,
        Retcode::Error => SCIP_ERROR,
        Retcode::NoMemory => SCIP_NOMEMORY,
        Retcode::ReadError => SCIP_READERROR,
        Retcode::WriteError => SCIP_WRITEERROR,
        Retcode::NoFile => SCIP_NOFILE,
        Retcode::FileCreateError => SCIP_FILECREATEERROR,
        Retcode::LpError => SCIP_LPERROR,
        Retcode::NoProblem => SCIP_NOPROBLEM,
        Retcode::InvalidCall => SCIP_INVALIDCALL,
        Retcode::InvalidData => SCIP_INVALIDDATA,
        Retcode::InvalidResult => SCIP_INVALIDRESULT,
        Retcode::PluginNotFound => SCIP_PLUGINNOTFOUND,
        Retcode::ParameterUnknown => SCIP_PARAMETERUNKNOWN,
        Retcode::ParameterWrongType => SCIP_PARAMETERWRONGTYPE,
        Retcode::ParameterWrongVal => SCIP_PARAMETERWRONGVAL,
        Retcode::KeyAlreadyExisting => SCIP_KEYALREADYEXISTING,
        Retcode::MaxDepthLevel => SCIP_MAXDEPTHLEVEL,
        Retcode::BranchError => SCIP_BRANCHERROR,
        Retcode::NotImplemented => SCIP_NOTIMPLEMENTED,
        Retcode::Unknown(v) => v,
    }
}

/// A return code as `From<i32>` produces it: an `Unknown` one never carries
/// the code of a named variant.
pub open spec fn is_canonical(r: Retcode) -> bool {
    match r {
        Retcode::Unknown(v) => !is_named_code(v as int),
        _ => true,
    }
}

impl From<i32> for Retcode {
    /// Converts a raw `SCIP_Retcode` value to a `Retcode` enum variant.
    fn from(val: i32) -> (r: Self) {
        if val == SCIP_OKAY { Retcode::Okay }
        else if val == SCIP_ERROR { Retcode::Error }
        else if val == SCIP_NOMEMORY { Retcode::NoMemory }
        else if val == SCIP_READERROR { Retcode::ReadError }
        else if val == SCIP_WRITEERROR { Retcode::WriteError }
        else if val == SCIP_NOFILE { Retcode::NoFile }
        else if val == SCIP_FILECREATEERROR { Retcode::FileCreateError }
        else if val == SCIP_LPERROR { Retcode::LpError }
        else if val == SCIP_NOPROBLEM { Retcode::NoProblem }
        else if val == SCIP_INVALIDCALL { Retcode::InvalidCall }
        else if val == SCIP_INVALIDDATA { Retcode::InvalidData }
        else if val == SCIP_INVALIDRESULT { Retcode::InvalidResult }
        else if val == SCIP_PLUGINNOTFOUND { Retcode::PluginNotFound }
        else if val == SCIP_PARAMETERUNKNOWN { Retcode::ParameterUnknown }
        else if val == SCIP_PARAMETERWRONGTYPE { Retcode::ParameterWrongType }
        else if val == SCIP_PARAMETERWRONGVAL { Retcode::ParameterWrongVal }
        else if val == SCIP_KEYALREADYEXISTING { Retcode::KeyAlreadyExisting }
        else if val == SCIP_MAXDEPTHLEVEL { Retcode::MaxDepthLevel }
        else if val == SCIP_BRANCHERROR { Retcode::BranchError }
        else if val == SCIP_NOTIMPLEMENTED { Retcode::NotImplemented }
        else { Retcode::Unknown(val) }
    }
}

impl vstd::std_specs::convert::FromSpecImpl<i32> for Retcode {
    open spec fn obeys_from_spec() -> bool {
        true
    }

    open spec fn from_spec(v: i32) -> Retcode {
        retcode_of(v)
    }
}

impl From<Retcode> for i32 {
    /// Converts a `Retcode` enum variant to a raw `SCIP_Retcode` value.
    fn from(value: Retcode) -> (r: i32) {
        match value {
            Retcode::Okay => SCIP_OKAY,
            Retcode::Error => SCIP_ERROR,
            Retcode::NoMemory => SCIP_NOMEMORY,
            Retcode::ReadError => SCIP_READERROR,
            Retcode::WriteError => SCIP_WRITEERROR,
            Retcode::NoFile => SCIP_NOFILE,
            Retcode::FileCreateError => SCIP_FILECREATEERROR,
            Retcode::LpError => SCIP_LPERROR,
            Retcode::NoProblem => SCIP_NOPROBLEM,
            Retcode::InvalidCall => SCIP_INVALIDCALL,
            Retcode::InvalidData => SCIP_INVALIDDATA,
            Retcode::InvalidResult => SCIP_INVALIDRESULT,
            Retcode::PluginNotFound => SCIP_PLUGINNOTFOUND,
            Retcode::ParameterUnknown => SCIP_PARAMETERUNKNOWN,
            Retcode::ParameterWrongType => SCIP_PARAMETERWRONGTYPE,
            Retcode::ParameterWrongVal => SCIP_PARAMETERWRONGVAL,
            Retcode::KeyAlreadyExisting => SCIP_KEYALREADYEXISTING,
            Retcode::MaxDepthLevel => SCIP_MAXDEPTHLEVEL,
            Retcode::BranchError => SCIP_BRANCHERROR,
            Retcode::NotImplemented => SCIP_NOTIMPLEMENTED,
            Retcode::Unknown(val) => val,
        }
    }
}

impl vstd::std_specs::convert::FromSpecImpl<Retcode> for i32 {
    open spec fn obeys_from_spec() -> bool {
        true
    }

    open spec fn from_spec(v: Retcode) -> i32 {
        code_of(v)
    }
}

/// What a SCIP call's raw return value means to the caller: `Ok` when SCIP
/// reports `SCIP_OKAY`, otherwise the error it reports.
pub open spec fn call_result(code: i32) -> Result<(), Retcode> {
    if code == SCIP_OKAY { Ok(()) } else { Err(retcode_of(code)) }
}

/// Turns the raw return value of a SCIP call into a `Result`, the way every
/// fallible call of this library does.
pub fn scip_call(code: i32) -> (r: Result<(), Retcode>)
    ensures
        r == call_result(code),
{
    let rc = Retcode::from(code);
    if rc == Retcode::Okay {
        Ok(())
    } else {
        Err(rc)
    }
}

/// Reading a raw code and writing it back gives the same code, for every code.
pub proof fn lemma_code_roundtrip(code: i32)
    ensures
        code_of(retcode_of(code)) == code,
        is_canonical(retcode_of(code)),
{
}

/// Writing a return code as a raw code and reading it back gives the same
/// return code, for every return code that `From<i32>` can produce.
pub proof fn lemma_retcode_roundtrip(r: Retcode)
    requires
        is_canonical(r),
    ensures
        retcode_of(code_of(r)) == r,
{
}

/// Only `SCIP_OKAY` reads as `Retcode::Okay`.
pub proof fn lemma_okay_only_from_okay(code: i32)
    ensures
        (retcode_of(code) == Retcode::Okay) <==> code == SCIP_OKAY,
{
}

/// Each `SCIP_RETCODE` constant reads as the return code of the same name.
pub proof fn law_retcode_of_codes(code: i32)
    ensures
        code == SCIP_OKAY ==> retcode_of(code) == Retcode::Okay,
        code == SCIP_ERROR ==> retcode_of(code) == Retcode::Error,
        code == SCIP_NOMEMORY ==> retcode_of(code) == Retcode::NoMemory,
        code == SCIP_READERROR ==> retcode_of(code) == Retcode::ReadError,
        code == SCIP_WRITEERROR ==> retcode_of(code) == Retcode::WriteError,
        code == SCIP_NOFILE ==> retcode_of(code) == Retcode::NoFile,
        code == SCIP_FILECREATEERROR ==> retcode_of(code) == Retcode::FileCreateError,
        code == SCIP_LPERROR ==> retcode_of(code) == Retcode::LpError,
        code == SCIP_NOPROBLEM ==> retcode_of(code) == Retcode::NoProblem,
        code == SCIP_INVALIDCALL ==> retcode_of(code) == Retcode::InvalidCall,
        code == SCIP_INVALIDDATA ==> retcode_of(code) == Retcode::InvalidData,
        code == SCIP_INVALIDRESULT ==> retcode_of(code) == Retcode::InvalidResult,
        code == SCIP_PLUGINNOTFOUND ==> retcode_of(code) == Retcode::PluginNotFound,
        code == SCIP_PARAMETERUNKNOWN ==> retcode_of(code) == Retcode::ParameterUnknown,
        code == SCIP_PARAMETERWRONGTYPE ==> retcode_of(code) == Retcode::ParameterWrongType,
        code == SCIP_PARAMETERWRONGVAL ==> retcode_of(code) == Retcode::ParameterWrongVal,
        code == SCIP_KEYALREADYEXISTING ==> retcode_of(code) == Retcode::KeyAlreadyExisting,
        code == SCIP_MAXDEPTHLEVEL ==> retcode_of(code) == Retcode::MaxDepthLevel,
        code == SCIP_BRANCHERROR ==> retcode_of(code) == Retcode::BranchError,
        code == SCIP_NOTIMPLEMENTED ==> retcode_of(code) == Retcode::NotImplemented,
{
}
/// Each named return code is SCIP's constant of the same name.
pub proof fn law_retcode_codes(x: Retcode)
    ensures
        x is Okay ==> code_of(x) == SCIP_OKAY,
        x is Error ==> code_of(x) == SCIP_ERROR,
        x is NoMemory ==> code_of(x) == SCIP_NOMEMORY,
        x is ReadError ==> code_of(x) == SCIP_READERROR,
        x is WriteError ==> code_of(x) == SCIP_WRITEERROR,
        x is NoFile ==> code_of(x) == SCIP_NOFILE,
        x is FileCreateError ==> code_of(x) == SCIP_FILECREATEERROR,
        x is LpError ==> code_of(x) == SCIP_LPERROR,
        x is NoProblem ==> code_of(x) == SCIP_NOPROBLEM,
        x is InvalidCall ==> code_of(x) == SCIP_INVALIDCALL,
        x is InvalidData ==> code_of(x) == SCIP_INVALIDDATA,
        x is InvalidResult ==> code_of(x) == SCIP_INVALIDRESULT,
        x is PluginNotFound ==> code_of(x) == SCIP_PLUGINNOTFOUND,
        x is ParameterUnknown ==> code_of(x) == SCIP_PARAMETERUNKNOWN,
        x is ParameterWrongType ==> code_of(x) == SCIP_PARAMETERWRONGTYPE,
        x is ParameterWrongVal ==> code_of(x) == SCIP_PARAMETERWRONGVAL,
        x is KeyAlreadyExisting ==> code_of(x) == SCIP_KEYALREADYEXISTING,
        x is MaxDepthLevel ==> code_of(x) == SCIP_MAXDEPTHLEVEL,
        x is BranchError ==> code_of(x) == SCIP_BRANCHERROR,
        x is NotImplemented ==> code_of(x) == SCIP_NOTIMPLEMENTED,
{
}

} // verus!
