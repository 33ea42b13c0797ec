use vstd::prelude::*;

verus! {

/// Unsigned 32-bit integer of the native interface.
pub type ub4 = libc::c_uint;

/// Signed 32-bit integer of the native interface.
pub type sb4 = libc::c_int;

/// Unsigned 16-bit integer of the native interface.
pub type ub2 = libc::c_ushort;

/// The status code that every native call returns.
pub type sword = libc::c_int;

/// The native environment handle. It cannot be built on this side: it only
/// stands behind pointers handed out by the native library.
pub struct OCIEnv {
    _opaque: (),
}

/// Any other native handle (error, service context, statement, ...), opaque
/// in the same way as `OCIEnv`.
pub struct OCIHandle {
    _opaque: (),
}

/// A native service-context handle, opaque in the same way as `OCIEnv`.
pub struct OCISrvCtx {
    _opaque: (),
}

/// The outcome that a status code stands for.
#[derive(Debug, Clone, Copy, PartialEq, Eq, Structural)]
pub enum OCIError {
    OCI_SUCCESS,
    OCI_SUCCESS_WITH_INFO,
    OCI_NO_DATA,
    OCI_ERROR,
    OCI_INVALID_HANDLE,
    OCI_NEED_DATA,
    OCI_STILL_EXECUTING,
    OCI_CONTINUE,
    OCI_ROWCBK_DONE,
    /// A code outside the documented set, kept as it came.
    OCI_UNKNOWN(sword),
}

/// The native code of each documented outcome; an unknown one keeps its own code.
pub open spec fn code_of(e: OCIError) -> int {
    match e {
        OCIError::OCI_SUCCESS => 0,
        OCIError::OCI_SUCCESS_WITH_INFO => 1,
        OCIError::OCI_NO_DATA => 100,
        OCIError::OCI_ERROR => -1,
        OCIError::OCI_INVALID_HANDLE => -2,
        OCIError::OCI_NEED_DATA => 99,
        OCIError::OCI_STILL_EXECUTING => -3123,
        OCIError::OCI_CONTINUE => -24200,
        OCIError::OCI_ROWCBK_DONE => -24201,
        OCIError::OCI_UNKNOWN(c) => c as int,
    }
}

/// The outcome that a status code stands for: one of the documented nine, or
/// `OCI_UNKNOWN` holding the code.
pub open spec fn outcome_of(code: sword) -> OCIError {
    if code == 0 {
        OCIError::OCI_SUCCESS
    } else if code == 1 {
        OCIError::OCI_SUCCESS_WITH_INFO
    } else if code == 100 {
        OCIError::OCI_NO_DATA
    } else if code == -1 {
        OCIError::OCI_ERROR
    } else if code == -2 {
        OCIError::OCI_INVALID_HANDLE
    } else if code == 99 {
        OCIError::OCI_NEED_DATA
    } else if code == -3123 {
        OCIError::OCI_STILL_EXECUTING
    } else if code == -24200 {
        OCIError::OCI_CONTINUE
    } else if code == -24201 {
        OCIError::OCI_ROWCBK_DONE
    } else {
        OCIError::OCI_UNKNOWN(code)
    }
}

/// Whether a code is one of the nine documented status codes.
pub open spec fn is_known_code(code: sword) -> bool {
    !(outcome_of(code) is OCI_UNKNOWN)
}

/// An outcome is well formed when an `OCI_UNKNOWN` holds a code outside the
/// documented set.
pub open spec fn outcome_wf(e: OCIError) -> bool {
    match e {
        OCIError::OCI_UNKNOWN(c) => !is_known_code(c),
        _ => true,
    }
}

impl From<OCIError> for sword {
    fn from(error_code: OCIError) -> (r: sword)
        ensures
            r as int == code_of(error_code),
    {
        match error_code {
            OCIError::OCI_SUCCESS => 0,
            OCIError::OCI_SUCCESS_WITH_INFO => 1,
            OCIError::OCI_NO_DATA => 100,
            OCIError::OCI_ERROR => -1,
            OCIError::OCI_INVALID_HANDLE => -2,
            OCIError::OCI_NEED_DATA => 99,
            OCIError::OCI_STILL_EXECUTING => -3123,
            OCIError::OCI_CONTINUE => -24200,
            OCIError::OCI_ROWCBK_DONE => -24201,
            OCIError::OCI_UNKNOWN(c) => c,
        }
    }
}

impl vstd::std_specs::convert::FromSpecImpl<OCIError> for sword {
    open spec fn obeys_from_spec() -> bool {
        true
    }

    open spec fn from_spec(v: OCIError) -> sword {
        code_of(v) as sword
    }
}

/// The nine documented codes are exactly those that classify to a named
/// outcome: code to outcome to code gives the code back, and a well-formed
/// outcome to code to outcome gives the outcome back.
pub proof fn lemma_status_round_trip(code: sword, e: OCIError)
    requires
        outcome_wf(e),
    ensures
        code_of(outcome_of(code)) == code as int,
        outcome_of(code_of(e) as sword) == e,
        i32::MIN <= code_of(e) <= i32::MAX,
        is_known_code(code) <==> (code == 0 || code == 1 || code == 100 || code == -1
            || code == -2 || code == 99 || code == -3123 || code == -24200 || code == -24201),
{
}

/// Classification of a raw status code.
pub trait IntoOCIError {
    fn into_oci_error(self) -> OCIError;
}

impl IntoOCIError for sword {
    fn into_oci_error(self) -> (r: OCIError)
        ensures
            r == outcome_of(self),
    {
        match self {
            0 => OCIError::OCI_SUCCESS,
            1 => OCIError::OCI_SUCCESS_WITH_INFO,
            100 => OCIError::OCI_NO_DATA,
            -1 => OCIError::OCI_ERROR,
            -2 => OCIError::OCI_INVALID_HANDLE,
            99 => OCIError::OCI_NEED_DATA,
            -3123 => OCIError::OCI_STILL_EXECUTING,
            -24200 => OCIError::OCI_CONTINUE,
            -24201 => OCIError::OCI_ROWCBK_DONE,
            _ => OCIError::OCI_UNKNOWN(self),
        }
    }
}

/// The kinds of handle that the native library allocates and frees.
#[derive(Debug, Clone, Copy, PartialEq, Eq, Structural)]
pub enum OCIHandleType {
    OCI_HTYPE_ENV,
    OCI_HTYPE_ERROR,
    OCI_HTYPE_SVCCTX,
    OCI_HTYPE_STMT,
    OCI_HTYPE_BIND,
    OCI_HTYPE_DEFINE,
    OCI_HTYPE_DESCRIBE,
    OCI_HTYPE_SERVER,
    OCI_HTYPE_SESSION,
    OCI_HTYPE_AUTHINFO,
    OCI_HTYPE_CPOOL,
    OCI_HTYPE_SPOOL,
    OCI_HTYPE_TRANS,
    OCI_HTYPE_COMPLEXOBJECT,
    OCI_HTYPE_SUBSCRIPTION,
    OCI_HTYPE_DIRPATH_CTX,
    OCI_HTYPE_DIRPATH_FN_CTX,
    OCI_HTYPE_DIRPATH_COLUMN_ARRAY,
    OCI_HTYPE_DIRPATH_STREAM,
    OCI_HTYPE_PROC,
    OCI_HTYPE_ADMIN,
}

/// The tag passed for a handle type that has no native tag assigned here yet.
pub const UNMAPPED_HANDLE_TYPE: ub4 = 1000;

/// The native tag of each handle type.
pub open spec fn handle_tag(t: OCIHandleType) -> ub4 {
    match t {
        OCIHandleType::OCI_HTYPE_ENV => 1,
        OCIHandleType::OCI_HTYPE_ERROR => 2,
        OCIHandleType::OCI_HTYPE_SVCCTX => 3,
        OCIHandleType::OCI_HTYPE_STMT => 4,
        OCIHandleType::OCI_HTYPE_BIND => 5,
        OCIHandleType::OCI_HTYPE_DEFINE => 6,
        OCIHandleType::OCI_HTYPE_DESCRIBE => 7,
        OCIHandleType::OCI_HTYPE_SERVER => 8,
        OCIHandleType::OCI_HTYPE_SESSION => 9,
        OCIHandleType::OCI_HTYPE_TRANS => 10,
        OCIHandleType::OCI_HTYPE_COMPLEXOBJECT => 11,
        OCIHandleType::OCI_HTYPE_SUBSCRIPTION => 13,
        _ => UNMAPPED_HANDLE_TYPE,
    }
}

impl From<OCIHandleType> for ub4 {
    fn from(handle_type: OCIHandleType) -> (r: ub4)
        ensures
            r == handle_tag(handle_type),
    {
        match handle_type {
            OCIHandleType::OCI_HTYPE_ENV => 1,
            OCIHandleType::OCI_HTYPE_ERROR => 2,
            OCIHandleType::OCI_HTYPE_SVCCTX => 3,
            OCIHandleType::OCI_HTYPE_STMT => 4,
            OCIHandleType::OCI_HTYPE_BIND => 5,
            OCIHandleType::OCI_HTYPE_DEFINE => 6,
            OCIHandleType::OCI_HTYPE_DESCRIBE => 7,
            OCIHandleType::OCI_HTYPE_SERVER => 8,
            OCIHandleType::OCI_HTYPE_SESSION => 9,
            OCIHandleType::OCI_HTYPE_TRANS => 10,
            OCIHandleType::OCI_HTYPE_COMPLEXOBJECT => 11,
            OCIHandleType::OCI_HTYPE_SUBSCRIPTION => 13,
            _ => UNMAPPED_HANDLE_TYPE,
        }
    }
}

impl vstd::std_specs::convert::FromSpecImpl<OCIHandleType> for ub4 {
    open spec fn obeys_from_spec() -> bool {
        true
    }

    open spec fn from_spec(v: OCIHandleType) -> ub4 {
        handle_tag(v)
    }
}

/// Flags that control how an environment is created; the native values are
/// single bits (or none), so several modes combine by bitwise or.
#[derive(Debug, Clone, Copy, PartialEq, Eq, Structural)]
pub enum OCIMode {
    OCI_DEFAULT,
    OCI_THREADED,
    OCI_OBJECT,
    OCI_EVENTS,
    OCI_NO_UCB,
    OCI_ENV_NO_MUTEX,
    OCI_NEW_LENGTH_SEMANTICS,
    OCI_SUPPRESS_NLS_VALIDATION,
    OCI_NCHAR_LITERAL_REPLACE_ON,
    OCI_NCHAR_LITERAL_REPLACE_OFF,
    OCI_ENABLE_NLS_VALIDATION,
}

/// The native flag value of each mode.
pub open spec fn mode_bits(m: OCIMode) -> ub4 {
    match m {
        OCIMode::OCI_DEFAULT => 0x0,
        OCIMode::OCI_THREADED => 0x1,
        OCIMode::OCI_OBJECT => 0x2,
        OCIMode::OCI_EVENTS => 0x4,
        OCIMode::OCI_NO_UCB => 0x40,
        OCIMode::OCI_ENV_NO_MUTEX => 0x80,
        OCIMode::OCI_NEW_LENGTH_SEMANTICS => 0x20000,
        OCIMode::OCI_SUPPRESS_NLS_VALIDATION => 0x100000,
        OCIMode::OCI_NCHAR_LITERAL_REPLACE_ON => 0x400000,
        OCIMode::OCI_NCHAR_LITERAL_REPLACE_OFF => 0x800000,
        OCIMode::OCI_ENABLE_NLS_VALIDATION => 0x1000000,
    }
}

impl From<OCIMode> for ub4 {
    fn from(mode: OCIMode) -> (r: ub4)
        ensures
            r == mode_bits(mode),
    {
        match mode {
            OCIMode::OCI_DEFAULT => 0x0,
            OCIMode::OCI_THREADED => 0x1,
            OCIMode::OCI_OBJECT => 0x2,
            OCIMode::OCI_EVENTS => 0x4,
            OCIMode::OCI_NO_UCB => 0x40,
            OCIMode::OCI_ENV_NO_MUTEX => 0x80,
            OCIMode::OCI_NEW_LENGTH_SEMANTICS => 0x20000,
            OCIMode::OCI_SUPPRESS_NLS_VALIDATION => 0x100000,
            OCIMode::OCI_NCHAR_LITERAL_REPLACE_ON => 0x400000,
            OCIMode::OCI_NCHAR_LITERAL_REPLACE_OFF => 0x800000,
            OCIMode::OCI_ENABLE_NLS_VALIDATION => 0x1000000,
        }
    }
}

impl vstd::std_specs::convert::FromSpecImpl<OCIMode> for ub4 {
    open spec fn obeys_from_spec() -> bool {
        true
    }

    open spec fn from_spec(v: OCIMode) -> ub4 {
        mode_bits(v)
    }
}

} // verus!
