use vstd::prelude::*;
use vstd::utf8::{decode_utf8, valid_utf8};

use crate::types::{is_known_code, outcome_of, sb4, sword, IntoOCIError, OCIError};

verus! {

/// A diagnostic record: the code, a message and where the check was made.
#[derive(Debug)]
pub struct OracleError {
    /// The status code, or the code that the native diagnostic call reported.
    pub error_code: sword,
    /// The human-readable message.
    pub message: String,
    /// The call site at which the status was checked.
    pub error_location: String,
}

impl View for OracleError {
    type V = (sword, Seq<char>, Seq<char>);

    open spec fn view(&self) -> (sword, Seq<char>, Seq<char>) {
        (self.error_code, self.message@, self.error_location@)
    }
}

impl OracleError {
    /// A record of the given code, message and location.
    pub fn new(code: sword, message: &str, location: &str) -> (r: OracleError)
        ensures
            r@ == (code, message@, location@),
    {
        OracleError {
            error_code: code,
            message: message.to_owned(),
            error_location: location.to_owned(),
        }
    }
}

/// Result of a native call: its output, or the diagnostic record.
pub type OracleResult<T> = Result<T, OracleError>;

/// The capacity of the buffer that receives native diagnostic text.
pub const ERROR_BUF_SIZE: usize = 512;

/// What the native diagnostic call wrote for an error handle: the code it
/// reported and the raw text buffer it filled.
pub struct NativeDiagnostic {
    pub code: sb4,
    pub buffer: Vec<u8>,
}

/// The index of the first zero byte of `b` at or after `i`, or the length of
/// `b` when there is none.
pub open spec fn nul_from(b: Seq<u8>, i: int) -> int
    decreases b.len() - i,
{
    if 0 <= i < b.len() && b[i] != 0 {
        nul_from(b, i + 1)
    } else {
        i
    }
}

/// The text that a buffer holds: its bytes before the first zero byte, or all
/// of them when none is zero.
pub open spec fn c_text(b: Seq<u8>) -> Seq<u8> {
    b.subrange(0, nul_from(b, 0))
}

/// The message read out of a diagnostic buffer: its text when that is
/// non-empty, well-formed UTF-8, and a fixed placeholder otherwise.
pub open spec fn diagnostic_text(b: Seq<u8>) -> Seq<char> {
    if valid_utf8(c_text(b)) && decode_utf8(c_text(b)).len() > 0 {
        decode_utf8(c_text(b))
    } else {
        "Error could not be read!"@
    }
}

/// The record built from what the native diagnostic call returned.
pub open spec fn retrieved(d: NativeDiagnostic, location: Seq<char>) -> (sword, Seq<char>, Seq<char>) {
    (d.code, diagnostic_text(d.buffer@), location)
}

proof fn lemma_nul_from_bounds(b: Seq<u8>, i: int)
    requires
        0 <= i <= b.len(),
    ensures
        i <= nul_from(b, i) <= b.len(),
        forall|j: int| i <= j < nul_from(b, i) ==> b[j] != 0,
    decreases b.len() - i,
{
    if i < b.len() && b[i] != 0 {
        lemma_nul_from_bounds(b, i + 1);
    }
}

/// Relies on `String::from_utf8`: it succeeds exactly on well-formed UTF-8,
/// and the string then holds the decoded characters.
#[verifier::external_body]
fn utf8_to_string(bytes: Vec<u8>) -> (r: Option<String>)
    ensures
        r is Some <==> valid_utf8(bytes@),
        r is Some ==> r->0@ == decode_utf8(bytes@),
{
    String::from_utf8(bytes).ok()
}

/// The bytes of a buffer before its first zero byte; never reads past the
/// buffer's end.
pub fn text_bytes(buffer: &Vec<u8>) -> (r: Vec<u8>)
    ensures
        r@ == c_text(buffer@),
{
    let mut out: Vec<u8> = Vec::new();
    let mut i: usize = 0;
    proof {
        lemma_nul_from_bounds(buffer@, 0);
    }
    while i < buffer.len() && buffer[i] != 0
        invariant
            0 <= i <= buffer@.len(),
            nul_from(buffer@, 0) == nul_from(buffer@, i as int),
            out@ == buffer@.subrange(0, i as int),
        decreases buffer@.len() - i,
    {
        out.push(buffer[i]);
        i = i + 1;
        assert(out@ =~= buffer@.subrange(0, i as int));
    }
    assert(nul_from(buffer@, i as int) == i);
    out
}

/// Builds the record of a native diagnostic: the code that the diagnostic
/// call reported, the text of its buffer (or the placeholder), and the
/// location.
pub fn diagnostic_from_buffer(diagnostic: NativeDiagnostic, location: &str) -> (r: OracleError)
    ensures
        r@ == retrieved(diagnostic, location@),
{
    let text = text_bytes(&diagnostic.buffer);
    let message = match utf8_to_string(text) {
        Some(s) => {
            if !s.as_str().is_empty() {
                s
            } else {
                "Error could not be read!".to_owned()
            }
        },
        None => "Error could not be read!".to_owned(),
    };
    OracleError { error_code: diagnostic.code, message, error_location: location.to_owned() }
}

/// Whether an outcome may carry native diagnostic text, so that the native
/// diagnostic call is worth making for it.
pub open spec fn carries_diagnostic(e: OCIError) -> bool {
    e is OCI_SUCCESS_WITH_INFO || e is OCI_ERROR
}

/// The record of an outcome that may carry native text: the retrieved one
/// when a diagnostic was fetched, else the fallback message with the status
/// code.
pub open spec fn with_diagnostic(
    code: sword,
    diagnostic: Option<NativeDiagnostic>,
    fallback: Seq<char>,
    location: Seq<char>,
) -> (sword, Seq<char>, Seq<char>) {
    match diagnostic {
        Some(d) => retrieved(d, location),
        None => (code, fallback, location),
    }
}

/// What a status code translates to: no error, or the diagnostic record.
pub open spec fn translation(
    code: sword,
    diagnostic: Option<NativeDiagnostic>,
    location: Seq<char>,
) -> Option<(sword, Seq<char>, Seq<char>)> {
    match outcome_of(code) {
        OCIError::OCI_SUCCESS => None,
        OCIError::OCI_SUCCESS_WITH_INFO => Some(
            with_diagnostic(code, diagnostic, "Success with info"@, location),
        ),
        OCIError::OCI_NO_DATA => Some((code, "No data"@, location)),
        OCIError::OCI_ERROR => Some(
            with_diagnostic(code, diagnostic, "Error without details"@, location),
        ),
        OCIError::OCI_INVALID_HANDLE => Some((code, "Invalid handle"@, location)),
        OCIError::OCI_NEED_DATA => Some((code, "Need data"@, location)),
        OCIError::OCI_STILL_EXECUTING => Some((code, "Still executing"@, location)),
        OCIError::OCI_CONTINUE => None,
        OCIError::OCI_ROWCBK_DONE => None,
        OCIError::OCI_UNKNOWN(_) => Some((code, "Unknown status code"@, location)),
    }
}

/// Whether the native diagnostic text should be fetched for a status code
/// before it is translated: true for success-with-info and error alone.
pub fn needs_diagnostic(result_code: sword) -> (r: bool)
    ensures
        r == carries_diagnostic(outcome_of(result_code)),
{
    match result_code.into_oci_error() {
        OCIError::OCI_SUCCESS_WITH_INFO | OCIError::OCI_ERROR => true,
        _ => false,
    }
}

fn check_error_with_handle(
    diagnostic: Option<NativeDiagnostic>,
    result_code: sword,
    default_msg: &str,
    location: &str,
) -> (r: OracleError)
    ensures
        r@ == with_diagnostic(result_code, diagnostic, default_msg@, location@),
{
    match diagnostic {
        Some(d) => diagnostic_from_buffer(d, location),
        None => OracleError::new(result_code, default_msg, location),
    }
}

/// Translates a status code into no error or a diagnostic record. For
/// success-with-info and error, `diagnostic` is what the native diagnostic
/// call returned for the error handle, or `None` when no handle was at hand;
/// for the other outcomes it is not read.
pub fn check_error_code(
    result_code: sword,
    diagnostic: Option<NativeDiagnostic>,
    location: &str,
) -> (r: Option<OracleError>)
    ensures
        r is None <==> translation(result_code, diagnostic, location@) is None,
        r matches Some(e) ==> translation(result_code, diagnostic, location@) == Some(e@),
{
    match result_code.into_oci_error() {
        OCIError::OCI_SUCCESS => None,
        OCIError::OCI_SUCCESS_WITH_INFO => Some(
            check_error_with_handle(diagnostic, result_code, "Success with info", location),
        ),
        OCIError::OCI_NO_DATA => Some(OracleError::new(result_code, "No data", location)),
        OCIError::OCI_ERROR => Some(
            check_error_with_handle(diagnostic, result_code, "Error without details", location),
        ),
        OCIError::OCI_INVALID_HANDLE => Some(
            OracleError::new(result_code, "Invalid handle", location),
        ),
        OCIError::OCI_NEED_DATA => Some(OracleError::new(result_code, "Need data", location)),
        OCIError::OCI_STILL_EXECUTING => Some(
            OracleError::new(result_code, "Still executing", location),
        ),
        // The native library is not known to return these two from the calls
        // covered here; they are taken as success.
        OCIError::OCI_CONTINUE => None,
        OCIError::OCI_ROWCBK_DONE => None,
        OCIError::OCI_UNKNOWN(_) => Some(
            OracleError::new(result_code, "Unknown status code", location),
        ),
    }
}

/// Checks the status of a native call: its output when the status translates
/// to no error, else the diagnostic record in its place.
pub fn check_error<T>(
    result_code: sword,
    diagnostic: Option<NativeDiagnostic>,
    location: &str,
    result: T,
) -> (r: OracleResult<T>)
    ensures
        r matches Ok(v) ==> v == result && translation(result_code, diagnostic, location@) is None,
        r matches Err(e) ==> translation(result_code, diagnostic, location@) == Some(e@),
{
    match check_error_code(result_code, diagnostic, location) {
        None => Ok(result),
        Some(error) => Err(error),
    }
}

/// A code outside the documented set classifies as `OCI_UNKNOWN` holding that
/// code, and translates to an error record, never to success.
pub proof fn lemma_unknown_code_is_an_error(
    code: sword,
    diagnostic: Option<NativeDiagnostic>,
    location: Seq<char>,
)
    requires
        !is_known_code(code),
    ensures
        outcome_of(code) == OCIError::OCI_UNKNOWN(code),
        translation(code, diagnostic, location) == Some((code, "Unknown status code"@, location)),
{
}

/// Success translates to no error, whatever diagnostic and location are given.
pub proof fn lemma_success_is_no_error(
    code: sword,
    diagnostic: Option<NativeDiagnostic>,
    location: Seq<char>,
)
    requires
        outcome_of(code) == OCIError::OCI_SUCCESS,
    ensures
        translation(code, diagnostic, location) is None,
{
}

/// An invalid handle translates to the fixed message "Invalid handle" with the
/// original code, whether or not a diagnostic was fetched.
pub proof fn lemma_invalid_handle_record(
    code: sword,
    diagnostic: Option<NativeDiagnostic>,
    location: Seq<char>,
)
    requires
        outcome_of(code) == OCIError::OCI_INVALID_HANDLE,
    ensures
        translation(code, diagnostic, location) == Some((code, "Invalid handle"@, location)),
{
}

/// An error with a fetched diagnostic translates to the code and text that
/// the native diagnostic call reported; without one, to the fixed message
/// "Error without details" with the original code.
pub proof fn lemma_error_record(
    code: sword,
    diagnostic: Option<NativeDiagnostic>,
    location: Seq<char>,
)
    requires
        outcome_of(code) == OCIError::OCI_ERROR,
    ensures
        diagnostic matches Some(d) ==> translation(code, diagnostic, location) == Some(
            (d.code, diagnostic_text(d.buffer@), location),
        ),
        diagnostic is None ==> translation(code, diagnostic, location) == Some(
            (code, "Error without details"@, location),
        ),
{
}

/// The message read out of any diagnostic buffer is never empty: unreadable
/// or empty text gives the placeholder "Error could not be read!".
pub proof fn lemma_diagnostic_text_nonempty(buffer: Seq<u8>)
    ensures
        diagnostic_text(buffer).len() > 0,
        !(valid_utf8(c_text(buffer))) ==> diagnostic_text(buffer) == "Error could not be read!"@,
{
    reveal_strlit("Error could not be read!");
}

} // verus!
