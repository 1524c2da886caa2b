//! The uniform response record, built from what the tool's process did.

use vstd::prelude::*;
use vstd::utf8::{decode_utf8, valid_utf8};

verus! {

/// The operation a response answers; it names the failure when the tool
/// could not be started.
#[derive(Clone, Copy, Debug, PartialEq, Eq, Structural)]
pub enum Operation {
    Export,
    Playlists,
    Status,
}

/// What the tool's process did.
pub enum ProcessOutcome {
    /// The process ran to its end. `code` is its exit code, `None` where it
    /// has none (it was ended by a signal); `stdout` and `stderr` are all it
    /// wrote on the two streams.
    Exited { code: Option<i32>, stdout: Vec<u8>, stderr: Vec<u8> },
    /// The process could not be started; `cause` is the system's error.
    LaunchFailed { cause: String },
}

/// The record every operation returns: whether the tool succeeded, its
/// output or error text, and an artifact location that is never set.
#[derive(Clone, Debug)]
pub struct ExportResponse {
    pub success: bool,
    pub message: String,
    pub file_path: Option<String>,
}

/// Exit code 0 is success; any other code, or none, is failure.
pub open spec fn exit_success(code: Option<i32>) -> bool {
    code == Some(0i32)
}

/// The start of the message when the tool could not be started.
pub open spec fn launch_failure_prefix(op: Operation) -> Seq<char> {
    match op {
        Operation::Export => "Failed to run export"@,
        Operation::Playlists => "Failed to get playlists"@,
        Operation::Status => "Connection failed"@,
    }
}

/// The message when the tool could not be started: the operation's prefix,
/// then the system's error.
pub open spec fn launch_failure_message(op: Operation, cause: Seq<char>) -> Seq<char> {
    launch_failure_prefix(op) + ": "@ + cause
}

/// The text of bytes decoded as UTF-8, each invalid sequence replaced by
/// U+FFFD.
pub uninterp spec fn lossy_of(bytes: Seq<u8>) -> Seq<char>;

/// Relies on `String::from_utf8_lossy`: it never fails, and valid UTF-8
/// comes back as the text it encodes.
#[verifier::external_body]
fn decode_lossy(bytes: &Vec<u8>) -> (r: String)
    ensures
        r@ == lossy_of(bytes@),
        valid_utf8(bytes@) ==> r@ == decode_utf8(bytes@),
{
    String::from_utf8_lossy(bytes.as_slice()).into_owned()
}

/// Whether an exit code means success.
pub fn is_exit_success(code: Option<i32>) -> (r: bool)
    ensures
        r == exit_success(code),
{
    match code {
        Some(c) => c == 0,
        None => false,
    }
}

/// The response of a process that ran: success and its output on exit code
/// 0, failure and its error text otherwise.
pub fn completed_response(code: Option<i32>, stdout: String, stderr: String) -> (r: ExportResponse)
    ensures
        r.success == exit_success(code),
        r.message@ == (if exit_success(code) {
            stdout@
        } else {
            stderr@
        }),
        r.file_path is None,
{
    let success = is_exit_success(code);
    ExportResponse { success, message: if success { stdout } else { stderr }, file_path: None }
}

/// The response when the tool could not be started: failure, with a message
/// that names the operation and the system's error.
pub fn launch_failure_response(op: Operation, cause: String) -> (r: ExportResponse)
    ensures
        !r.success,
        r.message@ == launch_failure_message(op, cause@),
        r.message@.len() > 0,
        r.file_path is None,
{
    let prefix = match op {
        Operation::Export => "Failed to run export",
        Operation::Playlists => "Failed to get playlists",
        Operation::Status => "Connection failed",
    };
    let mut message = String::from_str(prefix);
    message.append(": ");
    message.append(cause.as_str());
    proof {
        reveal_strlit(": ");
    }
    ExportResponse { success: false, message, file_path: None }
}

/// The response to what the tool's process did. The output streams are
/// decoded permissively: invalid UTF-8 never makes the operation fail.
pub fn respond(op: Operation, outcome: ProcessOutcome) -> (r: ExportResponse)
    ensures
        r.file_path is None,
        match outcome {
            ProcessOutcome::Exited { code, stdout, stderr } => {
                &&& r.success == exit_success(code)
                &&& r.message@ == (if exit_success(code) {
                    lossy_of(stdout@)
                } else {
                    lossy_of(stderr@)
                })
                &&& exit_success(code) && valid_utf8(stdout@) ==> r.message@ == decode_utf8(
                    stdout@,
                )
                &&& !exit_success(code) && valid_utf8(stderr@) ==> r.message@ == decode_utf8(
                    stderr@,
                )
            },
            ProcessOutcome::LaunchFailed { cause } => {
                &&& !r.success
                &&& r.message@ == launch_failure_message(op, cause@)
                &&& r.message@.len() > 0
            },
        },
{
    match outcome {
        ProcessOutcome::Exited { code, stdout, stderr } => {
            let out = decode_lossy(&stdout);
            let err = decode_lossy(&stderr);
            completed_response(code, out, err)
        },
        ProcessOutcome::LaunchFailed { cause } => launch_failure_response(op, cause),
    }
}

} // verus!
