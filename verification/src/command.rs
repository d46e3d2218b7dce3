//! Command runner logic: what the agent decides about a finished process.
//!
//! Spawning the process is outside work; the library builds the command
//! lines and maps the captured outcome (exit success, stdout, stderr) to
//! the runner's result.

use crate::error::{ErrorKind, Failure};
use vstd::prelude::*;

verus! {

/// Maps a finished process to the command runner's result: the captured
/// stdout on a zero exit code, otherwise an execution failure carrying the
/// captured stderr.
pub fn process_output(success: bool, stdout: String, stderr: String) -> (r: Result<
    String,
    Failure,
>)
    ensures
        success ==> (r matches Ok(out) && out == stdout),
        !success ==> (r matches Err(f) && f.kind == ErrorKind::ExecutionFailure && f.message
            == stderr),
{
    if success {
        Ok(stdout)
    } else {
        Err(Failure { kind: ErrorKind::ExecutionFailure, message: stderr })
    }
}

/// The command line of a WMI query over the given path expression.
pub fn wmi_query_command(query: &str) -> (r: String)
    ensures
        r@ == "wmic path "@ + query@ + " /format:list"@,
{
    let mut out = "wmic path ".to_owned();
    out.append(query);
    out.append(" /format:list");
    out
}

} // verus!
