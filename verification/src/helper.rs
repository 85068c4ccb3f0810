//! Plain-value descriptions of a helper process: what to launch and what came
//! of it. The launch itself happens outside the library; these types carry the
//! request out and the observation back in.

use vstd::prelude::*;

verus! {

/// A helper-process request: a scripting interpreter and its argument list,
/// passed as separate arguments (never interpolated into a shell line).
pub struct HelperInvocation {
    pub interpreter: String,
    pub args: Vec<String>,
}

/// Whether an invocation names the given interpreter and carries exactly one
/// flag followed by one script payload.
pub open spec fn invocation_is(
    inv: HelperInvocation,
    interpreter: Seq<char>,
    flag: Seq<char>,
    script: Seq<char>,
) -> bool {
    &&& inv.interpreter@ == interpreter
    &&& inv.args@.len() == 2
    &&& inv.args@[0]@ == flag
    &&& inv.args@[1]@ == script
}

/// What came of running a helper process: it ran to completion with an exit
/// status and captured output streams, or it could not be launched at all
/// (interpreter missing, permission denied).
pub enum HelperOutcome {
    Exited { success: bool, stdout: String, stderr: String },
    LaunchFailed { reason: String },
}

} // verus!
