//! The two keystroke-injection operations: simulate a "copy selection"
//! key-chord, and broadcast an "escape" key event to other applications.
//!
//! Each operation is planned as a helper-process invocation chosen by
//! platform, and judged from the helper's outcome. Launching the helper
//! happens outside the library; the plan going out and the decision on the
//! outcome coming back are both here, including the deliberate asymmetry: an
//! unsupported platform is a hard error for copy simulation, but a benign
//! success for the best-effort escape broadcast.

use vstd::prelude::*;
use vstd::string::StringExecFns;
use crate::clipboard::msg_result;
use crate::helper::HelperInvocation;
use crate::helper::HelperOutcome;
use crate::helper::invocation_is;
use crate::platform::Platform;

verus! {

/// The script sent to the macOS scripting interpreter: a "copy" key-chord to
/// the focused application, with short settling delays.
pub const MAC_COPY_SCRIPT: &'static str = r#"
            tell application "System Events"
                delay 0.01
                keystroke "c" using {command down}
                delay 0.02
                return "success"
            end tell
        "#;

/// The script sent to the Windows scripting interpreter: a "copy" key-chord
/// to the focused application.
pub const WINDOWS_COPY_SCRIPT: &'static str = r#"
            Add-Type -AssemblyName System.Windows.Forms
            [System.Windows.Forms.SendKeys]::SendWait("^c")
        "#;

/// The script sent to the macOS scripting interpreter: an "escape" key event
/// to each visible application in turn, ignoring the ones that refuse
/// synthetic keystrokes.
pub const MAC_ESCAPE_SCRIPT: &'static str = r#"
            tell application "System Events"
                set allApps to every application process whose visible is true
                repeat with anApp in allApps
                    try
                        tell anApp
                            if (count of windows) > 0 then
                                keystroke (ASCII character 27)
                            end if
                        end tell
                    on error
                    end try
                end repeat
            end tell
        "#;

/// The script sent to the Windows scripting interpreter: a single global
/// "escape" key event.
pub const WINDOWS_ESCAPE_SCRIPT: &'static str = r#"
            Add-Type -AssemblyName System.Windows.Forms
            [System.Windows.Forms.SendKeys]::SendWait("{ESC}")
        "#;

/// The helper invocation that injects the "copy" key-chord on `p`, or `None`
/// where no strategy is implemented.
pub fn copy_keystroke_plan(p: Platform) -> (r: Option<HelperInvocation>)
    ensures
        r is Some <==> p.has_keystroke_helper(),
        p is MacOs ==> invocation_is(r->0, "osascript"@, "-e"@, MAC_COPY_SCRIPT@),
        p is Windows ==> invocation_is(r->0, "powershell"@, "-Command"@, WINDOWS_COPY_SCRIPT@),
{
    match p {
        Platform::MacOs => Some(
            HelperInvocation {
                interpreter: String::from_str("osascript"),
                args: vec![String::from_str("-e"), String::from_str(MAC_COPY_SCRIPT)],
            },
        ),
        Platform::Windows => Some(
            HelperInvocation {
                interpreter: String::from_str("powershell"),
                args: vec![String::from_str("-Command"), String::from_str(WINDOWS_COPY_SCRIPT)],
            },
        ),
        Platform::Unsupported => None,
    }
}

/// The helper invocation that broadcasts the "escape" key event on `p`, or
/// `None` where no strategy is implemented.
pub fn escape_broadcast_plan(p: Platform) -> (r: Option<HelperInvocation>)
    ensures
        r is Some <==> p.has_keystroke_helper(),
        p is MacOs ==> invocation_is(r->0, "osascript"@, "-e"@, MAC_ESCAPE_SCRIPT@),
        p is Windows ==> invocation_is(r->0, "powershell"@, "-Command"@, WINDOWS_ESCAPE_SCRIPT@),
{
    match p {
        Platform::MacOs => Some(
            HelperInvocation {
                interpreter: String::from_str("osascript"),
                args: vec![String::from_str("-e"), String::from_str(MAC_ESCAPE_SCRIPT)],
            },
        ),
        Platform::Windows => Some(
            HelperInvocation {
                interpreter: String::from_str("powershell"),
                args: vec![String::from_str("-Command"), String::from_str(WINDOWS_ESCAPE_SCRIPT)],
            },
        ),
        Platform::Unsupported => None,
    }
}

/// The confirmation after the copy key-chord was delivered.
pub open spec fn copy_done_message() -> Seq<char> {
    "Markierter Text automatisch kopiert"@
}

/// The error when no copy strategy exists for the platform.
pub open spec fn copy_unavailable_message() -> Seq<char> {
    "Auto-copy nicht verfügbar auf diesem System"@
}

/// The error when the helper ran but exited without success.
pub open spec fn copy_script_failed_message(p: Platform) -> Seq<char> {
    if p is MacOs {
        "AppleScript Fehler beim automatischen Kopieren"@
    } else {
        "Fehler beim automatischen Kopieren"@
    }
}

/// The error when the helper could not be launched at all.
pub open spec fn copy_launch_failed_message(reason: Seq<char>) -> Seq<char> {
    "Fehler beim automatischen Kopieren: "@ + reason
}

/// The full decision for copy simulation. An unsupported platform is a hard
/// error whatever else happened; otherwise a successful helper exit is the
/// confirmation, a non-success exit is a script error, and a failed launch is
/// an error naming the launch failure's reason.
pub open spec fn copy_keystroke_feedback(p: Platform, outcome: Option<HelperOutcome>) -> Result<
    Seq<char>,
    Seq<char>,
> {
    if !p.has_keystroke_helper() {
        Err(copy_unavailable_message())
    } else {
        match outcome {
            Some(HelperOutcome::Exited { success, .. }) => if success {
                Ok(copy_done_message())
            } else {
                Err(copy_script_failed_message(p))
            },
            Some(HelperOutcome::LaunchFailed { reason }) => Err(
                copy_launch_failed_message(reason@),
            ),
            None => Err(copy_unavailable_message()),
        }
    }
}

/// Feedback for the copy-selection simulation on platform `p`, whose helper
/// process (run exactly when a strategy exists) ended as `outcome`.
pub fn auto_copy_selection(p: Platform, outcome: Option<HelperOutcome>) -> (r: Result<
    String,
    String,
>)
    requires
        p.has_keystroke_helper() <==> outcome is Some,
    ensures
        msg_result(r) == copy_keystroke_feedback(p, outcome),
{
    match outcome {
        None => Err(String::from_str("Auto-copy nicht verfügbar auf diesem System")),
        Some(HelperOutcome::Exited { success, .. }) => {
            if success {
                Ok(String::from_str("Markierter Text automatisch kopiert"))
            } else {
                match p {
                    Platform::MacOs => Err(
                        String::from_str("AppleScript Fehler beim automatischen Kopieren"),
                    ),
                    _ => Err(String::from_str("Fehler beim automatischen Kopieren")),
                }
            }
        },
        Some(HelperOutcome::LaunchFailed { reason }) => {
            let mut m = String::from_str("Fehler beim automatischen Kopieren: ");
            m.append(reason.as_str());
            Err(m)
        },
    }
}

/// The confirmation after the escape broadcast went through.
pub open spec fn escape_done_message() -> Seq<char> {
    "Selections in anderen Apps gecleart"@
}

/// The softer confirmation when the helper exited with a warning: partial
/// delivery is expected and non-fatal.
pub open spec fn escape_partial_message() -> Seq<char> {
    "Selections teilweise gecleart"@
}

/// The benign notice when no escape strategy exists for the platform.
pub open spec fn escape_unavailable_message() -> Seq<char> {
    "Selection clearing nicht verfügbar auf diesem System"@
}

/// The error when the escape helper could not be launched at all.
pub open spec fn escape_launch_failed_message(reason: Seq<char>) -> Seq<char> {
    "Fehler beim Clearen der Selections: "@ + reason
}

/// The full decision for the escape broadcast. An unsupported platform is a
/// benign success; a successful helper exit is the confirmation; a
/// non-success exit is still a success, softened to "partially completed";
/// only a failed launch is an error.
pub open spec fn escape_broadcast_feedback(p: Platform, outcome: Option<HelperOutcome>) -> Result<
    Seq<char>,
    Seq<char>,
> {
    if !p.has_keystroke_helper() {
        Ok(escape_unavailable_message())
    } else {
        match outcome {
            Some(HelperOutcome::Exited { success, .. }) => if success {
                Ok(escape_done_message())
            } else {
                Ok(escape_partial_message())
            },
            Some(HelperOutcome::LaunchFailed { reason }) => Err(
                escape_launch_failed_message(reason@),
            ),
            None => Ok(escape_unavailable_message()),
        }
    }
}

/// Feedback for the escape broadcast on platform `p`, whose helper process
/// (run exactly when a strategy exists) ended as `outcome`.
pub fn clear_other_selections(p: Platform, outcome: Option<HelperOutcome>) -> (r: Result<
    String,
    String,
>)
    requires
        p.has_keystroke_helper() <==> outcome is Some,
    ensures
        msg_result(r) == escape_broadcast_feedback(p, outcome),
{
    match outcome {
        None => Ok(String::from_str("Selection clearing nicht verfügbar auf diesem System")),
        Some(HelperOutcome::Exited { success, .. }) => {
            if success {
                Ok(String::from_str("Selections in anderen Apps gecleart"))
            } else {
                Ok(String::from_str("Selections teilweise gecleart"))
            }
        },
        Some(HelperOutcome::LaunchFailed { reason }) => {
            let mut m = String::from_str("Fehler beim Clearen der Selections: ");
            m.append(reason.as_str());
            Err(m)
        },
    }
}

/// Copy simulation on an unsupported platform always fails with the
/// "unavailable" error, whatever the surrounding events: it never succeeds.
pub proof fn lemma_copy_unsupported_always_fails(outcome: Option<HelperOutcome>)
    ensures
        copy_keystroke_feedback(Platform::Unsupported, outcome) == Err::<Seq<char>, Seq<char>>(
            copy_unavailable_message(),
        ),
{
}

/// The escape broadcast on an unsupported platform always succeeds with the
/// benign "unavailable" notice, whatever the surrounding events: it never
/// fails. Deliberately asymmetric from the copy case.
pub proof fn lemma_escape_unsupported_always_succeeds(outcome: Option<HelperOutcome>)
    ensures
        escape_broadcast_feedback(Platform::Unsupported, outcome) == Ok::<Seq<char>, Seq<char>>(
            escape_unavailable_message(),
        ),
{
}

} // verus!
