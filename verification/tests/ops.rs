use clipkit::clipboard::copy_to_clipboard;
use clipkit::clipboard::read_clipboard;
use clipkit::digits::decimal_string;
use clipkit::helper::HelperOutcome;
use clipkit::keystroke::auto_copy_selection;
use clipkit::keystroke::clear_other_selections;
use clipkit::keystroke::copy_keystroke_plan;
use clipkit::keystroke::escape_broadcast_plan;
use clipkit::platform::Platform;
use clipkit::text::blank_text;

fn exited(success: bool) -> HelperOutcome {
    HelperOutcome::Exited { success, stdout: String::new(), stderr: String::new() }
}

fn launch_failed(reason: &str) -> HelperOutcome {
    HelperOutcome::LaunchFailed { reason: reason.to_string() }
}

#[test]
fn decimal_zero() {
    assert_eq!(decimal_string(0), "0");
}

#[test]
fn decimal_single_digit() {
    assert_eq!(decimal_string(7), "7");
}

#[test]
fn decimal_two_digits() {
    assert_eq!(decimal_string(10), "10");
}

#[test]
fn decimal_many_digits() {
    assert_eq!(decimal_string(123456), "123456");
}

#[test]
fn blank_text_empty() {
    assert!(blank_text(""));
}

#[test]
fn blank_text_spaces_and_tabs() {
    assert!(blank_text(" \t\r\n  "));
}

#[test]
fn blank_text_ideographic_space() {
    assert!(blank_text("\u{3000}\u{A0}"));
}

#[test]
fn blank_text_not_blank() {
    assert!(!blank_text("  a  "));
}

#[test]
fn copy_reports_character_count() {
    let r = copy_to_clipboard("héllo 👋", Ok(()));
    assert_eq!(r, Ok("Text kopiert: 7 Zeichen".to_string()));
}

#[test]
fn copy_of_empty_text_succeeds() {
    let r = copy_to_clipboard("", Ok(()));
    assert_eq!(r, Ok("Text kopiert: 0 Zeichen".to_string()));
}

#[test]
fn copy_rejected_by_service() {
    let r = copy_to_clipboard("abc", Err("no clipboard owner available".to_string()));
    assert_eq!(r, Err("Fehler beim Kopieren: no clipboard owner available".to_string()));
}

#[test]
fn read_returns_text_verbatim() {
    let r = read_clipboard(Ok("some text".to_string()));
    assert_eq!(r, Ok("some text".to_string()));
}

#[test]
fn write_then_read_round_trips_emoji() {
    // The clipboard service stores the written text verbatim, so the read
    // decision sees exactly what the write sent.
    let written = "héllo 👋";
    let wrote = copy_to_clipboard(written, Ok(()));
    assert!(wrote.is_ok());
    let r = read_clipboard(Ok(written.to_string()));
    assert_eq!(r, Ok("héllo 👋".to_string()));
}

#[test]
fn write_then_read_round_trips_control_characters() {
    let written = "a\u{7}b\u{1b}c\u{0}";
    let wrote = copy_to_clipboard(written, Ok(()));
    assert_eq!(wrote, Ok("Text kopiert: 6 Zeichen".to_string()));
    let r = read_clipboard(Ok(written.to_string()));
    assert_eq!(r, Ok(written.to_string()));
}

#[test]
fn write_then_read_of_empty_text_fails() {
    let written = "";
    let wrote = copy_to_clipboard(written, Ok(()));
    assert!(wrote.is_ok());
    let r = read_clipboard(Ok(written.to_string()));
    assert_eq!(r, Err("Keine Textdaten in Zwischenablage".to_string()));
}

#[test]
fn read_of_whitespace_only_fails() {
    let r = read_clipboard(Ok(" \t\n ".to_string()));
    assert_eq!(r, Err("Keine Textdaten in Zwischenablage".to_string()));
}

#[test]
fn read_of_non_text_data_fails_descriptively() {
    // The service rejects a read when the clipboard holds, say, an image.
    let r = read_clipboard(Err("clipboard holds non-text data".to_string()));
    assert_eq!(r, Err("Fehler beim Lesen: clipboard holds non-text data".to_string()));
}

#[test]
fn copy_plan_macos() {
    let inv = copy_keystroke_plan(Platform::MacOs).unwrap();
    assert_eq!(inv.interpreter, "osascript");
    assert_eq!(inv.args.len(), 2);
    assert_eq!(inv.args[0], "-e");
    assert!(inv.args[1].contains("keystroke \"c\" using {command down}"));
}

#[test]
fn copy_plan_windows() {
    let inv = copy_keystroke_plan(Platform::Windows).unwrap();
    assert_eq!(inv.interpreter, "powershell");
    assert_eq!(inv.args.len(), 2);
    assert_eq!(inv.args[0], "-Command");
    assert!(inv.args[1].contains("SendWait(\"^c\")"));
}

#[test]
fn copy_plan_unsupported() {
    assert!(copy_keystroke_plan(Platform::Unsupported).is_none());
}

#[test]
fn escape_plan_macos() {
    let inv = escape_broadcast_plan(Platform::MacOs).unwrap();
    assert_eq!(inv.interpreter, "osascript");
    assert_eq!(inv.args.len(), 2);
    assert_eq!(inv.args[0], "-e");
    assert!(inv.args[1].contains("ASCII character 27"));
}

#[test]
fn escape_plan_windows() {
    let inv = escape_broadcast_plan(Platform::Windows).unwrap();
    assert_eq!(inv.interpreter, "powershell");
    assert_eq!(inv.args[0], "-Command");
    assert!(inv.args[1].contains("SendWait(\"{ESC}\")"));
}

#[test]
fn escape_plan_unsupported() {
    assert!(escape_broadcast_plan(Platform::Unsupported).is_none());
}

#[test]
fn auto_copy_unsupported_always_fails() {
    let r = auto_copy_selection(Platform::Unsupported, None);
    assert_eq!(r, Err("Auto-copy nicht verfügbar auf diesem System".to_string()));
}

#[test]
fn auto_copy_success() {
    let r = auto_copy_selection(Platform::MacOs, Some(exited(true)));
    assert_eq!(r, Ok("Markierter Text automatisch kopiert".to_string()));
}

#[test]
fn auto_copy_script_failure_macos() {
    let r = auto_copy_selection(Platform::MacOs, Some(exited(false)));
    assert_eq!(r, Err("AppleScript Fehler beim automatischen Kopieren".to_string()));
}

#[test]
fn auto_copy_script_failure_windows() {
    let r = auto_copy_selection(Platform::Windows, Some(exited(false)));
    assert_eq!(r, Err("Fehler beim automatischen Kopieren".to_string()));
}

#[test]
fn auto_copy_launch_failure_names_reason() {
    let r = auto_copy_selection(
        Platform::MacOs,
        Some(launch_failed("No such file or directory (os error 2)")),
    );
    let e = r.unwrap_err();
    assert_eq!(e, "Fehler beim automatischen Kopieren: No such file or directory (os error 2)");
    assert!(e.contains("No such file or directory (os error 2)"));
}

#[test]
fn clear_selections_unsupported_always_succeeds() {
    let r = clear_other_selections(Platform::Unsupported, None);
    assert_eq!(r, Ok("Selection clearing nicht verfügbar auf diesem System".to_string()));
}

#[test]
fn clear_selections_success() {
    let r = clear_other_selections(Platform::Windows, Some(exited(true)));
    assert_eq!(r, Ok("Selections in anderen Apps gecleart".to_string()));
}

#[test]
fn clear_selections_warning_exit_is_soft_success() {
    let r = clear_other_selections(Platform::MacOs, Some(exited(false)));
    assert_eq!(r, Ok("Selections teilweise gecleart".to_string()));
}

#[test]
fn clear_selections_launch_failure_names_reason() {
    let r = clear_other_selections(Platform::Windows, Some(launch_failed("access is denied")));
    assert_eq!(r, Err("Fehler beim Clearen der Selections: access is denied".to_string()));
}

#[test]
fn platform_capability() {
    assert!(Platform::MacOs.keystroke_helper_available());
    assert!(Platform::Windows.keystroke_helper_available());
    assert!(!Platform::Unsupported.keystroke_helper_available());
}
