//! The two clipboard operations: write text, read text.
//!
//! The operating-system clipboard call itself happens outside the library and
//! its outcome comes in as an argument; everything decided about that outcome
//! — the blank-content policy and the exact feedback message — is here.

use vstd::prelude::*;
use vstd::string::StrSliceExecFns;
use vstd::string::StringExecFns;
use crate::digits::decimal;
use crate::digits::decimal_string;
use crate::text::blank_text;
use crate::text::is_blank;

verus! {

/// A success-or-error feedback pair, seen as character sequences.
pub open spec fn msg_result(r: Result<String, String>) -> Result<Seq<char>, Seq<char>> {
    match r {
        Ok(m) => Ok(m@),
        Err(e) => Err(e@),
    }
}

/// The confirmation after a successful write of `count` characters.
pub open spec fn copy_ok_message(count: nat) -> Seq<char> {
    "Text kopiert: "@ + decimal(count) + " Zeichen"@
}

/// The error when the clipboard service rejects the write.
pub open spec fn copy_err_message(detail: Seq<char>) -> Seq<char> {
    "Fehler beim Kopieren: "@ + detail
}

/// The error when the clipboard holds no text (or only white space).
pub open spec fn no_text_message() -> Seq<char> {
    "Keine Textdaten in Zwischenablage"@
}

/// The error when the clipboard read call itself fails.
pub open spec fn read_err_message(detail: Seq<char>) -> Seq<char> {
    "Fehler beim Lesen: "@ + detail
}

/// The decision on a successfully read clipboard content: the content itself,
/// unless it trims to nothing, which counts as "no text data".
pub open spec fn read_feedback(content: Seq<char>) -> Result<Seq<char>, Seq<char>> {
    if is_blank(content) {
        Err(no_text_message())
    } else {
        Ok(content)
    }
}

/// Feedback for a clipboard write of `text`, whose outcome at the clipboard
/// service was `write`: on success a confirmation naming the character count,
/// on rejection an error naming the service's reason.
pub fn copy_to_clipboard(text: &str, write: Result<(), String>) -> (r: Result<String, String>)
    ensures
        write is Ok ==> r is Ok && r->Ok_0@ == copy_ok_message(text@.len()),
        write is Err ==> r is Err && r->Err_0@ == copy_err_message(write->Err_0@),
{
    match write {
        Ok(_) => {
            let count = text.unicode_len();
            let mut m = String::from_str("Text kopiert: ");
            m.append(decimal_string(count).as_str());
            m.append(" Zeichen");
            Ok(m)
        },
        Err(e) => {
            let mut m = String::from_str("Fehler beim Kopieren: ");
            m.append(e.as_str());
            Err(m)
        },
    }
}

/// Feedback for a clipboard read whose outcome at the clipboard service was
/// `read`: the text itself when there is any after trimming, the "no text
/// data" error when there is none, and a read error naming the service's
/// reason when the call failed.
pub fn read_clipboard(read: Result<String, String>) -> (r: Result<String, String>)
    ensures
        read is Ok ==> msg_result(r) == read_feedback(read->Ok_0@),
        read is Err ==> r is Err && r->Err_0@ == read_err_message(read->Err_0@),
{
    match read {
        Ok(text) => {
            if blank_text(text.as_str()) {
                Err(String::from_str("Keine Textdaten in Zwischenablage"))
            } else {
                Ok(text)
            }
        },
        Err(e) => {
            let mut m = String::from_str("Fehler beim Lesen: ");
            m.append(e.as_str());
            Err(m)
        },
    }
}

/// A write stores its text on the clipboard verbatim, so a read that follows
/// `ClipboardWrite(t)` decides on `t` itself: it returns exactly `t`, unless
/// `t` is empty or white-space-only, in which case it fails with the "no text
/// data" error.
pub proof fn lemma_write_then_read_round_trip(t: Seq<char>)
    ensures
        !is_blank(t) ==> read_feedback(t) == Ok::<Seq<char>, Seq<char>>(t),
        is_blank(t) ==> read_feedback(t) == Err::<Seq<char>, Seq<char>>(no_text_message()),
        t.len() == 0 ==> read_feedback(t) == Err::<Seq<char>, Seq<char>>(no_text_message()),
{
}

} // verus!
