//! The computations of the interactive variant: the text handed to the modal
//! dialog, and the operator's decision read from its response.
use vstd::prelude::*;

use crate::gui::Decision;
use vstd::string::StringExecFns;

verus! {

/// The UTF-16 code units of one character: one unit below U+10000, else a
/// surrogate pair.
pub open spec fn spec_utf16_char(c: char) -> Seq<u16> {
    let v = c as u32;
    if v < 0x10000 {
        seq![v as u16]
    } else {
        let w = (v - 0x10000) as u32;
        seq![(0xD800 + (w >> 10u32)) as u16, (0xDC00 + (w & 0x3FFu32)) as u16]
    }
}

/// The UTF-16 encoding of a string.
pub open spec fn spec_utf16(s: Seq<char>) -> Seq<u16>
    decreases s.len(),
{
    if s.len() == 0 {
        seq![]
    } else {
        spec_utf16(s.drop_last()) + spec_utf16_char(s.last())
    }
}

/// Relies on str::encode_utf16: the string's UTF-16 code units, in order.
#[verifier::external_body]
fn utf16_units(s: &str) -> (r: Vec<u16>)
    ensures
        r@ == spec_utf16(s@),
{
    s.encode_utf16().collect()
}

/// The UTF-16 encoding of `s` ended by a zero unit, as the dialog takes its text.
pub fn encode_wide(s: &str) -> (r: Vec<u16>)
    ensures
        r@ == spec_utf16(s@).push(0u16),
{
    let mut units = utf16_units(s);
    units.push(0u16);
    units
}

/// The response code of the dialog's Retry button.
pub open spec fn spec_id_retry() -> i32 {
    4i32
}

/// The response code of the dialog's Try Again button.
pub open spec fn spec_id_try_again() -> i32 {
    10i32
}

/// Relies on windows_sys IDRETRY: the code MessageBoxW returns for Retry.
#[verifier::external_body]
fn id_retry() -> (r: i32)
    ensures
        r == spec_id_retry(),
{
    windows_sys::Win32::UI::WindowsAndMessaging::IDRETRY
}

/// Relies on windows_sys IDTRYAGAIN: the code MessageBoxW returns for Try Again.
#[verifier::external_body]
fn id_try_again() -> (r: i32)
    ensures
        r == spec_id_try_again(),
{
    windows_sys::Win32::UI::WindowsAndMessaging::IDTRYAGAIN
}

/// The decision that a response of the dialog stands for: an explicit retry
/// signal retries, anything else abandons.
pub open spec fn spec_decision(code: i32) -> Decision {
    if code == spec_id_retry() || code == spec_id_try_again() {
        Decision::Retry
    } else {
        Decision::Abandon
    }
}

/// Reads the operator's decision from the response code of the dialog.
pub fn decision_from_response(code: i32) -> (r: Decision)
    ensures
        r == spec_decision(code),
{
    if code == id_retry() || code == id_try_again() {
        Decision::Retry
    } else {
        Decision::Abandon
    }
}

/// The name shown for a thread that has none.
pub open spec fn spec_unnamed() -> Seq<char> {
    "<unnamed>"@
}

/// The text of the notice of an unhandled panic: the thread's name, or a
/// placeholder where it has none, then the panic's detail.
pub open spec fn spec_panic_notice(thread: Option<Seq<char>>, detail: Seq<char>) -> Seq<char> {
    let name = match thread {
        Some(n) => n,
        None => spec_unnamed(),
    };
    "thread '"@ + name + "' "@ + detail
}

/// Formats the notice of an unhandled panic on a thread.
pub fn panic_notice(thread: Option<&str>, detail: &str) -> (r: String)
    ensures
        r@ == spec_panic_notice(
            match thread {
                Some(n) => Some(n@),
                None => None,
            },
            detail@,
        ),
{
    let name: &str = match thread {
        Some(n) => n,
        None => "<unnamed>",
    };
    let mut text = String::from_str("thread '");
    text.append(name);
    text.append("' ");
    text.append(detail);
    proof {
        reveal_strlit("<unnamed>");
        reveal_strlit("thread '");
        reveal_strlit("' ");
    }
    text
}

} // verus!
