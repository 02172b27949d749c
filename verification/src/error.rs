//! The text of the last error that a C caller reads back.
use vstd::prelude::*;
use vstd::string::StringExecFns;

use crate::string_h::has_nul;

verus! {

/// What each failing C ABI call reports before the error's own text.
pub enum ErrorKind {
    Connect,
    Publish,
    Subscribe,
    Stream,
    Group,
    Rpc,
}

/// The label that the error report of `kind` starts with.
pub open spec fn kind_label(kind: ErrorKind) -> Seq<char> {
    match kind {
        ErrorKind::Connect => "ConnectError"@,
        ErrorKind::Publish => "PublishError"@,
        ErrorKind::Subscribe => "SubscribeError"@,
        ErrorKind::Stream => "StreamError"@,
        ErrorKind::Group => "GroupError"@,
        ErrorKind::Rpc => "RpcError"@,
    }
}

/// The report `"<label>: <detail>"` for an error of `kind` whose own text is
/// `detail`.
pub fn error_report(kind: ErrorKind, detail: &str) -> (report: String)
    ensures
        report@ == kind_label(kind) + ": "@ + detail@,
        kind is Connect ==> report@ == "ConnectError"@ + ": "@ + detail@,
        kind is Publish ==> report@ == "PublishError"@ + ": "@ + detail@,
        kind is Subscribe ==> report@ == "SubscribeError"@ + ": "@ + detail@,
        kind is Stream ==> report@ == "StreamError"@ + ": "@ + detail@,
        kind is Group ==> report@ == "GroupError"@ + ": "@ + detail@,
        kind is Rpc ==> report@ == "RpcError"@ + ": "@ + detail@,
{
    let label = match kind {
        ErrorKind::Connect => String::from_str("ConnectError"),
        ErrorKind::Publish => String::from_str("PublishError"),
        ErrorKind::Subscribe => String::from_str("SubscribeError"),
        ErrorKind::Stream => String::from_str("StreamError"),
        ErrorKind::Group => String::from_str("GroupError"),
        ErrorKind::Rpc => String::from_str("RpcError"),
    };
    label.concat(": ").concat(detail)
}

/// What is stored in place of a message that a C string cannot hold.
pub open spec fn nul_fallback() -> Seq<char> {
    "error message contained null byte"@
}

/// The text stored as the last error for `msg`: `msg` itself, or the
/// fallback text where `msg` has a NUL inside.
pub open spec fn stored_error(msg: Seq<char>) -> Seq<char> {
    if msg.contains('\0') {
        nul_fallback()
    } else {
        msg
    }
}

/// The text to store as the last error for `msg` (the message part of
/// `set_last_error`).
pub fn last_error_text(msg: &str) -> (stored: String)
    ensures
        stored@ == stored_error(msg@),
        !msg@.contains('\0') ==> stored@ == msg@,
        msg@.contains('\0') ==> stored@ == "error message contained null byte"@,
{
    if has_nul(msg) {
        String::from_str("error message contained null byte")
    } else {
        String::from_str(msg)
    }
}

/// Law: the stored last error never holds a NUL, so a C caller always reads
/// it whole.
pub proof fn law_stored_error_is_c_safe(msg: Seq<char>)
    ensures
        !stored_error(msg).contains('\0'),
        !msg.contains('\0') ==> stored_error(msg) == msg,
        msg.contains('\0') ==> stored_error(msg) == "error message contained null byte"@,
{
    reveal_strlit("error message contained null byte");
    if msg.contains('\0') {
        assert(!nul_fallback().contains('\0')) by {
            if nul_fallback().contains('\0') {
                let k = choose|k: int| 0 <= k < nul_fallback().len() && nul_fallback()[k] == '\0';
                assert(nul_fallback()[k] != '\0');
            }
        }
    }
}

} // verus!

verus! {

/// Return code of a call that either completes or fails: `0` or `-1`.
pub fn completion_code(succeeded: bool) -> (code: i32)
    ensures
        code == (if succeeded { 0i32 } else { -1i32 }),
{
    if succeeded {
        0
    } else {
        -1
    }
}

} // verus!
