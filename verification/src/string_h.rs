//! Text that crosses the C boundary: C string arguments become Rust
//! strings, and Rust strings are cut down to what a C string can hold.
use vstd::prelude::*;
use vstd::utf8::{decode_utf8, valid_utf8};

verus! {

/// The text that `String::from_utf8_lossy` makes of `bytes`: valid UTF-8
/// decoded, each invalid sequence replaced by U+FFFD.
pub uninterp spec fn utf8_lossy_text(bytes: Seq<u8>) -> Seq<char>;

/// Whether every byte is ASCII (below 128).
pub open spec fn all_ascii(bytes: Seq<u8>) -> bool {
    forall|i: int| 0 <= i < bytes.len() ==> #[trigger] bytes[i] < 128
}

/// The characters of ASCII bytes, one for one.
pub open spec fn ascii_chars(bytes: Seq<u8>) -> Seq<char> {
    Seq::new(bytes.len(), |i: int| bytes[i] as char)
}

/// Decodes `bytes` as UTF-8, replacing invalid sequences
/// (`String::from_utf8_lossy`). The contract names the result and states
/// the documented case of valid input: valid UTF-8 comes back as the text
/// it encodes, so ASCII bytes come back one character per byte. How invalid
/// sequences are replaced is not stated.
#[verifier::external_body]
pub(crate) fn utf8_lossy(bytes: &[u8]) -> (text: String)
    ensures
        text@ == utf8_lossy_text(bytes@),
        valid_utf8(bytes@) ==> text@ == decode_utf8(bytes@),
        all_ascii(bytes@) ==> text@ == ascii_chars(bytes@),
{
    String::from_utf8_lossy(bytes).into_owned()
}

/// What a C string argument reads as: the empty string for a null pointer,
/// else its bytes decoded lossily.
pub open spec fn c_arg_text(bytes: Option<Seq<u8>>) -> Seq<char> {
    match bytes {
        Some(b) => utf8_lossy_text(b),
        None => Seq::empty(),
    }
}

/// The bytes of a C string argument before its terminating NUL, `None` for
/// a null pointer.
pub open spec fn c_arg_bytes(bytes: Option<&[u8]>) -> Option<Seq<u8>> {
    match bytes {
        Some(b) => Some(b@),
        None => None,
    }
}

/// Whether `text`, read from `bytes`, keeps ASCII bytes one for one.
pub open spec fn ascii_read_unchanged(bytes: Option<Seq<u8>>, text: Seq<char>) -> bool {
    match bytes {
        Some(b) => all_ascii(b) ==> text == ascii_chars(b),
        None => true,
    }
}

/// Text of a C string argument; a null pointer reads as the empty string.
pub fn cstr_to_string(bytes: Option<&[u8]>) -> (text: String)
    ensures
        text@ == c_arg_text(c_arg_bytes(bytes)),
        ascii_read_unchanged(c_arg_bytes(bytes), text@),
        bytes is None ==> text@.len() == 0,
        bytes is Some ==> text@ == utf8_lossy_text((bytes->0)@),
        bytes is Some && valid_utf8((bytes->0)@) ==> text@ == decode_utf8((bytes->0)@),
{
    match bytes {
        Some(b) => utf8_lossy(b),
        None => String::new(),
    }
}

/// Text of a nullable C string argument; a null pointer reads as `None`.
pub fn cstr_to_option(bytes: Option<&[u8]>) -> (text: Option<String>)
    ensures
        match bytes {
            Some(b) => text matches Some(t) && t@ == utf8_lossy_text(b@) && (all_ascii(b@) ==> t@
                == ascii_chars(b@)) && (valid_utf8(b@) ==> t@ == decode_utf8(b@)),
            None => text is None,
        },
{
    match bytes {
        Some(b) => Some(utf8_lossy(b)),
        None => None,
    }
}

/// What a C string made from `text` holds: `text` itself, or the empty
/// string where `text` has a NUL inside (a C string cannot hold one).
pub open spec fn c_string_content(text: Seq<char>) -> Seq<char> {
    if text.contains('\0') {
        Seq::empty()
    } else {
        text
    }
}

/// Whether `text` has a NUL character.
pub fn has_nul(text: &str) -> (found: bool)
    ensures
        found == text@.contains('\0'),
{
    let mut found = false;
    for c in it: text.chars()
        invariant
            it.seq() == text@,
            found == it.seq().take(it.index() as int).contains('\0'),
    {
        let ghost before = it.seq().take(it.index() as int);
        proof {
            assert(it.seq().take(it.index() + 1) == before.push(c));
            assert(before.push(c)[before.len() as int] == c);
            assert forall|x: char| before.push(c).contains(x) <==> (before.contains(x) || x == c) by {
                if before.push(c).contains(x) {
                    let k = choose|k: int| 0 <= k < before.push(c).len() && before.push(c)[k] == x;
                    if k < before.len() {
                        assert(before[k] == x);
                    }
                }
                if before.contains(x) {
                    let k = choose|k: int| 0 <= k < before.len() && before[k] == x;
                    assert(before.push(c)[k] == x);
                }
            }
        }
        if c == '\0' {
            found = true;
        }
    }
    proof {
        assert(text@.take(text@.len() as int) == text@);
    }
    found
}

/// The text that goes into a C string made from `text`, as
/// `CString::new(text).unwrap_or_default()` makes it.
pub fn c_string_text(text: String) -> (content: String)
    ensures
        content@ == c_string_content(text@),
        text@.contains('\0') ==> content@.len() == 0,
        !text@.contains('\0') ==> content@ == text@,
{
    if has_nul(text.as_str()) {
        String::new()
    } else {
        text
    }
}

} // verus!

verus! {

/// Law: what goes into a C string never holds a NUL, text without a NUL
/// goes in unchanged, and text with a NUL gives the empty C string.
pub proof fn law_c_string_content_is_nul_free(text: Seq<char>)
    ensures
        !c_string_content(text).contains('\0'),
        !text.contains('\0') ==> c_string_content(text) == text,
        text.contains('\0') ==> c_string_content(text).len() == 0,
{
}

/// Law: a C string argument reads as the lossy decoding of its own bytes,
/// so valid UTF-8 reads as the text it encodes; a null pointer reads as the
/// empty string.
pub proof fn law_c_arg_reads_its_bytes(bytes: Seq<u8>)
    ensures
        c_arg_text(Some(bytes)) == utf8_lossy_text(bytes),
        c_arg_text(None).len() == 0,
{
}

/// Law: ASCII bytes read as characters one for one, each with the byte's
/// value.
pub proof fn law_ascii_chars_one_for_one(bytes: Seq<u8>)
    ensures
        ascii_chars(bytes).len() == bytes.len(),
        forall|i: int| 0 <= i < bytes.len() ==> #[trigger] ascii_chars(bytes)[i] == bytes[i] as char,
{
}

} // verus!
