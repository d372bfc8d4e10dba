//! Text as it crosses a C boundary: NUL-terminated on the way out, raw bytes on
//! the way in.

use vstd::prelude::*;
use vstd::utf8::*;

verus! {

/// What `text` becomes as a C string: itself, or the empty string where an
/// embedded NUL would cut it short.
pub open spec fn c_text(text: Seq<char>) -> Seq<char> {
    if text.contains('\0') {
        Seq::empty()
    } else {
        text
    }
}

/// Whether `text` holds a NUL character.
pub fn has_nul(text: &str) -> (found: bool)
    ensures
        found == text@.contains('\0'),
{
    for c in it: text.chars()
        invariant
            it.seq() == text@,
            forall|i: int| 0 <= i < it.index() ==> text@[i] != '\0',
    {
        if c == '\0' {
            assert(text@[it.index() as int] == '\0');
            return true;
        }
    }
    false
}

/// The contents of the C string made from `text`.
pub fn c_string(text: &str) -> (c: String)
    ensures
        c@ == c_text(text@),
{
    if has_nul(text) {
        String::new()
    } else {
        text.to_owned()
    }
}

/// The text that `String::from_utf8_lossy` reads from `bytes`.
pub uninterp spec fn lossy_utf8(bytes: Seq<u8>) -> Seq<char>;

/// The text read leniently from `bytes`: decoded where they are valid UTF-8, and
/// patched with replacement characters where they are not.
pub open spec fn lenient_text(bytes: Seq<u8>) -> Seq<char> {
    if valid_utf8(bytes) {
        decode_utf8(bytes)
    } else {
        lossy_utf8(bytes)
    }
}

/// `String::from_utf8_lossy`: valid UTF-8 is decoded as it is; anything else is
/// patched with replacement characters, in a way the contract only names.
#[verifier::external_body]
pub(crate) fn lossy_text(bytes: &[u8]) -> (text: String)
    ensures
        text@ == lossy_utf8(bytes@),
        valid_utf8(bytes@) ==> text@ == decode_utf8(bytes@),
{
    String::from_utf8_lossy(bytes).into_owned()
}

/// How `std::str::from_utf8` describes its rejection of `bytes`.
pub uninterp spec fn utf8_error(bytes: Seq<u8>) -> Seq<char>;

/// `std::str::from_utf8`: succeeds exactly on valid UTF-8, with the decoded
/// text; the wording of the error is only named.
#[verifier::external_body]
pub(crate) fn strict_text(bytes: &[u8]) -> (text: Result<String, String>)
    ensures
        match text {
            Ok(decoded) => valid_utf8(bytes@) && decoded@ == decode_utf8(bytes@),
            Err(message) => !valid_utf8(bytes@) && message@ == utf8_error(bytes@),
        },
{
    match std::str::from_utf8(bytes) {
        Ok(decoded) => Ok(decoded.to_string()),
        Err(error) => Err(error.to_string()),
    }
}

/// The contents of a C string never hold a NUL, and making a C string of them again
/// changes nothing. Text without a NUL crosses as it is.
pub proof fn law_c_strings_hold_no_nul(text: Seq<char>)
    ensures
        !c_text(text).contains('\0'),
        c_text(c_text(text)) == c_text(text),
        !text.contains('\0') ==> c_text(text) == text,
{
}

/// A text is looked through to its end for a NUL: it is found exactly where one stands.
pub proof fn law_nul_is_found_wherever_it_stands(text: &str, found: bool)
    requires
        call_ensures(has_nul, (text,), found),
    ensures
        found <==> exists|i: int| 0 <= i < text@.len() && text@[i] == '\0',
{
}

/// A C string made of a text is the text itself, or empty where the text holds a NUL: it
/// is never a part of the text.
pub proof fn law_c_string_is_the_text_or_empty(text: &str, c: String)
    requires
        call_ensures(c_string, (text,), c),
    ensures
        (forall|i: int| 0 <= i < text@.len() ==> text@[i] != '\0') ==> c@ == text@,
        (exists|i: int| 0 <= i < text@.len() && text@[i] == '\0') ==> c@.len() == 0,
        c@ == c_text(text@),
{
    assert(text@.contains('\0') <==> exists|i: int| 0 <= i < text@.len() && text@[i] == '\0');
}

/// What was written as UTF-8 is read leniently as it was written; only bytes that are not
/// UTF-8 are patched.
pub proof fn law_lenient_reading_keeps_utf8(text: Seq<char>, bytes: Seq<u8>)
    ensures
        lenient_text(encode_utf8(text)) == text,
        valid_utf8(bytes) ==> lenient_text(bytes) == decode_utf8(bytes),
        !valid_utf8(bytes) ==> lenient_text(bytes) == lossy_utf8(bytes),
{
    encode_utf8_valid_utf8(text);
    encode_utf8_decode_utf8(text);
}

} // verus!
