//! What this crate takes for granted of the standard library's string
//! functions, and what follows from it. The contracts of the standard
//! library's functions are not proved; each says what the function's
//! documentation says.

use std::string::FromUtf8Error;
use vstd::prelude::*;
use vstd::utf8::{decode_utf8, is_ascii_chars, valid_utf8};

verus! {

/// The lower-case form of a text, as `str::to_lowercase` gives it.
pub uninterp spec fn lowercased(text: Seq<char>) -> Seq<char>;

/// The character is white space: it has the Unicode property `White_Space`,
/// which is what `char::is_whitespace` asks.
pub open spec fn is_white_space(c: char) -> bool {
    let code = c as u32;
    ||| 0x09 <= code <= 0x0d
    ||| code == 0x20
    ||| code == 0x85
    ||| code == 0xa0
    ||| code == 0x1680
    ||| 0x2000 <= code <= 0x200a
    ||| code == 0x2028
    ||| code == 0x2029
    ||| code == 0x202f
    ||| code == 0x205f
    ||| code == 0x3000
}

/// `inner` is the part of `text` from `start` up to `end`, everything
/// outside it is white space, and it neither begins nor ends with white
/// space.
pub open spec fn is_trim_at(text: Seq<char>, inner: Seq<char>, start: int, end: int) -> bool {
    &&& 0 <= start <= end <= text.len()
    &&& inner == text.subrange(start, end)
    &&& forall|i: int| 0 <= i < start ==> is_white_space(#[trigger] text[i])
    &&& forall|i: int| end <= i < text.len() ==> is_white_space(#[trigger] text[i])
    &&& start < end ==> !is_white_space(text[start]) && !is_white_space(text[end - 1])
}

/// `inner` is `text` without the white space at its two ends.
pub open spec fn is_trim_of(text: Seq<char>, inner: Seq<char>) -> bool {
    exists|start: int, end: int| #[trigger] is_trim_at(text, inner, start, end)
}

/// A text without the white space at its two ends.
pub open spec fn trimmed(text: Seq<char>) -> Seq<char> {
    choose|inner: Seq<char>| is_trim_of(text, inner)
}

/// The small form of a capital ASCII letter; any other character as it is.
pub open spec fn ascii_lower(c: char) -> char {
    if 'A' <= c && c <= 'Z' {
        ((c as u8) + 32) as char
    } else {
        c
    }
}

/// A text with each capital ASCII letter replaced by its small form.
pub open spec fn ascii_lowered(text: Seq<char>) -> Seq<char> {
    Seq::new(text.len(), |i: int| ascii_lower(text[i]))
}

/// `str::to_lowercase`: the result is the lower-case form of the text. Of a
/// text of ASCII characters alone this is the text with its capital letters
/// made small, character by character; nothing more is claimed of other texts.
pub assume_specification[ str::to_lowercase ](text: &str) -> (lowered: String)
    ensures
        lowered@ == lowercased(text@),
        is_ascii_chars(text@) ==> lowered@ == ascii_lowered(text@),
;

/// The lower-case form of a text. For a text of ASCII characters alone it is
/// spelled out; for any other text it is what `str::to_lowercase` gives.
pub open spec fn lower_case(text: Seq<char>) -> Seq<char> {
    if is_ascii_chars(text) {
        ascii_lowered(text)
    } else {
        lowercased(text)
    }
}

/// `str::trim`: the result is a part of the text, what is cut off at either
/// end is white space, and no white space is left at the ends of the result.
pub assume_specification[ str::trim ](text: &str) -> (inner: &str)
    ensures
        is_trim_of(text@, inner@),
;

/// `std::string::FromUtf8Error`, carried as it is.
#[verifier::external_type_specification]
#[verifier::external_body]
pub struct ExFromUtf8Error(FromUtf8Error);

/// `String::from_utf8`: succeeds exactly on bytes that are valid UTF-8, and
/// then yields the characters that they encode.
pub assume_specification[ String::from_utf8 ](bytes: Vec<u8>) -> (text: Result<
    String,
    FromUtf8Error,
>)
    ensures
        text is Ok <==> valid_utf8(bytes@),
        text matches Ok(decoded) ==> decoded@ == decode_utf8(bytes@),
;

/// A text has one trimmed form only: whatever is the text without the white
/// space at its ends is [`trimmed`].
pub proof fn lemma_trimmed_is(text: Seq<char>, inner: Seq<char>)
    requires
        is_trim_of(text, inner),
    ensures
        trimmed(text) == inner,
{
    let other = trimmed(text);
    assert(is_trim_of(text, other));
    let (s1, e1) = choose|start: int, end: int| #[trigger] is_trim_at(text, inner, start, end);
    let (s2, e2) = choose|start: int, end: int| #[trigger] is_trim_at(text, other, start, end);
    if s1 < e1 && s2 < e2 {
        assert(s1 == s2) by {
            if s1 < s2 {
                assert(is_white_space(text[s1]));
            }
            if s2 < s1 {
                assert(is_white_space(text[s2]));
            }
        }
        assert(e1 == e2) by {
            if e1 < e2 {
                assert(is_white_space(text[e2 - 1]));
            }
            if e2 < e1 {
                assert(is_white_space(text[e1 - 1]));
            }
        }
    } else if s1 < e1 {
        assert(is_white_space(text[s1]));
    } else if s2 < e2 {
        assert(is_white_space(text[s2]));
    }
    assert(inner =~= other);
}

} // verus!
