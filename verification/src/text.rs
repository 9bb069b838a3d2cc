//! Small operations on text that the rest of the crate is written with.

use vstd::prelude::*;
use vstd::string::StringExecFns;
use vstd::utf8::{decode_utf8, valid_utf8};

verus! {

/// `str::trim`, as a function of the text.
pub uninterp spec fn trimmed(text: Seq<char>) -> Seq<char>;

/// `String::from_utf8_lossy`, as a function of the bytes.
pub uninterp spec fn lossy_text(bytes: Seq<u8>) -> Seq<char>;

/// `str::trim`: the text without the white space at its two ends. The result
/// is a function of the text.
#[verifier::external_body]
pub(crate) fn trim(text: &str) -> (inner: &str)
    ensures
        inner@ == trimmed(text@),
{
    text.trim()
}

/// `String::from_utf8`: the text that the bytes encode, where they are valid
/// UTF-8, and an error where they are not.
#[verifier::external_body]
pub(crate) fn text_of(bytes: &Vec<u8>) -> (text: Option<String>)
    ensures
        text.is_some() == valid_utf8(bytes@),
        text matches Some(t) ==> t@ == decode_utf8(bytes@),
{
    String::from_utf8(bytes.clone()).ok()
}

/// `String::from_utf8_lossy`: a text for any bytes, with a replacement
/// character where they are not valid UTF-8. The result is a function of the bytes.
#[verifier::external_body]
pub(crate) fn lossy_text_of(bytes: &Vec<u8>) -> (text: String)
    ensures
        text@ == lossy_text(bytes@),
{
    String::from_utf8_lossy(bytes).into_owned()
}

/// A copy of some bytes.
pub fn copy_bytes(bytes: &Vec<u8>) -> (copy: Vec<u8>)
    ensures
        copy@ == bytes@,
{
    let mut copy: Vec<u8> = Vec::new();
    let mut i: usize = 0;
    while i < bytes.len()
        invariant
            i <= bytes.len(),
            copy@ == bytes@.take(i as int),
        decreases bytes.len() - i,
    {
        copy.push(bytes[i]);
        assert(copy@ =~= bytes@.take(i + 1));
        i = i + 1;
    }
    assert(bytes@.take(bytes.len() as int) =~= bytes@);
    copy
}

/// `<str as PartialEq>::eq`: two string slices are equal exactly when they
/// hold the same characters.
#[verifier::external_body]
pub(crate) fn same_text(a: &str, b: &str) -> (same: bool)
    ensures
        same == (a@ == b@),
{
    a == b
}

/// An owned copy of a text.
pub fn owned(text: &str) -> (copy: String)
    ensures
        copy@ == text@,
{
    String::from_str(text)
}

/// The two texts one after the other.
pub fn chain(first: &str, second: &str) -> (joined: String)
    ensures
        joined@ == first@ + second@,
{
    let mut joined = String::from_str(first);
    joined.append(second);
    joined
}

/// The three texts one after the other.
pub fn chain3(first: &str, second: &str, third: &str) -> (joined: String)
    ensures
        joined@ == first@ + second@ + third@,
{
    let mut joined = String::from_str(first);
    joined.append(second);
    joined.append(third);
    joined
}

/// What follows the leading `marker` of a text, if the text starts with it.
pub open spec fn after_marker(text: Seq<char>, marker: char) -> Option<Seq<char>> {
    if text.len() > 0 && text[0] == marker {
        Some(text.subrange(1, text.len() as int))
    } else {
        None
    }
}

/// Splits a leading `marker` off a text.
pub fn strip_marker(text: &str, marker: char) -> (rest: Option<String>)
    ensures
        rest.is_some() == after_marker(text@, marker).is_some(),
        rest matches Some(r) ==> Some(r@) == after_marker(text@, marker),
{
    let len = text.unicode_len();
    if len > 0 && text.get_char(0) == marker {
        Some(String::from_str(text.substring_char(1, len)))
    } else {
        None
    }
}

} // verus!
