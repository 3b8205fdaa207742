//! A borrowed, non-owning view over bytes that are meant to hold UTF-8 text.

use std::borrow::Cow;
use std::str::Utf8Error;
use vstd::prelude::*;
use vstd::utf8::*;

verus! {

#[verifier::external_type_specification]
#[verifier::external_body]
pub struct ExUtf8Error(Utf8Error);

/// A view over a run of bytes that the producer claims, without checking,
/// to be UTF-8 text. It owns nothing; its lifetime ties it to the buffer.
pub struct StringView<'a> {
    bytes: &'a [u8],
}

impl<'a> View for StringView<'a> {
    type V = Seq<u8>;

    closed spec fn view(&self) -> Seq<u8> {
        self.bytes@
    }
}

impl<'a> StringView<'a> {
    /// A view over an arbitrary byte buffer, UTF-8 or not.
    pub fn new(bytes: &'a [u8]) -> (v: StringView<'a>)
        ensures
            v@ == bytes@,
    {
        StringView { bytes }
    }

    /// Number of bytes the view covers.
    pub fn len(&self) -> (n: usize)
        ensures
            n == self@.len(),
    {
        self.bytes.len()
    }

    /// The viewed bytes, still borrowed from the underlying buffer.
    pub fn as_bytes(&self) -> (b: &'a [u8])
        ensures
            b@ == self@,
    {
        self.bytes
    }
}

/// The text that strict decoding of `bytes` yields, if the bytes are UTF-8.
pub open spec fn strict_decode(bytes: Seq<u8>) -> Option<Seq<char>> {
    if valid_utf8(bytes) {
        Some(decode_utf8(bytes))
    } else {
        None
    }
}

/// What lossy decoding makes of `bytes`: every ill-formed sequence replaced
/// by U+FFFD.
pub uninterp spec fn lossy_decode(bytes: Seq<u8>) -> Seq<char>;

/// Relies on `std::str::from_utf8`: it succeeds exactly on well-formed
/// UTF-8, and then the text's encoding is the input bytes.
#[verifier::external_body]
fn str_from_utf8<'a>(b: &'a [u8]) -> (r: Result<&'a str, Utf8Error>)
    ensures
        r is Ok <==> valid_utf8(b@),
        r matches Ok(s) ==> s@ == decode_utf8(b@),
{
    std::str::from_utf8(b)
}

/// Relies on `String::from_utf8_lossy`: well-formed input comes back as
/// the same text; ill-formed sequences are replaced.
#[verifier::external_body]
fn string_from_utf8_lossy<'a>(b: &'a [u8]) -> (r: Cow<'a, str>)
    ensures
        r@ == lossy_decode(b@),
        valid_utf8(b@) ==> r@ == decode_utf8(b@),
{
    String::from_utf8_lossy(b)
}

/// Borrows `s` as a view. No allocation; the view cannot outlive `s`.
pub fn to_string_view<'a>(s: &'a str) -> (v: StringView<'a>)
    ensures
        v@ == encode_utf8(s@),
{
    StringView { bytes: s.as_bytes() }
}

/// Reads the viewed bytes as UTF-8 text, borrowed from the same buffer.
/// Fails exactly when the bytes are not well-formed UTF-8.
pub fn from_string_view<'a>(s: StringView<'a>) -> (r: Result<&'a str, Utf8Error>)
    ensures
        r is Ok <==> strict_decode(s@) is Some,
        r matches Ok(t) ==> strict_decode(s@) == Some(t@),
        r matches Ok(t) ==> encode_utf8(t@) == s@,
{
    let r = str_from_utf8(s.bytes);
    proof {
        if valid_utf8(s@) {
            decode_utf8_encode_utf8(s@);
        }
    }
    r
}

/// Reads the viewed bytes as UTF-8 text, replacing ill-formed sequences.
/// Always succeeds, and agrees with `from_string_view` wherever that
/// succeeds.
pub fn from_string_view_lossy<'a>(s: StringView<'a>) -> (r: Cow<'a, str>)
    ensures
        r@ == lossy_decode(s@),
        strict_decode(s@) matches Some(t) ==> r@ == t,
{
    string_from_utf8_lossy(s.bytes)
}

} // verus!
