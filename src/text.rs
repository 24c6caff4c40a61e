use vstd::prelude::*;
use vstd::utf8::*;

verus! {

/// The text that lossy decoding gives for some bytes: invalid sequences
/// become U+FFFD.
pub uninterp spec fn lossy_text(b: Seq<u8>) -> Seq<char>;

/// The text left once trailing whitespace is stripped.
pub uninterp spec fn trimmed_end(s: Seq<char>) -> Seq<char>;

/// Relies on `std::str::from_utf8`: it accepts exactly the valid UTF-8
/// sequences, and then the text is what those bytes encode.
#[verifier::external_body]
fn strict_decode(b: &[u8]) -> (r: Option<String>)
    ensures
        r is Some <==> valid_utf8(b@),
        r matches Some(s) ==> s@ == decode_utf8(b@),
{
    std::str::from_utf8(b).ok().map(|s| s.to_string())
}

/// Relies on `String::from_utf8_lossy`: valid UTF-8 decodes as it is.
#[verifier::external_body]
fn lossy_decode(b: &[u8]) -> (r: String)
    ensures
        r@ == lossy_text(b@),
        valid_utf8(b@) ==> r@ == decode_utf8(b@),
{
    String::from_utf8_lossy(b).into_owned()
}

/// Relies on `str::trim_end`: the result is a prefix of the text.
#[verifier::external_body]
fn trim_end(s: &str) -> (r: String)
    ensures
        r@ == trimmed_end(s@),
        r@.len() <= s@.len(),
        r@ == s@.subrange(0, r@.len() as int),
{
    s.trim_end().to_string()
}

/// The text of a value read back from the store: the bytes must be valid UTF-8.
pub fn decode_value(b: &[u8]) -> (r: Option<String>)
    ensures
        r is Some <==> valid_utf8(b@),
        r matches Some(s) ==> s@ == decode_utf8(b@),
{
    strict_decode(b)
}

/// The text of a line received over the wire: decoded lossily, with trailing
/// whitespace and newlines stripped.
pub fn decode_line(b: &[u8]) -> (r: String)
    ensures
        r@ == trimmed_end(lossy_text(b@)),
        valid_utf8(b@) ==> r@ == trimmed_end(decode_utf8(b@)),
{
    let s = lossy_decode(b);
    trim_end(s.as_str())
}

} // verus!
