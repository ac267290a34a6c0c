//! Text helpers on top of std: UTF-8 decoding and appending.
use vstd::prelude::*;

verus! {

/// What `std::str::from_utf8` makes of a byte sequence: the decoded
/// characters, or nothing where the bytes are not valid UTF-8.
pub uninterp spec fn utf8_decode_of(b: Seq<u8>) -> Option<Seq<char>>;

/// Relies on std::str::from_utf8: it accepts exactly the valid UTF-8 byte
/// sequences, always with the same result for the same bytes, and the empty
/// sequence decodes to the empty text.
#[verifier::external_body]
pub(crate) fn decode_utf8(b: &[u8]) -> (r: Option<String>)
    ensures
        r is Some <==> utf8_decode_of(b@) is Some,
        r is Some ==> utf8_decode_of(b@) == Some(r->0@),
        b@.len() == 0 ==> r is Some && r->0@.len() == 0,
{
    match std::str::from_utf8(b) {
        Ok(s) => Some(s.to_string()),
        Err(_) => None,
    }
}

/// Relies on String::push_str: the text is appended at the end.
#[verifier::external_body]
pub(crate) fn append_text(s: &mut String, t: &str)
    ensures
        final(s)@ == old(s)@ + t@,
{
    s.push_str(t)
}

} // verus!

verus! {

/// Whether a string holds exactly the given text.
pub fn text_is(s: &String, lit: &str) -> (r: bool)
    ensures
        r == (s@ == lit@),
{
    let l: String = lit.to_string();
    *s == l
}

} // verus!

verus! {

/// An owned copy of a byte slice.
pub fn copy_bytes(b: &[u8]) -> (r: Vec<u8>)
    ensures
        r@ == b@,
{
    let mut r: Vec<u8> = Vec::with_capacity(b.len());
    let mut i: usize = 0;
    while i < b.len()
        invariant
            i <= b@.len(),
            r@ == b@.subrange(0, i as int),
        decreases b@.len() - i,
    {
        r.push(b[i]);
        i = i + 1;
        assert(r@ == b@.subrange(0, i as int));
    }
    assert(b@.subrange(0, b@.len() as int) == b@);
    r
}

} // verus!
