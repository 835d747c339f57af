use vstd::prelude::*;
use vstd::utf8::{encode_utf8, valid_utf8};

verus! {

/// Every byte is ASCII.
pub open spec fn spec_is_ascii_bytes(b: Seq<u8>) -> bool {
    forall|i: int| 0 <= i < b.len() ==> b[i] < 128
}

/// ASCII bytes are valid UTF-8.
pub proof fn lemma_ascii_valid_utf8(b: Seq<u8>)
    requires
        spec_is_ascii_bytes(b),
    ensures
        valid_utf8(b),
{
    let chars = Seq::new(b.len(), |i: int| b[i] as char);
    assert(vstd::utf8::is_ascii_chars(chars));
    vstd::utf8::is_ascii_chars_encode_utf8(chars);
    assert(encode_utf8(chars) =~= b);
    vstd::utf8::encode_utf8_valid_utf8(chars);
}

/// `String::from_utf8`: the bytes of valid UTF-8 input become the string's
/// contents unchanged. Only valid input is passed, so the error arm (an
/// empty string) is never taken.
#[verifier::external_body]
fn string_from_utf8(bytes: Vec<u8>) -> (s: String)
    requires
        valid_utf8(bytes@),
    ensures
        encode_utf8(s@) == bytes@,
{
    match String::from_utf8(bytes) {
        Ok(s) => s,
        Err(_) => String::new(),
    }
}

/// The string whose UTF-8 encoding is `bytes`.
pub(crate) fn utf8_string(bytes: Vec<u8>) -> (s: String)
    requires
        valid_utf8(bytes@),
    ensures
        encode_utf8(s@) == bytes@,
{
    string_from_utf8(bytes)
}

/// The string of the ASCII text `bytes`.
pub(crate) fn ascii_string(bytes: Vec<u8>) -> (s: String)
    requires
        spec_is_ascii_bytes(bytes@),
    ensures
        encode_utf8(s@) == bytes@,
{
    proof {
        lemma_ascii_valid_utf8(bytes@);
    }
    string_from_utf8(bytes)
}

} // verus!
