//! The SHA-1 digest used to shorten long tool names.
use vstd::prelude::*;
use vstd::utf8::encode_utf8;

verus! {

/// What SHA-1 gives for a byte string, written as lowercase hexadecimal.
pub uninterp spec fn sha1_hex(bytes: Seq<u8>) -> Seq<char>;

/// A lowercase hexadecimal digit.
pub open spec fn is_hex_digit(c: char) -> bool {
    ('0' <= c && c <= '9') || ('a' <= c && c <= 'f')
}

/// The SHA-1 digest of the UTF-8 bytes of `s` (`sha1::Sha1`, formatted with
/// `{:x}`): 40 lowercase hexadecimal digits, one pair per digest byte.
#[verifier::external_body]
pub fn sha1_hex_of(s: &str) -> (r: String)
    ensures
        r@ == sha1_hex(encode_utf8(s@)),
        r@.len() == 40,
        forall|i: int| 0 <= i < 40 ==> is_hex_digit(#[trigger] r@[i]),
{
    format!("{:x}", <sha1::Sha1 as sha1::Digest>::digest(s.as_bytes()))
}

} // verus!
