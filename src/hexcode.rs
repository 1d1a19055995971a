//! Lowercase hexadecimal text of byte strings.
use vstd::prelude::*;

verus! {

/// The lowercase hex digit of a value below sixteen.
pub open spec fn hex_digit(n: u8) -> char {
    seq!['0', '1', '2', '3', '4', '5', '6', '7', '8', '9', 'a', 'b', 'c', 'd', 'e', 'f'][n as int]
}

/// Whether `c` is a lowercase hex digit.
pub open spec fn is_hex_char(c: char) -> bool {
    ('0' <= c && c <= '9') || ('a' <= c && c <= 'f')
}

/// Two digits per byte, high nibble first.
pub open spec fn hex_of(b: Seq<u8>) -> Seq<char> {
    Seq::new(
        2 * b.len(),
        |k: int|
            if k % 2 == 0 {
                hex_digit(b[k / 2] / 16)
            } else {
                hex_digit(b[k / 2] % 16)
            },
    )
}

/// Whether `s` is the hex text of some byte string: an even number of
/// lowercase hex digits.
pub open spec fn is_hex_text(s: Seq<char>) -> bool {
    &&& s.len() % 2 == 0
    &&& forall|k: int| 0 <= k < s.len() ==> is_hex_char(#[trigger] s[k])
}

/// Relies on hex::encode: each byte becomes two characters of
/// "0123456789abcdef", the high nibble first.
#[verifier::external_body]
pub(crate) fn hex_from_bytes(data: &[u8]) -> (r: String)
    ensures
        r@ == hex_of(data@),
{
    hex::encode(data)
}

/// The hex text of any byte string is well formed: an even number of
/// lowercase hex digits.
pub proof fn lemma_hex_of_is_hex_text(b: Seq<u8>)
    ensures
        is_hex_text(hex_of(b)),
        hex_of(b).len() == 2 * b.len(),
{
    assert forall|k: int| 0 <= k < hex_of(b).len() implies is_hex_char(#[trigger] hex_of(b)[k]) by {
        let v = b[k / 2];
        assert(v / 16 < 16 && v % 16 < 16);
    }
}

} // verus!
