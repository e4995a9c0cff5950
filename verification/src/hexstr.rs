//! Hex encoding and decoding of byte payloads, as used for frame diagnostics
//! and for the line-based transports' test doubles. The conversions
//! themselves are done by the `hex` crate; their results are pinned down by
//! the spec functions here.

use vstd::prelude::*;

verus! {

/// The lower-case hex character for a nibble.
pub open spec fn hex_digit(n: u8) -> char
    recommends
        n < 16,
{
    if n < 10 {
        (('0' as u8) + n) as char
    } else {
        (('a' as u8) + (n - 10)) as char
    }
}

/// Lower-case hex encoding of a byte sequence: two digits per byte.
pub open spec fn hex_of(s: Seq<u8>) -> Seq<char>
    decreases s.len(),
{
    if s.len() == 0 {
        Seq::empty()
    } else {
        hex_of(s.drop_last()) + seq![hex_digit(s.last() >> 4), hex_digit(s.last() & 0x0f)]
    }
}

/// Whether a character is a hex digit, upper or lower case.
pub open spec fn is_hex_char(c: char) -> bool {
    ('0' as u32 <= c as u32 <= '9' as u32) || ('a' as u32 <= c as u32 <= 'f' as u32) || ('A'
        as u32 <= c as u32 <= 'F' as u32)
}

/// The nibble value of a hex digit (0 when the character is not one).
pub open spec fn hex_val(c: char) -> u8 {
    if '0' as u32 <= c as u32 <= '9' as u32 {
        (c as u32 - '0' as u32) as u8
    } else if 'a' as u32 <= c as u32 <= 'f' as u32 {
        (c as u32 - 'a' as u32 + 10) as u8
    } else if 'A' as u32 <= c as u32 <= 'F' as u32 {
        (c as u32 - 'A' as u32 + 10) as u8
    } else {
        0
    }
}

/// A decodable hex string: an even number of hex digits.
pub open spec fn valid_hex(s: Seq<char>) -> bool {
    s.len() % 2 == 0 && (forall|i: int| 0 <= i < s.len() ==> is_hex_char(#[trigger] s[i]))
}

/// The bytes a hex string decodes to, two digits at a time.
pub open spec fn hex_bytes(s: Seq<char>) -> Seq<u8>
    decreases s.len(),
{
    if s.len() < 2 {
        Seq::empty()
    } else {
        seq![(hex_val(s[0]) * 16 + hex_val(s[1])) as u8] + hex_bytes(s.skip(2))
    }
}

/// Relies on hex::encode: lower-case hex output, two digits for each input
/// byte, high nibble first.
#[verifier::external_body]
fn hex_encode(data: &[u8]) -> (r: String)
    ensures
        r@ == hex_of(data@),
{
    hex::encode(data)
}

/// Relies on hex::decode: succeeds exactly on an even number of hex digits
/// (either case) and returns the decoded bytes, high nibble first.
#[verifier::external_body]
pub(crate) fn hex_decode(s: &str) -> (r: Result<Vec<u8>, ()>)
    ensures
        r is Ok <==> valid_hex(s@),
        r matches Ok(v) ==> v@ == hex_bytes(s@),
{
    match hex::decode(s) {
        Ok(v) => Ok(v),
        Err(_) => Err(()),
    }
}

/// The hex rendering of a raw payload, as it appears in diagnostics.
pub fn payload_hex(payload: &Vec<u8>) -> (r: String)
    ensures
        r@ == hex_of(payload@),
{
    hex_encode(payload.as_slice())
}

} // verus!
