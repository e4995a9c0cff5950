//! Client library for the short-range radio protocol of a residential
//! heating gateway: frame codec, typed message bodies, request/response
//! correlation with retry, the pairing handshake, and a passive traffic
//! decoder.

use vstd::prelude::*;

pub mod config;
pub mod connect;
pub mod datasource;
pub mod hexstr;
pub mod rf;
pub mod wire;

verus! {

/// Decode a binary-coded-decimal byte: high nibble is the tens digit,
/// low nibble the ones digit.
pub open spec fn bcd_value(b: u8) -> u8 {
    ((b >> 4) * 10 + (b & 0x0f)) as u8
}

/// Executable binary-coded-decimal decode, used for the date fields of the
/// boiler's clock replies.
pub fn bcd_decode(b: u8) -> (r: u8)
    ensures
        r == bcd_value(b),
{
    proof {
        assert((b >> 4) <= 15 && (b & 0x0f) <= 15) by (bit_vector);
    }
    (b >> 4) * 10 + (b & 0x0f)
}

} // verus!
