//! Byte-level helpers the message layouts share: fixed-size reads out of a
//! payload and the big-endian two-byte encoding of signed temperatures.

use vstd::prelude::*;

verus! {

/// Copy `N` bytes out of `b` starting at `off`.
pub fn read_arr<const N: usize>(b: &[u8], off: usize) -> (r: [u8; N])
    requires
        off + N <= b@.len(),
    ensures
        r@ == b@.subrange(off as int, off + N),
{
    let blen = b.len();
    let mut a = [0u8; N];
    let mut i: usize = 0;
    while i < N
        invariant
            i <= N,
            off + N <= blen,
            blen == b@.len(),
            a@.len() == N,
            forall|j: int| 0 <= j < i ==> a@[j] == b@[off + j],
        decreases N - i,
    {
        a[i] = b[off + i];
        i += 1;
    }
    proof {
        assert(a@ =~= b@.subrange(off as int, off + N));
    }
    a
}

/// Copy `n` bytes out of `b` starting at `off` into a fresh vector.
pub fn read_vec(b: &[u8], off: usize, n: usize) -> (r: Vec<u8>)
    requires
        off + n <= b@.len(),
    ensures
        r@ == b@.subrange(off as int, off + n),
{
    let blen = b.len();
    let mut v: Vec<u8> = Vec::new();
    let mut i: usize = 0;
    while i < n
        invariant
            i <= n,
            off + n <= blen,
            blen == b@.len(),
            v@.len() == i,
            forall|j: int| 0 <= j < i ==> v@[j] == b@[off + j],
        decreases n - i,
    {
        v.push(b[off + i]);
        i += 1;
    }
    proof {
        assert(v@ =~= b@.subrange(off as int, off + n));
    }
    v
}

/// The high wire byte of a big-endian signed 16-bit value.
pub open spec fn be16_hi(v: i16) -> u8 {
    ((v as u16) >> 8) as u8
}

/// The low wire byte of a big-endian signed 16-bit value.
pub open spec fn be16_lo(v: i16) -> u8 {
    ((v as u16) & 0xff) as u8
}

/// The signed value that two big-endian wire bytes carry.
pub open spec fn be16_val(hi: u8, lo: u8) -> i16 {
    (((hi as u16) << 8) | (lo as u16)) as i16
}

/// Encode a signed 16-bit value as its two big-endian wire bytes.
pub fn be16_encode(v: i16) -> (r: (u8, u8))
    ensures
        r.0 == be16_hi(v),
        r.1 == be16_lo(v),
{
    let u = #[verifier::truncate] (v as u16);
    proof {
        assert(u >> 8 <= 0xff) by (bit_vector);
    }
    ((u >> 8) as u8, (u & 0xff) as u8)
}

/// Decode two big-endian wire bytes into the signed value they carry.
pub fn be16_decode(hi: u8, lo: u8) -> (r: i16)
    ensures
        r == be16_val(hi, lo),
{
    let w = ((hi as u16) << 8) | (lo as u16);
    #[verifier::truncate] (w as i16)
}

/// The signed-value round trip through two big-endian bytes.
pub proof fn lemma_be16_round_trip(v: i16)
    ensures
        be16_val(be16_hi(v), be16_lo(v)) == v,
{
    let u = v as u16;
    assert(u >> 8 <= 0xff && u & 0xff <= 0xff) by (bit_vector);
    assert((((u >> 8) << 8) | (u & 0xff)) == u) by (bit_vector);
    assert(((v as u16) as i16) == v) by (bit_vector);
}

} // verus!
