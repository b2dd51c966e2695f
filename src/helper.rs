//! Numeric helpers: sign extension, and the operations of [`ops`].
use vstd::prelude::*;

pub mod ops;

verus! {

/// All ones in the low `bits` bits (every bit when `bits` is 64 or more).
pub open spec fn low_mask(bits: u64) -> u64 {
    if bits >= 64 {
        !0u64
    } else {
        ((1u64 << bits) - 1) as u64
    }
}

/// The two's-complement value held in the low `bits` bits of `val`, extended to 64 bits:
/// the bits above are copies of bit `bits - 1`.
pub open spec fn sign_extended(bits: u64, val: u64) -> u64 {
    if (val >> ((bits - 1) as u64)) & 1 == 1 {
        val | !low_mask(bits)
    } else {
        val & low_mask(bits)
    }
}

/// A signed result carried back as its 64-bit pattern.
pub(crate) fn option_u64(v: Option<i64>) -> (r: Option<u64>)
    ensures
        r == (match v {
            Some(x) => Some(x as u64),
            None => None,
        }),
{
    if let Some(v) = v {
        Some(v as u64)
    } else {
        None
    }
}

/// Sign-extends the low `BIT_SIZE` bits of `val` to a full 64-bit pattern.
pub fn sign_extend<const BIT_SIZE: u8>(val: u64) -> (r: u64)
    requires
        1 <= BIT_SIZE <= 64,
    ensures
        r == sign_extended(BIT_SIZE as u64, val),
{
    let shift: u64 = 64 - BIT_SIZE as u64;
    let bits: u64 = BIT_SIZE as u64;
    assert(((val << shift) as i64 >> shift) as u64 == sign_extended(bits, val)) by (bit_vector)
        requires
            shift == 64 - bits,
            1 <= bits <= 64,
    ;
    ((val << shift) as i64 >> shift) as u64
}

} // verus!
