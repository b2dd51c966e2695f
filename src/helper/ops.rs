//! Operations on 64-bit register values, and the bit-slice accessor framework.
use vstd::prelude::*;
use crate::helper::option_u64;
use crate::nibble::Nibble;

verus! {

broadcast use crate::nibble::lemma_nibble_bound;

/// Result of a carry-aware addition or subtraction.
#[derive(Debug, Clone, Copy)]
pub struct AddResult {
    /// The unsigned wrapping result.
    pub result: u64,
    /// The operation left the range of `u64`.
    pub unsigned_overflow: bool,
    /// The same operation on the signed reading of the operands left the range of `i64`.
    pub signed_overflow: bool,
}

/// Two to the sixty-fourth.
pub open spec fn pow64() -> int {
    0x1_0000_0000_0000_0000
}

/// The two's-complement reading of a 64-bit pattern.
pub open spec fn signed(a: u64) -> int {
    if a <= i64::MAX { a as int } else { a - pow64() }
}

/// The 64-bit two's-complement pattern of a value in the range of `i64`.
pub open spec fn pattern(x: int) -> u64 {
    if x < 0 { (x + pow64()) as u64 } else { x as u64 }
}

/// Reading a pattern as `i64` gives its two's-complement reading.
proof fn lemma_signed(a: u64)
    ensures
        (a as i64) as int == signed(a),
{
    assert(a > 0x7FFF_FFFF_FFFF_FFFF ==> (a as i64) as int == a - 0x1_0000_0000_0000_0000int)
        by (bit_vector);
    assert(a <= 0x7FFF_FFFF_FFFF_FFFF ==> (a as i64) as int == a as int) by (bit_vector);
}

/// `1` for a set carry, `0` otherwise.
pub open spec fn carry_value(carry: bool) -> int {
    if carry { 1 } else { 0 }
}

/// Whether `x` lies outside the range of `i64`.
pub open spec fn outside_i64(x: int) -> bool {
    !(i64::MIN <= x <= i64::MAX)
}

/// Unsigned add with carry-in: the wrapped sum and whether either step overflowed.
fn carrying_add_u(a: u64, b: u64, carry: bool) -> (r: (u64, bool))
    ensures
        r.0 as int == (a + b + carry_value(carry)) % pow64(),
        r.1 == (a + b + carry_value(carry) >= pow64()),
{
    let c: u64 = if carry { 1 } else { 0 };
    let v = a.wrapping_add(b);
    let first = a.checked_add(b).is_none();
    let w = v.wrapping_add(c);
    let second = v.checked_add(c).is_none();
    (w, first || second)
}

/// Signed add with carry-in on the two's-complement reading: the overflow flags of the
/// two steps, combined by exclusive or.
fn carrying_add_i(a: u64, b: u64, carry: bool) -> (r: (u64, bool))
    ensures
        r.1 == outside_i64(signed(a) + signed(b) + carry_value(carry)),
{
    proof {
        lemma_signed(a);
        lemma_signed(b);
    }
    let x = a as i64;
    let y = b as i64;
    let c: i64 = if carry { 1 } else { 0 };
    let v = x.wrapping_add(y);
    let first = x.checked_add(y).is_none();
    let w = v.wrapping_add(c);
    let second = v.checked_add(c).is_none();
    (w as u64, first ^ second)
}

/// Unsigned subtract with borrow-in: the wrapped difference and whether either step
/// went below zero.
fn carrying_sub_u(a: u64, b: u64, carry: bool) -> (r: (u64, bool))
    ensures
        r.0 as int == (a - b - carry_value(carry)) % pow64(),
        r.1 == (a - b - carry_value(carry) < 0),
{
    let c: u64 = if carry { 1 } else { 0 };
    let v = a.wrapping_sub(b);
    let first = a < b;
    let w = v.wrapping_sub(c);
    let second = v < c;
    (w, first || second)
}

/// Signed subtract with borrow-in on the two's-complement reading: the overflow flags of
/// the two steps, combined by exclusive or.
fn carrying_sub_i(a: u64, b: u64, carry: bool) -> (r: (u64, bool))
    ensures
        r.1 == outside_i64(signed(a) - signed(b) - carry_value(carry)),
{
    proof {
        lemma_signed(a);
        lemma_signed(b);
    }
    let x = a as i64;
    let y = b as i64;
    let c: i64 = if carry { 1 } else { 0 };
    let v = x.wrapping_sub(y);
    let first = x.checked_sub(y).is_none();
    let w = v.wrapping_sub(c);
    let second = v.checked_sub(c).is_none();
    (w as u64, first ^ second)
}

/// `a + b + carry`, with unsigned and signed overflow detected independently.
pub fn add(a: u64, b: u64, carry: bool) -> (r: AddResult)
    ensures
        r.result as int == (a + b + carry_value(carry)) % pow64(),
        r.unsigned_overflow == (a + b + carry_value(carry) > u64::MAX),
        r.signed_overflow == outside_i64(signed(a) + signed(b) + carry_value(carry)),
{
    let (result, unsigned_overflow) = carrying_add_u(a, b, carry);
    let (_, signed_overflow) = carrying_add_i(a, b, carry);
    AddResult { result, unsigned_overflow, signed_overflow }
}

/// `a - b - carry`, with unsigned and signed overflow detected independently.
pub fn sub(a: u64, b: u64, carry: bool) -> (r: AddResult)
    ensures
        r.result as int == (a - b - carry_value(carry)) % pow64(),
        r.unsigned_overflow == (a - b - carry_value(carry) < 0),
        r.signed_overflow == outside_i64(signed(a) - signed(b) - carry_value(carry)),
{
    let (result, unsigned_overflow) = carrying_sub_u(a, b, carry);
    let (_, signed_overflow) = carrying_sub_i(a, b, carry);
    AddResult { result, unsigned_overflow, signed_overflow }
}

/// Absolute value of an integer.
pub open spec fn abs(x: int) -> int {
    if x < 0 { -x } else { x }
}

/// Quotient rounded toward zero.
pub open spec fn trunc_div(x: int, d: int) -> int {
    if (x < 0) == (d < 0) {
        abs(x) / abs(d)
    } else {
        -(abs(x) / abs(d))
    }
}

/// Remainder of the quotient rounded toward zero: its sign follows the dividend.
pub open spec fn trunc_rem(x: int, d: int) -> int {
    if x < 0 {
        -(abs(x) % abs(d))
    } else {
        abs(x) % abs(d)
    }
}

/// The 64-bit pattern of a signed value is that value modulo two to the sixty-fourth.
proof fn lemma_i64_pattern(v: i64)
    ensures
        v as u64 == pattern(v as int),
{
    assert(v < 0 ==> (v as u64) as int == v + 0x1_0000_0000_0000_0000int) by (bit_vector);
    assert(v >= 0 ==> (v as u64) as int == v as int) by (bit_vector);
}

/// A quotient rounded toward zero is no larger in magnitude than the dividend.
proof fn lemma_quotient_bound(x: int, d: int)
    requires
        d != 0,
    ensures
        abs(x) / abs(d) <= abs(x),
        abs(x) % abs(d) < abs(d),
        0 <= abs(x) % abs(d),
        abs(d) >= 2 ==> abs(x) / abs(d) < abs(x) || x == 0,
        x == 0 ==> abs(x) / abs(d) == 0 && abs(x) % abs(d) == 0,
{
    let (ax, ad) = (abs(x), abs(d));
    assert(ax / ad <= ax) by (nonlinear_arith)
        requires
            ax >= 0,
            ad >= 1,
    ;
    assert(ax == 0 ==> ax / ad == 0 && ax % ad == 0) by (nonlinear_arith)
        requires
            ad >= 1,
    ;
    assert(ad >= 2 ==> ax / ad < ax || ax == 0) by (nonlinear_arith)
        requires
            ax >= 0,
            ad >= 1,
    ;
}

/// Whether signed division of `a` by `b` fails: by zero, or `i64::MIN` by `-1`.
pub open spec fn signed_div_fails(a: u64, b: u64) -> bool {
    b == 0 || (signed(a) == i64::MIN && signed(b) == -1)
}

/// Signed multiply, wrapping.
pub fn imul(a: u64, b: u64) -> (r: u64)
    ensures
        r as int == (signed(a) * signed(b)) % pow64(),
{
    let w = (a as i64).wrapping_mul(b as i64);
    proof {
        lemma_signed(a);
        lemma_signed(b);
        lemma_i64_pattern(w);
    }
    w as u64
}

/// Signed divide, rounding toward zero; absent on division by zero or overflow.
pub fn idiv(a: u64, b: u64) -> (r: Option<u64>)
    ensures
        signed_div_fails(a, b) ==> r.is_none(),
        !signed_div_fails(a, b) ==> r == Some(pattern(trunc_div(signed(a), signed(b)))),
{
    let q = (a as i64).checked_div(b as i64);
    proof {
        lemma_signed(a);
        lemma_signed(b);
        if b != 0 {
            lemma_quotient_bound(signed(a), signed(b));
        }
        if let Some(v) = q {
            lemma_i64_pattern(v);
        }
    }
    option_u64(q)
}

/// Unsigned multiply, wrapping.
pub fn umul(a: u64, b: u64) -> (r: u64)
    ensures
        r as int == (a * b) % pow64(),
{
    a.wrapping_mul(b)
}

/// Unsigned divide; absent on division by zero.
pub fn udiv(a: u64, b: u64) -> (r: Option<u64>)
    ensures
        b == 0 ==> r.is_none(),
        b != 0 ==> r == Some((a / b) as u64),
{
    a.checked_div(b)
}

/// Signed remainder of the quotient rounded toward zero; absent when signed division fails.
pub fn rem(a: u64, b: u64) -> (r: Option<u64>)
    ensures
        signed_div_fails(a, b) ==> r.is_none(),
        !signed_div_fails(a, b) ==> r == Some(pattern(trunc_rem(signed(a), signed(b)))),
{
    let q = (a as i64).checked_rem(b as i64);
    proof {
        lemma_signed(a);
        lemma_signed(b);
        if b != 0 {
            lemma_quotient_bound(signed(a), signed(b));
        }
        if let Some(v) = q {
            lemma_i64_pattern(v);
        }
    }
    option_u64(q)
}

/// Signed Euclidean remainder, never negative; absent when signed division fails.
pub fn modulo(a: u64, b: u64) -> (r: Option<u64>)
    ensures
        signed_div_fails(a, b) ==> r.is_none(),
        !signed_div_fails(a, b) ==> r == Some(pattern(signed(a) % signed(b))),
        !signed_div_fails(a, b) ==> 0 <= signed(a) % signed(b) < abs(signed(b)),
{
    let q = (a as i64).checked_rem_euclid(b as i64);
    proof {
        lemma_signed(a);
        lemma_signed(b);
        if b != 0 {
            lemma_quotient_bound(signed(a), signed(b));
        }
        if let Some(v) = q {
            lemma_i64_pattern(v);
        }
    }
    option_u64(q)
}

/// Bitwise and.
pub fn and(a: u64, b: u64) -> (r: u64)
    ensures
        r == a & b,
{
    a & b
}

/// Bitwise or.
pub fn or(a: u64, b: u64) -> (r: u64)
    ensures
        r == a | b,
{
    a | b
}

/// Bitwise not-or.
pub fn nor(a: u64, b: u64) -> (r: u64)
    ensures
        r == !(a | b),
{
    !(a | b)
}

/// Bitwise exclusive or.
pub fn xor(a: u64, b: u64) -> (r: u64)
    ensures
        r == a ^ b,
{
    a ^ b
}

/// Logical shift left; the amount is taken modulo 64.
pub fn shl(a: u64, b: u64) -> (r: u64)
    ensures
        r == a << (b % 64),
{
    a << (b % 64)
}

/// Arithmetic shift right of the signed reading; the amount is taken modulo 64.
pub fn asr(a: u64, b: u64) -> (r: u64)
    ensures
        r == ((a as i64) >> (b % 64)) as u64,
{
    ((a as i64) >> (b % 64)) as u64
}

/// Logical shift right; the amount is taken modulo 64.
pub fn shr(a: u64, b: u64) -> (r: u64)
    ensures
        r == a >> (b % 64),
{
    a >> (b % 64)
}

/// Bit `b` of `a` (bit 0 is the least significant), as 0 or 1; 0 past the top bit.
pub fn bit(a: u64, b: u64) -> (r: u64)
    ensures
        b < 64 ==> r == (a >> b) & 1,
        b >= 64 ==> r == 0,
{
    if b < 64 {
        (a >> b) & 1
    } else {
        0
    }
}

} // verus!

verus! {

/// The shift that moves slot `index` of `width`-bit slices down to bit 0.
pub open spec fn slot_shift(index: u8, width: u64) -> u64 {
    (index as u64 * width) as u64
}

/// A value that can be read from, and written into, fixed slots of a container `To`.
///
/// Slot `index` of a slice `width` bits wide covers bits `index * width` up to
/// `(index + 1) * width - 1` of the container, counting from the least significant.
pub trait BitAccessTo<To: Copy>: Copy + Sized {
    /// Slot `index` lies wholly inside the container.
    spec fn index_fits(index: u8) -> bool;

    /// Writing at slot `index` is defined (always where the slot fits).
    spec fn index_writable(index: u8) -> bool;

    /// The value in slot `index` of `to`.
    spec fn sliced(to: To, index: u8) -> Self;

    /// `to` with slot `index` replaced by `v`.
    spec fn spliced(to: To, index: u8, v: Self) -> To;

    /// `a` and `b` agree on every bit outside slot `index`.
    spec fn same_outside(a: To, b: To, index: u8) -> bool;

    /// Reads slot `INDEX` of `to`.
    fn access_to<const INDEX: u8>(to: To) -> (r: Self)
        requires
            Self::index_fits(INDEX),
        ensures
            r == Self::sliced(to, INDEX),
    ;

    /// Overwrites slot `INDEX` of `to` with `v`, leaving the other bits as they were.
    fn write_to<const INDEX: u8>(to: &mut To, v: Self)
        requires
            Self::index_writable(INDEX),
        ensures
            *final(to) == Self::spliced(*old(to), INDEX, v),
    ;

    /// Writing a slot and reading it back gives the written value, and the write leaves
    /// every bit outside the slot unchanged.
    proof fn lemma_field_isolation(to: To, index: u8, v: Self)
        requires
            Self::index_fits(index),
        ensures
            Self::index_writable(index),
            Self::sliced(Self::spliced(to, index, v), index) == v,
            Self::same_outside(Self::spliced(to, index, v), to, index),
    ;
}

/// A container whose slots can be read and written as values of type `From`.
pub trait BitAccess<From: BitAccessTo<Self>>: Copy + Sized {
    /// Reads slot `INDEX` of `self`.
    fn access<const INDEX: u8>(self) -> (r: From)
        requires
            From::index_fits(INDEX),
        ensures
            r == From::sliced(self, INDEX),
    ;

    /// Overwrites slot `INDEX` of `self` with `v`.
    fn write<const INDEX: u8>(&mut self, v: From)
        requires
            From::index_writable(INDEX),
        ensures
            *final(self) == From::spliced(*old(self), INDEX, v),
    ;
}

impl<U: Copy, T: BitAccessTo<U>> BitAccess<T> for U {
    fn access<const INDEX: u8>(self) -> (r: T) {
        T::access_to::<INDEX>(self)
    }

    fn write<const INDEX: u8>(&mut self, v: T) {
        T::write_to::<INDEX>(self, v);
    }
}

impl BitAccessTo<Nibble> for bool {
    open spec fn index_fits(index: u8) -> bool {
        index < 4
    }

    /// Every index may be written: past the top bit a write changes nothing.
    open spec fn index_writable(index: u8) -> bool {
        true
    }

    open spec fn sliced(to: Nibble, index: u8) -> bool {
        (to@ >> index) & 1 == 1
    }

    open spec fn spliced(to: Nibble, index: u8, v: bool) -> Nibble {
        if index >= 4 {
            to
        } else if v {
            Nibble::spec_from_u8(to@ | (1u8 << index))
        } else {
            Nibble::spec_from_u8(to@ & !(1u8 << index))
        }
    }

    open spec fn same_outside(a: Nibble, b: Nibble, index: u8) -> bool {
        a@ & !(1u8 << index) == b@ & !(1u8 << index)
    }

    fn access_to<const INDEX: u8>(to: Nibble) -> (r: bool) {
        (to.as_u8() >> INDEX) & 1 == 1
    }

    fn write_to<const INDEX: u8>(to: &mut Nibble, v: bool) {
        if INDEX >= 4 {
            return;
        }
        if v {
            *to = Nibble::from_u8(to.as_u8() | (1u8 << INDEX));
        } else {
            *to = Nibble::from_u8(to.as_u8() & !(1u8 << INDEX));
        }
    }

    proof fn lemma_field_isolation(to: Nibble, index: u8, v: bool) {
        broadcast use crate::nibble::lemma_nibble_from_u8_view;

        let t = to@;
        assert(t < 16 && index < 4 ==> {
            &&& ((t | (1u8 << index)) & 0xF) >> index & 1 == 1
            &&& ((t & !(1u8 << index)) & 0xF) >> index & 1 == 0
            &&& ((t | (1u8 << index)) & 0xF) & !(1u8 << index) == t & !(1u8 << index)
            &&& ((t & !(1u8 << index)) & 0xF) & !(1u8 << index) == t & !(1u8 << index)
        }) by (bit_vector);
    }
}

impl BitAccessTo<u8> for bool {
    open spec fn index_fits(index: u8) -> bool {
        index < 8
    }

    open spec fn index_writable(index: u8) -> bool {
        index < 8
    }

    open spec fn sliced(to: u8, index: u8) -> bool {
        (to >> index) & 1 == 1
    }

    open spec fn spliced(to: u8, index: u8, v: bool) -> u8 {
        if v {
            to | (1u8 << index)
        } else {
            to & !(1u8 << index)
        }
    }

    open spec fn same_outside(a: u8, b: u8, index: u8) -> bool {
        a & !(1u8 << index) == b & !(1u8 << index)
    }

    fn access_to<const INDEX: u8>(to: u8) -> (r: bool) {
        (to >> INDEX) & 1 == 1
    }

    fn write_to<const INDEX: u8>(to: &mut u8, v: bool) {
        if v {
            *to = *to | (1u8 << INDEX);
        } else {
            *to = *to & !(1u8 << INDEX);
        }
    }

    proof fn lemma_field_isolation(to: u8, index: u8, v: bool) {
        assert(index < 8 ==> {
            &&& ((to | (1u8 << index)) >> index) & 1 == 1
            &&& ((to & !(1u8 << index)) >> index) & 1 == 0
            &&& (to | (1u8 << index)) & !(1u8 << index) == to & !(1u8 << index)
            &&& (to & !(1u8 << index)) & !(1u8 << index) == to & !(1u8 << index)
        }) by (bit_vector);
    }
}

impl BitAccessTo<u16> for bool {
    open spec fn index_fits(index: u8) -> bool {
        index < 16
    }

    open spec fn index_writable(index: u8) -> bool {
        index < 16
    }

    open spec fn sliced(to: u16, index: u8) -> bool {
        (to >> index) & 1 == 1
    }

    open spec fn spliced(to: u16, index: u8, v: bool) -> u16 {
        if v {
            to | (1u16 << index)
        } else {
            to & !(1u16 << index)
        }
    }

    open spec fn same_outside(a: u16, b: u16, index: u8) -> bool {
        a & !(1u16 << index) == b & !(1u16 << index)
    }

    fn access_to<const INDEX: u8>(to: u16) -> (r: bool) {
        (to >> INDEX) & 1 == 1
    }

    fn write_to<const INDEX: u8>(to: &mut u16, v: bool) {
        if v {
            *to = *to | (1u16 << INDEX);
        } else {
            *to = *to & !(1u16 << INDEX);
        }
    }

    proof fn lemma_field_isolation(to: u16, index: u8, v: bool) {
        assert(index < 16 ==> {
            &&& ((to | (1u16 << index)) >> index) & 1 == 1
            &&& ((to & !(1u16 << index)) >> index) & 1 == 0
            &&& (to | (1u16 << index)) & !(1u16 << index) == to & !(1u16 << index)
            &&& (to & !(1u16 << index)) & !(1u16 << index) == to & !(1u16 << index)
        }) by (bit_vector);
    }
}

impl BitAccessTo<u32> for bool {
    open spec fn index_fits(index: u8) -> bool {
        index < 32
    }

    open spec fn index_writable(index: u8) -> bool {
        index < 32
    }

    open spec fn sliced(to: u32, index: u8) -> bool {
        (to >> index) & 1 == 1
    }

    open spec fn spliced(to: u32, index: u8, v: bool) -> u32 {
        if v {
            to | (1u32 << index)
        } else {
            to & !(1u32 << index)
        }
    }

    open spec fn same_outside(a: u32, b: u32, index: u8) -> bool {
        a & !(1u32 << index) == b & !(1u32 << index)
    }

    fn access_to<const INDEX: u8>(to: u32) -> (r: bool) {
        (to >> INDEX) & 1 == 1
    }

    fn write_to<const INDEX: u8>(to: &mut u32, v: bool) {
        if v {
            *to = *to | (1u32 << INDEX);
        } else {
            *to = *to & !(1u32 << INDEX);
        }
    }

    proof fn lemma_field_isolation(to: u32, index: u8, v: bool) {
        assert(index < 32 ==> {
            &&& ((to | (1u32 << index)) >> index) & 1 == 1
            &&& ((to & !(1u32 << index)) >> index) & 1 == 0
            &&& (to | (1u32 << index)) & !(1u32 << index) == to & !(1u32 << index)
            &&& (to & !(1u32 << index)) & !(1u32 << index) == to & !(1u32 << index)
        }) by (bit_vector);
    }
}

impl BitAccessTo<u64> for bool {
    open spec fn index_fits(index: u8) -> bool {
        index < 64
    }

    open spec fn index_writable(index: u8) -> bool {
        index < 64
    }

    open spec fn sliced(to: u64, index: u8) -> bool {
        (to >> index) & 1 == 1
    }

    open spec fn spliced(to: u64, index: u8, v: bool) -> u64 {
        if v {
            to | (1u64 << index)
        } else {
            to & !(1u64 << index)
        }
    }

    open spec fn same_outside(a: u64, b: u64, index: u8) -> bool {
        a & !(1u64 << index) == b & !(1u64 << index)
    }

    fn access_to<const INDEX: u8>(to: u64) -> (r: bool) {
        (to >> INDEX) & 1 == 1
    }

    fn write_to<const INDEX: u8>(to: &mut u64, v: bool) {
        if v {
            *to = *to | (1u64 << INDEX);
        } else {
            *to = *to & !(1u64 << INDEX);
        }
    }

    proof fn lemma_field_isolation(to: u64, index: u8, v: bool) {
        assert(index < 64 ==> {
            &&& ((to | (1u64 << index)) >> index) & 1 == 1
            &&& ((to & !(1u64 << index)) >> index) & 1 == 0
            &&& (to | (1u64 << index)) & !(1u64 << index) == to & !(1u64 << index)
            &&& (to & !(1u64 << index)) & !(1u64 << index) == to & !(1u64 << index)
        }) by (bit_vector);
    }
}

impl BitAccessTo<u64> for u8 {
    open spec fn index_fits(index: u8) -> bool {
        (index as int + 1) * 8 <= 64
    }

    open spec fn index_writable(index: u8) -> bool {
        (index as int + 1) * 8 <= 64
    }

    open spec fn sliced(to: u64, index: u8) -> u8 {
        (to >> slot_shift(index, 8)) as u8
    }

    open spec fn spliced(to: u64, index: u8, v: u8) -> u64 {
        (to & !(0xFFu64 << slot_shift(index, 8))) | ((v as u64) << slot_shift(index, 8))
    }

    open spec fn same_outside(a: u64, b: u64, index: u8) -> bool {
        a & !(0xFFu64 << slot_shift(index, 8)) == b & !(0xFFu64 << slot_shift(index, 8))
    }

    fn access_to<const INDEX: u8>(to: u64) -> (r: u8) {
        let shift: u64 = INDEX as u64 * 8;
        #[verifier::truncate]
        ((to >> shift) as u8)
    }

    fn write_to<const INDEX: u8>(to: &mut u64, v: u8) {
        let shift: u64 = INDEX as u64 * 8;
        *to = (*to & !(0xFFu64 << shift)) | ((v as u64) << shift);
    }

    proof fn lemma_field_isolation(to: u64, index: u8, v: u8) {
        let shift = slot_shift(index, 8);
        assert((((to & !(0xFFu64 << shift)) | ((v as u64) << shift)) >> shift) as u8 == v
            && ((to & !(0xFFu64 << shift)) | ((v as u64) << shift)) & !(0xFFu64 << shift)
            == to & !(0xFFu64 << shift)) by (bit_vector)
            requires
                shift as int + 8 <= 64,
        ;
    }
}

impl BitAccessTo<u64> for u16 {
    open spec fn index_fits(index: u8) -> bool {
        (index as int + 1) * 16 <= 64
    }

    open spec fn index_writable(index: u8) -> bool {
        (index as int + 1) * 16 <= 64
    }

    open spec fn sliced(to: u64, index: u8) -> u16 {
        (to >> slot_shift(index, 16)) as u16
    }

    open spec fn spliced(to: u64, index: u8, v: u16) -> u64 {
        (to & !(0xFFFFu64 << slot_shift(index, 16))) | ((v as u64) << slot_shift(index, 16))
    }

    open spec fn same_outside(a: u64, b: u64, index: u8) -> bool {
        a & !(0xFFFFu64 << slot_shift(index, 16)) == b & !(0xFFFFu64 << slot_shift(index, 16))
    }

    fn access_to<const INDEX: u8>(to: u64) -> (r: u16) {
        let shift: u64 = INDEX as u64 * 16;
        #[verifier::truncate]
        ((to >> shift) as u16)
    }

    fn write_to<const INDEX: u8>(to: &mut u64, v: u16) {
        let shift: u64 = INDEX as u64 * 16;
        *to = (*to & !(0xFFFFu64 << shift)) | ((v as u64) << shift);
    }

    proof fn lemma_field_isolation(to: u64, index: u8, v: u16) {
        let shift = slot_shift(index, 16);
        assert((((to & !(0xFFFFu64 << shift)) | ((v as u64) << shift)) >> shift) as u16 == v
            && ((to & !(0xFFFFu64 << shift)) | ((v as u64) << shift)) & !(0xFFFFu64 << shift)
            == to & !(0xFFFFu64 << shift)) by (bit_vector)
            requires
                shift as int + 16 <= 64,
        ;
    }
}

impl BitAccessTo<u64> for u32 {
    open spec fn index_fits(index: u8) -> bool {
        (index as int + 1) * 32 <= 64
    }

    open spec fn index_writable(index: u8) -> bool {
        (index as int + 1) * 32 <= 64
    }

    open spec fn sliced(to: u64, index: u8) -> u32 {
        (to >> slot_shift(index, 32)) as u32
    }

    open spec fn spliced(to: u64, index: u8, v: u32) -> u64 {
        (to & !(0xFFFF_FFFFu64 << slot_shift(index, 32))) | ((v as u64) << slot_shift(index, 32))
    }

    open spec fn same_outside(a: u64, b: u64, index: u8) -> bool {
        a & !(0xFFFF_FFFFu64 << slot_shift(index, 32)) == b & !(0xFFFF_FFFFu64 << slot_shift(index, 32))
    }

    fn access_to<const INDEX: u8>(to: u64) -> (r: u32) {
        let shift: u64 = INDEX as u64 * 32;
        #[verifier::truncate]
        ((to >> shift) as u32)
    }

    fn write_to<const INDEX: u8>(to: &mut u64, v: u32) {
        let shift: u64 = INDEX as u64 * 32;
        *to = (*to & !(0xFFFF_FFFFu64 << shift)) | ((v as u64) << shift);
    }

    proof fn lemma_field_isolation(to: u64, index: u8, v: u32) {
        let shift = slot_shift(index, 32);
        assert((((to & !(0xFFFF_FFFFu64 << shift)) | ((v as u64) << shift)) >> shift) as u32 == v
            && ((to & !(0xFFFF_FFFFu64 << shift)) | ((v as u64) << shift)) & !(0xFFFF_FFFFu64 << shift)
            == to & !(0xFFFF_FFFFu64 << shift)) by (bit_vector)
            requires
                shift as int + 32 <= 64,
        ;
    }
}

impl BitAccessTo<u64> for u64 {
    open spec fn index_fits(index: u8) -> bool {
        (index as int + 1) * 64 <= 64
    }

    open spec fn index_writable(index: u8) -> bool {
        (index as int + 1) * 64 <= 64
    }

    open spec fn sliced(to: u64, index: u8) -> u64 {
        (to >> slot_shift(index, 64)) as u64
    }

    open spec fn spliced(to: u64, index: u8, v: u64) -> u64 {
        (to & !(0xFFFF_FFFF_FFFF_FFFFu64 << slot_shift(index, 64))) | ((v as u64) << slot_shift(index, 64))
    }

    open spec fn same_outside(a: u64, b: u64, index: u8) -> bool {
        a & !(0xFFFF_FFFF_FFFF_FFFFu64 << slot_shift(index, 64)) == b & !(0xFFFF_FFFF_FFFF_FFFFu64 << slot_shift(index, 64))
    }

    fn access_to<const INDEX: u8>(to: u64) -> (r: u64) {
        let shift: u64 = INDEX as u64 * 64;
        #[verifier::truncate]
        ((to >> shift) as u64)
    }

    fn write_to<const INDEX: u8>(to: &mut u64, v: u64) {
        let shift: u64 = INDEX as u64 * 64;
        *to = (*to & !(0xFFFF_FFFF_FFFF_FFFFu64 << shift)) | ((v as u64) << shift);
    }

    proof fn lemma_field_isolation(to: u64, index: u8, v: u64) {
        let shift = slot_shift(index, 64);
        assert((((to & !(0xFFFF_FFFF_FFFF_FFFFu64 << shift)) | ((v as u64) << shift)) >> shift) as u64 == v
            && ((to & !(0xFFFF_FFFF_FFFF_FFFFu64 << shift)) | ((v as u64) << shift)) & !(0xFFFF_FFFF_FFFF_FFFFu64 << shift)
            == to & !(0xFFFF_FFFF_FFFF_FFFFu64 << shift)) by (bit_vector)
            requires
                shift as int + 64 <= 64,
        ;
    }
}

impl BitAccessTo<u32> for u8 {
    open spec fn index_fits(index: u8) -> bool {
        (index as int + 1) * 8 <= 32
    }

    open spec fn index_writable(index: u8) -> bool {
        (index as int + 1) * 8 <= 32
    }

    open spec fn sliced(to: u32, index: u8) -> u8 {
        (to >> slot_shift(index, 8)) as u8
    }

    open spec fn spliced(to: u32, index: u8, v: u8) -> u32 {
        (to & !(0xFFu32 << slot_shift(index, 8))) | ((v as u32) << slot_shift(index, 8))
    }

    open spec fn same_outside(a: u32, b: u32, index: u8) -> bool {
        a & !(0xFFu32 << slot_shift(index, 8)) == b & !(0xFFu32 << slot_shift(index, 8))
    }

    fn access_to<const INDEX: u8>(to: u32) -> (r: u8) {
        let shift: u32 = INDEX as u32 * 8;
        #[verifier::truncate]
        ((to >> shift) as u8)
    }

    fn write_to<const INDEX: u8>(to: &mut u32, v: u8) {
        let shift: u32 = INDEX as u32 * 8;
        *to = (*to & !(0xFFu32 << shift)) | ((v as u32) << shift);
    }

    proof fn lemma_field_isolation(to: u32, index: u8, v: u8) {
        let shift = slot_shift(index, 8);
        assert((((to & !(0xFFu32 << shift)) | ((v as u32) << shift)) >> shift) as u8 == v
            && ((to & !(0xFFu32 << shift)) | ((v as u32) << shift)) & !(0xFFu32 << shift)
            == to & !(0xFFu32 << shift)) by (bit_vector)
            requires
                shift as int + 8 <= 32,
        ;
    }
}

impl BitAccessTo<u32> for u16 {
    open spec fn index_fits(index: u8) -> bool {
        (index as int + 1) * 16 <= 32
    }

    open spec fn index_writable(index: u8) -> bool {
        (index as int + 1) * 16 <= 32
    }

    open spec fn sliced(to: u32, index: u8) -> u16 {
        (to >> slot_shift(index, 16)) as u16
    }

    open spec fn spliced(to: u32, index: u8, v: u16) -> u32 {
        (to & !(0xFFFFu32 << slot_shift(index, 16))) | ((v as u32) << slot_shift(index, 16))
    }

    open spec fn same_outside(a: u32, b: u32, index: u8) -> bool {
        a & !(0xFFFFu32 << slot_shift(index, 16)) == b & !(0xFFFFu32 << slot_shift(index, 16))
    }

    fn access_to<const INDEX: u8>(to: u32) -> (r: u16) {
        let shift: u32 = INDEX as u32 * 16;
        #[verifier::truncate]
        ((to >> shift) as u16)
    }

    fn write_to<const INDEX: u8>(to: &mut u32, v: u16) {
        let shift: u32 = INDEX as u32 * 16;
        *to = (*to & !(0xFFFFu32 << shift)) | ((v as u32) << shift);
    }

    proof fn lemma_field_isolation(to: u32, index: u8, v: u16) {
        let shift = slot_shift(index, 16);
        assert((((to & !(0xFFFFu32 << shift)) | ((v as u32) << shift)) >> shift) as u16 == v
            && ((to & !(0xFFFFu32 << shift)) | ((v as u32) << shift)) & !(0xFFFFu32 << shift)
            == to & !(0xFFFFu32 << shift)) by (bit_vector)
            requires
                shift as int + 16 <= 32,
        ;
    }
}

impl BitAccessTo<u32> for u32 {
    open spec fn index_fits(index: u8) -> bool {
        (index as int + 1) * 32 <= 32
    }

    open spec fn index_writable(index: u8) -> bool {
        (index as int + 1) * 32 <= 32
    }

    open spec fn sliced(to: u32, index: u8) -> u32 {
        (to >> slot_shift(index, 32)) as u32
    }

    open spec fn spliced(to: u32, index: u8, v: u32) -> u32 {
        (to & !(0xFFFF_FFFFu32 << slot_shift(index, 32))) | ((v as u32) << slot_shift(index, 32))
    }

    open spec fn same_outside(a: u32, b: u32, index: u8) -> bool {
        a & !(0xFFFF_FFFFu32 << slot_shift(index, 32)) == b & !(0xFFFF_FFFFu32 << slot_shift(index, 32))
    }

    fn access_to<const INDEX: u8>(to: u32) -> (r: u32) {
        let shift: u32 = INDEX as u32 * 32;
        #[verifier::truncate]
        ((to >> shift) as u32)
    }

    fn write_to<const INDEX: u8>(to: &mut u32, v: u32) {
        let shift: u32 = INDEX as u32 * 32;
        *to = (*to & !(0xFFFF_FFFFu32 << shift)) | ((v as u32) << shift);
    }

    proof fn lemma_field_isolation(to: u32, index: u8, v: u32) {
        let shift = slot_shift(index, 32);
        assert((((to & !(0xFFFF_FFFFu32 << shift)) | ((v as u32) << shift)) >> shift) as u32 == v
            && ((to & !(0xFFFF_FFFFu32 << shift)) | ((v as u32) << shift)) & !(0xFFFF_FFFFu32 << shift)
            == to & !(0xFFFF_FFFFu32 << shift)) by (bit_vector)
            requires
                shift as int + 32 <= 32,
        ;
    }
}

impl BitAccessTo<u16> for u8 {
    open spec fn index_fits(index: u8) -> bool {
        (index as int + 1) * 8 <= 16
    }

    open spec fn index_writable(index: u8) -> bool {
        (index as int + 1) * 8 <= 16
    }

    open spec fn sliced(to: u16, index: u8) -> u8 {
        (to >> slot_shift(index, 8)) as u8
    }

    open spec fn spliced(to: u16, index: u8, v: u8) -> u16 {
        (to & !(0xFFu16 << slot_shift(index, 8))) | ((v as u16) << slot_shift(index, 8))
    }

    open spec fn same_outside(a: u16, b: u16, index: u8) -> bool {
        a & !(0xFFu16 << slot_shift(index, 8)) == b & !(0xFFu16 << slot_shift(index, 8))
    }

    fn access_to<const INDEX: u8>(to: u16) -> (r: u8) {
        let shift: u16 = INDEX as u16 * 8;
        #[verifier::truncate]
        ((to >> shift) as u8)
    }

    fn write_to<const INDEX: u8>(to: &mut u16, v: u8) {
        let shift: u16 = INDEX as u16 * 8;
        *to = (*to & !(0xFFu16 << shift)) | ((v as u16) << shift);
    }

    proof fn lemma_field_isolation(to: u16, index: u8, v: u8) {
        let shift = slot_shift(index, 8);
        assert((((to & !(0xFFu16 << shift)) | ((v as u16) << shift)) >> shift) as u8 == v
            && ((to & !(0xFFu16 << shift)) | ((v as u16) << shift)) & !(0xFFu16 << shift)
            == to & !(0xFFu16 << shift)) by (bit_vector)
            requires
                shift as int + 8 <= 16,
        ;
    }
}

impl BitAccessTo<u16> for u16 {
    open spec fn index_fits(index: u8) -> bool {
        (index as int + 1) * 16 <= 16
    }

    open spec fn index_writable(index: u8) -> bool {
        (index as int + 1) * 16 <= 16
    }

    open spec fn sliced(to: u16, index: u8) -> u16 {
        (to >> slot_shift(index, 16)) as u16
    }

    open spec fn spliced(to: u16, index: u8, v: u16) -> u16 {
        (to & !(0xFFFFu16 << slot_shift(index, 16))) | ((v as u16) << slot_shift(index, 16))
    }

    open spec fn same_outside(a: u16, b: u16, index: u8) -> bool {
        a & !(0xFFFFu16 << slot_shift(index, 16)) == b & !(0xFFFFu16 << slot_shift(index, 16))
    }

    fn access_to<const INDEX: u8>(to: u16) -> (r: u16) {
        let shift: u16 = INDEX as u16 * 16;
        #[verifier::truncate]
        ((to >> shift) as u16)
    }

    fn write_to<const INDEX: u8>(to: &mut u16, v: u16) {
        let shift: u16 = INDEX as u16 * 16;
        *to = (*to & !(0xFFFFu16 << shift)) | ((v as u16) << shift);
    }

    proof fn lemma_field_isolation(to: u16, index: u8, v: u16) {
        let shift = slot_shift(index, 16);
        assert((((to & !(0xFFFFu16 << shift)) | ((v as u16) << shift)) >> shift) as u16 == v
            && ((to & !(0xFFFFu16 << shift)) | ((v as u16) << shift)) & !(0xFFFFu16 << shift)
            == to & !(0xFFFFu16 << shift)) by (bit_vector)
            requires
                shift as int + 16 <= 16,
        ;
    }
}

impl BitAccessTo<u8> for u8 {
    open spec fn index_fits(index: u8) -> bool {
        (index as int + 1) * 8 <= 8
    }

    open spec fn index_writable(index: u8) -> bool {
        (index as int + 1) * 8 <= 8
    }

    open spec fn sliced(to: u8, index: u8) -> u8 {
        (to >> slot_shift(index, 8)) as u8
    }

    open spec fn spliced(to: u8, index: u8, v: u8) -> u8 {
        (to & !(0xFFu8 << slot_shift(index, 8))) | ((v as u8) << slot_shift(index, 8))
    }

    open spec fn same_outside(a: u8, b: u8, index: u8) -> bool {
        a & !(0xFFu8 << slot_shift(index, 8)) == b & !(0xFFu8 << slot_shift(index, 8))
    }

    fn access_to<const INDEX: u8>(to: u8) -> (r: u8) {
        let shift: u8 = INDEX as u8 * 8;
        #[verifier::truncate]
        ((to >> shift) as u8)
    }

    fn write_to<const INDEX: u8>(to: &mut u8, v: u8) {
        let shift: u8 = INDEX as u8 * 8;
        *to = (*to & !(0xFFu8 << shift)) | ((v as u8) << shift);
    }

    proof fn lemma_field_isolation(to: u8, index: u8, v: u8) {
        let shift = slot_shift(index, 8);
        assert((((to & !(0xFFu8 << shift)) | ((v as u8) << shift)) >> shift) as u8 == v
            && ((to & !(0xFFu8 << shift)) | ((v as u8) << shift)) & !(0xFFu8 << shift)
            == to & !(0xFFu8 << shift)) by (bit_vector)
            requires
                shift as int + 8 <= 8,
        ;
    }
}

} // verus!
