//! The five instruction formats.
//!
//! Each format splits the upper 24 bits of a word into fields; byte 0 is the opcode and
//! belongs to none of them.
//!
//! ```plaintext
//!     31..28│ 27..24│ 23..20│ 19..16│          15..8│           7..0│
//! E │   rde │   rs1 │   rs2 │  func │        imm(8) │        opcode │
//! R │   rde │   rs1 │   rs2 │               imm(12) │        opcode │
//! M │   rde │   rs1 │                       imm(16) │        opcode │
//! F │   rde │  func │                       imm(16) │        opcode │
//! B │  func │                               imm(20) │        opcode │
//! ```
use vstd::prelude::*;
use crate::nibble::{lemma_nibble_from_u8_is, Nibble};

verus! {

broadcast use crate::nibble::lemma_nibble_bound, crate::nibble::lemma_nibble_from_u8_view;

/// Byte `i` of a word, counting from the least significant.
pub open spec fn byte_of(w: u32, i: u32) -> u8 {
    (w >> (8 * i)) as u8
}

/// The little-endian word of four bytes.
pub open spec fn le_word(b0: u8, b1: u8, b2: u8, b3: u8) -> u32 {
    b0 as u32 | (b1 as u32) << 8 | (b2 as u32) << 16 | (b3 as u32) << 24
}

/// The bytes of a little-endian word are the bytes it was built from, and a word is
/// built from its own bytes.
proof fn lemma_le_word(b0: u8, b1: u8, b2: u8, b3: u8, w: u32)
    ensures
        byte_of(le_word(b0, b1, b2, b3), 0) == b0,
        byte_of(le_word(b0, b1, b2, b3), 1) == b1,
        byte_of(le_word(b0, b1, b2, b3), 2) == b2,
        byte_of(le_word(b0, b1, b2, b3), 3) == b3,
        le_word(byte_of(w, 0), byte_of(w, 1), byte_of(w, 2), byte_of(w, 3)) == w,
{
    assert({
        &&& ((b0 as u32 | (b1 as u32) << 8 | (b2 as u32) << 16 | (b3 as u32) << 24) >> 0) as u8 == b0
        &&& ((b0 as u32 | (b1 as u32) << 8 | (b2 as u32) << 16 | (b3 as u32) << 24) >> 8) as u8 == b1
        &&& ((b0 as u32 | (b1 as u32) << 8 | (b2 as u32) << 16 | (b3 as u32) << 24) >> 16) as u8 == b2
        &&& ((b0 as u32 | (b1 as u32) << 8 | (b2 as u32) << 16 | (b3 as u32) << 24) >> 24) as u8 == b3
        &&& ((w >> 0) as u8) as u32 | (((w >> 8) as u8) as u32) << 8 | (((w >> 16) as u8) as u32) << 16
            | (((w >> 24) as u8) as u32) << 24 == w
    }) by (bit_vector);
}

/// A byte splits into its two nibbles, and two nibbles compose into a byte that splits
/// back into them.
proof fn lemma_byte_nibbles(b: u8, lo: Nibble, hi: Nibble)
    ensures
        Nibble::spec_from_u8(b).spec_compose(Nibble::spec_from_u8_upper(b)) == b,
        Nibble::spec_from_u8(lo.spec_compose(hi)) == lo,
        Nibble::spec_from_u8_upper(lo.spec_compose(hi)) == hi,
{
    let (l, h) = (lo@, hi@);
    assert((b & 0xF) | (((b >> 4) & 0xF) << 4) == b) by (bit_vector);
    assert(l < 16 && h < 16 ==> ((l | (h << 4)) & 0xF == l && ((l | (h << 4)) >> 4) & 0xF == h))
        by (bit_vector);
    lemma_nibble_from_u8_is(lo.spec_compose(hi), lo);
    lemma_nibble_from_u8_is(lo.spec_compose(hi) >> 4, hi);
}

/// Byte `i` of a word.
pub(crate) fn byte(w: u32, i: u32) -> (r: u8)
    requires
        i < 4,
    ensures
        r == byte_of(w, i),
{
    #[verifier::truncate]
    ((w >> (8 * i)) as u8)
}

/// The little-endian word of four bytes.
pub(crate) fn from_le_bytes(b0: u8, b1: u8, b2: u8, b3: u8) -> (r: u32)
    ensures
        r == le_word(b0, b1, b2, b3),
{
    b0 as u32 | (b1 as u32) << 8 | (b2 as u32) << 16 | (b3 as u32) << 24
}

/// Instruction format E: an 8-bit immediate, a function nibble and three registers.
#[derive(Debug, Clone, Copy, PartialEq, Eq, Structural)]
pub struct E {
    /// Bits `8..15`.
    pub imm: u8,
    /// Bits `16..19`.
    pub func: Nibble,
    /// Bits `20..23`.
    pub rs2: Nibble,
    /// Bits `24..27`.
    pub rs1: Nibble,
    /// Bits `28..31`.
    pub rde: Nibble,
}

impl E {
    /// The E fields of a word.
    #[verifier::opaque]
    pub open spec fn spec_from_u32(value: u32) -> E {
        E {
            imm: byte_of(value, 1),
            func: Nibble::spec_from_u8(byte_of(value, 2)),
            rs2: Nibble::spec_from_u8_upper(byte_of(value, 2)),
            rs1: Nibble::spec_from_u8(byte_of(value, 3)),
            rde: Nibble::spec_from_u8_upper(byte_of(value, 3)),
        }
    }

    /// The word of these fields under `opcode`.
    #[verifier::opaque]
    pub open spec fn spec_to_u32(self, opcode: u8) -> u32 {
        le_word(opcode, self.imm, self.func.spec_compose(self.rs2), self.rs1.spec_compose(self.rde))
    }

    /// Reads the E fields of a word.
    #[verifier::when_used_as_spec(spec_from_u32)]
    pub fn from_u32(value: u32) -> (r: Self)
        ensures
            r == Self::spec_from_u32(value),
            r.imm == byte_of(value, 1),
            r.func@ == byte_of(value, 2) & 0xF,
            r.rs2@ == byte_of(value, 2) >> 4,
            r.rs1@ == byte_of(value, 3) & 0xF,
            r.rde@ == byte_of(value, 3) >> 4,
    {
        proof {
            reveal(E::spec_from_u32);
        }
        let b2 = byte(value, 2);
        let b3 = byte(value, 3);
        E {
            imm: byte(value, 1),
            func: Nibble::from_u8(b2),
            rs2: Nibble::from_u8_upper(b2),
            rs1: Nibble::from_u8(b3),
            rde: Nibble::from_u8_upper(b3),
        }
    }

    /// Packs the fields under `opcode`.
    #[verifier::when_used_as_spec(spec_to_u32)]
    pub fn to_u32(self, opcode: u8) -> (r: u32)
        ensures
            r == self.spec_to_u32(opcode),
    {
        proof {
            reveal(E::spec_to_u32);
        }
        from_le_bytes(opcode, self.imm, self.func.compose(self.rs2), self.rs1.compose(self.rde))
    }
}

/// Instruction format R: a 12-bit immediate and three registers.
#[derive(Debug, Clone, Copy, PartialEq, Eq, Structural)]
pub struct R {
    /// Bits `8..19`; only the low 12 bits are encoded.
    pub imm: u16,
    /// Bits `20..23`.
    pub rs2: Nibble,
    /// Bits `24..27`.
    pub rs1: Nibble,
    /// Bits `28..31`.
    pub rde: Nibble,
}

impl R {
    /// The R fields of a word.
    #[verifier::opaque]
    pub open spec fn spec_from_u32(value: u32) -> R {
        R {
            imm: ((value >> 8) & 0xFFF) as u16,
            rs2: Nibble::spec_from_u8_upper(byte_of(value, 2)),
            rs1: Nibble::spec_from_u8(byte_of(value, 3)),
            rde: Nibble::spec_from_u8_upper(byte_of(value, 3)),
        }
    }

    /// The word of these fields under `opcode`.
    #[verifier::opaque]
    pub open spec fn spec_to_u32(self, opcode: u8) -> u32 {
        le_word(
            opcode,
            self.imm as u8,
            Nibble::spec_from_u8((self.imm >> 8) as u8).spec_compose(self.rs2),
            self.rs1.spec_compose(self.rde),
        )
    }

    /// Reads the R fields of a word.
    #[verifier::when_used_as_spec(spec_from_u32)]
    pub fn from_u32(value: u32) -> (r: Self)
        ensures
            r == Self::spec_from_u32(value),
            r.imm == ((value >> 8) & 0xFFF) as u16,
            r.rs2@ == byte_of(value, 2) >> 4,
            r.rs1@ == byte_of(value, 3) & 0xF,
            r.rde@ == byte_of(value, 3) >> 4,
    {
        proof {
            reveal(R::spec_from_u32);
        }
        let b2 = byte(value, 2);
        let b3 = byte(value, 3);
        R {
            imm: ((value >> 8) & 0x0FFF) as u16,
            rs2: Nibble::from_u8_upper(b2),
            rs1: Nibble::from_u8(b3),
            rde: Nibble::from_u8_upper(b3),
        }
    }

    /// Packs the fields under `opcode`; the immediate is cut to 12 bits.
    #[verifier::when_used_as_spec(spec_to_u32)]
    pub fn to_u32(self, opcode: u8) -> (r: u32)
        ensures
            r == self.spec_to_u32(opcode),
    {
        proof {
            reveal(R::spec_to_u32);
        }
        let imm0: u8 = #[verifier::truncate] (self.imm as u8);
        let imm1: u8 = (self.imm >> 8) as u8;
        from_le_bytes(opcode, imm0, Nibble::from_u8(imm1).compose(self.rs2), self.rs1.compose(self.rde))
    }
}

/// Instruction format M: a 16-bit immediate and two registers.
#[derive(Debug, Clone, Copy, PartialEq, Eq, Structural)]
pub struct M {
    /// Bits `8..23`.
    pub imm: u16,
    /// Bits `24..27`.
    pub rs1: Nibble,
    /// Bits `28..31`.
    pub rde: Nibble,
}

impl M {
    /// The M fields of a word.
    #[verifier::opaque]
    pub open spec fn spec_from_u32(value: u32) -> M {
        M {
            imm: (value >> 8) as u16,
            rs1: Nibble::spec_from_u8(byte_of(value, 3)),
            rde: Nibble::spec_from_u8_upper(byte_of(value, 3)),
        }
    }

    /// The word of these fields under `opcode`.
    #[verifier::opaque]
    pub open spec fn spec_to_u32(self, opcode: u8) -> u32 {
        le_word(opcode, self.imm as u8, (self.imm >> 8) as u8, self.rs1.spec_compose(self.rde))
    }

    /// Reads the M fields of a word.
    #[verifier::when_used_as_spec(spec_from_u32)]
    pub fn from_u32(value: u32) -> (r: Self)
        ensures
            r == Self::spec_from_u32(value),
            r.imm == (value >> 8) as u16,
            r.rs1@ == byte_of(value, 3) & 0xF,
            r.rde@ == byte_of(value, 3) >> 4,
    {
        proof {
            reveal(M::spec_from_u32);
        }
        let b3 = byte(value, 3);
        M {
            imm: #[verifier::truncate] ((value >> 8) as u16),
            rs1: Nibble::from_u8(b3),
            rde: Nibble::from_u8_upper(b3),
        }
    }

    /// Packs the fields under `opcode`.
    #[verifier::when_used_as_spec(spec_to_u32)]
    pub fn to_u32(self, opcode: u8) -> (r: u32)
        ensures
            r == self.spec_to_u32(opcode),
    {
        proof {
            reveal(M::spec_to_u32);
        }
        let imm0: u8 = #[verifier::truncate] (self.imm as u8);
        let imm1: u8 = (self.imm >> 8) as u8;
        from_le_bytes(opcode, imm0, imm1, self.rs1.compose(self.rde))
    }
}

/// Instruction format F: a 16-bit immediate, a function nibble and one register.
#[derive(Debug, Clone, Copy, PartialEq, Eq, Structural)]
pub struct F {
    /// Bits `8..23`.
    pub imm: u16,
    /// Bits `24..27`.
    pub func: Nibble,
    /// Bits `28..31`.
    pub rde: Nibble,
}

impl F {
    /// The F fields of a word.
    #[verifier::opaque]
    pub open spec fn spec_from_u32(value: u32) -> F {
        F {
            imm: (value >> 8) as u16,
            func: Nibble::spec_from_u8(byte_of(value, 3)),
            rde: Nibble::spec_from_u8_upper(byte_of(value, 3)),
        }
    }

    /// The word of these fields under `opcode`.
    #[verifier::opaque]
    pub open spec fn spec_to_u32(self, opcode: u8) -> u32 {
        le_word(opcode, self.imm as u8, (self.imm >> 8) as u8, self.func.spec_compose(self.rde))
    }

    /// Reads the F fields of a word.
    #[verifier::when_used_as_spec(spec_from_u32)]
    pub fn from_u32(value: u32) -> (r: Self)
        ensures
            r == Self::spec_from_u32(value),
            r.imm == (value >> 8) as u16,
            r.func@ == byte_of(value, 3) & 0xF,
            r.rde@ == byte_of(value, 3) >> 4,
    {
        proof {
            reveal(F::spec_from_u32);
        }
        let b3 = byte(value, 3);
        F {
            imm: #[verifier::truncate] ((value >> 8) as u16),
            func: Nibble::from_u8(b3),
            rde: Nibble::from_u8_upper(b3),
        }
    }

    /// Packs the fields under `opcode`.
    #[verifier::when_used_as_spec(spec_to_u32)]
    pub fn to_u32(self, opcode: u8) -> (r: u32)
        ensures
            r == self.spec_to_u32(opcode),
    {
        proof {
            reveal(F::spec_to_u32);
        }
        let imm0: u8 = #[verifier::truncate] (self.imm as u8);
        let imm1: u8 = (self.imm >> 8) as u8;
        from_le_bytes(opcode, imm0, imm1, self.func.compose(self.rde))
    }
}

/// Instruction format B: a 20-bit immediate and a function nibble.
#[derive(Debug, Clone, Copy, PartialEq, Eq, Structural)]
pub struct B {
    /// Bits `8..27`; only the low 20 bits are encoded.
    pub imm: u32,
    /// Bits `28..31`.
    pub func: Nibble,
}

impl B {
    /// The B fields of a word.
    #[verifier::opaque]
    pub open spec fn spec_from_u32(value: u32) -> B {
        B { imm: (value >> 8) & 0xF_FFFF, func: Nibble::spec_from_u8_upper(byte_of(value, 3)) }
    }

    /// The word of these fields under `opcode`.
    #[verifier::opaque]
    pub open spec fn spec_to_u32(self, opcode: u8) -> u32 {
        opcode as u32 | (self.imm & 0xF_FFFF) << 8 | (self.func@ as u32) << 28
    }

    /// Reads the B fields of a word.
    #[verifier::when_used_as_spec(spec_from_u32)]
    pub fn from_u32(value: u32) -> (r: Self)
        ensures
            r == Self::spec_from_u32(value),
            r.imm == (value >> 8) & 0xF_FFFF,
            r.func@ == byte_of(value, 3) >> 4,
    {
        proof {
            reveal(B::spec_from_u32);
        }
        B { imm: (value >> 8) & 0x000F_FFFF, func: Nibble::from_u8_upper(byte(value, 3)) }
    }

    /// Packs the fields under `opcode`; the immediate is cut to 20 bits.
    #[verifier::when_used_as_spec(spec_to_u32)]
    pub fn to_u32(self, opcode: u8) -> (r: u32)
        ensures
            r == self.spec_to_u32(opcode),
    {
        proof {
            reveal(B::spec_to_u32);
        }
        (opcode as u32) | ((self.imm & 0x000F_FFFF) << 8) | ((self.func.as_u8() as u32) << 28)
    }
}

/// The 16-bit immediate of formats M and F sits in bytes 1 and 2.
proof fn lemma_imm16(imm: u16, b0: u8, b3: u8, w: u32)
    ensures
        (le_word(b0, imm as u8, (imm >> 8) as u8, b3) >> 8) as u16 == imm,
        ((w >> 8) as u16) as u8 == byte_of(w, 1),
        (((w >> 8) as u16) >> 8) as u8 == byte_of(w, 2),
{
    assert({
        &&& ((b0 as u32 | ((imm as u8) as u32) << 8 | (((imm >> 8) as u8) as u32) << 16 | (b3 as u32)
            << 24) >> 8) as u16 == imm
        &&& ((w >> 8) as u16) as u8 == (w >> 8) as u8
        &&& (((w >> 8) as u16) >> 8) as u8 == (w >> 16) as u8
    }) by (bit_vector);
}

/// Encoding E fields under an opcode and decoding the word gives back the fields and the
/// opcode.
pub broadcast proof fn lemma_e_round_trip(e: E, opcode: u8)
    ensures
        #[trigger] E::from_u32(e.to_u32(opcode)) == e,
        byte_of(e.to_u32(opcode), 0) == opcode,
{
    reveal(E::spec_from_u32);
    reveal(E::spec_to_u32);
    let (c2, c3) = (e.func.compose(e.rs2), e.rs1.compose(e.rde));
    lemma_le_word(opcode, e.imm, c2, c3, 0);
    lemma_byte_nibbles(0, e.func, e.rs2);
    lemma_byte_nibbles(0, e.rs1, e.rde);
}

/// Re-encoding the E fields of a word under its own opcode gives the word back.
pub proof fn lemma_e_word_round_trip(w: u32)
    ensures
        E::from_u32(w).to_u32(byte_of(w, 0)) == w,
{
    reveal(E::spec_from_u32);
    reveal(E::spec_to_u32);
    lemma_byte_nibbles(byte_of(w, 2), Nibble::X0, Nibble::X0);
    lemma_byte_nibbles(byte_of(w, 3), Nibble::X0, Nibble::X0);
    lemma_le_word(0, 0, 0, 0, w);
}

/// Encoding R fields under an opcode and decoding the word gives back the fields, with
/// the immediate cut to 12 bits, and the opcode.
pub broadcast proof fn lemma_r_round_trip(r: R, opcode: u8)
    ensures
        #[trigger] R::from_u32(r.to_u32(opcode)) == (R { imm: r.imm & 0xFFF, ..r }),
        byte_of(r.to_u32(opcode), 0) == opcode,
{
    reveal(R::spec_from_u32);
    reveal(R::spec_to_u32);
    let hi = Nibble::spec_from_u8((r.imm >> 8) as u8);
    let (b1, c2, c3) = (r.imm as u8, hi.compose(r.rs2), r.rs1.compose(r.rde));
    lemma_le_word(opcode, b1, c2, c3, 0);
    lemma_byte_nibbles(0, hi, r.rs2);
    lemma_byte_nibbles(0, r.rs1, r.rde);
    let (imm, w) = (r.imm, r.to_u32(opcode));
    assert(((w >> 8) & 0xFFF) as u16 == imm & 0xFFF) by (bit_vector)
        requires
            w == (opcode as u32 | (b1 as u32) << 8 | (c2 as u32) << 16 | (c3 as u32) << 24),
            b1 == imm as u8,
            c2 & 0xF == ((imm >> 8) as u8) & 0xF,
    ;
}

/// Re-encoding the R fields of a word under its own opcode gives the word back.
pub proof fn lemma_r_word_round_trip(w: u32)
    ensures
        R::from_u32(w).to_u32(byte_of(w, 0)) == w,
{
    reveal(R::spec_from_u32);
    reveal(R::spec_to_u32);
    let imm = ((w >> 8) & 0xFFF) as u16;
    assert(imm as u8 == (w >> 8) as u8 && ((imm >> 8) as u8) & 0xF == ((w >> 16) as u8) & 0xF)
        by (bit_vector)
        requires
            imm == ((w >> 8) & 0xFFF) as u16,
    ;
    lemma_nibble_from_u8_is((imm >> 8) as u8, Nibble::spec_from_u8(byte_of(w, 2)));
    lemma_byte_nibbles(byte_of(w, 2), Nibble::X0, Nibble::X0);
    lemma_byte_nibbles(byte_of(w, 3), Nibble::X0, Nibble::X0);
    lemma_le_word(0, 0, 0, 0, w);
}

/// Encoding M fields under an opcode and decoding the word gives back the fields and the
/// opcode.
pub broadcast proof fn lemma_m_round_trip(m: M, opcode: u8)
    ensures
        #[trigger] M::from_u32(m.to_u32(opcode)) == m,
        byte_of(m.to_u32(opcode), 0) == opcode,
{
    reveal(M::spec_from_u32);
    reveal(M::spec_to_u32);
    let c3 = m.rs1.compose(m.rde);
    lemma_le_word(opcode, m.imm as u8, (m.imm >> 8) as u8, c3, 0);
    lemma_imm16(m.imm, opcode, c3, 0);
    lemma_byte_nibbles(0, m.rs1, m.rde);
}

/// Re-encoding the M fields of a word under its own opcode gives the word back.
pub proof fn lemma_m_word_round_trip(w: u32)
    ensures
        M::from_u32(w).to_u32(byte_of(w, 0)) == w,
{
    reveal(M::spec_from_u32);
    reveal(M::spec_to_u32);
    lemma_imm16(0, 0, 0, w);
    lemma_byte_nibbles(byte_of(w, 3), Nibble::X0, Nibble::X0);
    lemma_le_word(0, 0, 0, 0, w);
}

/// Encoding F fields under an opcode and decoding the word gives back the fields and the
/// opcode.
pub broadcast proof fn lemma_f_round_trip(f: F, opcode: u8)
    ensures
        #[trigger] F::from_u32(f.to_u32(opcode)) == f,
        byte_of(f.to_u32(opcode), 0) == opcode,
{
    reveal(F::spec_from_u32);
    reveal(F::spec_to_u32);
    let c3 = f.func.compose(f.rde);
    lemma_le_word(opcode, f.imm as u8, (f.imm >> 8) as u8, c3, 0);
    lemma_imm16(f.imm, opcode, c3, 0);
    lemma_byte_nibbles(0, f.func, f.rde);
}

/// Re-encoding the F fields of a word under its own opcode gives the word back.
pub proof fn lemma_f_word_round_trip(w: u32)
    ensures
        F::from_u32(w).to_u32(byte_of(w, 0)) == w,
{
    reveal(F::spec_from_u32);
    reveal(F::spec_to_u32);
    lemma_imm16(0, 0, 0, w);
    lemma_byte_nibbles(byte_of(w, 3), Nibble::X0, Nibble::X0);
    lemma_le_word(0, 0, 0, 0, w);
}

/// Encoding B fields under an opcode and decoding the word gives back the fields, with
/// the immediate cut to 20 bits, and the opcode.
pub broadcast proof fn lemma_b_round_trip(b: B, opcode: u8)
    ensures
        #[trigger] B::from_u32(b.to_u32(opcode)) == (B { imm: b.imm & 0xF_FFFF, ..b }),
        byte_of(b.to_u32(opcode), 0) == opcode,
{
    reveal(B::spec_from_u32);
    reveal(B::spec_to_u32);
    let (imm, f) = (b.imm, b.func@);
    assert(f < 16 ==> {
        let w = opcode as u32 | (imm & 0xF_FFFF) << 8 | (f as u32) << 28;
        &&& (w >> 8) & 0xF_FFFF == imm & 0xF_FFFF
        &&& (((w >> 24) as u8) >> 4) & 0xF == f
        &&& (w >> 0) as u8 == opcode
    }) by (bit_vector);
    lemma_nibble_from_u8_is(byte_of(b.to_u32(opcode), 3) >> 4, b.func);
}

/// Re-encoding the B fields of a word under its own opcode gives the word back.
pub proof fn lemma_b_word_round_trip(w: u32)
    ensures
        B::from_u32(w).to_u32(byte_of(w, 0)) == w,
{
    reveal(B::spec_from_u32);
    reveal(B::spec_to_u32);
    assert(((w >> 0) as u8) as u32 | (((w >> 8) & 0xF_FFFF) & 0xF_FFFF) << 8
        | (((((w >> 24) as u8) >> 4) & 0xF) as u32) << 28 == w) by (bit_vector);
}

} // verus!
