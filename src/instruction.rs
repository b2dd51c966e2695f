//! Instruction words, their formats, and the instruction set they encode.
use vstd::prelude::*;
use crate::nibble::Nibble;
use self::encoding::{byte, byte_of, B, E, F, M, R};
use self::instruction_set::InstructionSet;


pub mod encoding;
pub mod instruction_set;

verus! {

broadcast use crate::nibble::lemma_nibble_bound;

/// A 32-bit instruction word; byte 0 (the least significant) is the opcode.
#[derive(Debug, Clone, Copy, PartialEq, Eq, PartialOrd, Ord, Structural)]
pub struct Instruction(pub u32);

impl Instruction {
    /// Nibble `idx` of the word, counting from the least significant.
    pub fn nth_nibble(self, idx: usize) -> (r: Nibble)
        requires
            idx < 8,
        ensures
            r@ == (self.0 >> (4 * idx) as u32) & 0xF,
    {
        let w = self.0;
        let byte: u8 = #[verifier::truncate] ((w >> (8 * (idx / 2)) as u32) as u8);
        let i = idx as u32;
        assert(i < 8 ==> {
            &&& i % 2 == 0 ==> ((w >> (8 * (i / 2))) as u8) & 0xF == (w >> (4 * i)) & 0xF
            &&& i % 2 == 1 ==> ((w >> (8 * (i / 2))) as u8) >> 4 == (w >> (4 * i)) & 0xF
        }) by (bit_vector);
        if idx % 2 == 0 {
            Nibble::from_u8(byte)
        } else {
            Nibble::from_u8_upper(byte)
        }
    }

    /// Destructure using the [`E`] format.
    pub fn e(self) -> (r: E)
        ensures
            r == E::spec_from_u32(self.0),
    {
        E::from_u32(self.0)
    }

    /// Destructure using the [`R`] format.
    pub fn r(self) -> (r: R)
        ensures
            r == R::spec_from_u32(self.0),
    {
        R::from_u32(self.0)
    }

    /// Destructure using the [`M`] format.
    pub fn m(self) -> (r: M)
        ensures
            r == M::spec_from_u32(self.0),
    {
        M::from_u32(self.0)
    }

    /// Destructure using the [`F`] format.
    pub fn f(self) -> (r: F)
        ensures
            r == F::spec_from_u32(self.0),
    {
        F::from_u32(self.0)
    }

    /// Destructure using the [`B`] format.
    pub fn b(self) -> (r: B)
        ensures
            r == B::spec_from_u32(self.0),
    {
        B::from_u32(self.0)
    }

    /// The opcode: the word's least significant byte.
    pub open spec fn spec_opcode(self) -> u8 {
        byte_of(self.0, 0)
    }

    /// The opcode: the word's least significant byte.
    #[verifier::when_used_as_spec(spec_opcode)]
    pub fn opcode(self) -> (r: u8)
        ensures
            r == self.spec_opcode(),
    {
        byte(self.0, 0)
    }

    /// Decodes the word; see [`InstructionSet::try_from_instruction`].
    pub fn try_into_instruction_set(self) -> (r: Option<InstructionSet>)
        ensures
            r == InstructionSet::spec_try_from_instruction(self),
    {
        InstructionSet::try_from_instruction(self)
    }
}

} // verus!
