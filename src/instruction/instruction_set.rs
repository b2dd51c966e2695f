//! The instruction set: every operation, with its operands, and its encoding.
use vstd::prelude::*;
use crate::interrupt::Interrupt;
use crate::io::Port;
use crate::nibble::Nibble;
use crate::registers::Register;
use super::encoding::{B, E, F, M, R};
use super::Instruction;

verus! {

broadcast use crate::nibble::lemma_nibble_bound;

/// Branch conditions, compared on the flags that `cmpr A, B` set.
#[derive(Debug, Clone, Copy, PartialEq, Eq, PartialOrd, Ord, Structural)]
pub enum BranchCond {
    /// Always.
    Bra,
    /// `A = B`.
    Beq,
    /// `A = 0`.
    Bez,
    /// `(A as i64) < (B as i64)`.
    Blt,
    /// `(A as i64) <= (B as i64)`.
    Ble,
    /// `(A as u64) < (B as u64)`.
    Bltu,
    /// `(A as u64) <= (B as u64)`.
    Bleu,
    /// `A != B`.
    Bne,
    /// `A != 0`.
    Bnz,
    /// `(A as i64) >= (B as i64)`.
    Bge,
    /// `(A as i64) > (B as i64)`.
    Bgt,
    /// `(A as u64) >= (B as u64)`.
    Bgeu,
    /// `(A as u64) > (B as u64)`.
    Bgtu,
}

impl View for BranchCond {
    type V = u8;

    /// The 4-bit code of the branch condition.
    open spec fn view(&self) -> u8 {
        match *self {
            BranchCond::Bra => 0x0,
            BranchCond::Beq => 0x1,
            BranchCond::Bez => 0x2,
            BranchCond::Blt => 0x3,
            BranchCond::Ble => 0x4,
            BranchCond::Bltu => 0x5,
            BranchCond::Bleu => 0x6,
            BranchCond::Bne => 0x9,
            BranchCond::Bnz => 0xA,
            BranchCond::Bge => 0xB,
            BranchCond::Bgt => 0xC,
            BranchCond::Bgeu => 0xD,
            BranchCond::Bgtu => 0xE,
        }
    }
}

impl BranchCond {
    /// The branch condition with code `value`, if there is one.
    pub open spec fn spec_try_from_nibble(value: Nibble) -> Option<BranchCond> {
        match value {
            Nibble::X0 => Some(BranchCond::Bra),
            Nibble::X1 => Some(BranchCond::Beq),
            Nibble::X2 => Some(BranchCond::Bez),
            Nibble::X3 => Some(BranchCond::Blt),
            Nibble::X4 => Some(BranchCond::Ble),
            Nibble::X5 => Some(BranchCond::Bltu),
            Nibble::X6 => Some(BranchCond::Bleu),
            Nibble::X9 => Some(BranchCond::Bne),
            Nibble::XA => Some(BranchCond::Bnz),
            Nibble::XB => Some(BranchCond::Bge),
            Nibble::XC => Some(BranchCond::Bgt),
            Nibble::XD => Some(BranchCond::Bgeu),
            Nibble::XE => Some(BranchCond::Bgtu),
            _ => None,
        }
    }

    /// The branch condition with code `value`, if there is one.
    #[verifier::when_used_as_spec(spec_try_from_nibble)]
    pub fn try_from_nibble(value: Nibble) -> (r: Option<Self>)
        ensures
            r == Self::spec_try_from_nibble(value),
            r.is_some() ==> r.unwrap()@ == value@,
    {
        match value {
            Nibble::X0 => Some(Self::Bra),
            Nibble::X1 => Some(Self::Beq),
            Nibble::X2 => Some(Self::Bez),
            Nibble::X3 => Some(Self::Blt),
            Nibble::X4 => Some(Self::Ble),
            Nibble::X5 => Some(Self::Bltu),
            Nibble::X6 => Some(Self::Bleu),
            Nibble::X9 => Some(Self::Bne),
            Nibble::XA => Some(Self::Bnz),
            Nibble::XB => Some(Self::Bge),
            Nibble::XC => Some(Self::Bgt),
            Nibble::XD => Some(Self::Bgeu),
            Nibble::XE => Some(Self::Bgtu),
            _ => None,
        }
    }

    /// The nibble holding the code.
    pub open spec fn spec_to_nibble(self) -> Nibble {
        match self {
            BranchCond::Bra => Nibble::X0,
            BranchCond::Beq => Nibble::X1,
            BranchCond::Bez => Nibble::X2,
            BranchCond::Blt => Nibble::X3,
            BranchCond::Ble => Nibble::X4,
            BranchCond::Bltu => Nibble::X5,
            BranchCond::Bleu => Nibble::X6,
            BranchCond::Bne => Nibble::X9,
            BranchCond::Bnz => Nibble::XA,
            BranchCond::Bge => Nibble::XB,
            BranchCond::Bgt => Nibble::XC,
            BranchCond::Bgeu => Nibble::XD,
            BranchCond::Bgtu => Nibble::XE,
        }
    }

    /// The nibble holding the code.
    #[verifier::when_used_as_spec(spec_to_nibble)]
    pub fn to_nibble(self) -> (r: Nibble)
        ensures
            r == self.spec_to_nibble(),
            r@ == self@,
            Self::spec_try_from_nibble(r) == Some(self),
    {
        match self {
            Self::Bra => Nibble::X0,
            Self::Beq => Nibble::X1,
            Self::Bez => Nibble::X2,
            Self::Blt => Nibble::X3,
            Self::Ble => Nibble::X4,
            Self::Bltu => Nibble::X5,
            Self::Bleu => Nibble::X6,
            Self::Bne => Nibble::X9,
            Self::Bnz => Nibble::XA,
            Self::Bge => Nibble::XB,
            Self::Bgt => Nibble::XC,
            Self::Bgeu => Nibble::XD,
            Self::Bgtu => Nibble::XE,
        }
    }

    /// The mnemonic.
    pub open spec fn spec_name(self) -> Seq<char> {
        match self {
            BranchCond::Bra => "bra"@,
            BranchCond::Beq => "beq"@,
            BranchCond::Bez => "bez"@,
            BranchCond::Blt => "blt"@,
            BranchCond::Ble => "ble"@,
            BranchCond::Bltu => "bltu"@,
            BranchCond::Bleu => "bleu"@,
            BranchCond::Bne => "bne"@,
            BranchCond::Bnz => "bnz"@,
            BranchCond::Bge => "bge"@,
            BranchCond::Bgt => "bgt"@,
            BranchCond::Bgeu => "bgeu"@,
            BranchCond::Bgtu => "bgtu"@,
        }
    }

    /// The mnemonic, as written in assembly.
    pub fn string(self) -> (r: &'static str)
        ensures
            r@ == self.spec_name(),
    {
        match self {
            Self::Bra => "bra",
            Self::Beq => "beq",
            Self::Bez => "bez",
            Self::Blt => "blt",
            Self::Ble => "ble",
            Self::Bltu => "bltu",
            Self::Bleu => "bleu",
            Self::Bne => "bne",
            Self::Bnz => "bnz",
            Self::Bge => "bge",
            Self::Bgt => "bgt",
            Self::Bgeu => "bgeu",
            Self::Bgtu => "bgtu",
        }
    }
}

/// Load-immediate kinds: which 16-bit slice of `rd` receives `imm`, and whether it is sign-extended.
#[derive(Debug, Clone, Copy, PartialEq, Eq, PartialOrd, Ord, Structural)]
pub enum LiType {
    /// `rd[15..0] <- imm`.
    Lli,
    /// `rd <- (imm as i64)`.
    Llis,
    /// `rd[31..16] <- imm`.
    Lui,
    /// `rd <- (imm as i64) << 16`.
    Luis,
    /// `rd[47..32] <- imm`.
    Lti,
    /// `rd <- (imm as i64) << 32`.
    Ltis,
    /// `rd[63..48] <- imm`.
    Ltui,
    /// `rd <- (imm as i64) << 48`.
    Ltuis,
}

impl View for LiType {
    type V = u8;

    /// The 4-bit code of the load-immediate kind.
    open spec fn view(&self) -> u8 {
        match *self {
            LiType::Lli => 0x0,
            LiType::Llis => 0x1,
            LiType::Lui => 0x2,
            LiType::Luis => 0x3,
            LiType::Lti => 0x4,
            LiType::Ltis => 0x5,
            LiType::Ltui => 0x6,
            LiType::Ltuis => 0x7,
        }
    }
}

impl LiType {
    /// The load-immediate kind with code `value`, if there is one.
    pub open spec fn spec_try_from_nibble(value: Nibble) -> Option<LiType> {
        match value {
            Nibble::X0 => Some(LiType::Lli),
            Nibble::X1 => Some(LiType::Llis),
            Nibble::X2 => Some(LiType::Lui),
            Nibble::X3 => Some(LiType::Luis),
            Nibble::X4 => Some(LiType::Lti),
            Nibble::X5 => Some(LiType::Ltis),
            Nibble::X6 => Some(LiType::Ltui),
            Nibble::X7 => Some(LiType::Ltuis),
            _ => None,
        }
    }

    /// The load-immediate kind with code `value`, if there is one.
    #[verifier::when_used_as_spec(spec_try_from_nibble)]
    pub fn try_from_nibble(value: Nibble) -> (r: Option<Self>)
        ensures
            r == Self::spec_try_from_nibble(value),
            r.is_some() ==> r.unwrap()@ == value@,
    {
        match value {
            Nibble::X0 => Some(Self::Lli),
            Nibble::X1 => Some(Self::Llis),
            Nibble::X2 => Some(Self::Lui),
            Nibble::X3 => Some(Self::Luis),
            Nibble::X4 => Some(Self::Lti),
            Nibble::X5 => Some(Self::Ltis),
            Nibble::X6 => Some(Self::Ltui),
            Nibble::X7 => Some(Self::Ltuis),
            _ => None,
        }
    }

    /// The nibble holding the code.
    pub open spec fn spec_to_nibble(self) -> Nibble {
        match self {
            LiType::Lli => Nibble::X0,
            LiType::Llis => Nibble::X1,
            LiType::Lui => Nibble::X2,
            LiType::Luis => Nibble::X3,
            LiType::Lti => Nibble::X4,
            LiType::Ltis => Nibble::X5,
            LiType::Ltui => Nibble::X6,
            LiType::Ltuis => Nibble::X7,
        }
    }

    /// The nibble holding the code.
    #[verifier::when_used_as_spec(spec_to_nibble)]
    pub fn to_nibble(self) -> (r: Nibble)
        ensures
            r == self.spec_to_nibble(),
            r@ == self@,
            Self::spec_try_from_nibble(r) == Some(self),
    {
        match self {
            Self::Lli => Nibble::X0,
            Self::Llis => Nibble::X1,
            Self::Lui => Nibble::X2,
            Self::Luis => Nibble::X3,
            Self::Lti => Nibble::X4,
            Self::Ltis => Nibble::X5,
            Self::Ltui => Nibble::X6,
            Self::Ltuis => Nibble::X7,
        }
    }

    /// The mnemonic.
    pub open spec fn spec_name(self) -> Seq<char> {
        match self {
            LiType::Lli => "lli"@,
            LiType::Llis => "llis"@,
            LiType::Lui => "lui"@,
            LiType::Luis => "luis"@,
            LiType::Lti => "lti"@,
            LiType::Ltis => "ltis"@,
            LiType::Ltui => "ltui"@,
            LiType::Ltuis => "ltuis"@,
        }
    }

    /// The mnemonic, as written in assembly.
    pub fn string(self) -> (r: &'static str)
        ensures
            r@ == self.spec_name(),
    {
        match self {
            Self::Lli => "lli",
            Self::Llis => "llis",
            Self::Lui => "lui",
            Self::Luis => "luis",
            Self::Lti => "lti",
            Self::Ltis => "ltis",
            Self::Ltui => "ltui",
            Self::Ltuis => "ltuis",
        }
    }
}

/// Floating-point precision.
#[derive(Debug, Clone, Copy, PartialEq, Eq, PartialOrd, Ord, Structural)]
pub enum FloatPrecision {
    /// Half precision, 16 bits.
    F16,
    /// Single precision, 32 bits.
    F32,
    /// Double precision, 64 bits.
    F64,
}

impl View for FloatPrecision {
    type V = u8;

    /// The precision's code.
    open spec fn view(&self) -> u8 {
        match *self {
            FloatPrecision::F16 => 0,
            FloatPrecision::F32 => 1,
            FloatPrecision::F64 => 2,
        }
    }
}

impl FloatPrecision {
    /// The precision with code `value`, if there is one.
    pub open spec fn spec_try_from_u8(value: u8) -> Option<FloatPrecision> {
        if value == 0 {
            Some(FloatPrecision::F16)
        } else if value == 1 {
            Some(FloatPrecision::F32)
        } else if value == 2 {
            Some(FloatPrecision::F64)
        } else {
            None
        }
    }

    /// The precision with code `value`, if there is one.
    #[verifier::when_used_as_spec(spec_try_from_u8)]
    pub fn try_from_u8(value: u8) -> (r: Option<Self>)
        ensures
            r == Self::spec_try_from_u8(value),
            r.is_some() <==> value < 3,
            r.is_some() ==> r.unwrap()@ == value,
    {
        match value {
            0 => Some(Self::F16),
            1 => Some(Self::F32),
            2 => Some(Self::F64),
            _ => None,
        }
    }

    /// The precision whose code is the value of `value`, if there is one.
    pub open spec fn spec_try_from_nibble(value: Nibble) -> Option<FloatPrecision> {
        Self::spec_try_from_u8(value@)
    }

    /// The precision whose code is the value of `value`, if there is one.
    #[verifier::when_used_as_spec(spec_try_from_nibble)]
    pub fn try_from_nibble(value: Nibble) -> (r: Option<Self>)
        ensures
            r == Self::spec_try_from_nibble(value),
    {
        match value {
            Nibble::X0 => Some(Self::F16),
            Nibble::X1 => Some(Self::F32),
            Nibble::X2 => Some(Self::F64),
            _ => None,
        }
    }

    /// The nibble holding the precision's code.
    pub open spec fn spec_to_nibble(self) -> Nibble {
        match self {
            FloatPrecision::F16 => Nibble::X0,
            FloatPrecision::F32 => Nibble::X1,
            FloatPrecision::F64 => Nibble::X2,
        }
    }

    /// The nibble holding the precision's code.
    #[verifier::when_used_as_spec(spec_to_nibble)]
    pub fn to_nibble(self) -> (r: Nibble)
        ensures
            r == self.spec_to_nibble(),
            r@ == self@,
            Self::spec_try_from_nibble(r) == Some(self),
    {
        match self {
            Self::F16 => Nibble::X0,
            Self::F32 => Nibble::X1,
            Self::F64 => Nibble::X2,
        }
    }
}

/// A conversion between two floating-point precisions.
///
/// In its nibble, the source precision's code sits in bits 2 and 3; the destination is
/// read from the nibble masked with `0x11`, which leaves bit 0 alone, so a nibble can
/// name only half or single precision as the destination.
#[derive(Debug, Clone, Copy, PartialEq, Eq, Structural)]
pub struct FloatCastType {
    /// Destination precision.
    pub to: FloatPrecision,
    /// Source precision.
    pub from: FloatPrecision,
}

impl FloatCastType {
    /// The conversion named by a nibble, if both of its precisions are valid.
    pub open spec fn spec_try_from_nibble(value: Nibble) -> Option<FloatCastType> {
        match (FloatPrecision::spec_try_from_u8(value@ & 0x11), FloatPrecision::spec_try_from_u8(value@ >> 2)) {
            (Some(to), Some(from)) => Some(FloatCastType { to, from }),
            _ => None,
        }
    }

    /// The conversion named by a nibble, if both of its precisions are valid.
    #[verifier::when_used_as_spec(spec_try_from_nibble)]
    pub fn try_from_nibble(value: Nibble) -> (r: Option<Self>)
        ensures
            r == Self::spec_try_from_nibble(value),
    {
        let v = value.as_u8();
        if let (Some(to), Some(from)) = (FloatPrecision::try_from_u8(v & 0x11), FloatPrecision::try_from_u8(v >> 2)) {
            Some(Self { to, from })
        } else {
            None
        }
    }

    /// The nibble with the destination code in bits 0 and 1 and the source code in bits
    /// 2 and 3.
    pub open spec fn spec_to_nibble(self) -> Nibble {
        Nibble::spec_from_u8(self.to@ | (self.from@ << 2))
    }

    /// The nibble with the destination code in bits 0 and 1 and the source code in bits
    /// 2 and 3.
    #[verifier::when_used_as_spec(spec_to_nibble)]
    pub fn to_nibble(self) -> (r: Nibble)
        ensures
            r == self.spec_to_nibble(),
            self.to != FloatPrecision::F64 ==> Self::spec_try_from_nibble(r) == Some(self),
    {
        let (t, f) = (self.to.to_nibble().as_u8(), self.from.to_nibble().as_u8());
        assert(t < 2 && f < 3 ==> {
            &&& ((t | (f << 2)) & 0xF) & 0x11 == t
            &&& ((t | (f << 2)) & 0xF) >> 2 == f
        }) by (bit_vector);
        proof {
            broadcast use crate::nibble::lemma_nibble_from_u8_view;
        }
        Nibble::from_u8(t | (f << 2))
    }
}

/// Every operation of the instruction set, with its operands.
#[derive(Debug, Clone, Copy, PartialEq, Eq, Structural)]
#[allow(inconsistent_fields)]
pub enum InstructionSet {
    /// Trigger interrupt `imm8`.
    Int { imm8: Interrupt },
    /// Return from interrupt.
    Iret,
    /// Resolve interrupt.
    Ires,
    /// Enter user mode and jump to the address in `rd`.
    Usr { rd: Register },
    /// Output the data in `rs` to port `rd`.
    Outr { rd: Register, rs: Register },
    /// Output the data in `rs` to port `imm16`.
    Outi { imm16: Port, rs: Register },
    /// Read data from port `rs` into `rd`.
    Inr { rd: Register, rs: Register },
    /// Read data from port `imm16` into `rd`.
    Ini { rd: Register, imm16: Port },
    /// Push `ip`, then `ip <- rs + 4 * (imm16 as i64)`.
    Jal { rs: Register, imm16: u16 },
    /// `rd <- ip`, then `ip <- rs + 4 * (imm16 as i64)`.
    Jalr { rd: Register, rs: Register, imm16: u16 },
    /// Pop `ip`.
    Ret,
    /// `ip <- rs`.
    Retr { rs: Register },
    /// `ip <- ip + 4 * (imm20 as i64)` when condition `cc` holds; `imm20` has 20 bits.
    Branch { cc: BranchCond, imm20: u32 },
    /// `sp <- sp - 8`, `mem[sp] <- rs`.
    Push { rs: Register },
    /// `rd <- mem[sp]`, `sp <- sp + 8`.
    Pop { rd: Register },
    /// Push `fp`, `fp <- sp`: enter a stack frame.
    Enter,
    /// `sp <- fp`, pop `fp`: leave a stack frame.
    Leave,
    /// Load immediate; see [`LiType`].
    Li { rd: Register, func: LiType, imm: u16 },
    /// `rd <- mem[rs + (off as i64) + (rn << sh)]`, 64 bits.
    Lw { rd: Register, rs: Register, rn: Register, sh: Nibble, off: u8 },
    /// `rd[31..0] <- mem[rs + (off as i64) + (rn << sh)]`.
    Lh { rd: Register, rs: Register, rn: Register, sh: Nibble, off: u8 },
    /// `rd <- mem[rs + (off as i64) + (rn << sh)]`, 32 bits sign-extended.
    Lhs { rd: Register, rs: Register, rn: Register, sh: Nibble, off: u8 },
    /// `rd[15..0] <- mem[rs + (off as i64) + (rn << sh)]`.
    Lq { rd: Register, rs: Register, rn: Register, sh: Nibble, off: u8 },
    /// `rd <- mem[rs + (off as i64) + (rn << sh)]`, 16 bits sign-extended.
    Lqs { rd: Register, rs: Register, rn: Register, sh: Nibble, off: u8 },
    /// `rd[7..0] <- mem[rs + (off as i64) + (rn << sh)]`.
    Lb { rd: Register, rs: Register, rn: Register, sh: Nibble, off: u8 },
    /// `rd <- mem[rs + (off as i64) + (rn << sh)]`, 8 bits sign-extended.
    Lbs { rd: Register, rs: Register, rn: Register, sh: Nibble, off: u8 },
    /// `mem[rs + (off as i64) + (rn << sh)] <- rd`, 64 bits.
    Sw { rd: Register, rs: Register, rn: Register, sh: Nibble, off: u8 },
    /// `mem[rs + (off as i64) + (rn << sh)] <- rd`, 32 bits.
    Sh { rd: Register, rs: Register, rn: Register, sh: Nibble, off: u8 },
    /// `mem[rs + (off as i64) + (rn << sh)] <- rd`, 16 bits.
    Sq { rd: Register, rs: Register, rn: Register, sh: Nibble, off: u8 },
    /// `mem[rs + (off as i64) + (rn << sh)] <- rd`, 8 bits.
    Sb { rd: Register, rs: Register, rn: Register, sh: Nibble, off: u8 },
    /// Compare `r1` with `r2` and set the flags.
    Cmpr { r1: Register, r2: Register },
    /// Compare `r1` with the sign-extended `imm` and set the flags; `s` is set when the immediate is the first operand.
    Cmpi { r1: Register, s: bool, imm: u16 },
    /// `rd <- r1 + r2`.
    Addr { rd: Register, r1: Register, r2: Register },
    /// `rd <- r1 + imm16`.
    Addi { rd: Register, r1: Register, imm16: u16 },
    /// `rd <- r1 - r2`.
    Subr { rd: Register, r1: Register, r2: Register },
    /// `rd <- r1 - imm16`.
    Subi { rd: Register, r1: Register, imm16: u16 },
    /// `rd <- r1 * r2`, signed.
    Imulr { rd: Register, r1: Register, r2: Register },
    /// `rd <- r1 * imm16`, signed.
    Imuli { rd: Register, r1: Register, imm16: u16 },
    /// `rd <- r1 / r2`, signed.
    Idivr { rd: Register, r1: Register, r2: Register },
    /// `rd <- r1 / imm16`, signed.
    Idivi { rd: Register, r1: Register, imm16: u16 },
    /// `rd <- r1 * r2`, unsigned.
    Umulr { rd: Register, r1: Register, r2: Register },
    /// `rd <- r1 * imm16`, unsigned.
    Umuli { rd: Register, r1: Register, imm16: u16 },
    /// `rd <- r1 / r2`, unsigned.
    Udivr { rd: Register, r1: Register, r2: Register },
    /// `rd <- r1 / imm16`, unsigned.
    Udivi { rd: Register, r1: Register, imm16: u16 },
    /// `rd <- rem(r1, r2)`.
    Remr { rd: Register, r1: Register, r2: Register },
    /// `rd <- rem(r1, imm16)`.
    Remi { rd: Register, r1: Register, imm16: u16 },
    /// `rd <- mod(r1, r2)`.
    Modr { rd: Register, r1: Register, r2: Register },
    /// `rd <- mod(r1, imm16)`.
    Modi { rd: Register, r1: Register, imm16: u16 },
    /// `rd <- r1 & r2`.
    Andr { rd: Register, r1: Register, r2: Register },
    /// `rd <- r1 & imm16`.
    Andi { rd: Register, r1: Register, imm16: u16 },
    /// `rd <- r1 | r2`.
    Orr { rd: Register, r1: Register, r2: Register },
    /// `rd <- r1 | imm16`.
    Ori { rd: Register, r1: Register, imm16: u16 },
    /// `rd <- !(r1 | r2)`.
    Norr { rd: Register, r1: Register, r2: Register },
    /// `rd <- !(r1 | imm16)`.
    Nori { rd: Register, r1: Register, imm16: u16 },
    /// `rd <- r1 ^ r2`.
    Xorr { rd: Register, r1: Register, r2: Register },
    /// `rd <- r1 ^ imm16`.
    Xori { rd: Register, r1: Register, imm16: u16 },
    /// `rd <- r1 << r2`.
    Shlr { rd: Register, r1: Register, r2: Register },
    /// `rd <- r1 << imm16`.
    Shli { rd: Register, r1: Register, imm16: u16 },
    /// `rd <- (r1 as i64) >> r2`.
    Asrr { rd: Register, r1: Register, r2: Register },
    /// `rd <- (r1 as i64) >> imm16`.
    Asri { rd: Register, r1: Register, imm16: u16 },
    /// `rd <- r1 >> r2`.
    Lsrr { rd: Register, r1: Register, r2: Register },
    /// `rd <- r1 >> imm16`.
    Lsri { rd: Register, r1: Register, imm16: u16 },
    /// Bit `r2` of `r1` into `rd`.
    Bitr { rd: Register, r1: Register, r2: Register },
    /// Bit `imm16` of `r1` into `rd`.
    Biti { rd: Register, r1: Register, imm16: u16 },
    /// Compare `r1` with `r2`.
    Fcmp { r1: Register, r2: Register, p: FloatPrecision },
    /// `rd <- rs as float`.
    Fto { rd: Register, rs: Register, p: FloatPrecision },
    /// `rd <- rs as i64`.
    Ffrom { rd: Register, rs: Register, p: FloatPrecision },
    /// `rd <- -rs`.
    Fneg { rd: Register, rs: Register, p: FloatPrecision },
    /// `rd <- |rs|`.
    Fabs { rd: Register, rs: Register, p: FloatPrecision },
    /// `rd <- r1 + r2`.
    Fadd { rd: Register, r1: Register, r2: Register, p: FloatPrecision },
    /// `rd <- r1 - r2`.
    Fsub { rd: Register, r1: Register, r2: Register, p: FloatPrecision },
    /// `rd <- r1 * r2`.
    Fmul { rd: Register, r1: Register, r2: Register, p: FloatPrecision },
    /// `rd <- r1 / r2`.
    Fdiv { rd: Register, r1: Register, r2: Register, p: FloatPrecision },
    /// `rd <- rd + r1 * r2`.
    Fma { rd: Register, r1: Register, r2: Register, p: FloatPrecision },
    /// `rd <- sqrt(r1)`.
    Fsqrt { rd: Register, r1: Register, p: FloatPrecision },
    /// `rd <- min(r1, r2)`.
    Fmin { rd: Register, r1: Register, r2: Register, p: FloatPrecision },
    /// `rd <- max(r1, r2)`.
    Fmax { rd: Register, r1: Register, r2: Register, p: FloatPrecision },
    /// `rd <- ceil(r1)`.
    Fsat { rd: Register, r1: Register, p: FloatPrecision },
    /// `rd <- r1` converted between precisions.
    Fcnv { rd: Register, r1: Register, p: FloatCastType },
    /// `rd <- isnan(r1)`.
    Fnan { rd: Register, r1: Register, p: FloatPrecision },
}

impl InstructionSet {
    /// The system-control operation of an F word, by its function nibble.
    pub open spec fn spec_decode_system(f: F) -> Option<InstructionSet> {
        let rd = Register::from_nibble(f.rde);
        match f.func {
            Nibble::X0 => match Interrupt::try_from_u16(f.imm) {
                Some(imm8) => Some(InstructionSet::Int { imm8 }),
                None => None,
            },
            Nibble::X1 => Some(InstructionSet::Iret),
            Nibble::X2 => Some(InstructionSet::Ires),
            Nibble::X3 => Some(InstructionSet::Usr { rd }),
            _ => None,
        }
    }

    /// The system-control operation of an F word, by its function nibble.
    #[verifier::when_used_as_spec(spec_decode_system)]
    fn decode_system(f: F) -> (res: Option<InstructionSet>)
        ensures
            res == Self::spec_decode_system(f),
    {
        let rd = Register::from_nibble(f.rde);
        match f.func {
            Nibble::X0 => match Interrupt::try_from_u16(f.imm) {
                Some(imm8) => Some(InstructionSet::Int { imm8 }),
                None => None,
            },
            Nibble::X1 => Some(InstructionSet::Iret),
            Nibble::X2 => Some(InstructionSet::Ires),
            Nibble::X3 => Some(InstructionSet::Usr { rd }),
            _ => None,
        }
    }

    /// The port operation of opcode `op` on an M word.
    pub open spec fn spec_decode_port(op: u8, m: M) -> InstructionSet {
        let rs = Register::from_nibble(m.rs1);
        let rd = Register::from_nibble(m.rde);
        let imm16 = Port(m.imm);
        if op == 0x02 {
            InstructionSet::Outr { rd, rs }
        } else if op == 0x03 {
            InstructionSet::Outi { imm16, rs }
        } else if op == 0x04 {
            InstructionSet::Inr { rd, rs }
        } else {
            InstructionSet::Ini { rd, imm16 }
        }
    }

    /// The port operation of opcode `op` on an M word.
    #[verifier::when_used_as_spec(spec_decode_port)]
    fn decode_port(op: u8, m: M) -> (res: InstructionSet)
        requires
            0x02 <= op <= 0x05,
        ensures
            res == Self::spec_decode_port(op, m),
    {
        let rs = Register::from_nibble(m.rs1);
        let rd = Register::from_nibble(m.rde);
        let imm16 = Port(m.imm);
        if op == 0x02 {
            InstructionSet::Outr { rd, rs }
        } else if op == 0x03 {
            InstructionSet::Outi { imm16, rs }
        } else if op == 0x04 {
            InstructionSet::Inr { rd, rs }
        } else {
            InstructionSet::Ini { rd, imm16 }
        }
    }

    /// The call or return of opcode `op` on an M word.
    pub open spec fn spec_decode_flow(op: u8, m: M) -> InstructionSet {
        let rs = Register::from_nibble(m.rs1);
        let rd = Register::from_nibble(m.rde);
        let imm16 = m.imm;
        if op == 0x06 {
            InstructionSet::Jal { rs, imm16 }
        } else if op == 0x07 {
            InstructionSet::Jalr { rd, rs, imm16 }
        } else if op == 0x08 {
            InstructionSet::Ret
        } else {
            InstructionSet::Retr { rs }
        }
    }

    /// The call or return of opcode `op` on an M word.
    #[verifier::when_used_as_spec(spec_decode_flow)]
    fn decode_flow(op: u8, m: M) -> (res: InstructionSet)
        requires
            0x06 <= op <= 0x09,
        ensures
            res == Self::spec_decode_flow(op, m),
    {
        let rs = Register::from_nibble(m.rs1);
        let rd = Register::from_nibble(m.rde);
        let imm16 = m.imm;
        if op == 0x06 {
            InstructionSet::Jal { rs, imm16 }
        } else if op == 0x07 {
            InstructionSet::Jalr { rd, rs, imm16 }
        } else if op == 0x08 {
            InstructionSet::Ret
        } else {
            InstructionSet::Retr { rs }
        }
    }

    /// The branch of a B word, if its condition nibble is assigned.
    pub open spec fn spec_decode_branch(b: B) -> Option<InstructionSet> {
        match BranchCond::try_from_nibble(b.func) {
            Some(cc) => Some(InstructionSet::Branch { cc, imm20: b.imm }),
            None => None,
        }
    }

    /// The branch of a B word, if its condition nibble is assigned.
    #[verifier::when_used_as_spec(spec_decode_branch)]
    fn decode_branch(b: B) -> (res: Option<InstructionSet>)
        ensures
            res == Self::spec_decode_branch(b),
    {
        match BranchCond::try_from_nibble(b.func) {
            Some(cc) => Some(InstructionSet::Branch { cc, imm20: b.imm }),
            None => None,
        }
    }

    /// The stack operation of opcode `op` on an M word.
    pub open spec fn spec_decode_stack(op: u8, m: M) -> InstructionSet {
        if op == 0x0B {
            InstructionSet::Push { rs: Register::from_nibble(m.rs1) }
        } else if op == 0x0C {
            InstructionSet::Pop { rd: Register::from_nibble(m.rde) }
        } else if op == 0x0D {
            InstructionSet::Enter
        } else {
            InstructionSet::Leave
        }
    }

    /// The stack operation of opcode `op` on an M word.
    #[verifier::when_used_as_spec(spec_decode_stack)]
    fn decode_stack(op: u8, m: M) -> (res: InstructionSet)
        requires
            0x0B <= op <= 0x0E,
        ensures
            res == Self::spec_decode_stack(op, m),
    {
        if op == 0x0B {
            InstructionSet::Push { rs: Register::from_nibble(m.rs1) }
        } else if op == 0x0C {
            InstructionSet::Pop { rd: Register::from_nibble(m.rde) }
        } else if op == 0x0D {
            InstructionSet::Enter
        } else {
            InstructionSet::Leave
        }
    }

    /// The load-immediate of an F word, if its kind nibble is assigned.
    pub open spec fn spec_decode_load_immediate(f: F) -> Option<InstructionSet> {
        match LiType::try_from_nibble(f.func) {
            Some(func) => Some(InstructionSet::Li { rd: Register::from_nibble(f.rde), func, imm: f.imm }),
            None => None,
        }
    }

    /// The load-immediate of an F word, if its kind nibble is assigned.
    #[verifier::when_used_as_spec(spec_decode_load_immediate)]
    fn decode_load_immediate(f: F) -> (res: Option<InstructionSet>)
        ensures
            res == Self::spec_decode_load_immediate(f),
    {
        match LiType::try_from_nibble(f.func) {
            Some(func) => Some(InstructionSet::Li { rd: Register::from_nibble(f.rde), func, imm: f.imm }),
            None => None,
        }
    }

    /// The load or store of opcode `op` on an E word.
    pub open spec fn spec_decode_memory(op: u8, e: E) -> InstructionSet {
        let rn = Register::from_nibble(e.rs2);
        let rs = Register::from_nibble(e.rs1);
        let rd = Register::from_nibble(e.rde);
        let (sh, off) = (e.func, e.imm);
        if op == 0x11 {
            InstructionSet::Lw { rd, rs, rn, sh, off }
        } else if op == 0x12 {
            InstructionSet::Lh { rd, rs, rn, sh, off }
        } else if op == 0x13 {
            InstructionSet::Lhs { rd, rs, rn, sh, off }
        } else if op == 0x14 {
            InstructionSet::Lq { rd, rs, rn, sh, off }
        } else if op == 0x15 {
            InstructionSet::Lqs { rd, rs, rn, sh, off }
        } else if op == 0x16 {
            InstructionSet::Lb { rd, rs, rn, sh, off }
        } else if op == 0x17 {
            InstructionSet::Lbs { rd, rs, rn, sh, off }
        } else if op == 0x18 {
            InstructionSet::Sw { rd, rs, rn, sh, off }
        } else if op == 0x19 {
            InstructionSet::Sh { rd, rs, rn, sh, off }
        } else if op == 0x1A {
            InstructionSet::Sq { rd, rs, rn, sh, off }
        } else {
            InstructionSet::Sb { rd, rs, rn, sh, off }
        }
    }

    /// The load or store of opcode `op` on an E word.
    #[verifier::when_used_as_spec(spec_decode_memory)]
    fn decode_memory(op: u8, e: E) -> (res: InstructionSet)
        requires
            0x11 <= op <= 0x1B,
        ensures
            res == Self::spec_decode_memory(op, e),
    {
        let rn = Register::from_nibble(e.rs2);
        let rs = Register::from_nibble(e.rs1);
        let rd = Register::from_nibble(e.rde);
        let (sh, off) = (e.func, e.imm);
        if op == 0x11 {
            InstructionSet::Lw { rd, rs, rn, sh, off }
        } else if op == 0x12 {
            InstructionSet::Lh { rd, rs, rn, sh, off }
        } else if op == 0x13 {
            InstructionSet::Lhs { rd, rs, rn, sh, off }
        } else if op == 0x14 {
            InstructionSet::Lq { rd, rs, rn, sh, off }
        } else if op == 0x15 {
            InstructionSet::Lqs { rd, rs, rn, sh, off }
        } else if op == 0x16 {
            InstructionSet::Lb { rd, rs, rn, sh, off }
        } else if op == 0x17 {
            InstructionSet::Lbs { rd, rs, rn, sh, off }
        } else if op == 0x18 {
            InstructionSet::Sw { rd, rs, rn, sh, off }
        } else if op == 0x19 {
            InstructionSet::Sh { rd, rs, rn, sh, off }
        } else if op == 0x1A {
            InstructionSet::Sq { rd, rs, rn, sh, off }
        } else {
            InstructionSet::Sb { rd, rs, rn, sh, off }
        }
    }

    /// The register comparison of an M word.
    pub open spec fn spec_decode_compare_registers(m: M) -> InstructionSet {
        InstructionSet::Cmpr { r1: Register::from_nibble(m.rde), r2: Register::from_nibble(m.rs1) }
    }

    /// The register comparison of an M word.
    #[verifier::when_used_as_spec(spec_decode_compare_registers)]
    fn decode_compare_registers(m: M) -> (res: InstructionSet)
        ensures
            res == Self::spec_decode_compare_registers(m),
    {
        InstructionSet::Cmpr { r1: Register::from_nibble(m.rde), r2: Register::from_nibble(m.rs1) }
    }

    /// The immediate comparison of an F word, if its order nibble is 0 or 1.
    pub open spec fn spec_decode_compare_immediate(f: F) -> Option<InstructionSet> {
        let r1 = Register::from_nibble(f.rde);
        match f.func {
            Nibble::X0 => Some(InstructionSet::Cmpi { r1, s: false, imm: f.imm }),
            Nibble::X1 => Some(InstructionSet::Cmpi { r1, s: true, imm: f.imm }),
            _ => None,
        }
    }

    /// The immediate comparison of an F word, if its order nibble is 0 or 1.
    #[verifier::when_used_as_spec(spec_decode_compare_immediate)]
    fn decode_compare_immediate(f: F) -> (res: Option<InstructionSet>)
        ensures
            res == Self::spec_decode_compare_immediate(f),
    {
        let r1 = Register::from_nibble(f.rde);
        match f.func {
            Nibble::X0 => Some(InstructionSet::Cmpi { r1, s: false, imm: f.imm }),
            Nibble::X1 => Some(InstructionSet::Cmpi { r1, s: true, imm: f.imm }),
            _ => None,
        }
    }

    /// The register-register arithmetic or bitwise operation of even opcode `op` on an R word.
    pub open spec fn spec_decode_alu_register(op: u8, r: R) -> InstructionSet {
        let rd = Register::from_nibble(r.rde);
        let r1 = Register::from_nibble(r.rs1);
        let r2 = Register::from_nibble(r.rs2);
        if op == 0x20 {
            InstructionSet::Addr { rd, r1, r2 }
        } else if op == 0x22 {
            InstructionSet::Subr { rd, r1, r2 }
        } else if op == 0x24 {
            InstructionSet::Imulr { rd, r1, r2 }
        } else if op == 0x26 {
            InstructionSet::Idivr { rd, r1, r2 }
        } else if op == 0x28 {
            InstructionSet::Umulr { rd, r1, r2 }
        } else if op == 0x2A {
            InstructionSet::Udivr { rd, r1, r2 }
        } else if op == 0x2C {
            InstructionSet::Remr { rd, r1, r2 }
        } else if op == 0x2E {
            InstructionSet::Modr { rd, r1, r2 }
        } else if op == 0x30 {
            InstructionSet::Andr { rd, r1, r2 }
        } else if op == 0x32 {
            InstructionSet::Orr { rd, r1, r2 }
        } else if op == 0x34 {
            InstructionSet::Norr { rd, r1, r2 }
        } else if op == 0x36 {
            InstructionSet::Xorr { rd, r1, r2 }
        } else if op == 0x38 {
            InstructionSet::Shlr { rd, r1, r2 }
        } else if op == 0x3A {
            InstructionSet::Asrr { rd, r1, r2 }
        } else if op == 0x3C {
            InstructionSet::Lsrr { rd, r1, r2 }
        } else {
            InstructionSet::Bitr { rd, r1, r2 }
        }
    }

    /// The register-register arithmetic or bitwise operation of even opcode `op` on an R word.
    #[verifier::when_used_as_spec(spec_decode_alu_register)]
    fn decode_alu_register(op: u8, r: R) -> (res: InstructionSet)
        requires
            0x20 <= op <= 0x3E && op % 2 == 0,
        ensures
            res == Self::spec_decode_alu_register(op, r),
    {
        let rd = Register::from_nibble(r.rde);
        let r1 = Register::from_nibble(r.rs1);
        let r2 = Register::from_nibble(r.rs2);
        if op == 0x20 {
            InstructionSet::Addr { rd, r1, r2 }
        } else if op == 0x22 {
            InstructionSet::Subr { rd, r1, r2 }
        } else if op == 0x24 {
            InstructionSet::Imulr { rd, r1, r2 }
        } else if op == 0x26 {
            InstructionSet::Idivr { rd, r1, r2 }
        } else if op == 0x28 {
            InstructionSet::Umulr { rd, r1, r2 }
        } else if op == 0x2A {
            InstructionSet::Udivr { rd, r1, r2 }
        } else if op == 0x2C {
            InstructionSet::Remr { rd, r1, r2 }
        } else if op == 0x2E {
            InstructionSet::Modr { rd, r1, r2 }
        } else if op == 0x30 {
            InstructionSet::Andr { rd, r1, r2 }
        } else if op == 0x32 {
            InstructionSet::Orr { rd, r1, r2 }
        } else if op == 0x34 {
            InstructionSet::Norr { rd, r1, r2 }
        } else if op == 0x36 {
            InstructionSet::Xorr { rd, r1, r2 }
        } else if op == 0x38 {
            InstructionSet::Shlr { rd, r1, r2 }
        } else if op == 0x3A {
            InstructionSet::Asrr { rd, r1, r2 }
        } else if op == 0x3C {
            InstructionSet::Lsrr { rd, r1, r2 }
        } else {
            InstructionSet::Bitr { rd, r1, r2 }
        }
    }

    /// The register-immediate arithmetic or bitwise operation of odd opcode `op` on an M word.
    pub open spec fn spec_decode_alu_immediate(op: u8, m: M) -> InstructionSet {
        let rd = Register::from_nibble(m.rde);
        let r1 = Register::from_nibble(m.rs1);
        let imm16 = m.imm;
        if op == 0x21 {
            InstructionSet::Addi { rd, r1, imm16 }
        } else if op == 0x23 {
            InstructionSet::Subi { rd, r1, imm16 }
        } else if op == 0x25 {
            InstructionSet::Imuli { rd, r1, imm16 }
        } else if op == 0x27 {
            InstructionSet::Idivi { rd, r1, imm16 }
        } else if op == 0x29 {
            InstructionSet::Umuli { rd, r1, imm16 }
        } else if op == 0x2B {
            InstructionSet::Udivi { rd, r1, imm16 }
        } else if op == 0x2D {
            InstructionSet::Remi { rd, r1, imm16 }
        } else if op == 0x2F {
            InstructionSet::Modi { rd, r1, imm16 }
        } else if op == 0x31 {
            InstructionSet::Andi { rd, r1, imm16 }
        } else if op == 0x33 {
            InstructionSet::Ori { rd, r1, imm16 }
        } else if op == 0x35 {
            InstructionSet::Nori { rd, r1, imm16 }
        } else if op == 0x37 {
            InstructionSet::Xori { rd, r1, imm16 }
        } else if op == 0x39 {
            InstructionSet::Shli { rd, r1, imm16 }
        } else if op == 0x3B {
            InstructionSet::Asri { rd, r1, imm16 }
        } else if op == 0x3D {
            InstructionSet::Lsri { rd, r1, imm16 }
        } else {
            InstructionSet::Biti { rd, r1, imm16 }
        }
    }

    /// The register-immediate arithmetic or bitwise operation of odd opcode `op` on an M word.
    #[verifier::when_used_as_spec(spec_decode_alu_immediate)]
    fn decode_alu_immediate(op: u8, m: M) -> (res: InstructionSet)
        requires
            0x21 <= op <= 0x3F && op % 2 == 1,
        ensures
            res == Self::spec_decode_alu_immediate(op, m),
    {
        let rd = Register::from_nibble(m.rde);
        let r1 = Register::from_nibble(m.rs1);
        let imm16 = m.imm;
        if op == 0x21 {
            InstructionSet::Addi { rd, r1, imm16 }
        } else if op == 0x23 {
            InstructionSet::Subi { rd, r1, imm16 }
        } else if op == 0x25 {
            InstructionSet::Imuli { rd, r1, imm16 }
        } else if op == 0x27 {
            InstructionSet::Idivi { rd, r1, imm16 }
        } else if op == 0x29 {
            InstructionSet::Umuli { rd, r1, imm16 }
        } else if op == 0x2B {
            InstructionSet::Udivi { rd, r1, imm16 }
        } else if op == 0x2D {
            InstructionSet::Remi { rd, r1, imm16 }
        } else if op == 0x2F {
            InstructionSet::Modi { rd, r1, imm16 }
        } else if op == 0x31 {
            InstructionSet::Andi { rd, r1, imm16 }
        } else if op == 0x33 {
            InstructionSet::Ori { rd, r1, imm16 }
        } else if op == 0x35 {
            InstructionSet::Nori { rd, r1, imm16 }
        } else if op == 0x37 {
            InstructionSet::Xori { rd, r1, imm16 }
        } else if op == 0x39 {
            InstructionSet::Shli { rd, r1, imm16 }
        } else if op == 0x3B {
            InstructionSet::Asri { rd, r1, imm16 }
        } else if op == 0x3D {
            InstructionSet::Lsri { rd, r1, imm16 }
        } else {
            InstructionSet::Biti { rd, r1, imm16 }
        }
    }

    /// The floating-point operation of opcode `op` on an E word, if its precision or conversion nibble is assigned.
    pub open spec fn spec_decode_float(op: u8, e: E) -> Option<InstructionSet> {
        let rd = Register::from_nibble(e.rde);
        let r1 = Register::from_nibble(e.rs1);
        let r2 = Register::from_nibble(e.rs2);
        if op == 0x4E {
            match FloatCastType::try_from_nibble(e.func) {
                Some(p) => Some(InstructionSet::Fcnv { rd, r1, p }),
                None => None,
            }
        } else {
            match FloatPrecision::try_from_nibble(e.func) {
                Some(p) => Some(
                    if op == 0x40 {
                        InstructionSet::Fcmp { r1, r2, p }
                    } else if op == 0x41 {
                        InstructionSet::Fto { rd, rs: r1, p }
                    } else if op == 0x42 {
                        InstructionSet::Ffrom { rd, rs: r1, p }
                    } else if op == 0x43 {
                        InstructionSet::Fneg { rd, rs: r1, p }
                    } else if op == 0x44 {
                        InstructionSet::Fabs { rd, rs: r1, p }
                    } else if op == 0x45 {
                        InstructionSet::Fadd { rd, r1, r2, p }
                    } else if op == 0x46 {
                        InstructionSet::Fsub { rd, r1, r2, p }
                    } else if op == 0x47 {
                        InstructionSet::Fmul { rd, r1, r2, p }
                    } else if op == 0x48 {
                        InstructionSet::Fdiv { rd, r1, r2, p }
                    } else if op == 0x49 {
                        InstructionSet::Fma { rd, r1, r2, p }
                    } else if op == 0x4A {
                        InstructionSet::Fsqrt { rd, r1, p }
                    } else if op == 0x4B {
                        InstructionSet::Fmin { rd, r1, r2, p }
                    } else if op == 0x4C {
                        InstructionSet::Fmax { rd, r1, r2, p }
                    } else if op == 0x4D {
                        InstructionSet::Fsat { rd, r1, p }
                    } else {
                        InstructionSet::Fnan { rd, r1, p }
                    },
                ),
                None => None,
            }
        }
    }

    /// The floating-point operation of opcode `op` on an E word, if its precision or conversion nibble is assigned.
    #[verifier::when_used_as_spec(spec_decode_float)]
    fn decode_float(op: u8, e: E) -> (res: Option<InstructionSet>)
        requires
            0x40 <= op <= 0x4F,
        ensures
            res == Self::spec_decode_float(op, e),
    {
        let rd = Register::from_nibble(e.rde);
        let r1 = Register::from_nibble(e.rs1);
        let r2 = Register::from_nibble(e.rs2);
        if op == 0x4E {
            match FloatCastType::try_from_nibble(e.func) {
                Some(p) => Some(InstructionSet::Fcnv { rd, r1, p }),
                None => None,
            }
        } else {
            match FloatPrecision::try_from_nibble(e.func) {
                Some(p) => Some(
                    if op == 0x40 {
                        InstructionSet::Fcmp { r1, r2, p }
                    } else if op == 0x41 {
                        InstructionSet::Fto { rd, rs: r1, p }
                    } else if op == 0x42 {
                        InstructionSet::Ffrom { rd, rs: r1, p }
                    } else if op == 0x43 {
                        InstructionSet::Fneg { rd, rs: r1, p }
                    } else if op == 0x44 {
                        InstructionSet::Fabs { rd, rs: r1, p }
                    } else if op == 0x45 {
                        InstructionSet::Fadd { rd, r1, r2, p }
                    } else if op == 0x46 {
                        InstructionSet::Fsub { rd, r1, r2, p }
                    } else if op == 0x47 {
                        InstructionSet::Fmul { rd, r1, r2, p }
                    } else if op == 0x48 {
                        InstructionSet::Fdiv { rd, r1, r2, p }
                    } else if op == 0x49 {
                        InstructionSet::Fma { rd, r1, r2, p }
                    } else if op == 0x4A {
                        InstructionSet::Fsqrt { rd, r1, p }
                    } else if op == 0x4B {
                        InstructionSet::Fmin { rd, r1, r2, p }
                    } else if op == 0x4C {
                        InstructionSet::Fmax { rd, r1, r2, p }
                    } else if op == 0x4D {
                        InstructionSet::Fsat { rd, r1, p }
                    } else {
                        InstructionSet::Fnan { rd, r1, p }
                    },
                ),
                None => None,
            }
        }
    }

    /// The operation an instruction word encodes: its opcode selects the format and the
    /// family, and a family with sub-codes also needs an assigned sub-code.
    pub open spec fn spec_try_from_instruction(i: Instruction) -> Option<InstructionSet> {
        let op = i.opcode();
        if op == 0x01 {
            InstructionSet::spec_decode_system(F::from_u32(i.0))
        } else if 0x02 <= op && op <= 0x05 {
            Some(InstructionSet::spec_decode_port(op, M::from_u32(i.0)))
        } else if 0x06 <= op && op <= 0x09 {
            Some(InstructionSet::spec_decode_flow(op, M::from_u32(i.0)))
        } else if op == 0x0A {
            InstructionSet::spec_decode_branch(B::from_u32(i.0))
        } else if 0x0B <= op && op <= 0x0E {
            Some(InstructionSet::spec_decode_stack(op, M::from_u32(i.0)))
        } else if op == 0x10 {
            InstructionSet::spec_decode_load_immediate(F::from_u32(i.0))
        } else if 0x11 <= op && op <= 0x1B {
            Some(InstructionSet::spec_decode_memory(op, E::from_u32(i.0)))
        } else if op == 0x1E {
            Some(InstructionSet::spec_decode_compare_registers(M::from_u32(i.0)))
        } else if op == 0x1F {
            InstructionSet::spec_decode_compare_immediate(F::from_u32(i.0))
        } else if 0x20 <= op && op <= 0x3F {
            if op % 2 == 0 {
                Some(InstructionSet::spec_decode_alu_register(op, R::from_u32(i.0)))
            } else {
                Some(InstructionSet::spec_decode_alu_immediate(op, M::from_u32(i.0)))
            }
        } else if 0x40 <= op && op <= 0x4F {
            InstructionSet::spec_decode_float(op, E::from_u32(i.0))
        } else {
            None
        }
    }

    /// Decodes an instruction word; absent when its opcode or a sub-code is unassigned, or
    /// when an interrupt operand does not fit in a byte.
    #[verifier::when_used_as_spec(spec_try_from_instruction)]
    pub fn try_from_instruction(i: Instruction) -> (r: Option<Self>)
        ensures
            r == Self::spec_try_from_instruction(i),
    {
        let op = i.opcode();
        if op == 0x01 {
            InstructionSet::decode_system(F::from_u32(i.0))
        } else if 0x02 <= op && op <= 0x05 {
            Some(InstructionSet::decode_port(op, M::from_u32(i.0)))
        } else if 0x06 <= op && op <= 0x09 {
            Some(InstructionSet::decode_flow(op, M::from_u32(i.0)))
        } else if op == 0x0A {
            InstructionSet::decode_branch(B::from_u32(i.0))
        } else if 0x0B <= op && op <= 0x0E {
            Some(InstructionSet::decode_stack(op, M::from_u32(i.0)))
        } else if op == 0x10 {
            InstructionSet::decode_load_immediate(F::from_u32(i.0))
        } else if 0x11 <= op && op <= 0x1B {
            Some(InstructionSet::decode_memory(op, E::from_u32(i.0)))
        } else if op == 0x1E {
            Some(InstructionSet::decode_compare_registers(M::from_u32(i.0)))
        } else if op == 0x1F {
            InstructionSet::decode_compare_immediate(F::from_u32(i.0))
        } else if 0x20 <= op && op <= 0x3F {
            if op % 2 == 0 {
                Some(InstructionSet::decode_alu_register(op, R::from_u32(i.0)))
            } else {
                Some(InstructionSet::decode_alu_immediate(op, M::from_u32(i.0)))
            }
        } else if 0x40 <= op && op <= 0x4F {
            InstructionSet::decode_float(op, E::from_u32(i.0))
        } else {
            None
        }
    }

    /// The word of this operation: its opcode, and its operands in their format's fields,
    /// with every field it does not use zero.
    pub open spec fn spec_to_instruction(self) -> Instruction {
        match self {
            InstructionSet::Int { imm8 } => Instruction(F { imm: imm8.0 as u16, func: Nibble::X0, rde: Nibble::X0 }.to_u32(0x01)),
            InstructionSet::Iret => Instruction(F { imm: 0, func: Nibble::X1, rde: Nibble::X0 }.to_u32(0x01)),
            InstructionSet::Ires => Instruction(F { imm: 0, func: Nibble::X2, rde: Nibble::X0 }.to_u32(0x01)),
            InstructionSet::Usr { rd } => Instruction(F { imm: 0, func: Nibble::X3, rde: rd.to_nibble() }.to_u32(0x01)),
            InstructionSet::Outr { rd, rs } => Instruction(M { imm: 0, rs1: rs.to_nibble(), rde: rd.to_nibble() }.to_u32(0x02)),
            InstructionSet::Outi { imm16, rs } => Instruction(M { imm: imm16.0, rs1: rs.to_nibble(), rde: Nibble::X0 }.to_u32(0x03)),
            InstructionSet::Inr { rd, rs } => Instruction(M { imm: 0, rs1: rs.to_nibble(), rde: rd.to_nibble() }.to_u32(0x04)),
            InstructionSet::Ini { rd, imm16 } => Instruction(M { imm: imm16.0, rs1: Nibble::X0, rde: rd.to_nibble() }.to_u32(0x05)),
            InstructionSet::Jal { rs, imm16 } => Instruction(M { imm: imm16, rs1: rs.to_nibble(), rde: Nibble::X0 }.to_u32(0x06)),
            InstructionSet::Jalr { rd, rs, imm16 } => Instruction(M { imm: imm16, rs1: rs.to_nibble(), rde: rd.to_nibble() }.to_u32(0x07)),
            InstructionSet::Ret => Instruction(M { imm: 0, rs1: Nibble::X0, rde: Nibble::X0 }.to_u32(0x08)),
            InstructionSet::Retr { rs } => Instruction(M { imm: 0, rs1: rs.to_nibble(), rde: Nibble::X0 }.to_u32(0x09)),
            InstructionSet::Branch { cc, imm20 } => Instruction(B { imm: imm20, func: cc.to_nibble() }.to_u32(0x0A)),
            InstructionSet::Push { rs } => Instruction(M { imm: 0, rs1: rs.to_nibble(), rde: Nibble::X0 }.to_u32(0x0B)),
            InstructionSet::Pop { rd } => Instruction(M { imm: 0, rs1: Nibble::X0, rde: rd.to_nibble() }.to_u32(0x0C)),
            InstructionSet::Enter => Instruction(M { imm: 0, rs1: Nibble::X0, rde: Nibble::X0 }.to_u32(0x0D)),
            InstructionSet::Leave => Instruction(M { imm: 0, rs1: Nibble::X0, rde: Nibble::X0 }.to_u32(0x0E)),
            InstructionSet::Li { rd, func, imm } => Instruction(F { imm: imm, func: func.to_nibble(), rde: rd.to_nibble() }.to_u32(0x10)),
            InstructionSet::Lw { rd, rs, rn, sh, off } => Instruction(E { imm: off, func: sh, rs2: rn.to_nibble(), rs1: rs.to_nibble(), rde: rd.to_nibble() }.to_u32(0x11)),
            InstructionSet::Lh { rd, rs, rn, sh, off } => Instruction(E { imm: off, func: sh, rs2: rn.to_nibble(), rs1: rs.to_nibble(), rde: rd.to_nibble() }.to_u32(0x12)),
            InstructionSet::Lhs { rd, rs, rn, sh, off } => Instruction(E { imm: off, func: sh, rs2: rn.to_nibble(), rs1: rs.to_nibble(), rde: rd.to_nibble() }.to_u32(0x13)),
            InstructionSet::Lq { rd, rs, rn, sh, off } => Instruction(E { imm: off, func: sh, rs2: rn.to_nibble(), rs1: rs.to_nibble(), rde: rd.to_nibble() }.to_u32(0x14)),
            InstructionSet::Lqs { rd, rs, rn, sh, off } => Instruction(E { imm: off, func: sh, rs2: rn.to_nibble(), rs1: rs.to_nibble(), rde: rd.to_nibble() }.to_u32(0x15)),
            InstructionSet::Lb { rd, rs, rn, sh, off } => Instruction(E { imm: off, func: sh, rs2: rn.to_nibble(), rs1: rs.to_nibble(), rde: rd.to_nibble() }.to_u32(0x16)),
            InstructionSet::Lbs { rd, rs, rn, sh, off } => Instruction(E { imm: off, func: sh, rs2: rn.to_nibble(), rs1: rs.to_nibble(), rde: rd.to_nibble() }.to_u32(0x17)),
            InstructionSet::Sw { rd, rs, rn, sh, off } => Instruction(E { imm: off, func: sh, rs2: rn.to_nibble(), rs1: rs.to_nibble(), rde: rd.to_nibble() }.to_u32(0x18)),
            InstructionSet::Sh { rd, rs, rn, sh, off } => Instruction(E { imm: off, func: sh, rs2: rn.to_nibble(), rs1: rs.to_nibble(), rde: rd.to_nibble() }.to_u32(0x19)),
            InstructionSet::Sq { rd, rs, rn, sh, off } => Instruction(E { imm: off, func: sh, rs2: rn.to_nibble(), rs1: rs.to_nibble(), rde: rd.to_nibble() }.to_u32(0x1A)),
            InstructionSet::Sb { rd, rs, rn, sh, off } => Instruction(E { imm: off, func: sh, rs2: rn.to_nibble(), rs1: rs.to_nibble(), rde: rd.to_nibble() }.to_u32(0x1B)),
            InstructionSet::Cmpr { r1, r2 } => Instruction(M { imm: 0, rs1: r2.to_nibble(), rde: r1.to_nibble() }.to_u32(0x1E)),
            InstructionSet::Cmpi { r1, s, imm } => Instruction(F { imm: imm, func: Nibble::from_bool(s), rde: r1.to_nibble() }.to_u32(0x1F)),
            InstructionSet::Addr { rd, r1, r2 } => Instruction(R { imm: 0, rs2: r2.to_nibble(), rs1: r1.to_nibble(), rde: rd.to_nibble() }.to_u32(0x20)),
            InstructionSet::Addi { rd, r1, imm16 } => Instruction(M { imm: imm16, rs1: r1.to_nibble(), rde: rd.to_nibble() }.to_u32(0x21)),
            InstructionSet::Subr { rd, r1, r2 } => Instruction(R { imm: 0, rs2: r2.to_nibble(), rs1: r1.to_nibble(), rde: rd.to_nibble() }.to_u32(0x22)),
            InstructionSet::Subi { rd, r1, imm16 } => Instruction(M { imm: imm16, rs1: r1.to_nibble(), rde: rd.to_nibble() }.to_u32(0x23)),
            InstructionSet::Imulr { rd, r1, r2 } => Instruction(R { imm: 0, rs2: r2.to_nibble(), rs1: r1.to_nibble(), rde: rd.to_nibble() }.to_u32(0x24)),
            InstructionSet::Imuli { rd, r1, imm16 } => Instruction(M { imm: imm16, rs1: r1.to_nibble(), rde: rd.to_nibble() }.to_u32(0x25)),
            InstructionSet::Idivr { rd, r1, r2 } => Instruction(R { imm: 0, rs2: r2.to_nibble(), rs1: r1.to_nibble(), rde: rd.to_nibble() }.to_u32(0x26)),
            InstructionSet::Idivi { rd, r1, imm16 } => Instruction(M { imm: imm16, rs1: r1.to_nibble(), rde: rd.to_nibble() }.to_u32(0x27)),
            InstructionSet::Umulr { rd, r1, r2 } => Instruction(R { imm: 0, rs2: r2.to_nibble(), rs1: r1.to_nibble(), rde: rd.to_nibble() }.to_u32(0x28)),
            InstructionSet::Umuli { rd, r1, imm16 } => Instruction(M { imm: imm16, rs1: r1.to_nibble(), rde: rd.to_nibble() }.to_u32(0x29)),
            InstructionSet::Udivr { rd, r1, r2 } => Instruction(R { imm: 0, rs2: r2.to_nibble(), rs1: r1.to_nibble(), rde: rd.to_nibble() }.to_u32(0x2A)),
            InstructionSet::Udivi { rd, r1, imm16 } => Instruction(M { imm: imm16, rs1: r1.to_nibble(), rde: rd.to_nibble() }.to_u32(0x2B)),
            InstructionSet::Remr { rd, r1, r2 } => Instruction(R { imm: 0, rs2: r2.to_nibble(), rs1: r1.to_nibble(), rde: rd.to_nibble() }.to_u32(0x2C)),
            InstructionSet::Remi { rd, r1, imm16 } => Instruction(M { imm: imm16, rs1: r1.to_nibble(), rde: rd.to_nibble() }.to_u32(0x2D)),
            InstructionSet::Modr { rd, r1, r2 } => Instruction(R { imm: 0, rs2: r2.to_nibble(), rs1: r1.to_nibble(), rde: rd.to_nibble() }.to_u32(0x2E)),
            InstructionSet::Modi { rd, r1, imm16 } => Instruction(M { imm: imm16, rs1: r1.to_nibble(), rde: rd.to_nibble() }.to_u32(0x2F)),
            InstructionSet::Andr { rd, r1, r2 } => Instruction(R { imm: 0, rs2: r2.to_nibble(), rs1: r1.to_nibble(), rde: rd.to_nibble() }.to_u32(0x30)),
            InstructionSet::Andi { rd, r1, imm16 } => Instruction(M { imm: imm16, rs1: r1.to_nibble(), rde: rd.to_nibble() }.to_u32(0x31)),
            InstructionSet::Orr { rd, r1, r2 } => Instruction(R { imm: 0, rs2: r2.to_nibble(), rs1: r1.to_nibble(), rde: rd.to_nibble() }.to_u32(0x32)),
            InstructionSet::Ori { rd, r1, imm16 } => Instruction(M { imm: imm16, rs1: r1.to_nibble(), rde: rd.to_nibble() }.to_u32(0x33)),
            InstructionSet::Norr { rd, r1, r2 } => Instruction(R { imm: 0, rs2: r2.to_nibble(), rs1: r1.to_nibble(), rde: rd.to_nibble() }.to_u32(0x34)),
            InstructionSet::Nori { rd, r1, imm16 } => Instruction(M { imm: imm16, rs1: r1.to_nibble(), rde: rd.to_nibble() }.to_u32(0x35)),
            InstructionSet::Xorr { rd, r1, r2 } => Instruction(R { imm: 0, rs2: r2.to_nibble(), rs1: r1.to_nibble(), rde: rd.to_nibble() }.to_u32(0x36)),
            InstructionSet::Xori { rd, r1, imm16 } => Instruction(M { imm: imm16, rs1: r1.to_nibble(), rde: rd.to_nibble() }.to_u32(0x37)),
            InstructionSet::Shlr { rd, r1, r2 } => Instruction(R { imm: 0, rs2: r2.to_nibble(), rs1: r1.to_nibble(), rde: rd.to_nibble() }.to_u32(0x38)),
            InstructionSet::Shli { rd, r1, imm16 } => Instruction(M { imm: imm16, rs1: r1.to_nibble(), rde: rd.to_nibble() }.to_u32(0x39)),
            InstructionSet::Asrr { rd, r1, r2 } => Instruction(R { imm: 0, rs2: r2.to_nibble(), rs1: r1.to_nibble(), rde: rd.to_nibble() }.to_u32(0x3A)),
            InstructionSet::Asri { rd, r1, imm16 } => Instruction(M { imm: imm16, rs1: r1.to_nibble(), rde: rd.to_nibble() }.to_u32(0x3B)),
            InstructionSet::Lsrr { rd, r1, r2 } => Instruction(R { imm: 0, rs2: r2.to_nibble(), rs1: r1.to_nibble(), rde: rd.to_nibble() }.to_u32(0x3C)),
            InstructionSet::Lsri { rd, r1, imm16 } => Instruction(M { imm: imm16, rs1: r1.to_nibble(), rde: rd.to_nibble() }.to_u32(0x3D)),
            InstructionSet::Bitr { rd, r1, r2 } => Instruction(R { imm: 0, rs2: r2.to_nibble(), rs1: r1.to_nibble(), rde: rd.to_nibble() }.to_u32(0x3E)),
            InstructionSet::Biti { rd, r1, imm16 } => Instruction(M { imm: imm16, rs1: r1.to_nibble(), rde: rd.to_nibble() }.to_u32(0x3F)),
            InstructionSet::Fcmp { r1, r2, p } => Instruction(E { imm: 0, func: p.to_nibble(), rs2: r2.to_nibble(), rs1: r1.to_nibble(), rde: Nibble::X0 }.to_u32(0x40)),
            InstructionSet::Fto { rd, rs, p } => Instruction(E { imm: 0, func: p.to_nibble(), rs2: Nibble::X0, rs1: rs.to_nibble(), rde: rd.to_nibble() }.to_u32(0x41)),
            InstructionSet::Ffrom { rd, rs, p } => Instruction(E { imm: 0, func: p.to_nibble(), rs2: Nibble::X0, rs1: rs.to_nibble(), rde: rd.to_nibble() }.to_u32(0x42)),
            InstructionSet::Fneg { rd, rs, p } => Instruction(E { imm: 0, func: p.to_nibble(), rs2: Nibble::X0, rs1: rs.to_nibble(), rde: rd.to_nibble() }.to_u32(0x43)),
            InstructionSet::Fabs { rd, rs, p } => Instruction(E { imm: 0, func: p.to_nibble(), rs2: Nibble::X0, rs1: rs.to_nibble(), rde: rd.to_nibble() }.to_u32(0x44)),
            InstructionSet::Fadd { rd, r1, r2, p } => Instruction(E { imm: 0, func: p.to_nibble(), rs2: r2.to_nibble(), rs1: r1.to_nibble(), rde: rd.to_nibble() }.to_u32(0x45)),
            InstructionSet::Fsub { rd, r1, r2, p } => Instruction(E { imm: 0, func: p.to_nibble(), rs2: r2.to_nibble(), rs1: r1.to_nibble(), rde: rd.to_nibble() }.to_u32(0x46)),
            InstructionSet::Fmul { rd, r1, r2, p } => Instruction(E { imm: 0, func: p.to_nibble(), rs2: r2.to_nibble(), rs1: r1.to_nibble(), rde: rd.to_nibble() }.to_u32(0x47)),
            InstructionSet::Fdiv { rd, r1, r2, p } => Instruction(E { imm: 0, func: p.to_nibble(), rs2: r2.to_nibble(), rs1: r1.to_nibble(), rde: rd.to_nibble() }.to_u32(0x48)),
            InstructionSet::Fma { rd, r1, r2, p } => Instruction(E { imm: 0, func: p.to_nibble(), rs2: r2.to_nibble(), rs1: r1.to_nibble(), rde: rd.to_nibble() }.to_u32(0x49)),
            InstructionSet::Fsqrt { rd, r1, p } => Instruction(E { imm: 0, func: p.to_nibble(), rs2: Nibble::X0, rs1: r1.to_nibble(), rde: rd.to_nibble() }.to_u32(0x4A)),
            InstructionSet::Fmin { rd, r1, r2, p } => Instruction(E { imm: 0, func: p.to_nibble(), rs2: r2.to_nibble(), rs1: r1.to_nibble(), rde: rd.to_nibble() }.to_u32(0x4B)),
            InstructionSet::Fmax { rd, r1, r2, p } => Instruction(E { imm: 0, func: p.to_nibble(), rs2: r2.to_nibble(), rs1: r1.to_nibble(), rde: rd.to_nibble() }.to_u32(0x4C)),
            InstructionSet::Fsat { rd, r1, p } => Instruction(E { imm: 0, func: p.to_nibble(), rs2: Nibble::X0, rs1: r1.to_nibble(), rde: rd.to_nibble() }.to_u32(0x4D)),
            InstructionSet::Fcnv { rd, r1, p } => Instruction(E { imm: 0, func: p.to_nibble(), rs2: Nibble::X0, rs1: r1.to_nibble(), rde: rd.to_nibble() }.to_u32(0x4E)),
            InstructionSet::Fnan { rd, r1, p } => Instruction(E { imm: 0, func: p.to_nibble(), rs2: Nibble::X0, rs1: r1.to_nibble(), rde: rd.to_nibble() }.to_u32(0x4F)),
        }
    }

    /// Encodes this operation as an instruction word.
    #[verifier::when_used_as_spec(spec_to_instruction)]
    pub fn to_instruction(self) -> (r: Instruction)
        ensures
            r == self.spec_to_instruction(),
    {
        match self {
            InstructionSet::Int { imm8 } => Instruction(F { imm: imm8.0 as u16, func: Nibble::X0, rde: Nibble::X0 }.to_u32(0x01)),
            InstructionSet::Iret => Instruction(F { imm: 0, func: Nibble::X1, rde: Nibble::X0 }.to_u32(0x01)),
            InstructionSet::Ires => Instruction(F { imm: 0, func: Nibble::X2, rde: Nibble::X0 }.to_u32(0x01)),
            InstructionSet::Usr { rd } => Instruction(F { imm: 0, func: Nibble::X3, rde: rd.to_nibble() }.to_u32(0x01)),
            InstructionSet::Outr { rd, rs } => Instruction(M { imm: 0, rs1: rs.to_nibble(), rde: rd.to_nibble() }.to_u32(0x02)),
            InstructionSet::Outi { imm16, rs } => Instruction(M { imm: imm16.0, rs1: rs.to_nibble(), rde: Nibble::X0 }.to_u32(0x03)),
            InstructionSet::Inr { rd, rs } => Instruction(M { imm: 0, rs1: rs.to_nibble(), rde: rd.to_nibble() }.to_u32(0x04)),
            InstructionSet::Ini { rd, imm16 } => Instruction(M { imm: imm16.0, rs1: Nibble::X0, rde: rd.to_nibble() }.to_u32(0x05)),
            InstructionSet::Jal { rs, imm16 } => Instruction(M { imm: imm16, rs1: rs.to_nibble(), rde: Nibble::X0 }.to_u32(0x06)),
            InstructionSet::Jalr { rd, rs, imm16 } => Instruction(M { imm: imm16, rs1: rs.to_nibble(), rde: rd.to_nibble() }.to_u32(0x07)),
            InstructionSet::Ret => Instruction(M { imm: 0, rs1: Nibble::X0, rde: Nibble::X0 }.to_u32(0x08)),
            InstructionSet::Retr { rs } => Instruction(M { imm: 0, rs1: rs.to_nibble(), rde: Nibble::X0 }.to_u32(0x09)),
            InstructionSet::Branch { cc, imm20 } => Instruction(B { imm: imm20, func: cc.to_nibble() }.to_u32(0x0A)),
            InstructionSet::Push { rs } => Instruction(M { imm: 0, rs1: rs.to_nibble(), rde: Nibble::X0 }.to_u32(0x0B)),
            InstructionSet::Pop { rd } => Instruction(M { imm: 0, rs1: Nibble::X0, rde: rd.to_nibble() }.to_u32(0x0C)),
            InstructionSet::Enter => Instruction(M { imm: 0, rs1: Nibble::X0, rde: Nibble::X0 }.to_u32(0x0D)),
            InstructionSet::Leave => Instruction(M { imm: 0, rs1: Nibble::X0, rde: Nibble::X0 }.to_u32(0x0E)),
            InstructionSet::Li { rd, func, imm } => Instruction(F { imm: imm, func: func.to_nibble(), rde: rd.to_nibble() }.to_u32(0x10)),
            InstructionSet::Lw { rd, rs, rn, sh, off } => Instruction(E { imm: off, func: sh, rs2: rn.to_nibble(), rs1: rs.to_nibble(), rde: rd.to_nibble() }.to_u32(0x11)),
            InstructionSet::Lh { rd, rs, rn, sh, off } => Instruction(E { imm: off, func: sh, rs2: rn.to_nibble(), rs1: rs.to_nibble(), rde: rd.to_nibble() }.to_u32(0x12)),
            InstructionSet::Lhs { rd, rs, rn, sh, off } => Instruction(E { imm: off, func: sh, rs2: rn.to_nibble(), rs1: rs.to_nibble(), rde: rd.to_nibble() }.to_u32(0x13)),
            InstructionSet::Lq { rd, rs, rn, sh, off } => Instruction(E { imm: off, func: sh, rs2: rn.to_nibble(), rs1: rs.to_nibble(), rde: rd.to_nibble() }.to_u32(0x14)),
            InstructionSet::Lqs { rd, rs, rn, sh, off } => Instruction(E { imm: off, func: sh, rs2: rn.to_nibble(), rs1: rs.to_nibble(), rde: rd.to_nibble() }.to_u32(0x15)),
            InstructionSet::Lb { rd, rs, rn, sh, off } => Instruction(E { imm: off, func: sh, rs2: rn.to_nibble(), rs1: rs.to_nibble(), rde: rd.to_nibble() }.to_u32(0x16)),
            InstructionSet::Lbs { rd, rs, rn, sh, off } => Instruction(E { imm: off, func: sh, rs2: rn.to_nibble(), rs1: rs.to_nibble(), rde: rd.to_nibble() }.to_u32(0x17)),
            InstructionSet::Sw { rd, rs, rn, sh, off } => Instruction(E { imm: off, func: sh, rs2: rn.to_nibble(), rs1: rs.to_nibble(), rde: rd.to_nibble() }.to_u32(0x18)),
            InstructionSet::Sh { rd, rs, rn, sh, off } => Instruction(E { imm: off, func: sh, rs2: rn.to_nibble(), rs1: rs.to_nibble(), rde: rd.to_nibble() }.to_u32(0x19)),
            InstructionSet::Sq { rd, rs, rn, sh, off } => Instruction(E { imm: off, func: sh, rs2: rn.to_nibble(), rs1: rs.to_nibble(), rde: rd.to_nibble() }.to_u32(0x1A)),
            InstructionSet::Sb { rd, rs, rn, sh, off } => Instruction(E { imm: off, func: sh, rs2: rn.to_nibble(), rs1: rs.to_nibble(), rde: rd.to_nibble() }.to_u32(0x1B)),
            InstructionSet::Cmpr { r1, r2 } => Instruction(M { imm: 0, rs1: r2.to_nibble(), rde: r1.to_nibble() }.to_u32(0x1E)),
            InstructionSet::Cmpi { r1, s, imm } => Instruction(F { imm: imm, func: Nibble::from_bool(s), rde: r1.to_nibble() }.to_u32(0x1F)),
            InstructionSet::Addr { rd, r1, r2 } => Instruction(R { imm: 0, rs2: r2.to_nibble(), rs1: r1.to_nibble(), rde: rd.to_nibble() }.to_u32(0x20)),
            InstructionSet::Addi { rd, r1, imm16 } => Instruction(M { imm: imm16, rs1: r1.to_nibble(), rde: rd.to_nibble() }.to_u32(0x21)),
            InstructionSet::Subr { rd, r1, r2 } => Instruction(R { imm: 0, rs2: r2.to_nibble(), rs1: r1.to_nibble(), rde: rd.to_nibble() }.to_u32(0x22)),
            InstructionSet::Subi { rd, r1, imm16 } => Instruction(M { imm: imm16, rs1: r1.to_nibble(), rde: rd.to_nibble() }.to_u32(0x23)),
            InstructionSet::Imulr { rd, r1, r2 } => Instruction(R { imm: 0, rs2: r2.to_nibble(), rs1: r1.to_nibble(), rde: rd.to_nibble() }.to_u32(0x24)),
            InstructionSet::Imuli { rd, r1, imm16 } => Instruction(M { imm: imm16, rs1: r1.to_nibble(), rde: rd.to_nibble() }.to_u32(0x25)),
            InstructionSet::Idivr { rd, r1, r2 } => Instruction(R { imm: 0, rs2: r2.to_nibble(), rs1: r1.to_nibble(), rde: rd.to_nibble() }.to_u32(0x26)),
            InstructionSet::Idivi { rd, r1, imm16 } => Instruction(M { imm: imm16, rs1: r1.to_nibble(), rde: rd.to_nibble() }.to_u32(0x27)),
            InstructionSet::Umulr { rd, r1, r2 } => Instruction(R { imm: 0, rs2: r2.to_nibble(), rs1: r1.to_nibble(), rde: rd.to_nibble() }.to_u32(0x28)),
            InstructionSet::Umuli { rd, r1, imm16 } => Instruction(M { imm: imm16, rs1: r1.to_nibble(), rde: rd.to_nibble() }.to_u32(0x29)),
            InstructionSet::Udivr { rd, r1, r2 } => Instruction(R { imm: 0, rs2: r2.to_nibble(), rs1: r1.to_nibble(), rde: rd.to_nibble() }.to_u32(0x2A)),
            InstructionSet::Udivi { rd, r1, imm16 } => Instruction(M { imm: imm16, rs1: r1.to_nibble(), rde: rd.to_nibble() }.to_u32(0x2B)),
            InstructionSet::Remr { rd, r1, r2 } => Instruction(R { imm: 0, rs2: r2.to_nibble(), rs1: r1.to_nibble(), rde: rd.to_nibble() }.to_u32(0x2C)),
            InstructionSet::Remi { rd, r1, imm16 } => Instruction(M { imm: imm16, rs1: r1.to_nibble(), rde: rd.to_nibble() }.to_u32(0x2D)),
            InstructionSet::Modr { rd, r1, r2 } => Instruction(R { imm: 0, rs2: r2.to_nibble(), rs1: r1.to_nibble(), rde: rd.to_nibble() }.to_u32(0x2E)),
            InstructionSet::Modi { rd, r1, imm16 } => Instruction(M { imm: imm16, rs1: r1.to_nibble(), rde: rd.to_nibble() }.to_u32(0x2F)),
            InstructionSet::Andr { rd, r1, r2 } => Instruction(R { imm: 0, rs2: r2.to_nibble(), rs1: r1.to_nibble(), rde: rd.to_nibble() }.to_u32(0x30)),
            InstructionSet::Andi { rd, r1, imm16 } => Instruction(M { imm: imm16, rs1: r1.to_nibble(), rde: rd.to_nibble() }.to_u32(0x31)),
            InstructionSet::Orr { rd, r1, r2 } => Instruction(R { imm: 0, rs2: r2.to_nibble(), rs1: r1.to_nibble(), rde: rd.to_nibble() }.to_u32(0x32)),
            InstructionSet::Ori { rd, r1, imm16 } => Instruction(M { imm: imm16, rs1: r1.to_nibble(), rde: rd.to_nibble() }.to_u32(0x33)),
            InstructionSet::Norr { rd, r1, r2 } => Instruction(R { imm: 0, rs2: r2.to_nibble(), rs1: r1.to_nibble(), rde: rd.to_nibble() }.to_u32(0x34)),
            InstructionSet::Nori { rd, r1, imm16 } => Instruction(M { imm: imm16, rs1: r1.to_nibble(), rde: rd.to_nibble() }.to_u32(0x35)),
            InstructionSet::Xorr { rd, r1, r2 } => Instruction(R { imm: 0, rs2: r2.to_nibble(), rs1: r1.to_nibble(), rde: rd.to_nibble() }.to_u32(0x36)),
            InstructionSet::Xori { rd, r1, imm16 } => Instruction(M { imm: imm16, rs1: r1.to_nibble(), rde: rd.to_nibble() }.to_u32(0x37)),
            InstructionSet::Shlr { rd, r1, r2 } => Instruction(R { imm: 0, rs2: r2.to_nibble(), rs1: r1.to_nibble(), rde: rd.to_nibble() }.to_u32(0x38)),
            InstructionSet::Shli { rd, r1, imm16 } => Instruction(M { imm: imm16, rs1: r1.to_nibble(), rde: rd.to_nibble() }.to_u32(0x39)),
            InstructionSet::Asrr { rd, r1, r2 } => Instruction(R { imm: 0, rs2: r2.to_nibble(), rs1: r1.to_nibble(), rde: rd.to_nibble() }.to_u32(0x3A)),
            InstructionSet::Asri { rd, r1, imm16 } => Instruction(M { imm: imm16, rs1: r1.to_nibble(), rde: rd.to_nibble() }.to_u32(0x3B)),
            InstructionSet::Lsrr { rd, r1, r2 } => Instruction(R { imm: 0, rs2: r2.to_nibble(), rs1: r1.to_nibble(), rde: rd.to_nibble() }.to_u32(0x3C)),
            InstructionSet::Lsri { rd, r1, imm16 } => Instruction(M { imm: imm16, rs1: r1.to_nibble(), rde: rd.to_nibble() }.to_u32(0x3D)),
            InstructionSet::Bitr { rd, r1, r2 } => Instruction(R { imm: 0, rs2: r2.to_nibble(), rs1: r1.to_nibble(), rde: rd.to_nibble() }.to_u32(0x3E)),
            InstructionSet::Biti { rd, r1, imm16 } => Instruction(M { imm: imm16, rs1: r1.to_nibble(), rde: rd.to_nibble() }.to_u32(0x3F)),
            InstructionSet::Fcmp { r1, r2, p } => Instruction(E { imm: 0, func: p.to_nibble(), rs2: r2.to_nibble(), rs1: r1.to_nibble(), rde: Nibble::X0 }.to_u32(0x40)),
            InstructionSet::Fto { rd, rs, p } => Instruction(E { imm: 0, func: p.to_nibble(), rs2: Nibble::X0, rs1: rs.to_nibble(), rde: rd.to_nibble() }.to_u32(0x41)),
            InstructionSet::Ffrom { rd, rs, p } => Instruction(E { imm: 0, func: p.to_nibble(), rs2: Nibble::X0, rs1: rs.to_nibble(), rde: rd.to_nibble() }.to_u32(0x42)),
            InstructionSet::Fneg { rd, rs, p } => Instruction(E { imm: 0, func: p.to_nibble(), rs2: Nibble::X0, rs1: rs.to_nibble(), rde: rd.to_nibble() }.to_u32(0x43)),
            InstructionSet::Fabs { rd, rs, p } => Instruction(E { imm: 0, func: p.to_nibble(), rs2: Nibble::X0, rs1: rs.to_nibble(), rde: rd.to_nibble() }.to_u32(0x44)),
            InstructionSet::Fadd { rd, r1, r2, p } => Instruction(E { imm: 0, func: p.to_nibble(), rs2: r2.to_nibble(), rs1: r1.to_nibble(), rde: rd.to_nibble() }.to_u32(0x45)),
            InstructionSet::Fsub { rd, r1, r2, p } => Instruction(E { imm: 0, func: p.to_nibble(), rs2: r2.to_nibble(), rs1: r1.to_nibble(), rde: rd.to_nibble() }.to_u32(0x46)),
            InstructionSet::Fmul { rd, r1, r2, p } => Instruction(E { imm: 0, func: p.to_nibble(), rs2: r2.to_nibble(), rs1: r1.to_nibble(), rde: rd.to_nibble() }.to_u32(0x47)),
            InstructionSet::Fdiv { rd, r1, r2, p } => Instruction(E { imm: 0, func: p.to_nibble(), rs2: r2.to_nibble(), rs1: r1.to_nibble(), rde: rd.to_nibble() }.to_u32(0x48)),
            InstructionSet::Fma { rd, r1, r2, p } => Instruction(E { imm: 0, func: p.to_nibble(), rs2: r2.to_nibble(), rs1: r1.to_nibble(), rde: rd.to_nibble() }.to_u32(0x49)),
            InstructionSet::Fsqrt { rd, r1, p } => Instruction(E { imm: 0, func: p.to_nibble(), rs2: Nibble::X0, rs1: r1.to_nibble(), rde: rd.to_nibble() }.to_u32(0x4A)),
            InstructionSet::Fmin { rd, r1, r2, p } => Instruction(E { imm: 0, func: p.to_nibble(), rs2: r2.to_nibble(), rs1: r1.to_nibble(), rde: rd.to_nibble() }.to_u32(0x4B)),
            InstructionSet::Fmax { rd, r1, r2, p } => Instruction(E { imm: 0, func: p.to_nibble(), rs2: r2.to_nibble(), rs1: r1.to_nibble(), rde: rd.to_nibble() }.to_u32(0x4C)),
            InstructionSet::Fsat { rd, r1, p } => Instruction(E { imm: 0, func: p.to_nibble(), rs2: Nibble::X0, rs1: r1.to_nibble(), rde: rd.to_nibble() }.to_u32(0x4D)),
            InstructionSet::Fcnv { rd, r1, p } => Instruction(E { imm: 0, func: p.to_nibble(), rs2: Nibble::X0, rs1: r1.to_nibble(), rde: rd.to_nibble() }.to_u32(0x4E)),
            InstructionSet::Fnan { rd, r1, p } => Instruction(E { imm: 0, func: p.to_nibble(), rs2: Nibble::X0, rs1: r1.to_nibble(), rde: rd.to_nibble() }.to_u32(0x4F)),
        }
    }

    /// Every operand fits its field: the branch offset has 20 bits.
    pub open spec fn wf(self) -> bool {
        match self {
            InstructionSet::Branch { imm20, .. } => imm20 < 0x10_0000,
            _ => true,
        }
    }

    /// A conversion into double precision, which no conversion nibble names.
    pub open spec fn converts_to_f64(self) -> bool {
        match self {
            InstructionSet::Fcnv { p, .. } => p.to == FloatPrecision::F64,
            _ => false,
        }
    }

    /// The position of an arithmetic or bitwise operation in its family, shared by its
    /// register and immediate forms (`0` for addition up to `15` for bit extraction).
    pub open spec fn alu_operation(self) -> Option<u8> {
        match self {
            InstructionSet::Addr { .. } => Some(0),
            InstructionSet::Addi { .. } => Some(0),
            InstructionSet::Subr { .. } => Some(1),
            InstructionSet::Subi { .. } => Some(1),
            InstructionSet::Imulr { .. } => Some(2),
            InstructionSet::Imuli { .. } => Some(2),
            InstructionSet::Idivr { .. } => Some(3),
            InstructionSet::Idivi { .. } => Some(3),
            InstructionSet::Umulr { .. } => Some(4),
            InstructionSet::Umuli { .. } => Some(4),
            InstructionSet::Udivr { .. } => Some(5),
            InstructionSet::Udivi { .. } => Some(5),
            InstructionSet::Remr { .. } => Some(6),
            InstructionSet::Remi { .. } => Some(6),
            InstructionSet::Modr { .. } => Some(7),
            InstructionSet::Modi { .. } => Some(7),
            InstructionSet::Andr { .. } => Some(8),
            InstructionSet::Andi { .. } => Some(8),
            InstructionSet::Orr { .. } => Some(9),
            InstructionSet::Ori { .. } => Some(9),
            InstructionSet::Norr { .. } => Some(10),
            InstructionSet::Nori { .. } => Some(10),
            InstructionSet::Xorr { .. } => Some(11),
            InstructionSet::Xori { .. } => Some(11),
            InstructionSet::Shlr { .. } => Some(12),
            InstructionSet::Shli { .. } => Some(12),
            InstructionSet::Asrr { .. } => Some(13),
            InstructionSet::Asri { .. } => Some(13),
            InstructionSet::Lsrr { .. } => Some(14),
            InstructionSet::Lsri { .. } => Some(14),
            InstructionSet::Bitr { .. } => Some(15),
            InstructionSet::Biti { .. } => Some(15),
            _ => None,
        }
    }

    /// The destination and the two source registers of a register-register arithmetic or
    /// bitwise operation.
    pub open spec fn alu_register_operands(self) -> Option<(Register, Register, Register)> {
        match self {
            InstructionSet::Addr { rd, r1, r2 } => Some((rd, r1, r2)),
            InstructionSet::Subr { rd, r1, r2 } => Some((rd, r1, r2)),
            InstructionSet::Imulr { rd, r1, r2 } => Some((rd, r1, r2)),
            InstructionSet::Idivr { rd, r1, r2 } => Some((rd, r1, r2)),
            InstructionSet::Umulr { rd, r1, r2 } => Some((rd, r1, r2)),
            InstructionSet::Udivr { rd, r1, r2 } => Some((rd, r1, r2)),
            InstructionSet::Remr { rd, r1, r2 } => Some((rd, r1, r2)),
            InstructionSet::Modr { rd, r1, r2 } => Some((rd, r1, r2)),
            InstructionSet::Andr { rd, r1, r2 } => Some((rd, r1, r2)),
            InstructionSet::Orr { rd, r1, r2 } => Some((rd, r1, r2)),
            InstructionSet::Norr { rd, r1, r2 } => Some((rd, r1, r2)),
            InstructionSet::Xorr { rd, r1, r2 } => Some((rd, r1, r2)),
            InstructionSet::Shlr { rd, r1, r2 } => Some((rd, r1, r2)),
            InstructionSet::Asrr { rd, r1, r2 } => Some((rd, r1, r2)),
            InstructionSet::Lsrr { rd, r1, r2 } => Some((rd, r1, r2)),
            InstructionSet::Bitr { rd, r1, r2 } => Some((rd, r1, r2)),
            _ => None,
        }
    }

    /// The destination, the source register and the immediate of a register-immediate
    /// arithmetic or bitwise operation.
    pub open spec fn alu_immediate_operands(self) -> Option<(Register, Register, u16)> {
        match self {
            InstructionSet::Addi { rd, r1, imm16 } => Some((rd, r1, imm16)),
            InstructionSet::Subi { rd, r1, imm16 } => Some((rd, r1, imm16)),
            InstructionSet::Imuli { rd, r1, imm16 } => Some((rd, r1, imm16)),
            InstructionSet::Idivi { rd, r1, imm16 } => Some((rd, r1, imm16)),
            InstructionSet::Umuli { rd, r1, imm16 } => Some((rd, r1, imm16)),
            InstructionSet::Udivi { rd, r1, imm16 } => Some((rd, r1, imm16)),
            InstructionSet::Remi { rd, r1, imm16 } => Some((rd, r1, imm16)),
            InstructionSet::Modi { rd, r1, imm16 } => Some((rd, r1, imm16)),
            InstructionSet::Andi { rd, r1, imm16 } => Some((rd, r1, imm16)),
            InstructionSet::Ori { rd, r1, imm16 } => Some((rd, r1, imm16)),
            InstructionSet::Nori { rd, r1, imm16 } => Some((rd, r1, imm16)),
            InstructionSet::Xori { rd, r1, imm16 } => Some((rd, r1, imm16)),
            InstructionSet::Shli { rd, r1, imm16 } => Some((rd, r1, imm16)),
            InstructionSet::Asri { rd, r1, imm16 } => Some((rd, r1, imm16)),
            InstructionSet::Lsri { rd, r1, imm16 } => Some((rd, r1, imm16)),
            InstructionSet::Biti { rd, r1, imm16 } => Some((rd, r1, imm16)),
            _ => None,
        }
    }
}

/// The nibble of a branch condition names that condition.
pub broadcast proof fn lemma_branch_cond_nibble(cc: BranchCond)
    ensures
        #[trigger] BranchCond::spec_try_from_nibble(cc.spec_to_nibble()) == Some(cc),
{
}

/// The nibble of a load-immediate kind names that kind.
pub broadcast proof fn lemma_li_type_nibble(t: LiType)
    ensures
        #[trigger] LiType::spec_try_from_nibble(t.spec_to_nibble()) == Some(t),
{
}

/// The nibble of a precision names that precision.
pub broadcast proof fn lemma_precision_nibble(p: FloatPrecision)
    ensures
        #[trigger] FloatPrecision::spec_try_from_nibble(p.spec_to_nibble()) == Some(p),
{
}

/// The nibble of a conversion into half or single precision names that conversion.
pub broadcast proof fn lemma_cast_type_nibble(c: FloatCastType)
    requires
        c.to != FloatPrecision::F64,
    ensures
        #[trigger] FloatCastType::spec_try_from_nibble(c.spec_to_nibble()) == Some(c),
{
    let (t, f) = (c.to@, c.from@);
    assert(t < 2 && f < 3 ==> {
        &&& ((t | (f << 2)) & 0xF) & 0x11 == t
        &&& ((t | (f << 2)) & 0xF) >> 2 == f
    }) by (bit_vector);
    crate::nibble::lemma_nibble_from_u8_view(t | (f << 2));
}

/// No conversion nibble names a conversion into double precision.
pub proof fn lemma_cast_type_decoded(n: Nibble)
    ensures
        FloatCastType::spec_try_from_nibble(n) matches Some(c) ==> c.to != FloatPrecision::F64,
{
    let x = n@;
    assert(x < 16 ==> x & 0x11 < 2) by (bit_vector);
}

/// Encoding an operation whose operands fit their fields, and decoding the word, gives
/// the operation back. Conversions into double precision are left out: no conversion
/// nibble names them.
pub proof fn lemma_round_trip(v: InstructionSet)
    requires
        v.wf(),
        !v.converts_to_f64(),
    ensures
        InstructionSet::try_from_instruction(v.to_instruction()) == Some(v),
{
    if v is Int || v is Iret || v is Ires || v is Usr || v is Outr || v is Outi || v is Inr || v is Ini {
        lemma_round_trip_0(v);
    } else if v is Jal || v is Jalr || v is Ret || v is Retr || v is Branch || v is Push || v is Pop || v is Enter {
        lemma_round_trip_1(v);
    } else if v is Leave || v is Li || v is Lw || v is Lh || v is Lhs || v is Lq || v is Lqs || v is Lb {
        lemma_round_trip_2(v);
    } else if v is Lbs || v is Sw || v is Sh || v is Sq || v is Sb || v is Cmpr || v is Cmpi || v is Addr {
        lemma_round_trip_3(v);
    } else if v is Addi || v is Subr || v is Subi || v is Imulr || v is Imuli || v is Idivr || v is Idivi || v is Umulr {
        lemma_round_trip_4(v);
    } else if v is Umuli || v is Udivr || v is Udivi || v is Remr || v is Remi || v is Modr || v is Modi || v is Andr {
        lemma_round_trip_5(v);
    } else if v is Andi || v is Orr || v is Ori || v is Norr || v is Nori || v is Xorr || v is Xori || v is Shlr {
        lemma_round_trip_6(v);
    } else if v is Shli || v is Asrr || v is Asri || v is Lsrr || v is Lsri || v is Bitr || v is Biti || v is Fcmp {
        lemma_round_trip_7(v);
    } else if v is Fto || v is Ffrom || v is Fneg || v is Fabs || v is Fadd || v is Fsub || v is Fmul || v is Fdiv {
        lemma_round_trip_8(v);
    } else {
        lemma_round_trip_9(v);
    }
}

/// The round trip for Int up to Ini.
proof fn lemma_round_trip_0(v: InstructionSet)
    requires
        v.wf(),
        !v.converts_to_f64(),
        v is Int || v is Iret || v is Ires || v is Usr || v is Outr || v is Outi || v is Inr || v is Ini,
    ensures
        InstructionSet::try_from_instruction(v.to_instruction()) == Some(v),
{
    broadcast use
        crate::registers::lemma_register_nibble_round_trip,
        lemma_branch_cond_nibble,
        lemma_li_type_nibble,
        lemma_precision_nibble,
    ;

    match v {
        InstructionSet::Int { imm8 } => {
            crate::instruction::encoding::lemma_f_round_trip(F { imm: imm8.0 as u16, func: Nibble::X0, rde: Nibble::X0 }, 0x01);
        },
        InstructionSet::Iret => {
            crate::instruction::encoding::lemma_f_round_trip(F { imm: 0, func: Nibble::X1, rde: Nibble::X0 }, 0x01);
        },
        InstructionSet::Ires => {
            crate::instruction::encoding::lemma_f_round_trip(F { imm: 0, func: Nibble::X2, rde: Nibble::X0 }, 0x01);
        },
        InstructionSet::Usr { rd } => {
            crate::instruction::encoding::lemma_f_round_trip(F { imm: 0, func: Nibble::X3, rde: rd.to_nibble() }, 0x01);
        },
        InstructionSet::Outr { rd, rs } => {
            crate::instruction::encoding::lemma_m_round_trip(M { imm: 0, rs1: rs.to_nibble(), rde: rd.to_nibble() }, 0x02);
        },
        InstructionSet::Outi { imm16, rs } => {
            crate::instruction::encoding::lemma_m_round_trip(M { imm: imm16.0, rs1: rs.to_nibble(), rde: Nibble::X0 }, 0x03);
        },
        InstructionSet::Inr { rd, rs } => {
            crate::instruction::encoding::lemma_m_round_trip(M { imm: 0, rs1: rs.to_nibble(), rde: rd.to_nibble() }, 0x04);
        },
        InstructionSet::Ini { rd, imm16 } => {
            crate::instruction::encoding::lemma_m_round_trip(M { imm: imm16.0, rs1: Nibble::X0, rde: rd.to_nibble() }, 0x05);
        },
        _ => {},
    }
}

/// The round trip for Jal up to Enter.
proof fn lemma_round_trip_1(v: InstructionSet)
    requires
        v.wf(),
        !v.converts_to_f64(),
        v is Jal || v is Jalr || v is Ret || v is Retr || v is Branch || v is Push || v is Pop || v is Enter,
    ensures
        InstructionSet::try_from_instruction(v.to_instruction()) == Some(v),
{
    broadcast use
        crate::registers::lemma_register_nibble_round_trip,
        lemma_branch_cond_nibble,
        lemma_li_type_nibble,
        lemma_precision_nibble,
    ;

    match v {
        InstructionSet::Jal { rs, imm16 } => {
            crate::instruction::encoding::lemma_m_round_trip(M { imm: imm16, rs1: rs.to_nibble(), rde: Nibble::X0 }, 0x06);
        },
        InstructionSet::Jalr { rd, rs, imm16 } => {
            crate::instruction::encoding::lemma_m_round_trip(M { imm: imm16, rs1: rs.to_nibble(), rde: rd.to_nibble() }, 0x07);
        },
        InstructionSet::Ret => {
            crate::instruction::encoding::lemma_m_round_trip(M { imm: 0, rs1: Nibble::X0, rde: Nibble::X0 }, 0x08);
        },
        InstructionSet::Retr { rs } => {
            crate::instruction::encoding::lemma_m_round_trip(M { imm: 0, rs1: rs.to_nibble(), rde: Nibble::X0 }, 0x09);
        },
        InstructionSet::Branch { cc, imm20 } => {
            crate::instruction::encoding::lemma_b_round_trip(B { imm: imm20, func: cc.to_nibble() }, 0x0A);
            assert(imm20 < 0x10_0000 ==> imm20 & 0xF_FFFF == imm20) by (bit_vector);
        },
        InstructionSet::Push { rs } => {
            crate::instruction::encoding::lemma_m_round_trip(M { imm: 0, rs1: rs.to_nibble(), rde: Nibble::X0 }, 0x0B);
        },
        InstructionSet::Pop { rd } => {
            crate::instruction::encoding::lemma_m_round_trip(M { imm: 0, rs1: Nibble::X0, rde: rd.to_nibble() }, 0x0C);
        },
        InstructionSet::Enter => {
            crate::instruction::encoding::lemma_m_round_trip(M { imm: 0, rs1: Nibble::X0, rde: Nibble::X0 }, 0x0D);
        },
        _ => {},
    }
}

/// The round trip for Leave up to Lb.
proof fn lemma_round_trip_2(v: InstructionSet)
    requires
        v.wf(),
        !v.converts_to_f64(),
        v is Leave || v is Li || v is Lw || v is Lh || v is Lhs || v is Lq || v is Lqs || v is Lb,
    ensures
        InstructionSet::try_from_instruction(v.to_instruction()) == Some(v),
{
    broadcast use
        crate::registers::lemma_register_nibble_round_trip,
        lemma_branch_cond_nibble,
        lemma_li_type_nibble,
        lemma_precision_nibble,
    ;

    match v {
        InstructionSet::Leave => {
            crate::instruction::encoding::lemma_m_round_trip(M { imm: 0, rs1: Nibble::X0, rde: Nibble::X0 }, 0x0E);
        },
        InstructionSet::Li { rd, func, imm } => {
            crate::instruction::encoding::lemma_f_round_trip(F { imm: imm, func: func.to_nibble(), rde: rd.to_nibble() }, 0x10);
        },
        InstructionSet::Lw { rd, rs, rn, sh, off } => {
            crate::instruction::encoding::lemma_e_round_trip(E { imm: off, func: sh, rs2: rn.to_nibble(), rs1: rs.to_nibble(), rde: rd.to_nibble() }, 0x11);
        },
        InstructionSet::Lh { rd, rs, rn, sh, off } => {
            crate::instruction::encoding::lemma_e_round_trip(E { imm: off, func: sh, rs2: rn.to_nibble(), rs1: rs.to_nibble(), rde: rd.to_nibble() }, 0x12);
        },
        InstructionSet::Lhs { rd, rs, rn, sh, off } => {
            crate::instruction::encoding::lemma_e_round_trip(E { imm: off, func: sh, rs2: rn.to_nibble(), rs1: rs.to_nibble(), rde: rd.to_nibble() }, 0x13);
        },
        InstructionSet::Lq { rd, rs, rn, sh, off } => {
            crate::instruction::encoding::lemma_e_round_trip(E { imm: off, func: sh, rs2: rn.to_nibble(), rs1: rs.to_nibble(), rde: rd.to_nibble() }, 0x14);
        },
        InstructionSet::Lqs { rd, rs, rn, sh, off } => {
            crate::instruction::encoding::lemma_e_round_trip(E { imm: off, func: sh, rs2: rn.to_nibble(), rs1: rs.to_nibble(), rde: rd.to_nibble() }, 0x15);
        },
        InstructionSet::Lb { rd, rs, rn, sh, off } => {
            crate::instruction::encoding::lemma_e_round_trip(E { imm: off, func: sh, rs2: rn.to_nibble(), rs1: rs.to_nibble(), rde: rd.to_nibble() }, 0x16);
        },
        _ => {},
    }
}

/// The round trip for Lbs up to Addr.
proof fn lemma_round_trip_3(v: InstructionSet)
    requires
        v.wf(),
        !v.converts_to_f64(),
        v is Lbs || v is Sw || v is Sh || v is Sq || v is Sb || v is Cmpr || v is Cmpi || v is Addr,
    ensures
        InstructionSet::try_from_instruction(v.to_instruction()) == Some(v),
{
    broadcast use
        crate::registers::lemma_register_nibble_round_trip,
        lemma_branch_cond_nibble,
        lemma_li_type_nibble,
        lemma_precision_nibble,
    ;

    match v {
        InstructionSet::Lbs { rd, rs, rn, sh, off } => {
            crate::instruction::encoding::lemma_e_round_trip(E { imm: off, func: sh, rs2: rn.to_nibble(), rs1: rs.to_nibble(), rde: rd.to_nibble() }, 0x17);
        },
        InstructionSet::Sw { rd, rs, rn, sh, off } => {
            crate::instruction::encoding::lemma_e_round_trip(E { imm: off, func: sh, rs2: rn.to_nibble(), rs1: rs.to_nibble(), rde: rd.to_nibble() }, 0x18);
        },
        InstructionSet::Sh { rd, rs, rn, sh, off } => {
            crate::instruction::encoding::lemma_e_round_trip(E { imm: off, func: sh, rs2: rn.to_nibble(), rs1: rs.to_nibble(), rde: rd.to_nibble() }, 0x19);
        },
        InstructionSet::Sq { rd, rs, rn, sh, off } => {
            crate::instruction::encoding::lemma_e_round_trip(E { imm: off, func: sh, rs2: rn.to_nibble(), rs1: rs.to_nibble(), rde: rd.to_nibble() }, 0x1A);
        },
        InstructionSet::Sb { rd, rs, rn, sh, off } => {
            crate::instruction::encoding::lemma_e_round_trip(E { imm: off, func: sh, rs2: rn.to_nibble(), rs1: rs.to_nibble(), rde: rd.to_nibble() }, 0x1B);
        },
        InstructionSet::Cmpr { r1, r2 } => {
            crate::instruction::encoding::lemma_m_round_trip(M { imm: 0, rs1: r2.to_nibble(), rde: r1.to_nibble() }, 0x1E);
        },
        InstructionSet::Cmpi { r1, s, imm } => {
            crate::instruction::encoding::lemma_f_round_trip(F { imm: imm, func: Nibble::from_bool(s), rde: r1.to_nibble() }, 0x1F);
        },
        InstructionSet::Addr { rd, r1, r2 } => {
            crate::instruction::encoding::lemma_r_round_trip(R { imm: 0, rs2: r2.to_nibble(), rs1: r1.to_nibble(), rde: rd.to_nibble() }, 0x20);
        },
        _ => {},
    }
}

/// The round trip for Addi up to Umulr.
proof fn lemma_round_trip_4(v: InstructionSet)
    requires
        v.wf(),
        !v.converts_to_f64(),
        v is Addi || v is Subr || v is Subi || v is Imulr || v is Imuli || v is Idivr || v is Idivi || v is Umulr,
    ensures
        InstructionSet::try_from_instruction(v.to_instruction()) == Some(v),
{
    broadcast use
        crate::registers::lemma_register_nibble_round_trip,
        lemma_branch_cond_nibble,
        lemma_li_type_nibble,
        lemma_precision_nibble,
    ;

    match v {
        InstructionSet::Addi { rd, r1, imm16 } => {
            crate::instruction::encoding::lemma_m_round_trip(M { imm: imm16, rs1: r1.to_nibble(), rde: rd.to_nibble() }, 0x21);
        },
        InstructionSet::Subr { rd, r1, r2 } => {
            crate::instruction::encoding::lemma_r_round_trip(R { imm: 0, rs2: r2.to_nibble(), rs1: r1.to_nibble(), rde: rd.to_nibble() }, 0x22);
        },
        InstructionSet::Subi { rd, r1, imm16 } => {
            crate::instruction::encoding::lemma_m_round_trip(M { imm: imm16, rs1: r1.to_nibble(), rde: rd.to_nibble() }, 0x23);
        },
        InstructionSet::Imulr { rd, r1, r2 } => {
            crate::instruction::encoding::lemma_r_round_trip(R { imm: 0, rs2: r2.to_nibble(), rs1: r1.to_nibble(), rde: rd.to_nibble() }, 0x24);
        },
        InstructionSet::Imuli { rd, r1, imm16 } => {
            crate::instruction::encoding::lemma_m_round_trip(M { imm: imm16, rs1: r1.to_nibble(), rde: rd.to_nibble() }, 0x25);
        },
        InstructionSet::Idivr { rd, r1, r2 } => {
            crate::instruction::encoding::lemma_r_round_trip(R { imm: 0, rs2: r2.to_nibble(), rs1: r1.to_nibble(), rde: rd.to_nibble() }, 0x26);
        },
        InstructionSet::Idivi { rd, r1, imm16 } => {
            crate::instruction::encoding::lemma_m_round_trip(M { imm: imm16, rs1: r1.to_nibble(), rde: rd.to_nibble() }, 0x27);
        },
        InstructionSet::Umulr { rd, r1, r2 } => {
            crate::instruction::encoding::lemma_r_round_trip(R { imm: 0, rs2: r2.to_nibble(), rs1: r1.to_nibble(), rde: rd.to_nibble() }, 0x28);
        },
        _ => {},
    }
}

/// The round trip for Umuli up to Andr.
proof fn lemma_round_trip_5(v: InstructionSet)
    requires
        v.wf(),
        !v.converts_to_f64(),
        v is Umuli || v is Udivr || v is Udivi || v is Remr || v is Remi || v is Modr || v is Modi || v is Andr,
    ensures
        InstructionSet::try_from_instruction(v.to_instruction()) == Some(v),
{
    broadcast use
        crate::registers::lemma_register_nibble_round_trip,
        lemma_branch_cond_nibble,
        lemma_li_type_nibble,
        lemma_precision_nibble,
    ;

    match v {
        InstructionSet::Umuli { rd, r1, imm16 } => {
            crate::instruction::encoding::lemma_m_round_trip(M { imm: imm16, rs1: r1.to_nibble(), rde: rd.to_nibble() }, 0x29);
        },
        InstructionSet::Udivr { rd, r1, r2 } => {
            crate::instruction::encoding::lemma_r_round_trip(R { imm: 0, rs2: r2.to_nibble(), rs1: r1.to_nibble(), rde: rd.to_nibble() }, 0x2A);
        },
        InstructionSet::Udivi { rd, r1, imm16 } => {
            crate::instruction::encoding::lemma_m_round_trip(M { imm: imm16, rs1: r1.to_nibble(), rde: rd.to_nibble() }, 0x2B);
        },
        InstructionSet::Remr { rd, r1, r2 } => {
            crate::instruction::encoding::lemma_r_round_trip(R { imm: 0, rs2: r2.to_nibble(), rs1: r1.to_nibble(), rde: rd.to_nibble() }, 0x2C);
        },
        InstructionSet::Remi { rd, r1, imm16 } => {
            crate::instruction::encoding::lemma_m_round_trip(M { imm: imm16, rs1: r1.to_nibble(), rde: rd.to_nibble() }, 0x2D);
        },
        InstructionSet::Modr { rd, r1, r2 } => {
            crate::instruction::encoding::lemma_r_round_trip(R { imm: 0, rs2: r2.to_nibble(), rs1: r1.to_nibble(), rde: rd.to_nibble() }, 0x2E);
        },
        InstructionSet::Modi { rd, r1, imm16 } => {
            crate::instruction::encoding::lemma_m_round_trip(M { imm: imm16, rs1: r1.to_nibble(), rde: rd.to_nibble() }, 0x2F);
        },
        InstructionSet::Andr { rd, r1, r2 } => {
            crate::instruction::encoding::lemma_r_round_trip(R { imm: 0, rs2: r2.to_nibble(), rs1: r1.to_nibble(), rde: rd.to_nibble() }, 0x30);
        },
        _ => {},
    }
}

/// The round trip for Andi up to Shlr.
proof fn lemma_round_trip_6(v: InstructionSet)
    requires
        v.wf(),
        !v.converts_to_f64(),
        v is Andi || v is Orr || v is Ori || v is Norr || v is Nori || v is Xorr || v is Xori || v is Shlr,
    ensures
        InstructionSet::try_from_instruction(v.to_instruction()) == Some(v),
{
    broadcast use
        crate::registers::lemma_register_nibble_round_trip,
        lemma_branch_cond_nibble,
        lemma_li_type_nibble,
        lemma_precision_nibble,
    ;

    match v {
        InstructionSet::Andi { rd, r1, imm16 } => {
            crate::instruction::encoding::lemma_m_round_trip(M { imm: imm16, rs1: r1.to_nibble(), rde: rd.to_nibble() }, 0x31);
        },
        InstructionSet::Orr { rd, r1, r2 } => {
            crate::instruction::encoding::lemma_r_round_trip(R { imm: 0, rs2: r2.to_nibble(), rs1: r1.to_nibble(), rde: rd.to_nibble() }, 0x32);
        },
        InstructionSet::Ori { rd, r1, imm16 } => {
            crate::instruction::encoding::lemma_m_round_trip(M { imm: imm16, rs1: r1.to_nibble(), rde: rd.to_nibble() }, 0x33);
        },
        InstructionSet::Norr { rd, r1, r2 } => {
            crate::instruction::encoding::lemma_r_round_trip(R { imm: 0, rs2: r2.to_nibble(), rs1: r1.to_nibble(), rde: rd.to_nibble() }, 0x34);
        },
        InstructionSet::Nori { rd, r1, imm16 } => {
            crate::instruction::encoding::lemma_m_round_trip(M { imm: imm16, rs1: r1.to_nibble(), rde: rd.to_nibble() }, 0x35);
        },
        InstructionSet::Xorr { rd, r1, r2 } => {
            crate::instruction::encoding::lemma_r_round_trip(R { imm: 0, rs2: r2.to_nibble(), rs1: r1.to_nibble(), rde: rd.to_nibble() }, 0x36);
        },
        InstructionSet::Xori { rd, r1, imm16 } => {
            crate::instruction::encoding::lemma_m_round_trip(M { imm: imm16, rs1: r1.to_nibble(), rde: rd.to_nibble() }, 0x37);
        },
        InstructionSet::Shlr { rd, r1, r2 } => {
            crate::instruction::encoding::lemma_r_round_trip(R { imm: 0, rs2: r2.to_nibble(), rs1: r1.to_nibble(), rde: rd.to_nibble() }, 0x38);
        },
        _ => {},
    }
}

/// The round trip for Shli up to Fcmp.
proof fn lemma_round_trip_7(v: InstructionSet)
    requires
        v.wf(),
        !v.converts_to_f64(),
        v is Shli || v is Asrr || v is Asri || v is Lsrr || v is Lsri || v is Bitr || v is Biti || v is Fcmp,
    ensures
        InstructionSet::try_from_instruction(v.to_instruction()) == Some(v),
{
    broadcast use
        crate::registers::lemma_register_nibble_round_trip,
        lemma_branch_cond_nibble,
        lemma_li_type_nibble,
        lemma_precision_nibble,
    ;

    match v {
        InstructionSet::Shli { rd, r1, imm16 } => {
            crate::instruction::encoding::lemma_m_round_trip(M { imm: imm16, rs1: r1.to_nibble(), rde: rd.to_nibble() }, 0x39);
        },
        InstructionSet::Asrr { rd, r1, r2 } => {
            crate::instruction::encoding::lemma_r_round_trip(R { imm: 0, rs2: r2.to_nibble(), rs1: r1.to_nibble(), rde: rd.to_nibble() }, 0x3A);
        },
        InstructionSet::Asri { rd, r1, imm16 } => {
            crate::instruction::encoding::lemma_m_round_trip(M { imm: imm16, rs1: r1.to_nibble(), rde: rd.to_nibble() }, 0x3B);
        },
        InstructionSet::Lsrr { rd, r1, r2 } => {
            crate::instruction::encoding::lemma_r_round_trip(R { imm: 0, rs2: r2.to_nibble(), rs1: r1.to_nibble(), rde: rd.to_nibble() }, 0x3C);
        },
        InstructionSet::Lsri { rd, r1, imm16 } => {
            crate::instruction::encoding::lemma_m_round_trip(M { imm: imm16, rs1: r1.to_nibble(), rde: rd.to_nibble() }, 0x3D);
        },
        InstructionSet::Bitr { rd, r1, r2 } => {
            crate::instruction::encoding::lemma_r_round_trip(R { imm: 0, rs2: r2.to_nibble(), rs1: r1.to_nibble(), rde: rd.to_nibble() }, 0x3E);
        },
        InstructionSet::Biti { rd, r1, imm16 } => {
            crate::instruction::encoding::lemma_m_round_trip(M { imm: imm16, rs1: r1.to_nibble(), rde: rd.to_nibble() }, 0x3F);
        },
        InstructionSet::Fcmp { r1, r2, p } => {
            crate::instruction::encoding::lemma_e_round_trip(E { imm: 0, func: p.to_nibble(), rs2: r2.to_nibble(), rs1: r1.to_nibble(), rde: Nibble::X0 }, 0x40);
        },
        _ => {},
    }
}

/// The round trip for Fto up to Fdiv.
proof fn lemma_round_trip_8(v: InstructionSet)
    requires
        v.wf(),
        !v.converts_to_f64(),
        v is Fto || v is Ffrom || v is Fneg || v is Fabs || v is Fadd || v is Fsub || v is Fmul || v is Fdiv,
    ensures
        InstructionSet::try_from_instruction(v.to_instruction()) == Some(v),
{
    broadcast use
        crate::registers::lemma_register_nibble_round_trip,
        lemma_branch_cond_nibble,
        lemma_li_type_nibble,
        lemma_precision_nibble,
    ;

    match v {
        InstructionSet::Fto { rd, rs, p } => {
            crate::instruction::encoding::lemma_e_round_trip(E { imm: 0, func: p.to_nibble(), rs2: Nibble::X0, rs1: rs.to_nibble(), rde: rd.to_nibble() }, 0x41);
        },
        InstructionSet::Ffrom { rd, rs, p } => {
            crate::instruction::encoding::lemma_e_round_trip(E { imm: 0, func: p.to_nibble(), rs2: Nibble::X0, rs1: rs.to_nibble(), rde: rd.to_nibble() }, 0x42);
        },
        InstructionSet::Fneg { rd, rs, p } => {
            crate::instruction::encoding::lemma_e_round_trip(E { imm: 0, func: p.to_nibble(), rs2: Nibble::X0, rs1: rs.to_nibble(), rde: rd.to_nibble() }, 0x43);
        },
        InstructionSet::Fabs { rd, rs, p } => {
            crate::instruction::encoding::lemma_e_round_trip(E { imm: 0, func: p.to_nibble(), rs2: Nibble::X0, rs1: rs.to_nibble(), rde: rd.to_nibble() }, 0x44);
        },
        InstructionSet::Fadd { rd, r1, r2, p } => {
            crate::instruction::encoding::lemma_e_round_trip(E { imm: 0, func: p.to_nibble(), rs2: r2.to_nibble(), rs1: r1.to_nibble(), rde: rd.to_nibble() }, 0x45);
        },
        InstructionSet::Fsub { rd, r1, r2, p } => {
            crate::instruction::encoding::lemma_e_round_trip(E { imm: 0, func: p.to_nibble(), rs2: r2.to_nibble(), rs1: r1.to_nibble(), rde: rd.to_nibble() }, 0x46);
        },
        InstructionSet::Fmul { rd, r1, r2, p } => {
            crate::instruction::encoding::lemma_e_round_trip(E { imm: 0, func: p.to_nibble(), rs2: r2.to_nibble(), rs1: r1.to_nibble(), rde: rd.to_nibble() }, 0x47);
        },
        InstructionSet::Fdiv { rd, r1, r2, p } => {
            crate::instruction::encoding::lemma_e_round_trip(E { imm: 0, func: p.to_nibble(), rs2: r2.to_nibble(), rs1: r1.to_nibble(), rde: rd.to_nibble() }, 0x48);
        },
        _ => {},
    }
}

/// The round trip for Fma up to Fnan.
proof fn lemma_round_trip_9(v: InstructionSet)
    requires
        v.wf(),
        !v.converts_to_f64(),
        v is Fma || v is Fsqrt || v is Fmin || v is Fmax || v is Fsat || v is Fcnv || v is Fnan,
    ensures
        InstructionSet::try_from_instruction(v.to_instruction()) == Some(v),
{
    broadcast use
        crate::registers::lemma_register_nibble_round_trip,
        lemma_branch_cond_nibble,
        lemma_li_type_nibble,
        lemma_precision_nibble,
    ;

    match v {
        InstructionSet::Fma { rd, r1, r2, p } => {
            crate::instruction::encoding::lemma_e_round_trip(E { imm: 0, func: p.to_nibble(), rs2: r2.to_nibble(), rs1: r1.to_nibble(), rde: rd.to_nibble() }, 0x49);
        },
        InstructionSet::Fsqrt { rd, r1, p } => {
            crate::instruction::encoding::lemma_e_round_trip(E { imm: 0, func: p.to_nibble(), rs2: Nibble::X0, rs1: r1.to_nibble(), rde: rd.to_nibble() }, 0x4A);
        },
        InstructionSet::Fmin { rd, r1, r2, p } => {
            crate::instruction::encoding::lemma_e_round_trip(E { imm: 0, func: p.to_nibble(), rs2: r2.to_nibble(), rs1: r1.to_nibble(), rde: rd.to_nibble() }, 0x4B);
        },
        InstructionSet::Fmax { rd, r1, r2, p } => {
            crate::instruction::encoding::lemma_e_round_trip(E { imm: 0, func: p.to_nibble(), rs2: r2.to_nibble(), rs1: r1.to_nibble(), rde: rd.to_nibble() }, 0x4C);
        },
        InstructionSet::Fsat { rd, r1, p } => {
            crate::instruction::encoding::lemma_e_round_trip(E { imm: 0, func: p.to_nibble(), rs2: Nibble::X0, rs1: r1.to_nibble(), rde: rd.to_nibble() }, 0x4D);
        },
        InstructionSet::Fcnv { rd, r1, p } => {
            crate::instruction::encoding::lemma_e_round_trip(E { imm: 0, func: p.to_nibble(), rs2: Nibble::X0, rs1: r1.to_nibble(), rde: rd.to_nibble() }, 0x4E);
            lemma_cast_type_nibble(p);
        },
        InstructionSet::Fnan { rd, r1, p } => {
            crate::instruction::encoding::lemma_e_round_trip(E { imm: 0, func: p.to_nibble(), rs2: Nibble::X0, rs1: r1.to_nibble(), rde: rd.to_nibble() }, 0x4F);
        },
        _ => {},
    }
}

/// Every operation that decoding yields has operands that fit their fields and is no
/// conversion into double precision, so encoding it and decoding again gives it back.
pub proof fn lemma_decoded_round_trip(i: Instruction)
    ensures
        InstructionSet::try_from_instruction(i) matches Some(v) ==> {
            &&& v.wf()
            &&& !v.converts_to_f64()
            &&& InstructionSet::try_from_instruction(v.to_instruction()) == Some(v)
        },
{
    if let Some(v) = InstructionSet::try_from_instruction(i) {
        let w = i.0;
        reveal(B::spec_from_u32);
        assert((w >> 8) & 0xF_FFFF < 0x10_0000) by (bit_vector);
        lemma_cast_type_decoded(E::from_u32(w).func);
        lemma_round_trip(v);
    }
}

/// Decoding fails on an unassigned opcode such as `0xFF`, on a branch whose condition
/// nibble is unassigned (`0x7`, `0x8` or `0xF`), and on an interrupt whose 16-bit operand
/// has a non-zero high byte.
pub proof fn lemma_decode_rejection(i: Instruction)
    ensures
        i.opcode() == 0xFF ==> InstructionSet::try_from_instruction(i).is_none(),
        i.opcode() == 0x0A && (B::from_u32(i.0).func == Nibble::X7 || B::from_u32(i.0).func == Nibble::X8
            || B::from_u32(i.0).func == Nibble::XF) ==> InstructionSet::try_from_instruction(i).is_none(),
        i.opcode() == 0x01 && F::from_u32(i.0).func == Nibble::X0 && F::from_u32(i.0).imm >= 0x100
            ==> InstructionSet::try_from_instruction(i).is_none(),
{
}

/// Opcodes `0x20..=0x3F` always decode, and pair up: opcode `0x20 + 2k` is the
/// register-register form, read from format R, and `0x21 + 2k` the register-immediate
/// form, read from format M, of the same operation `k`, for each of the sixteen `k`.
pub proof fn lemma_alu_parity(i: Instruction)
    requires
        0x20 <= i.opcode() <= 0x3F,
    ensures
        InstructionSet::try_from_instruction(i) matches Some(v) && v.alu_operation() == Some(
            ((i.opcode() - 0x20) / 2) as u8,
        ),
        i.opcode() % 2 == 0 ==> InstructionSet::try_from_instruction(i).unwrap().alu_register_operands()
            == Some(
            (
                Register::from_nibble(R::from_u32(i.0).rde),
                Register::from_nibble(R::from_u32(i.0).rs1),
                Register::from_nibble(R::from_u32(i.0).rs2),
            ),
        ),
        i.opcode() % 2 == 1 ==> InstructionSet::try_from_instruction(i).unwrap().alu_immediate_operands()
            == Some(
            (
                Register::from_nibble(M::from_u32(i.0).rde),
                Register::from_nibble(M::from_u32(i.0).rs1),
                M::from_u32(i.0).imm,
            ),
        ),
{
    let op = i.opcode();
    if op % 2 == 0 {
        lemma_alu_register_family(op, R::from_u32(i.0));
    } else {
        lemma_alu_immediate_family(op, M::from_u32(i.0));
    }
}

/// The register-register operation of an even opcode is operation `(op - 0x20) / 2`,
/// with its registers from the R fields.
#[verifier::rlimit(40)]
proof fn lemma_alu_register_family(op: u8, r: R)
    requires
        0x20 <= op <= 0x3E,
        op % 2 == 0,
    ensures
        InstructionSet::spec_decode_alu_register(op, r).alu_operation() == Some(((op - 0x20) / 2) as u8),
        InstructionSet::spec_decode_alu_register(op, r).alu_register_operands() == Some(
            (Register::from_nibble(r.rde), Register::from_nibble(r.rs1), Register::from_nibble(r.rs2)),
        ),
{
}

/// The register-immediate operation of an odd opcode is operation `(op - 0x20) / 2`, with
/// its register and immediate from the M fields.
#[verifier::rlimit(40)]
proof fn lemma_alu_immediate_family(op: u8, m: M)
    requires
        0x21 <= op <= 0x3F,
        op % 2 == 1,
    ensures
        InstructionSet::spec_decode_alu_immediate(op, m).alu_operation() == Some(((op - 0x20) / 2) as u8),
        InstructionSet::spec_decode_alu_immediate(op, m).alu_immediate_operands() == Some(
            (Register::from_nibble(m.rde), Register::from_nibble(m.rs1), m.imm),
        ),
{
}

} // verus!
