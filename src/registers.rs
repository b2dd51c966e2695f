//! Register identifiers: sixteen registers, each named by a 4-bit code.
use vstd::prelude::*;
use crate::nibble::Nibble;

verus! {

broadcast use crate::nibble::lemma_nibble_bound;

/// Register kinds.
#[derive(Debug, Clone, Copy, PartialEq, Eq, PartialOrd, Ord, Structural)]
pub enum Register {
    /// Zero register.
    Rz,
    /// General purpose register.
    Ra,
    /// General purpose register.
    Rb,
    /// General purpose register.
    Rc,
    /// General purpose register.
    Rd,
    /// General purpose register.
    Re,
    /// General purpose register.
    Rf,
    /// General purpose register.
    Rg,
    /// General purpose register.
    Rh,
    /// General purpose register.
    Ri,
    /// General purpose register.
    Rj,
    /// General purpose register.
    Rk,
    /// Instruction pointer.
    Ip,
    /// Stack pointer.
    Sp,
    /// Frame pointer.
    Fp,
    /// Status register.
    St,
}

impl View for Register {
    type V = u8;

    /// The register's 4-bit code.
    open spec fn view(&self) -> u8 {
        match *self {
            Register::Rz => 0x0,
            Register::Ra => 0x1,
            Register::Rb => 0x2,
            Register::Rc => 0x3,
            Register::Rd => 0x4,
            Register::Re => 0x5,
            Register::Rf => 0x6,
            Register::Rg => 0x7,
            Register::Rh => 0x8,
            Register::Ri => 0x9,
            Register::Rj => 0xA,
            Register::Rk => 0xB,
            Register::Ip => 0xC,
            Register::Sp => 0xD,
            Register::Fp => 0xE,
            Register::St => 0xF,
        }
    }
}

/// A register is determined by its code.
pub broadcast proof fn lemma_register_injective(a: Register, b: Register)
    ensures
        #[trigger] a@ == #[trigger] b@ ==> a == b,
{
}

impl Register {
    /// The register whose code is the value of `v`.
    #[verifier::opaque]
    pub open spec fn spec_from_nibble(v: Nibble) -> Register {
        match v {
            Nibble::X0 => Register::Rz,
            Nibble::X1 => Register::Ra,
            Nibble::X2 => Register::Rb,
            Nibble::X3 => Register::Rc,
            Nibble::X4 => Register::Rd,
            Nibble::X5 => Register::Re,
            Nibble::X6 => Register::Rf,
            Nibble::X7 => Register::Rg,
            Nibble::X8 => Register::Rh,
            Nibble::X9 => Register::Ri,
            Nibble::XA => Register::Rj,
            Nibble::XB => Register::Rk,
            Nibble::XC => Register::Ip,
            Nibble::XD => Register::Sp,
            Nibble::XE => Register::Fp,
            Nibble::XF => Register::St,
        }
    }

    /// The nibble holding the register's code.
    #[verifier::opaque]
    pub open spec fn spec_to_nibble(self) -> Nibble {
        match self {
            Register::Rz => Nibble::X0,
            Register::Ra => Nibble::X1,
            Register::Rb => Nibble::X2,
            Register::Rc => Nibble::X3,
            Register::Rd => Nibble::X4,
            Register::Re => Nibble::X5,
            Register::Rf => Nibble::X6,
            Register::Rg => Nibble::X7,
            Register::Rh => Nibble::X8,
            Register::Ri => Nibble::X9,
            Register::Rj => Nibble::XA,
            Register::Rk => Nibble::XB,
            Register::Ip => Nibble::XC,
            Register::Sp => Nibble::XD,
            Register::Fp => Nibble::XE,
            Register::St => Nibble::XF,
        }
    }

    /// Convert a [`Register`] to its code as a [`u8`].
    pub fn to_u8(self) -> (r: u8)
        ensures
            r == self@,
    {
        match self {
            Self::Rz => 0x0,
            Self::Ra => 0x1,
            Self::Rb => 0x2,
            Self::Rc => 0x3,
            Self::Rd => 0x4,
            Self::Re => 0x5,
            Self::Rf => 0x6,
            Self::Rg => 0x7,
            Self::Rh => 0x8,
            Self::Ri => 0x9,
            Self::Rj => 0xA,
            Self::Rk => 0xB,
            Self::Ip => 0xC,
            Self::Sp => 0xD,
            Self::Fp => 0xE,
            Self::St => 0xF,
        }
    }

    /// Attempt to convert a [`u8`] to [`Register`]: only codes below 16 name one.
    pub fn try_from_u8(v: u8) -> (r: Option<Self>)
        ensures
            v < 16 ==> r.is_some() && r.unwrap()@ == v,
            v >= 16 ==> r.is_none(),
    {
        match v {
            0x0 => Some(Self::Rz),
            0x1 => Some(Self::Ra),
            0x2 => Some(Self::Rb),
            0x3 => Some(Self::Rc),
            0x4 => Some(Self::Rd),
            0x5 => Some(Self::Re),
            0x6 => Some(Self::Rf),
            0x7 => Some(Self::Rg),
            0x8 => Some(Self::Rh),
            0x9 => Some(Self::Ri),
            0xA => Some(Self::Rj),
            0xB => Some(Self::Rk),
            0xC => Some(Self::Ip),
            0xD => Some(Self::Sp),
            0xE => Some(Self::Fp),
            0xF => Some(Self::St),
            _ => None,
        }
    }

    /// The register named by a nibble.
    #[verifier::when_used_as_spec(spec_from_nibble)]
    pub fn from_nibble(v: Nibble) -> (r: Self)
        ensures
            r == Self::spec_from_nibble(v),
            r@ == v@,
    {
        proof {
            reveal(Register::spec_from_nibble);
        }
        match v {
            Nibble::X0 => Self::Rz,
            Nibble::X1 => Self::Ra,
            Nibble::X2 => Self::Rb,
            Nibble::X3 => Self::Rc,
            Nibble::X4 => Self::Rd,
            Nibble::X5 => Self::Re,
            Nibble::X6 => Self::Rf,
            Nibble::X7 => Self::Rg,
            Nibble::X8 => Self::Rh,
            Nibble::X9 => Self::Ri,
            Nibble::XA => Self::Rj,
            Nibble::XB => Self::Rk,
            Nibble::XC => Self::Ip,
            Nibble::XD => Self::Sp,
            Nibble::XE => Self::Fp,
            Nibble::XF => Self::St,
        }
    }

    /// The register's code as a nibble.
    #[verifier::when_used_as_spec(spec_to_nibble)]
    pub fn to_nibble(self) -> (r: Nibble)
        ensures
            r == self.spec_to_nibble(),
            r@ == self@,
    {
        proof {
            reveal(Register::spec_to_nibble);
        }
        match self {
            Self::Rz => Nibble::X0,
            Self::Ra => Nibble::X1,
            Self::Rb => Nibble::X2,
            Self::Rc => Nibble::X3,
            Self::Rd => Nibble::X4,
            Self::Re => Nibble::X5,
            Self::Rf => Nibble::X6,
            Self::Rg => Nibble::X7,
            Self::Rh => Nibble::X8,
            Self::Ri => Nibble::X9,
            Self::Rj => Nibble::XA,
            Self::Rk => Nibble::XB,
            Self::Ip => Nibble::XC,
            Self::Sp => Nibble::XD,
            Self::Fp => Nibble::XE,
            Self::St => Nibble::XF,
        }
    }

    /// The register's mnemonic.
    pub open spec fn spec_name(self) -> Seq<char> {
        match self {
            Register::Rz => "rz"@,
            Register::Ra => "ra"@,
            Register::Rb => "rb"@,
            Register::Rc => "rc"@,
            Register::Rd => "rd"@,
            Register::Re => "re"@,
            Register::Rf => "rf"@,
            Register::Rg => "rg"@,
            Register::Rh => "rh"@,
            Register::Ri => "ri"@,
            Register::Rj => "rj"@,
            Register::Rk => "rk"@,
            Register::Ip => "ip"@,
            Register::Sp => "sp"@,
            Register::Fp => "fp"@,
            Register::St => "st"@,
        }
    }

    /// The register's mnemonic, as written in assembly.
    pub fn string(self) -> (r: &'static str)
        ensures
            r@ == self.spec_name(),
    {
        match self {
            Self::Rz => "rz",
            Self::Ra => "ra",
            Self::Rb => "rb",
            Self::Rc => "rc",
            Self::Rd => "rd",
            Self::Re => "re",
            Self::Rf => "rf",
            Self::Rg => "rg",
            Self::Rh => "rh",
            Self::Ri => "ri",
            Self::Rj => "rj",
            Self::Rk => "rk",
            Self::Ip => "ip",
            Self::Sp => "sp",
            Self::Fp => "fp",
            Self::St => "st",
        }
    }
}

/// Turning a register into a nibble and back gives the same register.
pub broadcast proof fn lemma_register_nibble_round_trip(r: Register)
    ensures
        #[trigger] Register::spec_from_nibble(r.spec_to_nibble()) == r,
{
    reveal(Register::spec_from_nibble);
    reveal(Register::spec_to_nibble);
}

/// Turning a nibble into a register and back gives the same nibble.
pub broadcast proof fn lemma_nibble_register_round_trip(n: Nibble)
    ensures
        #[trigger] Register::spec_from_nibble(n).spec_to_nibble() == n,
{
    reveal(Register::spec_from_nibble);
    reveal(Register::spec_to_nibble);
}

} // verus!
