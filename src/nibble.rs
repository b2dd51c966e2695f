//! The [`Nibble`] type: a 4-bit unsigned integer.
use vstd::prelude::*;

verus! {

/// 4-bit unsigned integer type.
#[derive(Clone, Copy, PartialEq, Eq, PartialOrd, Ord, Debug, Structural)]
pub enum Nibble {
    X0,
    X1,
    X2,
    X3,
    X4,
    X5,
    X6,
    X7,
    X8,
    X9,
    XA,
    XB,
    XC,
    XD,
    XE,
    XF,
}

impl View for Nibble {
    type V = u8;

    /// The numeric value, in `0..16`.
    open spec fn view(&self) -> u8 {
        match *self {
            Nibble::X0 => 0x0,
            Nibble::X1 => 0x1,
            Nibble::X2 => 0x2,
            Nibble::X3 => 0x3,
            Nibble::X4 => 0x4,
            Nibble::X5 => 0x5,
            Nibble::X6 => 0x6,
            Nibble::X7 => 0x7,
            Nibble::X8 => 0x8,
            Nibble::X9 => 0x9,
            Nibble::XA => 0xA,
            Nibble::XB => 0xB,
            Nibble::XC => 0xC,
            Nibble::XD => 0xD,
            Nibble::XE => 0xE,
            Nibble::XF => 0xF,
        }
    }
}

/// Every nibble value fits in four bits.
pub broadcast proof fn lemma_nibble_bound(n: Nibble)
    ensures
        #[trigger] n@ < 16,
{
}

/// A nibble is determined by its value.
pub broadcast proof fn lemma_nibble_injective(a: Nibble, b: Nibble)
    ensures
        #[trigger] a@ == #[trigger] b@ ==> a == b,
{
}

/// Reading back the nibble of a value gives the low four bits of that value.
pub broadcast proof fn lemma_nibble_from_u8_view(v: u8)
    ensures
        (#[trigger] Nibble::spec_from_u8(v))@ == v & 0xF,
{
    assert(v & 0xF < 16) by (bit_vector);
}

/// The nibble built from the low four bits of `v` is `n` when those bits are `n`'s value.
pub proof fn lemma_nibble_from_u8_is(v: u8, n: Nibble)
    requires
        v & 0xF == n@,
    ensures
        Nibble::spec_from_u8(v) == n,
{
    lemma_nibble_from_u8_view(v);
}

impl Nibble {
    /// The nibble holding the low four bits of `v`.
    pub open spec fn spec_from_u8(v: u8) -> Nibble {
        let low = v & 0xF;
        if low == 0x0 { Nibble::X0 }
        else if low == 0x1 { Nibble::X1 }
        else if low == 0x2 { Nibble::X2 }
        else if low == 0x3 { Nibble::X3 }
        else if low == 0x4 { Nibble::X4 }
        else if low == 0x5 { Nibble::X5 }
        else if low == 0x6 { Nibble::X6 }
        else if low == 0x7 { Nibble::X7 }
        else if low == 0x8 { Nibble::X8 }
        else if low == 0x9 { Nibble::X9 }
        else if low == 0xA { Nibble::XA }
        else if low == 0xB { Nibble::XB }
        else if low == 0xC { Nibble::XC }
        else if low == 0xD { Nibble::XD }
        else if low == 0xE { Nibble::XE }
        else { Nibble::XF }
    }

    /// Attempt to convert a [`u8`] to [`Nibble`]: only values below 16 have one.
    pub fn try_from_u8(v: u8) -> (r: Option<Self>)
        ensures
            v < 16 ==> r == Some(Self::spec_from_u8(v)) && r.unwrap()@ == v,
            v >= 16 ==> r.is_none(),
    {
        proof {
            broadcast use lemma_nibble_from_u8_view;
            assert(v < 16 ==> v & 0xF == v) by (bit_vector);
        }
        match v {
            0x0 => Some(Self::X0),
            0x1 => Some(Self::X1),
            0x2 => Some(Self::X2),
            0x3 => Some(Self::X3),
            0x4 => Some(Self::X4),
            0x5 => Some(Self::X5),
            0x6 => Some(Self::X6),
            0x7 => Some(Self::X7),
            0x8 => Some(Self::X8),
            0x9 => Some(Self::X9),
            0xA => Some(Self::XA),
            0xB => Some(Self::XB),
            0xC => Some(Self::XC),
            0xD => Some(Self::XD),
            0xE => Some(Self::XE),
            0xF => Some(Self::XF),
            _ => None,
        }
    }

    /// Convert the lower 4 bits of a [`u8`] to [`Nibble`].
    #[verifier::when_used_as_spec(spec_from_u8)]
    pub fn from_u8(v: u8) -> (r: Self)
        ensures
            r == Self::spec_from_u8(v),
            r@ == v & 0xF,
    {
        proof {
            broadcast use lemma_nibble_from_u8_view;
        }
        let low: u8 = v & 0x0F;
        assert(low < 16) by (bit_vector)
            requires
                low == v & 0x0F,
        ;
        match low {
            0x0 => Self::X0,
            0x1 => Self::X1,
            0x2 => Self::X2,
            0x3 => Self::X3,
            0x4 => Self::X4,
            0x5 => Self::X5,
            0x6 => Self::X6,
            0x7 => Self::X7,
            0x8 => Self::X8,
            0x9 => Self::X9,
            0xA => Self::XA,
            0xB => Self::XB,
            0xC => Self::XC,
            0xD => Self::XD,
            0xE => Self::XE,
            _ => Self::XF,
        }
    }

    /// The nibble holding the upper 4 bits of `v`.
    pub open spec fn spec_from_u8_upper(v: u8) -> Nibble {
        Self::spec_from_u8(v >> 4)
    }

    /// Convert the upper 4 bits of a [`u8`] to [`Nibble`].
    #[verifier::when_used_as_spec(spec_from_u8_upper)]
    pub fn from_u8_upper(v: u8) -> (r: Self)
        ensures
            r == Self::spec_from_u8_upper(v),
            r@ == v >> 4,
    {
        proof {
            broadcast use lemma_nibble_from_u8_view;
            assert((v >> 4) & 0xF == v >> 4) by (bit_vector);
        }
        Self::from_u8(v >> 4)
    }

    /// Converts [`Nibble`] to [`u8`].
    pub fn as_u8(self) -> (r: u8)
        ensures
            r == self@,
    {
        match self {
            Self::X0 => 0x0,
            Self::X1 => 0x1,
            Self::X2 => 0x2,
            Self::X3 => 0x3,
            Self::X4 => 0x4,
            Self::X5 => 0x5,
            Self::X6 => 0x6,
            Self::X7 => 0x7,
            Self::X8 => 0x8,
            Self::X9 => 0x9,
            Self::XA => 0xA,
            Self::XB => 0xB,
            Self::XC => 0xC,
            Self::XD => 0xD,
            Self::XE => 0xE,
            Self::XF => 0xF,
        }
    }

    /// Converts [`Nibble`] to [`u8`], shifted left by 4.
    pub fn as_u8_upper(self) -> (r: u8)
        ensures
            r == self@ * 16,
            r == self@ << 4,
    {
        let v = self.as_u8();
        assert(v < 16 ==> v << 4 == v * 16) by (bit_vector);
        v << 4
    }

    /// The byte with `self` in its lower 4 bits and `upper` in its upper 4 bits.
    pub open spec fn spec_compose(self, upper: Self) -> u8 {
        self@ | (upper@ << 4)
    }

    /// Composes `self` as lower 4 bits and `upper` as upper 4 bits into a [`u8`].
    #[verifier::when_used_as_spec(spec_compose)]
    pub fn compose(self, upper: Self) -> (r: u8)
        ensures
            r == self.spec_compose(upper),
            r == self@ + upper@ * 16,
            r & 0xF == self@,
            r >> 4 == upper@,
    {
        let lo = self.as_u8();
        let hi = upper.as_u8();
        assert(lo < 16 && hi < 16 ==> {
            &&& lo | (hi << 4) == lo + hi * 16
            &&& (lo | (hi << 4)) & 0xF == lo
            &&& (lo | (hi << 4)) >> 4 == hi
        }) by (bit_vector);
        lo | upper.as_u8_upper()
    }

    /// Whether the nibble is non-zero.
    pub fn to_bool(self) -> (r: bool)
        ensures
            r == (self@ != 0),
    {
        !matches!(self, Self::X0)
    }

    /// `X1` for `true`, `X0` for `false`.
    pub open spec fn spec_from_bool(v: bool) -> Nibble {
        if v { Nibble::X1 } else { Nibble::X0 }
    }

    /// `X1` for `true`, `X0` for `false`.
    #[verifier::when_used_as_spec(spec_from_bool)]
    pub fn from_bool(v: bool) -> (r: Self)
        ensures
            r == Self::spec_from_bool(v),
            r@ == (if v { 1u8 } else { 0u8 }),
    {
        if v {
            Self::X1
        } else {
            Self::X0
        }
    }
}

} // verus!
