//! Interrupt identifiers: an 8-bit code, carried in instructions as the low byte of a
//! 16-bit field whose high byte must be zero.
use vstd::prelude::*;

verus! {

/// An interrupt number.
#[derive(Debug, Clone, Copy, PartialEq, Eq, PartialOrd, Ord, Structural)]
pub struct Interrupt(pub u8);

/// Codes below this one are reserved by the processor.
pub const FIRST_UNRESERVED: u8 = 0x07;

/// Codes of the processor's reserved interrupts.
impl Interrupt {
    /// Triggers when the second argument of a div, mod, or rem instruction is zero.
    pub const DIVIDE_BY_ZERO: u8 = 0x00;
    /// Reserved for debugger breakpoints.
    pub const BREAK_POINT: u8 = 0x01;
    /// Triggers when a restricted or invalid operation occurs.
    pub const INVALID_OPERATION: u8 = 0x02;
    /// Triggers when `sp > fp`, which means a stack underflow has occurred.
    pub const STACK_UNDERFLOW: u8 = 0x03;
    /// Memory has been accessed across type width boundaries.
    pub const UNALIGNED_ACCESS: u8 = 0x04;
    /// Memory has been accessed in an invalid way.
    pub const ACCESS_VIOLATION: u8 = 0x05;
    /// The interrupt controller's queue has overflowed.
    pub const INTERRUPT_OVERFLOW: u8 = 0x06;

    /// Whether this is one of the processor's reserved interrupts (codes `0x00..=0x06`).
    pub fn is_reserved(self) -> (r: bool)
        ensures
            r == (self.0 < FIRST_UNRESERVED),
    {
        self.0 < FIRST_UNRESERVED
    }

    /// The interrupt held in a 16-bit field: present only when the high byte is zero.
    pub open spec fn spec_try_from_u16(value: u16) -> Option<Interrupt> {
        if value < 0x100 { Some(Interrupt(value as u8)) } else { None }
    }

    /// The interrupt held in a 16-bit field: present only when the high byte is zero.
    #[verifier::when_used_as_spec(spec_try_from_u16)]
    pub fn try_from_u16(value: u16) -> (r: Option<Self>)
        ensures
            r == Self::spec_try_from_u16(value),
            value < 0x100 ==> r == Some(Interrupt(value as u8)),
            value >= 0x100 ==> r.is_none(),
    {
        if value < 0x100 {
            Some(Interrupt(value as u8))
        } else {
            None
        }
    }
}

} // verus!
