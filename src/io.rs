//! Input/output ports.
use vstd::prelude::*;

verus! {

/// A port number. Up to 65,536 ports exist; the first four are the processor's own.
#[derive(Debug, Clone, Copy, PartialEq, Eq, PartialOrd, Ord, Structural)]
pub struct Port(pub u16);

/// Numbers of the processor's own ports.
impl Port {
    /// Interrupt controller.
    pub const INT: u16 = 0;
    /// Input/output controller.
    pub const IO: u16 = 1;
    /// Memory management unit.
    pub const MMU: u16 = 2;
    /// System timer.
    pub const SYSTIMER: u16 = 3;
}

} // verus!
