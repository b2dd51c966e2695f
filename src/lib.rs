//! Binary instruction encoding of a 64-bit RISC instruction set: nibbles, registers,
//! bit-slice access, carry-aware arithmetic, the five instruction formats and the
//! tagged union of every operation, each with a proved contract.
pub mod nibble;
pub mod registers;
pub mod interrupt;
pub mod io;
pub mod helper;
pub mod instruction;
