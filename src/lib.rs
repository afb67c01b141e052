//! A verified core of the NES's 2A03 processor (a 6502 without decimal arithmetic): the
//! register file, a flat 64 KiB memory, the decode table of the 151 documented opcodes, the
//! addressing modes, every instruction, interrupt entry and cycle accounting, each stated
//! against an abstract machine in `machine` and proved. A few registers of the picture and
//! audio units sit beside it.

use vstd::prelude::*;

pub mod cpu;
pub mod envelope;
pub mod instructions;
pub mod machine;
pub mod memory;
pub mod opcodes;
pub mod proofs;
pub mod registers;
pub mod status_register;
pub mod triangle_generator;

verus! {

} // verus!
