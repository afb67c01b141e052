use vstd::prelude::*;

verus! {

/// Carry (bit 0 of the status word).
pub const FL_CARRY: u8 = 0x01;

/// Zero (bit 1).
pub const FL_ZERO: u8 = 0x02;

/// Interrupt-Disable (bit 2).
pub const FL_INTERRUPT_DISABLE: u8 = 0x04;

/// Decimal (bit 3): kept as a status bit, never used by arithmetic on the 2A03.
pub const FL_DECIMAL: u8 = 0x08;

/// Break (bit 4): only ever set in a copy of the status word pushed by PHP or BRK.
pub const FL_BRK: u8 = 0x10;

/// Unused (bit 5): reads as 1 in every pushed copy of the status word.
pub const FL_UNUSED: u8 = 0x20;

/// Overflow (bit 6).
pub const FL_OVERFLOW: u8 = 0x40;

/// Negative (bit 7).
pub const FL_SIGN: u8 = 0x80;

/// Whether the bits of `mask` are set in the status word `p`.
pub open spec fn flag_set(p: u8, mask: u8) -> bool {
    p & mask != 0
}

/// The status word `p` with the bits of `mask` set or cleared.
pub open spec fn with_flag(p: u8, mask: u8, on: bool) -> u8 {
    if on {
        p | mask
    } else {
        p & !mask
    }
}

/// Whether a byte is negative in two's complement, that is whether its bit 7 is set.
pub open spec fn is_negative(v: u8) -> bool {
    v >= 0x80
}

/// The status word `p` with Negative and Zero derived from the byte `v`.
pub open spec fn with_nz(p: u8, v: u8) -> u8 {
    with_flag(with_flag(p, FL_ZERO, v == 0), FL_SIGN, is_negative(v))
}

/// Whether two addresses lie on different 256-byte pages.
pub open spec fn crosses_page(a: u16, b: u16) -> bool {
    a / 256 != b / 256
}

/// The programmer-visible registers: accumulator, X, Y, stack pointer, program counter and
/// status word.
#[derive(Clone, Copy, Debug)]
pub struct Registers {
    pub acc: u8,
    pub irx: u8,
    pub iry: u8,
    pub sp: u8,
    pub pc: u16,
    pub stat: u8,
}

impl Registers {
    /// The power-up register file: all zero but the stack pointer (0xFD) and the status word
    /// (Interrupt-Disable and the unused bit 5 set).
    pub open spec fn initial() -> Registers {
        Registers { acc: 0, irx: 0, iry: 0, sp: 0xFD, pc: 0, stat: 0x24 }
    }

    pub fn new() -> (r: Registers)
        ensures
            r == Registers::initial(),
    {
        Registers { acc: 0, irx: 0, iry: 0, sp: 0xFD, pc: 0, stat: 0x24 }
    }

    pub fn get_flag(&self, mask: u8) -> (r: bool)
        ensures
            r == flag_set(self.stat, mask),
    {
        self.stat & mask != 0
    }

    pub fn set_flag(&mut self, mask: u8, on: bool)
        ensures
            *final(self) == (Registers { stat: with_flag(old(self).stat, mask, on), ..*old(self) }),
    {
        if on {
            self.stat = self.stat | mask;
        } else {
            self.stat = self.stat & !mask;
        }
    }

    /// Sets Negative from bit 7 of `v` and Zero from `v == 0`.
    pub fn set_sign_and_zero_flag(&mut self, v: u8)
        ensures
            *final(self) == (Registers { stat: with_nz(old(self).stat, v), ..*old(self) }),
    {
        self.set_flag(FL_ZERO, v == 0);
        self.set_flag(FL_SIGN, v >= 0x80);
    }

    /// Writes the accumulator and derives Negative and Zero from it.
    pub fn set_acc(&mut self, v: u8)
        ensures
            *final(self) == (Registers { acc: v, stat: with_nz(old(self).stat, v), ..*old(self) }),
    {
        self.acc = v;
        self.set_sign_and_zero_flag(v);
    }

    /// Whether the program counter now lies on another page than `old_pc`.
    pub fn page_boundary_crossed(&self, old_pc: u16) -> (r: bool)
        ensures
            r == crosses_page(old_pc, self.pc),
    {
        old_pc / 256 != self.pc / 256
    }
}

/// Negative and Zero read back from a status word that `with_nz` wrote: Negative is bit 7 of
/// the byte and Zero tells whether the byte is zero; the other six bits are kept.
pub proof fn lemma_sign_and_zero(p: u8, v: u8)
    ensures
        flag_set(with_nz(p, v), FL_SIGN) == (v & 0x80 == 0x80),
        flag_set(with_nz(p, v), FL_ZERO) == (v == 0),
        with_nz(p, v) & 0x3D == p & 0x3D,
{
    let z = v == 0;
    let n = v >= 0x80;
    assert(flag_set(with_flag(with_flag(p, 0x02, z), 0x80, n), 0x80) == n) by (bit_vector);
    assert(flag_set(with_flag(with_flag(p, 0x02, z), 0x80, n), 0x02) == z) by (bit_vector);
    assert(with_flag(with_flag(p, 0x02, z), 0x80, n) & 0x3D == p & 0x3D) by (bit_vector);
    assert((v & 0x80 == 0x80) == (v >= 0x80)) by (bit_vector);
}

} // verus!
