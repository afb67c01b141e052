use vstd::prelude::*;

verus! {

/// The 56 documented 6502 mnemonics.
#[derive(Clone, Copy, Debug, PartialEq, Eq, Structural)]
pub enum Mnemonic {
    Adc, And, Asl, Bcc, Bcs, Beq, Bit, Bmi, Bne, Bpl, Brk, Bvc, Bvs, Clc,
    Cld, Cli, Clv, Cmp, Cpx, Cpy, Dec, Dex, Dey, Eor, Inc, Inx, Iny, Jmp,
    Jsr, Lda, Ldx, Ldy, Lsr, Nop, Ora, Pha, Php, Pla, Plp, Rol, Ror, Rti,
    Rts, Sbc, Sec, Sed, Sei, Sta, Stx, Sty, Tax, Tay, Tsx, Txa, Txs, Tya,
}

/// How an instruction finds its operand in the bytes that follow the opcode.
#[derive(Clone, Copy, Debug, PartialEq, Eq, Structural)]
pub enum Mode {
    Implied,
    Accumulator,
    Immediate,
    ZeroPage,
    ZeroPageX,
    ZeroPageY,
    Absolute,
    AbsoluteX,
    AbsoluteY,
    /// The pointer form of JMP, with the page-wrap of the NMOS part.
    Indirect,
    /// `(z,X)`
    IndexedIndirect,
    /// `(z),Y`
    IndirectIndexed,
    Relative,
}

/// Number of operand bytes that follow the opcode in a mode.
pub open spec fn operand_len(mode: Mode) -> int {
    match mode {
        Mode::Implied | Mode::Accumulator => 0,
        Mode::Absolute | Mode::AbsoluteX | Mode::AbsoluteY | Mode::Indirect => 2,
        _ => 1,
    }
}

/// One entry of the decode table.
#[derive(Clone, Copy, Debug, PartialEq, Eq, Structural)]
pub struct Instruction {
    pub mnemonic: Mnemonic,
    pub mode: Mode,
    /// Base cycle count.
    pub cycles: u8,
    /// Whether a page crossed while indexing costs one more cycle.
    pub page_penalty: bool,
}

pub open spec fn entry(mnemonic: Mnemonic, mode: Mode, cycles: u8, page_penalty: bool) -> Instruction {
    Instruction { mnemonic, mode, cycles, page_penalty }
}

impl Instruction {
    pub fn new(mnemonic: Mnemonic, mode: Mode, cycles: u8, page_penalty: bool) -> (r: Instruction)
        ensures
            r == entry(mnemonic, mode, cycles, page_penalty),
    {
        Instruction { mnemonic, mode, cycles, page_penalty }
    }
}

/// The decode table of the documented opcodes, with the base cycle counts of FCEU's table;
/// `None` for the opcodes that have no documented meaning.
#[verifier::opaque]
pub open spec fn opcode_entry(op: u8) -> Option<Instruction> {
    match op {
        0x00 => Some(entry(Mnemonic::Brk, Mode::Implied, 7, false)),
        0x01 => Some(entry(Mnemonic::Ora, Mode::IndexedIndirect, 6, false)),
        0x05 => Some(entry(Mnemonic::Ora, Mode::ZeroPage, 3, false)),
        0x06 => Some(entry(Mnemonic::Asl, Mode::ZeroPage, 5, false)),
        0x08 => Some(entry(Mnemonic::Php, Mode::Implied, 3, false)),
        0x09 => Some(entry(Mnemonic::Ora, Mode::Immediate, 2, false)),
        0x0A => Some(entry(Mnemonic::Asl, Mode::Accumulator, 2, false)),
        0x0D => Some(entry(Mnemonic::Ora, Mode::Absolute, 4, false)),
        0x0E => Some(entry(Mnemonic::Asl, Mode::Absolute, 6, false)),
        0x10 => Some(entry(Mnemonic::Bpl, Mode::Relative, 2, false)),
        0x11 => Some(entry(Mnemonic::Ora, Mode::IndirectIndexed, 5, true)),
        0x15 => Some(entry(Mnemonic::Ora, Mode::ZeroPageX, 4, false)),
        0x16 => Some(entry(Mnemonic::Asl, Mode::ZeroPageX, 6, false)),
        0x18 => Some(entry(Mnemonic::Clc, Mode::Implied, 2, false)),
        0x19 => Some(entry(Mnemonic::Ora, Mode::AbsoluteY, 4, true)),
        0x1D => Some(entry(Mnemonic::Ora, Mode::AbsoluteX, 4, true)),
        0x1E => Some(entry(Mnemonic::Asl, Mode::AbsoluteX, 7, false)),
        0x20 => Some(entry(Mnemonic::Jsr, Mode::Absolute, 6, false)),
        0x21 => Some(entry(Mnemonic::And, Mode::IndexedIndirect, 6, false)),
        0x24 => Some(entry(Mnemonic::Bit, Mode::ZeroPage, 3, false)),
        0x25 => Some(entry(Mnemonic::And, Mode::ZeroPage, 3, false)),
        0x26 => Some(entry(Mnemonic::Rol, Mode::ZeroPage, 5, false)),
        0x28 => Some(entry(Mnemonic::Plp, Mode::Implied, 4, false)),
        0x29 => Some(entry(Mnemonic::And, Mode::Immediate, 2, false)),
        0x2A => Some(entry(Mnemonic::Rol, Mode::Accumulator, 2, false)),
        0x2C => Some(entry(Mnemonic::Bit, Mode::Absolute, 4, false)),
        0x2D => Some(entry(Mnemonic::And, Mode::Absolute, 4, false)),
        0x2E => Some(entry(Mnemonic::Rol, Mode::Absolute, 6, false)),
        0x30 => Some(entry(Mnemonic::Bmi, Mode::Relative, 2, false)),
        0x31 => Some(entry(Mnemonic::And, Mode::IndirectIndexed, 5, true)),
        0x35 => Some(entry(Mnemonic::And, Mode::ZeroPageX, 4, false)),
        0x36 => Some(entry(Mnemonic::Rol, Mode::ZeroPageX, 6, false)),
        0x38 => Some(entry(Mnemonic::Sec, Mode::Implied, 2, false)),
        0x39 => Some(entry(Mnemonic::And, Mode::AbsoluteY, 4, true)),
        0x3D => Some(entry(Mnemonic::And, Mode::AbsoluteX, 4, true)),
        0x3E => Some(entry(Mnemonic::Rol, Mode::AbsoluteX, 7, false)),
        0x40 => Some(entry(Mnemonic::Rti, Mode::Implied, 6, false)),
        0x41 => Some(entry(Mnemonic::Eor, Mode::IndexedIndirect, 6, false)),
        0x45 => Some(entry(Mnemonic::Eor, Mode::ZeroPage, 3, false)),
        0x46 => Some(entry(Mnemonic::Lsr, Mode::ZeroPage, 5, false)),
        0x48 => Some(entry(Mnemonic::Pha, Mode::Implied, 3, false)),
        0x49 => Some(entry(Mnemonic::Eor, Mode::Immediate, 2, false)),
        0x4A => Some(entry(Mnemonic::Lsr, Mode::Accumulator, 2, false)),
        0x4C => Some(entry(Mnemonic::Jmp, Mode::Absolute, 3, false)),
        0x4D => Some(entry(Mnemonic::Eor, Mode::Absolute, 4, false)),
        0x4E => Some(entry(Mnemonic::Lsr, Mode::Absolute, 6, false)),
        0x50 => Some(entry(Mnemonic::Bvc, Mode::Relative, 2, false)),
        0x51 => Some(entry(Mnemonic::Eor, Mode::IndirectIndexed, 5, true)),
        0x55 => Some(entry(Mnemonic::Eor, Mode::ZeroPageX, 4, false)),
        0x56 => Some(entry(Mnemonic::Lsr, Mode::ZeroPageX, 6, false)),
        0x58 => Some(entry(Mnemonic::Cli, Mode::Implied, 2, false)),
        0x59 => Some(entry(Mnemonic::Eor, Mode::AbsoluteY, 4, true)),
        0x5D => Some(entry(Mnemonic::Eor, Mode::AbsoluteX, 4, true)),
        0x5E => Some(entry(Mnemonic::Lsr, Mode::AbsoluteX, 7, false)),
        0x60 => Some(entry(Mnemonic::Rts, Mode::Implied, 6, false)),
        0x61 => Some(entry(Mnemonic::Adc, Mode::IndexedIndirect, 6, false)),
        0x65 => Some(entry(Mnemonic::Adc, Mode::ZeroPage, 3, false)),
        0x66 => Some(entry(Mnemonic::Ror, Mode::ZeroPage, 5, false)),
        0x68 => Some(entry(Mnemonic::Pla, Mode::Implied, 4, false)),
        0x69 => Some(entry(Mnemonic::Adc, Mode::Immediate, 2, false)),
        0x6A => Some(entry(Mnemonic::Ror, Mode::Accumulator, 2, false)),
        0x6C => Some(entry(Mnemonic::Jmp, Mode::Indirect, 5, false)),
        0x6D => Some(entry(Mnemonic::Adc, Mode::Absolute, 4, false)),
        0x6E => Some(entry(Mnemonic::Ror, Mode::Absolute, 6, false)),
        0x70 => Some(entry(Mnemonic::Bvs, Mode::Relative, 2, false)),
        0x71 => Some(entry(Mnemonic::Adc, Mode::IndirectIndexed, 5, true)),
        0x75 => Some(entry(Mnemonic::Adc, Mode::ZeroPageX, 4, false)),
        0x76 => Some(entry(Mnemonic::Ror, Mode::ZeroPageX, 6, false)),
        0x78 => Some(entry(Mnemonic::Sei, Mode::Implied, 2, false)),
        0x79 => Some(entry(Mnemonic::Adc, Mode::AbsoluteY, 4, true)),
        0x7D => Some(entry(Mnemonic::Adc, Mode::AbsoluteX, 4, true)),
        0x7E => Some(entry(Mnemonic::Ror, Mode::AbsoluteX, 7, false)),
        0x81 => Some(entry(Mnemonic::Sta, Mode::IndexedIndirect, 6, false)),
        0x84 => Some(entry(Mnemonic::Sty, Mode::ZeroPage, 3, false)),
        0x85 => Some(entry(Mnemonic::Sta, Mode::ZeroPage, 3, false)),
        0x86 => Some(entry(Mnemonic::Stx, Mode::ZeroPage, 3, false)),
        0x88 => Some(entry(Mnemonic::Dey, Mode::Implied, 2, false)),
        0x8A => Some(entry(Mnemonic::Txa, Mode::Implied, 2, false)),
        0x8C => Some(entry(Mnemonic::Sty, Mode::Absolute, 4, false)),
        0x8D => Some(entry(Mnemonic::Sta, Mode::Absolute, 4, false)),
        0x8E => Some(entry(Mnemonic::Stx, Mode::Absolute, 4, false)),
        0x90 => Some(entry(Mnemonic::Bcc, Mode::Relative, 2, false)),
        0x91 => Some(entry(Mnemonic::Sta, Mode::IndirectIndexed, 6, false)),
        0x94 => Some(entry(Mnemonic::Sty, Mode::ZeroPageX, 4, false)),
        0x95 => Some(entry(Mnemonic::Sta, Mode::ZeroPageX, 4, false)),
        0x96 => Some(entry(Mnemonic::Stx, Mode::ZeroPageY, 4, false)),
        0x98 => Some(entry(Mnemonic::Tya, Mode::Implied, 2, false)),
        0x99 => Some(entry(Mnemonic::Sta, Mode::AbsoluteY, 5, false)),
        0x9A => Some(entry(Mnemonic::Txs, Mode::Implied, 2, false)),
        0x9D => Some(entry(Mnemonic::Sta, Mode::AbsoluteX, 5, false)),
        0xA0 => Some(entry(Mnemonic::Ldy, Mode::Immediate, 2, false)),
        0xA1 => Some(entry(Mnemonic::Lda, Mode::IndexedIndirect, 6, false)),
        0xA2 => Some(entry(Mnemonic::Ldx, Mode::Immediate, 2, false)),
        0xA4 => Some(entry(Mnemonic::Ldy, Mode::ZeroPage, 3, false)),
        0xA5 => Some(entry(Mnemonic::Lda, Mode::ZeroPage, 3, false)),
        0xA6 => Some(entry(Mnemonic::Ldx, Mode::ZeroPage, 3, false)),
        0xA8 => Some(entry(Mnemonic::Tay, Mode::Implied, 2, false)),
        0xA9 => Some(entry(Mnemonic::Lda, Mode::Immediate, 2, false)),
        0xAA => Some(entry(Mnemonic::Tax, Mode::Implied, 2, false)),
        0xAC => Some(entry(Mnemonic::Ldy, Mode::Absolute, 4, false)),
        0xAD => Some(entry(Mnemonic::Lda, Mode::Absolute, 4, false)),
        0xAE => Some(entry(Mnemonic::Ldx, Mode::Absolute, 4, false)),
        0xB0 => Some(entry(Mnemonic::Bcs, Mode::Relative, 2, false)),
        0xB1 => Some(entry(Mnemonic::Lda, Mode::IndirectIndexed, 5, true)),
        0xB4 => Some(entry(Mnemonic::Ldy, Mode::ZeroPageX, 4, false)),
        0xB5 => Some(entry(Mnemonic::Lda, Mode::ZeroPageX, 4, false)),
        0xB6 => Some(entry(Mnemonic::Ldx, Mode::ZeroPageY, 4, false)),
        0xB8 => Some(entry(Mnemonic::Clv, Mode::Implied, 2, false)),
        0xB9 => Some(entry(Mnemonic::Lda, Mode::AbsoluteY, 4, true)),
        0xBA => Some(entry(Mnemonic::Tsx, Mode::Implied, 2, false)),
        0xBC => Some(entry(Mnemonic::Ldy, Mode::AbsoluteX, 4, true)),
        0xBD => Some(entry(Mnemonic::Lda, Mode::AbsoluteX, 4, true)),
        0xBE => Some(entry(Mnemonic::Ldx, Mode::AbsoluteY, 4, true)),
        0xC0 => Some(entry(Mnemonic::Cpy, Mode::Immediate, 2, false)),
        0xC1 => Some(entry(Mnemonic::Cmp, Mode::IndexedIndirect, 6, false)),
        0xC4 => Some(entry(Mnemonic::Cpy, Mode::ZeroPage, 3, false)),
        0xC5 => Some(entry(Mnemonic::Cmp, Mode::ZeroPage, 3, false)),
        0xC6 => Some(entry(Mnemonic::Dec, Mode::ZeroPage, 5, false)),
        0xC8 => Some(entry(Mnemonic::Iny, Mode::Implied, 2, false)),
        0xC9 => Some(entry(Mnemonic::Cmp, Mode::Immediate, 2, false)),
        0xCA => Some(entry(Mnemonic::Dex, Mode::Implied, 2, false)),
        0xCC => Some(entry(Mnemonic::Cpy, Mode::Absolute, 4, false)),
        0xCD => Some(entry(Mnemonic::Cmp, Mode::Absolute, 4, false)),
        0xCE => Some(entry(Mnemonic::Dec, Mode::Absolute, 6, false)),
        0xD0 => Some(entry(Mnemonic::Bne, Mode::Relative, 2, false)),
        0xD1 => Some(entry(Mnemonic::Cmp, Mode::IndirectIndexed, 5, true)),
        0xD5 => Some(entry(Mnemonic::Cmp, Mode::ZeroPageX, 4, false)),
        0xD6 => Some(entry(Mnemonic::Dec, Mode::ZeroPageX, 6, false)),
        0xD8 => Some(entry(Mnemonic::Cld, Mode::Implied, 2, false)),
        0xD9 => Some(entry(Mnemonic::Cmp, Mode::AbsoluteY, 4, true)),
        0xDD => Some(entry(Mnemonic::Cmp, Mode::AbsoluteX, 4, true)),
        0xDE => Some(entry(Mnemonic::Dec, Mode::AbsoluteX, 7, false)),
        0xE0 => Some(entry(Mnemonic::Cpx, Mode::Immediate, 2, false)),
        0xE1 => Some(entry(Mnemonic::Sbc, Mode::IndexedIndirect, 6, false)),
        0xE4 => Some(entry(Mnemonic::Cpx, Mode::ZeroPage, 3, false)),
        0xE5 => Some(entry(Mnemonic::Sbc, Mode::ZeroPage, 3, false)),
        0xE6 => Some(entry(Mnemonic::Inc, Mode::ZeroPage, 5, false)),
        0xE8 => Some(entry(Mnemonic::Inx, Mode::Implied, 2, false)),
        0xE9 => Some(entry(Mnemonic::Sbc, Mode::Immediate, 2, false)),
        0xEA => Some(entry(Mnemonic::Nop, Mode::Implied, 2, false)),
        0xEC => Some(entry(Mnemonic::Cpx, Mode::Absolute, 4, false)),
        0xED => Some(entry(Mnemonic::Sbc, Mode::Absolute, 4, false)),
        0xEE => Some(entry(Mnemonic::Inc, Mode::Absolute, 6, false)),
        0xF0 => Some(entry(Mnemonic::Beq, Mode::Relative, 2, false)),
        0xF1 => Some(entry(Mnemonic::Sbc, Mode::IndirectIndexed, 5, true)),
        0xF5 => Some(entry(Mnemonic::Sbc, Mode::ZeroPageX, 4, false)),
        0xF6 => Some(entry(Mnemonic::Inc, Mode::ZeroPageX, 6, false)),
        0xF8 => Some(entry(Mnemonic::Sed, Mode::Implied, 2, false)),
        0xF9 => Some(entry(Mnemonic::Sbc, Mode::AbsoluteY, 4, true)),
        0xFD => Some(entry(Mnemonic::Sbc, Mode::AbsoluteX, 4, true)),
        0xFE => Some(entry(Mnemonic::Inc, Mode::AbsoluteX, 7, false)),
        _ => None,
    }
}

/// Looks an opcode up in the decode table.
pub fn decode(op: u8) -> (r: Option<Instruction>)
    ensures
        r == opcode_entry(op),
        r matches Some(i) ==> i.cycles <= 7,
{
    reveal(opcode_entry);
    match op {
        0x00 => Some(Instruction::new(Mnemonic::Brk, Mode::Implied, 7, false)),
        0x01 => Some(Instruction::new(Mnemonic::Ora, Mode::IndexedIndirect, 6, false)),
        0x05 => Some(Instruction::new(Mnemonic::Ora, Mode::ZeroPage, 3, false)),
        0x06 => Some(Instruction::new(Mnemonic::Asl, Mode::ZeroPage, 5, false)),
        0x08 => Some(Instruction::new(Mnemonic::Php, Mode::Implied, 3, false)),
        0x09 => Some(Instruction::new(Mnemonic::Ora, Mode::Immediate, 2, false)),
        0x0A => Some(Instruction::new(Mnemonic::Asl, Mode::Accumulator, 2, false)),
        0x0D => Some(Instruction::new(Mnemonic::Ora, Mode::Absolute, 4, false)),
        0x0E => Some(Instruction::new(Mnemonic::Asl, Mode::Absolute, 6, false)),
        0x10 => Some(Instruction::new(Mnemonic::Bpl, Mode::Relative, 2, false)),
        0x11 => Some(Instruction::new(Mnemonic::Ora, Mode::IndirectIndexed, 5, true)),
        0x15 => Some(Instruction::new(Mnemonic::Ora, Mode::ZeroPageX, 4, false)),
        0x16 => Some(Instruction::new(Mnemonic::Asl, Mode::ZeroPageX, 6, false)),
        0x18 => Some(Instruction::new(Mnemonic::Clc, Mode::Implied, 2, false)),
        0x19 => Some(Instruction::new(Mnemonic::Ora, Mode::AbsoluteY, 4, true)),
        0x1D => Some(Instruction::new(Mnemonic::Ora, Mode::AbsoluteX, 4, true)),
        0x1E => Some(Instruction::new(Mnemonic::Asl, Mode::AbsoluteX, 7, false)),
        0x20 => Some(Instruction::new(Mnemonic::Jsr, Mode::Absolute, 6, false)),
        0x21 => Some(Instruction::new(Mnemonic::And, Mode::IndexedIndirect, 6, false)),
        0x24 => Some(Instruction::new(Mnemonic::Bit, Mode::ZeroPage, 3, false)),
        0x25 => Some(Instruction::new(Mnemonic::And, Mode::ZeroPage, 3, false)),
        0x26 => Some(Instruction::new(Mnemonic::Rol, Mode::ZeroPage, 5, false)),
        0x28 => Some(Instruction::new(Mnemonic::Plp, Mode::Implied, 4, false)),
        0x29 => Some(Instruction::new(Mnemonic::And, Mode::Immediate, 2, false)),
        0x2A => Some(Instruction::new(Mnemonic::Rol, Mode::Accumulator, 2, false)),
        0x2C => Some(Instruction::new(Mnemonic::Bit, Mode::Absolute, 4, false)),
        0x2D => Some(Instruction::new(Mnemonic::And, Mode::Absolute, 4, false)),
        0x2E => Some(Instruction::new(Mnemonic::Rol, Mode::Absolute, 6, false)),
        0x30 => Some(Instruction::new(Mnemonic::Bmi, Mode::Relative, 2, false)),
        0x31 => Some(Instruction::new(Mnemonic::And, Mode::IndirectIndexed, 5, true)),
        0x35 => Some(Instruction::new(Mnemonic::And, Mode::ZeroPageX, 4, false)),
        0x36 => Some(Instruction::new(Mnemonic::Rol, Mode::ZeroPageX, 6, false)),
        0x38 => Some(Instruction::new(Mnemonic::Sec, Mode::Implied, 2, false)),
        0x39 => Some(Instruction::new(Mnemonic::And, Mode::AbsoluteY, 4, true)),
        0x3D => Some(Instruction::new(Mnemonic::And, Mode::AbsoluteX, 4, true)),
        0x3E => Some(Instruction::new(Mnemonic::Rol, Mode::AbsoluteX, 7, false)),
        0x40 => Some(Instruction::new(Mnemonic::Rti, Mode::Implied, 6, false)),
        0x41 => Some(Instruction::new(Mnemonic::Eor, Mode::IndexedIndirect, 6, false)),
        0x45 => Some(Instruction::new(Mnemonic::Eor, Mode::ZeroPage, 3, false)),
        0x46 => Some(Instruction::new(Mnemonic::Lsr, Mode::ZeroPage, 5, false)),
        0x48 => Some(Instruction::new(Mnemonic::Pha, Mode::Implied, 3, false)),
        0x49 => Some(Instruction::new(Mnemonic::Eor, Mode::Immediate, 2, false)),
        0x4A => Some(Instruction::new(Mnemonic::Lsr, Mode::Accumulator, 2, false)),
        0x4C => Some(Instruction::new(Mnemonic::Jmp, Mode::Absolute, 3, false)),
        0x4D => Some(Instruction::new(Mnemonic::Eor, Mode::Absolute, 4, false)),
        0x4E => Some(Instruction::new(Mnemonic::Lsr, Mode::Absolute, 6, false)),
        0x50 => Some(Instruction::new(Mnemonic::Bvc, Mode::Relative, 2, false)),
        0x51 => Some(Instruction::new(Mnemonic::Eor, Mode::IndirectIndexed, 5, true)),
        0x55 => Some(Instruction::new(Mnemonic::Eor, Mode::ZeroPageX, 4, false)),
        0x56 => Some(Instruction::new(Mnemonic::Lsr, Mode::ZeroPageX, 6, false)),
        0x58 => Some(Instruction::new(Mnemonic::Cli, Mode::Implied, 2, false)),
        0x59 => Some(Instruction::new(Mnemonic::Eor, Mode::AbsoluteY, 4, true)),
        0x5D => Some(Instruction::new(Mnemonic::Eor, Mode::AbsoluteX, 4, true)),
        0x5E => Some(Instruction::new(Mnemonic::Lsr, Mode::AbsoluteX, 7, false)),
        0x60 => Some(Instruction::new(Mnemonic::Rts, Mode::Implied, 6, false)),
        0x61 => Some(Instruction::new(Mnemonic::Adc, Mode::IndexedIndirect, 6, false)),
        0x65 => Some(Instruction::new(Mnemonic::Adc, Mode::ZeroPage, 3, false)),
        0x66 => Some(Instruction::new(Mnemonic::Ror, Mode::ZeroPage, 5, false)),
        0x68 => Some(Instruction::new(Mnemonic::Pla, Mode::Implied, 4, false)),
        0x69 => Some(Instruction::new(Mnemonic::Adc, Mode::Immediate, 2, false)),
        0x6A => Some(Instruction::new(Mnemonic::Ror, Mode::Accumulator, 2, false)),
        0x6C => Some(Instruction::new(Mnemonic::Jmp, Mode::Indirect, 5, false)),
        0x6D => Some(Instruction::new(Mnemonic::Adc, Mode::Absolute, 4, false)),
        0x6E => Some(Instruction::new(Mnemonic::Ror, Mode::Absolute, 6, false)),
        0x70 => Some(Instruction::new(Mnemonic::Bvs, Mode::Relative, 2, false)),
        0x71 => Some(Instruction::new(Mnemonic::Adc, Mode::IndirectIndexed, 5, true)),
        0x75 => Some(Instruction::new(Mnemonic::Adc, Mode::ZeroPageX, 4, false)),
        0x76 => Some(Instruction::new(Mnemonic::Ror, Mode::ZeroPageX, 6, false)),
        0x78 => Some(Instruction::new(Mnemonic::Sei, Mode::Implied, 2, false)),
        0x79 => Some(Instruction::new(Mnemonic::Adc, Mode::AbsoluteY, 4, true)),
        0x7D => Some(Instruction::new(Mnemonic::Adc, Mode::AbsoluteX, 4, true)),
        0x7E => Some(Instruction::new(Mnemonic::Ror, Mode::AbsoluteX, 7, false)),
        0x81 => Some(Instruction::new(Mnemonic::Sta, Mode::IndexedIndirect, 6, false)),
        0x84 => Some(Instruction::new(Mnemonic::Sty, Mode::ZeroPage, 3, false)),
        0x85 => Some(Instruction::new(Mnemonic::Sta, Mode::ZeroPage, 3, false)),
        0x86 => Some(Instruction::new(Mnemonic::Stx, Mode::ZeroPage, 3, false)),
        0x88 => Some(Instruction::new(Mnemonic::Dey, Mode::Implied, 2, false)),
        0x8A => Some(Instruction::new(Mnemonic::Txa, Mode::Implied, 2, false)),
        0x8C => Some(Instruction::new(Mnemonic::Sty, Mode::Absolute, 4, false)),
        0x8D => Some(Instruction::new(Mnemonic::Sta, Mode::Absolute, 4, false)),
        0x8E => Some(Instruction::new(Mnemonic::Stx, Mode::Absolute, 4, false)),
        0x90 => Some(Instruction::new(Mnemonic::Bcc, Mode::Relative, 2, false)),
        0x91 => Some(Instruction::new(Mnemonic::Sta, Mode::IndirectIndexed, 6, false)),
        0x94 => Some(Instruction::new(Mnemonic::Sty, Mode::ZeroPageX, 4, false)),
        0x95 => Some(Instruction::new(Mnemonic::Sta, Mode::ZeroPageX, 4, false)),
        0x96 => Some(Instruction::new(Mnemonic::Stx, Mode::ZeroPageY, 4, false)),
        0x98 => Some(Instruction::new(Mnemonic::Tya, Mode::Implied, 2, false)),
        0x99 => Some(Instruction::new(Mnemonic::Sta, Mode::AbsoluteY, 5, false)),
        0x9A => Some(Instruction::new(Mnemonic::Txs, Mode::Implied, 2, false)),
        0x9D => Some(Instruction::new(Mnemonic::Sta, Mode::AbsoluteX, 5, false)),
        0xA0 => Some(Instruction::new(Mnemonic::Ldy, Mode::Immediate, 2, false)),
        0xA1 => Some(Instruction::new(Mnemonic::Lda, Mode::IndexedIndirect, 6, false)),
        0xA2 => Some(Instruction::new(Mnemonic::Ldx, Mode::Immediate, 2, false)),
        0xA4 => Some(Instruction::new(Mnemonic::Ldy, Mode::ZeroPage, 3, false)),
        0xA5 => Some(Instruction::new(Mnemonic::Lda, Mode::ZeroPage, 3, false)),
        0xA6 => Some(Instruction::new(Mnemonic::Ldx, Mode::ZeroPage, 3, false)),
        0xA8 => Some(Instruction::new(Mnemonic::Tay, Mode::Implied, 2, false)),
        0xA9 => Some(Instruction::new(Mnemonic::Lda, Mode::Immediate, 2, false)),
        0xAA => Some(Instruction::new(Mnemonic::Tax, Mode::Implied, 2, false)),
        0xAC => Some(Instruction::new(Mnemonic::Ldy, Mode::Absolute, 4, false)),
        0xAD => Some(Instruction::new(Mnemonic::Lda, Mode::Absolute, 4, false)),
        0xAE => Some(Instruction::new(Mnemonic::Ldx, Mode::Absolute, 4, false)),
        0xB0 => Some(Instruction::new(Mnemonic::Bcs, Mode::Relative, 2, false)),
        0xB1 => Some(Instruction::new(Mnemonic::Lda, Mode::IndirectIndexed, 5, true)),
        0xB4 => Some(Instruction::new(Mnemonic::Ldy, Mode::ZeroPageX, 4, false)),
        0xB5 => Some(Instruction::new(Mnemonic::Lda, Mode::ZeroPageX, 4, false)),
        0xB6 => Some(Instruction::new(Mnemonic::Ldx, Mode::ZeroPageY, 4, false)),
        0xB8 => Some(Instruction::new(Mnemonic::Clv, Mode::Implied, 2, false)),
        0xB9 => Some(Instruction::new(Mnemonic::Lda, Mode::AbsoluteY, 4, true)),
        0xBA => Some(Instruction::new(Mnemonic::Tsx, Mode::Implied, 2, false)),
        0xBC => Some(Instruction::new(Mnemonic::Ldy, Mode::AbsoluteX, 4, true)),
        0xBD => Some(Instruction::new(Mnemonic::Lda, Mode::AbsoluteX, 4, true)),
        0xBE => Some(Instruction::new(Mnemonic::Ldx, Mode::AbsoluteY, 4, true)),
        0xC0 => Some(Instruction::new(Mnemonic::Cpy, Mode::Immediate, 2, false)),
        0xC1 => Some(Instruction::new(Mnemonic::Cmp, Mode::IndexedIndirect, 6, false)),
        0xC4 => Some(Instruction::new(Mnemonic::Cpy, Mode::ZeroPage, 3, false)),
        0xC5 => Some(Instruction::new(Mnemonic::Cmp, Mode::ZeroPage, 3, false)),
        0xC6 => Some(Instruction::new(Mnemonic::Dec, Mode::ZeroPage, 5, false)),
        0xC8 => Some(Instruction::new(Mnemonic::Iny, Mode::Implied, 2, false)),
        0xC9 => Some(Instruction::new(Mnemonic::Cmp, Mode::Immediate, 2, false)),
        0xCA => Some(Instruction::new(Mnemonic::Dex, Mode::Implied, 2, false)),
        0xCC => Some(Instruction::new(Mnemonic::Cpy, Mode::Absolute, 4, false)),
        0xCD => Some(Instruction::new(Mnemonic::Cmp, Mode::Absolute, 4, false)),
        0xCE => Some(Instruction::new(Mnemonic::Dec, Mode::Absolute, 6, false)),
        0xD0 => Some(Instruction::new(Mnemonic::Bne, Mode::Relative, 2, false)),
        0xD1 => Some(Instruction::new(Mnemonic::Cmp, Mode::IndirectIndexed, 5, true)),
        0xD5 => Some(Instruction::new(Mnemonic::Cmp, Mode::ZeroPageX, 4, false)),
        0xD6 => Some(Instruction::new(Mnemonic::Dec, Mode::ZeroPageX, 6, false)),
        0xD8 => Some(Instruction::new(Mnemonic::Cld, Mode::Implied, 2, false)),
        0xD9 => Some(Instruction::new(Mnemonic::Cmp, Mode::AbsoluteY, 4, true)),
        0xDD => Some(Instruction::new(Mnemonic::Cmp, Mode::AbsoluteX, 4, true)),
        0xDE => Some(Instruction::new(Mnemonic::Dec, Mode::AbsoluteX, 7, false)),
        0xE0 => Some(Instruction::new(Mnemonic::Cpx, Mode::Immediate, 2, false)),
        0xE1 => Some(Instruction::new(Mnemonic::Sbc, Mode::IndexedIndirect, 6, false)),
        0xE4 => Some(Instruction::new(Mnemonic::Cpx, Mode::ZeroPage, 3, false)),
        0xE5 => Some(Instruction::new(Mnemonic::Sbc, Mode::ZeroPage, 3, false)),
        0xE6 => Some(Instruction::new(Mnemonic::Inc, Mode::ZeroPage, 5, false)),
        0xE8 => Some(Instruction::new(Mnemonic::Inx, Mode::Implied, 2, false)),
        0xE9 => Some(Instruction::new(Mnemonic::Sbc, Mode::Immediate, 2, false)),
        0xEA => Some(Instruction::new(Mnemonic::Nop, Mode::Implied, 2, false)),
        0xEC => Some(Instruction::new(Mnemonic::Cpx, Mode::Absolute, 4, false)),
        0xED => Some(Instruction::new(Mnemonic::Sbc, Mode::Absolute, 4, false)),
        0xEE => Some(Instruction::new(Mnemonic::Inc, Mode::Absolute, 6, false)),
        0xF0 => Some(Instruction::new(Mnemonic::Beq, Mode::Relative, 2, false)),
        0xF1 => Some(Instruction::new(Mnemonic::Sbc, Mode::IndirectIndexed, 5, true)),
        0xF5 => Some(Instruction::new(Mnemonic::Sbc, Mode::ZeroPageX, 4, false)),
        0xF6 => Some(Instruction::new(Mnemonic::Inc, Mode::ZeroPageX, 6, false)),
        0xF8 => Some(Instruction::new(Mnemonic::Sed, Mode::Implied, 2, false)),
        0xF9 => Some(Instruction::new(Mnemonic::Sbc, Mode::AbsoluteY, 4, true)),
        0xFD => Some(Instruction::new(Mnemonic::Sbc, Mode::AbsoluteX, 4, true)),
        0xFE => Some(Instruction::new(Mnemonic::Inc, Mode::AbsoluteX, 7, false)),
        _ => None,
    }
}

} // verus!
