use vstd::prelude::*;

use crate::machine::{
    adc_regs, add16, after_pop, after_pop16, bit_regs, branch_condition, branch_cycles,
    branch_effect, compare_regs, current_opcode, dec8, effective, execute_spec, fetched, inc8, interrupt_entry,
    irq_active, irq_spec, jmp_indirect_target, load_a, load_x, load_y, nmi_spec, perform, plp_status, pop16_value,
    pop_value, push, push16, pushed_status, reset_spec, rti_status, sbc_regs, service_spec,
    shift_regs, shifted, step_spec, store, with_pc, with_regs, with_status, CpuState,
    BRK_VECTOR, NMI_VECTOR, RESET_VECTOR, STACK_LOC,
};
use crate::memory::{word_at, SimpleMemory};
use crate::opcodes::{decode, opcode_entry, operand_len, Instruction, Mnemonic, Mode};
use crate::registers::{
    crosses_page, flag_set, with_flag, with_nz, Registers, FL_CARRY, FL_DECIMAL, FL_INTERRUPT_DISABLE, FL_OVERFLOW,
    FL_BRK, FL_SIGN, FL_UNUSED, FL_ZERO,
};

verus! {

/// A fatal condition met while executing.
#[derive(Clone, Copy, Debug, PartialEq, Eq, Structural)]
pub enum CpuError {
    /// The opcode `opcode` at `pc` has no documented meaning.
    IllegalOpcode { opcode: u8, pc: u16 },
}

/// The 2A03 core: registers, the cycle tally, the memory it runs on and the two interrupt
/// inputs.
///
/// The stack wraps within page 1 as the hardware does: a push at S = 0 writes 0x0100 and
/// leaves S = 0xFF, a pop at S = 0xFF reads 0x0100 and leaves S = 0.
pub struct Cpu6502 {
    pub cycles: u64,
    pub registers: Registers,
    pub memory: SimpleMemory,
    /// Set by the bus on an NMI edge; consumed when the NMI is serviced.
    pub nmi_pending: bool,
    /// The level of the IRQ line, true while it is held low.
    pub irq_line_low: bool,
}

impl View for Cpu6502 {
    type V = CpuState;

    open spec fn view(&self) -> CpuState {
        CpuState {
            regs: self.registers,
            mem: self.memory@,
            cycles: self.cycles as int,
            nmi_pending: self.nmi_pending,
            irq_line_low: self.irq_line_low,
        }
    }
}

impl Cpu6502 {
    pub open spec fn wf(&self) -> bool {
        self.memory.wf()
    }

    /// A processor at power-up on a memory of zeros.
    pub fn new() -> (r: Cpu6502)
        ensures
            r.wf(),
            r.registers == Registers::initial(),
            r.cycles == 0,
            r.memory@ == Seq::new(65536, |i: int| 0u8),
            !r.nmi_pending,
            !r.irq_line_low,
    {
        Cpu6502 {
            cycles: 0,
            registers: Registers::new(),
            memory: SimpleMemory::new(),
            nmi_pending: false,
            irq_line_low: false,
        }
    }

    /// Fetches the byte at PC and moves PC past it.
    fn read_op(&mut self) -> (r: u8)
        requires
            old(self).wf(),
        ensures
            final(self).wf(),
            r == old(self)@.mem[old(self).registers.pc as int],
            final(self)@ == with_pc(old(self)@, add16(old(self).registers.pc, 1)),
    {
        let pc = self.registers.pc;
        let operand = self.memory.read(pc);
        self.registers.pc = if pc == 0xFFFF {
            0
        } else {
            pc + 1
        };
        operand
    }

    /// Fetches the little-endian word at PC and moves PC past it.
    fn read_op16(&mut self) -> (r: u16)
        requires
            old(self).wf(),
        ensures
            final(self).wf(),
            r == word_at(old(self)@.mem, old(self).registers.pc),
            final(self)@ == with_pc(old(self)@, add16(old(self).registers.pc, 2)),
    {
        let pc = self.registers.pc;
        let operand = self.memory.read16(pc);
        self.registers.pc = ((pc as u32 + 2) % 65536) as u16;
        operand
    }

    pub fn push_stack(&mut self, value: u8)
        requires
            old(self).wf(),
        ensures
            final(self).wf(),
            final(self)@ == push(old(self)@, value),
    {
        let sp = self.registers.sp;
        self.memory.write(STACK_LOC + sp as u16, value);
        self.registers.sp = if sp == 0 {
            255
        } else {
            sp - 1
        };
    }

    /// The byte that the next pop returns.
    pub fn peek_stack(&self) -> (r: u8)
        requires
            self.wf(),
        ensures
            r == pop_value(self@),
    {
        let sp = self.registers.sp;
        let top: u8 = if sp == 255 {
            0
        } else {
            sp + 1
        };
        self.memory.read(STACK_LOC + top as u16)
    }

    pub fn pop_stack(&mut self) -> (r: u8)
        requires
            old(self).wf(),
        ensures
            final(self).wf(),
            r == pop_value(old(self)@),
            final(self)@ == after_pop(old(self)@),
    {
        let val = self.peek_stack();
        let sp = self.registers.sp;
        self.registers.sp = if sp == 255 {
            0
        } else {
            sp + 1
        };
        val
    }

    /// Pushes a word, high byte first.
    pub fn push_stack16(&mut self, value: u16)
        requires
            old(self).wf(),
        ensures
            final(self).wf(),
            final(self)@ == push16(old(self)@, value),
    {
        self.push_stack((value / 256) as u8);
        self.push_stack((value % 256) as u8);
    }

    /// The word that the next two pops return.
    pub fn peek_stack16(&self) -> (r: u16)
        requires
            self.wf(),
        ensures
            r == pop16_value(self@),
    {
        let sp = self.registers.sp;
        let lo_at: u8 = if sp == 255 {
            0
        } else {
            sp + 1
        };
        let hi_at: u8 = if lo_at == 255 {
            0
        } else {
            lo_at + 1
        };
        let lo = self.memory.read(STACK_LOC + lo_at as u16);
        let hi = self.memory.read(STACK_LOC + hi_at as u16);
        lo as u16 + (hi as u16) * 256
    }

    /// Pops a word, low byte first.
    pub fn pop_stack16(&mut self) -> (r: u16)
        requires
            old(self).wf(),
        ensures
            final(self).wf(),
            r == pop16_value(old(self)@),
            final(self)@ == after_pop16(old(self)@),
    {
        let lo = self.pop_stack();
        let hi = self.pop_stack();
        lo as u16 + (hi as u16) * 256
    }
}

impl Cpu6502 {
    /// Shared by ADC and SBC: adds `rop` and C to A, sets C from bit 8 of the sum and V from
    /// the signs of A, `rop` and the result.
    fn adc_sbc_base(&mut self, rop: u8)
        requires
            old(self).wf(),
        ensures
            final(self).wf(),
            final(self)@ == with_regs(old(self)@, adc_regs(old(self).registers, rop)),
    {
        let lop = self.registers.acc;
        let carry: u16 = if self.registers.get_flag(FL_CARRY) {
            1
        } else {
            0
        };
        let sum: u16 = lop as u16 + rop as u16 + carry;
        let res = (sum % 256) as u8;
        let has_overflow = (lop ^ res) & (rop ^ res) & 0x80 != 0;
        self.registers.set_flag(FL_CARRY, sum >= 256);
        self.registers.set_flag(FL_OVERFLOW, has_overflow);
        self.registers.set_acc(res);
    }

    /// Shared by the comparisons: C when `lop >= rop`, N and Z from the low byte of the
    /// difference.
    fn cmp_base(&mut self, lop: u8, rop: u8)
        requires
            old(self).wf(),
        ensures
            final(self).wf(),
            final(self)@ == with_regs(old(self)@, compare_regs(old(self).registers, lop, rop)),
    {
        let res = ((lop as u16 + 256 - rop as u16) % 256) as u8;
        self.registers.set_flag(FL_CARRY, lop >= rop);
        self.registers.set_sign_and_zero_flag(res);
    }

    /// LDA: load A; N and Z from it.
    pub fn lda(&mut self, val: u8)
        requires
            old(self).wf(),
        ensures
            final(self).wf(),
            final(self)@ == with_regs(old(self)@, load_a(old(self).registers, val)),
    {
        self.registers.set_acc(val);
    }

    /// LDX: load X; N and Z from it.
    pub fn ldx(&mut self, val: u8)
        requires
            old(self).wf(),
        ensures
            final(self).wf(),
            final(self)@ == with_regs(old(self)@, load_x(old(self).registers, val)),
    {
        self.registers.irx = val;
        self.registers.set_sign_and_zero_flag(val);
    }

    /// LDY: load Y; N and Z from it.
    pub fn ldy(&mut self, val: u8)
        requires
            old(self).wf(),
        ensures
            final(self).wf(),
            final(self)@ == with_regs(old(self)@, load_y(old(self).registers, val)),
    {
        self.registers.iry = val;
        self.registers.set_sign_and_zero_flag(val);
    }

    /// STA: store A at `addr`; no flag changes.
    pub fn sta(&mut self, addr: u16)
        requires
            old(self).wf(),
        ensures
            final(self).wf(),
            final(self)@ == store(old(self)@, addr, old(self).registers.acc),
    {
        self.memory.write(addr, self.registers.acc);
    }

    /// STX: store X at `addr`.
    pub fn stx(&mut self, addr: u16)
        requires
            old(self).wf(),
        ensures
            final(self).wf(),
            final(self)@ == store(old(self)@, addr, old(self).registers.irx),
    {
        self.memory.write(addr, self.registers.irx);
    }

    /// STY: store Y at `addr`.
    pub fn sty(&mut self, addr: u16)
        requires
            old(self).wf(),
        ensures
            final(self).wf(),
            final(self)@ == store(old(self)@, addr, old(self).registers.iry),
    {
        self.memory.write(addr, self.registers.iry);
    }

    /// TAX: X from A; N and Z from it.
    pub fn tax(&mut self)
        requires
            old(self).wf(),
        ensures
            final(self).wf(),
            final(self)@ == with_regs(old(self)@, load_x(old(self).registers, old(self).registers.acc)),
    {
        let v = self.registers.acc;
        self.registers.irx = v;
        self.registers.set_sign_and_zero_flag(v);
    }

    /// TAY: Y from A; N and Z from it.
    pub fn tay(&mut self)
        requires
            old(self).wf(),
        ensures
            final(self).wf(),
            final(self)@ == with_regs(old(self)@, load_y(old(self).registers, old(self).registers.acc)),
    {
        let v = self.registers.acc;
        self.registers.iry = v;
        self.registers.set_sign_and_zero_flag(v);
    }

    /// TXA: A from X; N and Z from it.
    pub fn txa(&mut self)
        requires
            old(self).wf(),
        ensures
            final(self).wf(),
            final(self)@ == with_regs(old(self)@, load_a(old(self).registers, old(self).registers.irx)),
    {
        let v = self.registers.irx;
        self.registers.set_acc(v);
    }

    /// TYA: A from Y; N and Z from it.
    pub fn tya(&mut self)
        requires
            old(self).wf(),
        ensures
            final(self).wf(),
            final(self)@ == with_regs(old(self)@, load_a(old(self).registers, old(self).registers.iry)),
    {
        let v = self.registers.iry;
        self.registers.set_acc(v);
    }

    /// TSX: X from S; N and Z from it.
    pub fn tsx(&mut self)
        requires
            old(self).wf(),
        ensures
            final(self).wf(),
            final(self)@ == with_regs(old(self)@, load_x(old(self).registers, old(self).registers.sp)),
    {
        let v = self.registers.sp;
        self.registers.irx = v;
        self.registers.set_sign_and_zero_flag(v);
    }

    /// TXS: S from X; the flags are left alone.
    pub fn txs(&mut self)
        requires
            old(self).wf(),
        ensures
            final(self).wf(),
            final(self)@ == with_regs(old(self)@, (Registers { sp: old(self).registers.irx, ..old(self).registers })),
    {
        self.registers.sp = self.registers.irx;
    }

    /// PHA: push A.
    pub fn pha(&mut self)
        requires
            old(self).wf(),
        ensures
            final(self).wf(),
            final(self)@ == push(old(self)@, old(self).registers.acc),
    {
        let v = self.registers.acc;
        self.push_stack(v);
    }

    /// PHP: push the status word with B and bit 5 set in the pushed copy.
    pub fn php(&mut self)
        requires
            old(self).wf(),
        ensures
            final(self).wf(),
            final(self)@ == push(old(self)@, pushed_status(old(self).registers.stat, true)),
    {
        let v = self.registers.stat | (FL_BRK | FL_UNUSED);
        self.push_stack(v);
    }

    /// PLA: pop A; N and Z from it.
    pub fn pla(&mut self)
        requires
            old(self).wf(),
        ensures
            final(self).wf(),
            final(self)@ == with_regs(after_pop(old(self)@), load_a(after_pop(old(self)@).regs, pop_value(old(self)@))),
    {
        let v = self.pop_stack();
        self.registers.set_acc(v);
    }

    /// PLP: pop the status word; B and bit 5 keep their register values.
    pub fn plp(&mut self)
        requires
            old(self).wf(),
        ensures
            final(self).wf(),
            final(self)@ == with_status(after_pop(old(self)@), plp_status(old(self).registers.stat, pop_value(old(self)@))),
    {
        let v = self.pop_stack();
        self.registers.stat = (v & 0xCF) | (self.registers.stat & 0x30);
    }

    /// ADC: add the operand and C to A.
    pub fn adc(&mut self, rop: u8)
        requires
            old(self).wf(),
        ensures
            final(self).wf(),
            final(self)@ == with_regs(old(self)@, adc_regs(old(self).registers, rop)),
    {
        self.adc_sbc_base(rop);
    }

    /// SBC: subtract the operand and the borrow (not C) from A, as ADC of `!rop`.
    pub fn sbc(&mut self, rop: u8)
        requires
            old(self).wf(),
        ensures
            final(self).wf(),
            final(self)@ == with_regs(old(self)@, sbc_regs(old(self).registers, rop)),
    {
        self.adc_sbc_base(!rop);
    }

    /// CMP: compare A with the operand.
    pub fn cmp(&mut self, rop: u8)
        requires
            old(self).wf(),
        ensures
            final(self).wf(),
            final(self)@ == with_regs(old(self)@, compare_regs(old(self).registers, old(self).registers.acc, rop)),
    {
        let lop = self.registers.acc;
        self.cmp_base(lop, rop);
    }

    /// CPX: compare X with the operand.
    pub fn cpx(&mut self, rop: u8)
        requires
            old(self).wf(),
        ensures
            final(self).wf(),
            final(self)@ == with_regs(old(self)@, compare_regs(old(self).registers, old(self).registers.irx, rop)),
    {
        let lop = self.registers.irx;
        self.cmp_base(lop, rop);
    }

    /// CPY: compare Y with the operand.
    pub fn cpy(&mut self, rop: u8)
        requires
            old(self).wf(),
        ensures
            final(self).wf(),
            final(self)@ == with_regs(old(self)@, compare_regs(old(self).registers, old(self).registers.iry, rop)),
    {
        let lop = self.registers.iry;
        self.cmp_base(lop, rop);
    }

    /// AND: A AND operand into A.
    pub fn and(&mut self, rop: u8)
        requires
            old(self).wf(),
        ensures
            final(self).wf(),
            final(self)@ == with_regs(old(self)@, load_a(old(self).registers, old(self).registers.acc & rop)),
    {
        let res = self.registers.acc & rop;
        self.registers.set_acc(res);
    }

    /// EOR: A XOR operand into A.
    pub fn eor(&mut self, rop: u8)
        requires
            old(self).wf(),
        ensures
            final(self).wf(),
            final(self)@ == with_regs(old(self)@, load_a(old(self).registers, old(self).registers.acc ^ rop)),
    {
        let res = self.registers.acc ^ rop;
        self.registers.set_acc(res);
    }

    /// ORA: A OR operand into A.
    pub fn ora(&mut self, rop: u8)
        requires
            old(self).wf(),
        ensures
            final(self).wf(),
            final(self)@ == with_regs(old(self)@, load_a(old(self).registers, old(self).registers.acc | rop)),
    {
        let res = self.registers.acc | rop;
        self.registers.set_acc(res);
    }

    /// BIT: Z from A AND operand, N from bit 7 and V from bit 6 of the operand.
    pub fn bit(&mut self, rop: u8)
        requires
            old(self).wf(),
        ensures
            final(self).wf(),
            final(self)@ == with_regs(old(self)@, bit_regs(old(self).registers, rop)),
    {
        let res = self.registers.acc & rop;
        self.registers.set_flag(FL_ZERO, res == 0);
        self.registers.set_flag(FL_SIGN, rop >= 0x80);
        self.registers.set_flag(FL_OVERFLOW, rop & 0x40 != 0);
    }

    /// INX: X + 1 modulo 256; N and Z from it.
    pub fn inx(&mut self)
        requires
            old(self).wf(),
        ensures
            final(self).wf(),
            final(self)@ == with_regs(old(self)@, load_x(old(self).registers, inc8(old(self).registers.irx))),
    {
        let v: u8 = if self.registers.irx == 255 { 0 } else { self.registers.irx + 1 };
        self.registers.irx = v;
        self.registers.set_sign_and_zero_flag(v);
    }

    /// INY: Y + 1 modulo 256; N and Z from it.
    pub fn iny(&mut self)
        requires
            old(self).wf(),
        ensures
            final(self).wf(),
            final(self)@ == with_regs(old(self)@, load_y(old(self).registers, inc8(old(self).registers.iry))),
    {
        let v: u8 = if self.registers.iry == 255 { 0 } else { self.registers.iry + 1 };
        self.registers.iry = v;
        self.registers.set_sign_and_zero_flag(v);
    }

    /// DEX: X - 1 modulo 256; N and Z from it.
    pub fn dex(&mut self)
        requires
            old(self).wf(),
        ensures
            final(self).wf(),
            final(self)@ == with_regs(old(self)@, load_x(old(self).registers, dec8(old(self).registers.irx))),
    {
        let v: u8 = if self.registers.irx == 0 { 255 } else { self.registers.irx - 1 };
        self.registers.irx = v;
        self.registers.set_sign_and_zero_flag(v);
    }

    /// DEY: Y - 1 modulo 256; N and Z from it.
    pub fn dey(&mut self)
        requires
            old(self).wf(),
        ensures
            final(self).wf(),
            final(self)@ == with_regs(old(self)@, load_y(old(self).registers, dec8(old(self).registers.iry))),
    {
        let v: u8 = if self.registers.iry == 0 { 255 } else { self.registers.iry - 1 };
        self.registers.iry = v;
        self.registers.set_sign_and_zero_flag(v);
    }

    /// INC: the byte at `addr` plus 1 modulo 256; N and Z from it.
    pub fn inc(&mut self, addr: u16)
        requires
            old(self).wf(),
        ensures
            final(self).wf(),
            final(self)@ == with_regs(store(old(self)@, addr, inc8(old(self)@.mem[addr as int])), (Registers { stat: with_nz(old(self).registers.stat, inc8(old(self)@.mem[addr as int])), ..old(self).registers })),
    {
        let v = self.memory.read(addr);
        let res: u8 = if v == 255 { 0 } else { v + 1 };
        self.memory.write(addr, res);
        self.registers.set_sign_and_zero_flag(res);
    }

    /// DEC: the byte at `addr` minus 1 modulo 256; N and Z from it.
    pub fn dec(&mut self, addr: u16)
        requires
            old(self).wf(),
        ensures
            final(self).wf(),
            final(self)@ == with_regs(store(old(self)@, addr, dec8(old(self)@.mem[addr as int])), (Registers { stat: with_nz(old(self).registers.stat, dec8(old(self)@.mem[addr as int])), ..old(self).registers })),
    {
        let v = self.memory.read(addr);
        let res: u8 = if v == 0 { 255 } else { v - 1 };
        self.memory.write(addr, res);
        self.registers.set_sign_and_zero_flag(res);
    }

    /// CLC: clear Carry.
    pub fn clc(&mut self)
        requires
            old(self).wf(),
        ensures
            final(self).wf(),
            final(self)@ == with_status(old(self)@, with_flag(old(self).registers.stat, FL_CARRY, false)),
    {
        self.registers.set_flag(FL_CARRY, false);
    }

    /// SEC: set Carry.
    pub fn sec(&mut self)
        requires
            old(self).wf(),
        ensures
            final(self).wf(),
            final(self)@ == with_status(old(self)@, with_flag(old(self).registers.stat, FL_CARRY, true)),
    {
        self.registers.set_flag(FL_CARRY, true);
    }

    /// CLI: clear Interrupt-Disable.
    pub fn cli(&mut self)
        requires
            old(self).wf(),
        ensures
            final(self).wf(),
            final(self)@ == with_status(old(self)@, with_flag(old(self).registers.stat, FL_INTERRUPT_DISABLE, false)),
    {
        self.registers.set_flag(FL_INTERRUPT_DISABLE, false);
    }

    /// SEI: set Interrupt-Disable.
    pub fn sei(&mut self)
        requires
            old(self).wf(),
        ensures
            final(self).wf(),
            final(self)@ == with_status(old(self)@, with_flag(old(self).registers.stat, FL_INTERRUPT_DISABLE, true)),
    {
        self.registers.set_flag(FL_INTERRUPT_DISABLE, true);
    }

    /// CLV: clear Overflow.
    pub fn clv(&mut self)
        requires
            old(self).wf(),
        ensures
            final(self).wf(),
            final(self)@ == with_status(old(self)@, with_flag(old(self).registers.stat, FL_OVERFLOW, false)),
    {
        self.registers.set_flag(FL_OVERFLOW, false);
    }

    /// CLD: clear Decimal; the bit has no effect on arithmetic.
    pub fn cld(&mut self)
        requires
            old(self).wf(),
        ensures
            final(self).wf(),
            final(self)@ == with_status(old(self)@, with_flag(old(self).registers.stat, FL_DECIMAL, false)),
    {
        self.registers.set_flag(FL_DECIMAL, false);
    }

    /// SED: set Decimal; the bit has no effect on arithmetic.
    pub fn sed(&mut self)
        requires
            old(self).wf(),
        ensures
            final(self).wf(),
            final(self)@ == with_status(old(self)@, with_flag(old(self).registers.stat, FL_DECIMAL, true)),
    {
        self.registers.set_flag(FL_DECIMAL, true);
    }

    /// NOP: no effect.
    pub fn nop(&mut self)
        requires
            old(self).wf(),
        ensures
            final(self).wf(),
            final(self)@ == old(self)@,
    {

    }

    /// Shifts `val` left, `lsb` entering bit 0; C from bit 7, N and Z from the result.
    fn shift_left(&mut self, val: u8, lsb: bool) -> (r: u8)
        requires
            old(self).wf(),
        ensures
            final(self).wf(),
            r == shifted(if lsb { Mnemonic::Rol } else { Mnemonic::Asl }, val, lsb).0,
            final(self)@ == with_regs(old(self)@, shift_regs(old(self).registers, r, val >= 128)),
    {
        let carry = val >= 128;
        let res: u8 = ((val as u16 * 2 + if lsb {
            1
        } else {
            0
        }) % 256) as u8;
        self.registers.set_flag(FL_CARRY, carry);
        self.registers.set_sign_and_zero_flag(res);
        res
    }

    /// Shifts `val` right, `msb` entering bit 7; C from bit 0, N and Z from the result.
    fn shift_right(&mut self, val: u8, msb: bool) -> (r: u8)
        requires
            old(self).wf(),
        ensures
            final(self).wf(),
            r == shifted(if msb { Mnemonic::Ror } else { Mnemonic::Lsr }, val, msb).0,
            final(self)@ == with_regs(old(self)@, shift_regs(old(self).registers, r, val % 2 == 1)),
    {
        let carry = val % 2 == 1;
        let res: u8 = val / 2 + if msb {
            128
        } else {
            0
        };
        self.registers.set_flag(FL_CARRY, carry);
        self.registers.set_sign_and_zero_flag(res);
        res
    }

    /// ASL: returns `val << 1`; C from bit 7.
    /// N and Z from the result; the caller puts it in A or memory.
    pub fn asl(&mut self, val: u8) -> (r: u8)
        requires
            old(self).wf(),
        ensures
            final(self).wf(),
            r == shifted(Mnemonic::Asl, val, flag_set(old(self).registers.stat, FL_CARRY)).0,
            final(self)@ == with_regs(old(self)@, shift_regs(old(self).registers, r, shifted(Mnemonic::Asl, val, flag_set(old(self).registers.stat, FL_CARRY)).1)),
    {
        self.shift_left(val, false)
    }

    /// LSR: returns `val >> 1`; C from bit 0.
    /// N and Z from the result; the caller puts it in A or memory.
    pub fn lsr(&mut self, val: u8) -> (r: u8)
        requires
            old(self).wf(),
        ensures
            final(self).wf(),
            r == shifted(Mnemonic::Lsr, val, flag_set(old(self).registers.stat, FL_CARRY)).0,
            final(self)@ == with_regs(old(self)@, shift_regs(old(self).registers, r, shifted(Mnemonic::Lsr, val, flag_set(old(self).registers.stat, FL_CARRY)).1)),
    {
        self.shift_right(val, false)
    }

    /// ROL: returns `val << 1` with the old C in bit 0; C from bit 7.
    /// N and Z from the result; the caller puts it in A or memory.
    pub fn rol(&mut self, val: u8) -> (r: u8)
        requires
            old(self).wf(),
        ensures
            final(self).wf(),
            r == shifted(Mnemonic::Rol, val, flag_set(old(self).registers.stat, FL_CARRY)).0,
            final(self)@ == with_regs(old(self)@, shift_regs(old(self).registers, r, shifted(Mnemonic::Rol, val, flag_set(old(self).registers.stat, FL_CARRY)).1)),
    {
        let c = self.registers.get_flag(FL_CARRY);
        self.shift_left(val, c)
    }

    /// ROR: returns `val >> 1` with the old C in bit 7; C from bit 0.
    /// N and Z from the result; the caller puts it in A or memory.
    pub fn ror(&mut self, val: u8) -> (r: u8)
        requires
            old(self).wf(),
        ensures
            final(self).wf(),
            r == shifted(Mnemonic::Ror, val, flag_set(old(self).registers.stat, FL_CARRY)).0,
            final(self)@ == with_regs(old(self)@, shift_regs(old(self).registers, r, shifted(Mnemonic::Ror, val, flag_set(old(self).registers.stat, FL_CARRY)).1)),
    {
        let c = self.registers.get_flag(FL_CARRY);
        self.shift_right(val, c)
    }

    /// JMP: PC from `loc`.
    pub fn jmp(&mut self, loc: u16)
        requires
            old(self).wf(),
        ensures
            final(self).wf(),
            final(self)@ == with_pc(old(self)@, loc),
    {
        self.registers.pc = loc;
    }

    /// JSR: push PC - 1 (the last byte of the JSR), then PC from `loc`.
    pub fn jsr(&mut self, loc: u16)
        requires
            old(self).wf(),
        ensures
            final(self).wf(),
            final(self)@ == with_pc(push16(old(self)@, add16(old(self).registers.pc, -1)), loc),
    {
        let pc = self.registers.pc;
        let ret: u16 = if pc == 0 {
            0xFFFF
        } else {
            pc - 1
        };
        self.push_stack16(ret);
        self.registers.pc = loc;
    }

    /// RTS: pop the return address, PC from it plus 1.
    pub fn rts(&mut self)
        requires
            old(self).wf(),
        ensures
            final(self).wf(),
            final(self)@ == with_pc(after_pop16(old(self)@), add16(pop16_value(old(self)@), 1)),
    {
        let ret = self.pop_stack16();
        self.registers.pc = if ret == 0xFFFF {
            0
        } else {
            ret + 1
        };
    }

    /// Jumps to `target` when `condition` holds; returns the cycles that this adds.
    fn branch_to(&mut self, condition: bool, target: u16) -> (r: u8)
        requires
            old(self).wf(),
        ensures
            final(self).wf(),
            final(self)@ == branch_effect(old(self)@, condition, target),
            r as int == branch_cycles(condition, old(self).registers.pc, target),
    {
        if condition {
            let old_pc = self.registers.pc;
            self.registers.pc = target;
            if self.registers.page_boundary_crossed(old_pc) {
                2
            } else {
                1
            }
        } else {
            0
        }
    }

    /// Adds the displacement `rel_addr` to PC when `condition` holds; returns the cycles that this
    /// adds: 1 when taken, 2 when taken onto another page.
    pub fn branch(&mut self, condition: bool, rel_addr: i8) -> (r: u8)
        requires
            old(self).wf(),
        ensures
            final(self).wf(),
            final(self)@ == branch_effect(old(self)@, condition, add16(old(self).registers.pc, rel_addr as int)),
            r as int == branch_cycles(condition, old(self).registers.pc, add16(old(self).registers.pc, rel_addr as int)),
    {
        let t: i32 = self.registers.pc as i32 + rel_addr as i32;
        let target: u16 = if t < 0 {
            (t + 65536) as u16
        } else if t >= 65536 {
            (t - 65536) as u16
        } else {
            t as u16
        };
        self.branch_to(condition, target)
    }

    /// BCC: branch when C is clear. Returns the cycles that this adds.
    pub fn bcc(&mut self, rel_addr: i8) -> (r: u8)
        requires
            old(self).wf(),
        ensures
            final(self).wf(),
            final(self)@ == branch_effect(old(self)@, branch_condition(Mnemonic::Bcc, old(self).registers.stat), add16(old(self).registers.pc, rel_addr as int)),
            r as int == branch_cycles(branch_condition(Mnemonic::Bcc, old(self).registers.stat), old(self).registers.pc, add16(old(self).registers.pc, rel_addr as int)),
    {
        let condition = !self.registers.get_flag(FL_CARRY);
        self.branch(condition, rel_addr)
    }

    /// BCS: branch when C is set. Returns the cycles that this adds.
    pub fn bcs(&mut self, rel_addr: i8) -> (r: u8)
        requires
            old(self).wf(),
        ensures
            final(self).wf(),
            final(self)@ == branch_effect(old(self)@, branch_condition(Mnemonic::Bcs, old(self).registers.stat), add16(old(self).registers.pc, rel_addr as int)),
            r as int == branch_cycles(branch_condition(Mnemonic::Bcs, old(self).registers.stat), old(self).registers.pc, add16(old(self).registers.pc, rel_addr as int)),
    {
        let condition = self.registers.get_flag(FL_CARRY);
        self.branch(condition, rel_addr)
    }

    /// BEQ: branch when Z is set. Returns the cycles that this adds.
    pub fn beq(&mut self, rel_addr: i8) -> (r: u8)
        requires
            old(self).wf(),
        ensures
            final(self).wf(),
            final(self)@ == branch_effect(old(self)@, branch_condition(Mnemonic::Beq, old(self).registers.stat), add16(old(self).registers.pc, rel_addr as int)),
            r as int == branch_cycles(branch_condition(Mnemonic::Beq, old(self).registers.stat), old(self).registers.pc, add16(old(self).registers.pc, rel_addr as int)),
    {
        let condition = self.registers.get_flag(FL_ZERO);
        self.branch(condition, rel_addr)
    }

    /// BNE: branch when Z is clear. Returns the cycles that this adds.
    pub fn bne(&mut self, rel_addr: i8) -> (r: u8)
        requires
            old(self).wf(),
        ensures
            final(self).wf(),
            final(self)@ == branch_effect(old(self)@, branch_condition(Mnemonic::Bne, old(self).registers.stat), add16(old(self).registers.pc, rel_addr as int)),
            r as int == branch_cycles(branch_condition(Mnemonic::Bne, old(self).registers.stat), old(self).registers.pc, add16(old(self).registers.pc, rel_addr as int)),
    {
        let condition = !self.registers.get_flag(FL_ZERO);
        self.branch(condition, rel_addr)
    }

    /// BMI: branch when N is set. Returns the cycles that this adds.
    pub fn bmi(&mut self, rel_addr: i8) -> (r: u8)
        requires
            old(self).wf(),
        ensures
            final(self).wf(),
            final(self)@ == branch_effect(old(self)@, branch_condition(Mnemonic::Bmi, old(self).registers.stat), add16(old(self).registers.pc, rel_addr as int)),
            r as int == branch_cycles(branch_condition(Mnemonic::Bmi, old(self).registers.stat), old(self).registers.pc, add16(old(self).registers.pc, rel_addr as int)),
    {
        let condition = self.registers.get_flag(FL_SIGN);
        self.branch(condition, rel_addr)
    }

    /// BPL: branch when N is clear. Returns the cycles that this adds.
    pub fn bpl(&mut self, rel_addr: i8) -> (r: u8)
        requires
            old(self).wf(),
        ensures
            final(self).wf(),
            final(self)@ == branch_effect(old(self)@, branch_condition(Mnemonic::Bpl, old(self).registers.stat), add16(old(self).registers.pc, rel_addr as int)),
            r as int == branch_cycles(branch_condition(Mnemonic::Bpl, old(self).registers.stat), old(self).registers.pc, add16(old(self).registers.pc, rel_addr as int)),
    {
        let condition = !self.registers.get_flag(FL_SIGN);
        self.branch(condition, rel_addr)
    }

    /// BVS: branch when V is set. Returns the cycles that this adds.
    pub fn bvs(&mut self, rel_addr: i8) -> (r: u8)
        requires
            old(self).wf(),
        ensures
            final(self).wf(),
            final(self)@ == branch_effect(old(self)@, branch_condition(Mnemonic::Bvs, old(self).registers.stat), add16(old(self).registers.pc, rel_addr as int)),
            r as int == branch_cycles(branch_condition(Mnemonic::Bvs, old(self).registers.stat), old(self).registers.pc, add16(old(self).registers.pc, rel_addr as int)),
    {
        let condition = self.registers.get_flag(FL_OVERFLOW);
        self.branch(condition, rel_addr)
    }

    /// BVC: branch when V is clear. Returns the cycles that this adds.
    pub fn bvc(&mut self, rel_addr: i8) -> (r: u8)
        requires
            old(self).wf(),
        ensures
            final(self).wf(),
            final(self)@ == branch_effect(old(self)@, branch_condition(Mnemonic::Bvc, old(self).registers.stat), add16(old(self).registers.pc, rel_addr as int)),
            r as int == branch_cycles(branch_condition(Mnemonic::Bvc, old(self).registers.stat), old(self).registers.pc, add16(old(self).registers.pc, rel_addr as int)),
    {
        let condition = !self.registers.get_flag(FL_OVERFLOW);
        self.branch(condition, rel_addr)
    }

    /// Pushes PC and the status word (B set in the copy only for BRK), sets Interrupt-Disable
    /// and loads PC from `vector`.
    fn interrupt(&mut self, vector: u16, brk: bool)
        requires
            old(self).wf(),
        ensures
            final(self).wf(),
            final(self)@ == interrupt_entry(old(self)@, vector, brk),
    {
        let pc = self.registers.pc;
        let stat = self.registers.stat;
        self.push_stack16(pc);
        let pushed = if brk {
            stat | (FL_BRK | FL_UNUSED)
        } else {
            (stat | FL_UNUSED) & !FL_BRK
        };
        self.push_stack(pushed);
        self.registers.set_flag(FL_INTERRUPT_DISABLE, true);
        self.registers.pc = self.memory.read16(vector);
    }

    /// BRK, with PC past its opcode: skips the padding byte, then enters the handler at the
    /// IRQ/BRK vector with B set in the pushed status.
    pub fn brk(&mut self)
        requires
            old(self).wf(),
        ensures
            final(self).wf(),
            final(self)@ == interrupt_entry(with_pc(old(self)@, add16(old(self).registers.pc, 1)), BRK_VECTOR, true),
    {
        let pc = self.registers.pc;
        self.registers.pc = if pc == 0xFFFF {
            0
        } else {
            pc + 1
        };
        self.interrupt(BRK_VECTOR, true);
    }

    /// RTI: pop the status word (B cleared, bit 5 kept), then PC; no adjustment of PC.
    pub fn rti(&mut self)
        requires
            old(self).wf(),
        ensures
            final(self).wf(),
            final(self)@ == with_regs(after_pop16(after_pop(old(self)@)), (Registers { stat: rti_status(old(self).registers.stat, pop_value(old(self)@)), pc: pop16_value(after_pop(old(self)@)), ..after_pop16(after_pop(old(self)@)).regs })),
    {
        let pulled = self.pop_stack();
        let pc = self.pop_stack16();
        self.registers.stat = (pulled & 0xCF) | (self.registers.stat & 0x20);
        self.registers.pc = pc;
    }

    /// Enters the NMI handler: B clear in the pushed status, vector 0xFFFA, 7 cycles; the NMI
    /// latch is consumed.
    pub fn nmi(&mut self)
        requires
            old(self).wf(),
            old(self).cycles + 7 <= u64::MAX,
        ensures
            final(self).wf(),
            final(self)@ == nmi_spec(old(self)@),
    {
        self.interrupt(NMI_VECTOR, false);
        self.nmi_pending = false;
        self.cycles = self.cycles + 7;
    }

    /// Enters the IRQ handler: B clear in the pushed status, vector 0xFFFE, 7 cycles.
    pub fn irq(&mut self)
        requires
            old(self).wf(),
            old(self).cycles + 7 <= u64::MAX,
        ensures
            final(self).wf(),
            final(self)@ == irq_spec(old(self)@),
    {
        self.interrupt(BRK_VECTOR, false);
        self.cycles = self.cycles + 7;
    }

    /// Services a pending NMI, else an IRQ if the line is low and Interrupt-Disable is clear;
    /// tells whether one was serviced.
    pub fn poll_interrupts(&mut self) -> (r: bool)
        requires
            old(self).wf(),
            old(self).cycles + 7 <= u64::MAX,
        ensures
            final(self).wf(),
            final(self)@ == service_spec(old(self)@),
            r == (old(self)@.nmi_pending || irq_active(old(self)@)),
    {
        if self.nmi_pending {
            self.nmi();
            true
        } else if self.irq_line_low && !self.registers.get_flag(FL_INTERRUPT_DISABLE) {
            self.irq();
            true
        } else {
            false
        }
    }

    /// Reset: sets Interrupt-Disable and loads PC from the reset vector at 0xFFFC.
    pub fn reset(&mut self)
        requires
            old(self).wf(),
        ensures
            final(self).wf(),
            final(self)@ == reset_spec(old(self)@),
    {
        self.registers.set_flag(FL_INTERRUPT_DISABLE, true);
        self.registers.pc = self.memory.read16(RESET_VECTOR);
    }
}

impl Cpu6502 {
    /// Zero page indexed: the operand byte plus `index`, wrapping within the zero page.
    fn get_zp_indexed(&mut self, index: u8) -> (r: u16)
        requires
            old(self).wf(),
        ensures
            final(self).wf(),
            r == ((old(self)@.mem[old(self).registers.pc as int] as int + index as int)
                % 256) as u16,
            final(self)@ == with_pc(old(self)@, add16(old(self).registers.pc, 1)),
    {
        let b = self.read_op();
        (b as u16 + index as u16) % 256
    }

    /// Absolute indexed: the operand word plus `index`, and whether that crossed a page.
    fn get_abs_indexed_base(&mut self, index: u8) -> (r: (u16, bool))
        requires
            old(self).wf(),
        ensures
            final(self).wf(),
            ({
                let w = word_at(old(self)@.mem, old(self).registers.pc);
                r == (add16(w, index as int), crosses_page(w, add16(w, index as int)))
            }),
            final(self)@ == with_pc(old(self)@, add16(old(self).registers.pc, 2)),
    {
        let w = self.read_op16();
        let a = ((w as u32 + index as u32) % 65536) as u16;
        (a, w / 256 != a / 256)
    }

    /// JMP's pointer form: the target stored at the operand word, its high byte taken from the
    /// same page when the pointer ends in 0xFF.
    fn get_ind(&mut self) -> (r: u16)
        requires
            old(self).wf(),
        ensures
            final(self).wf(),
            r == jmp_indirect_target(
                old(self)@.mem,
                word_at(old(self)@.mem, old(self).registers.pc),
            ),
            final(self)@ == with_pc(old(self)@, add16(old(self).registers.pc, 2)),
    {
        let w = self.read_op16();
        let lo = self.memory.read(w);
        // The NMOS part does not carry into the pointer's high byte.
        let hi_addr: u16 = if w % 256 == 255 {
            w - 255
        } else {
            w + 1
        };
        let hi = self.memory.read(hi_addr);
        lo as u16 + (hi as u16) * 256
    }

    /// `(z,X)`: the word stored in the zero page at the operand byte plus X.
    fn get_indx(&mut self) -> (r: u16)
        requires
            old(self).wf(),
        ensures
            final(self).wf(),
            r == effective(Mode::IndexedIndirect, old(self)@).0,
            final(self)@ == with_pc(old(self)@, add16(old(self).registers.pc, 1)),
    {
        reveal(effective);
        let x = self.registers.irx;
        let b = self.read_op();
        let z = ((b as u16 + x as u16) % 256) as u8;
        self.memory.read16_zp(z)
    }

    /// `(z),Y`: the word stored in the zero page at the operand byte, plus Y, and whether adding
    /// Y crossed a page.
    fn get_indy(&mut self) -> (r: (u16, bool))
        requires
            old(self).wf(),
        ensures
            final(self).wf(),
            r == effective(Mode::IndirectIndexed, old(self)@),
            final(self)@ == with_pc(old(self)@, add16(old(self).registers.pc, 1)),
    {
        reveal(effective);
        let y = self.registers.iry;
        let b = self.read_op();
        let base = self.memory.read16_zp(b);
        let a = ((base as u32 + y as u32) % 65536) as u16;
        (a, base / 256 != a / 256)
    }

    /// Relative: the signed operand byte added to the address that follows it.
    fn get_rel(&mut self) -> (r: u16)
        requires
            old(self).wf(),
        ensures
            final(self).wf(),
            r == effective(Mode::Relative, old(self)@).0,
            final(self)@ == with_pc(old(self)@, add16(old(self).registers.pc, 1)),
    {
        reveal(effective);
        let b = self.read_op();
        let next = self.registers.pc as u32;
        let t: u32 = if b < 128 {
            next + b as u32
        } else {
            next + 65280 + b as u32
        };
        (t % 65536) as u16
    }

    /// Fetches the operand bytes of `mode` and forms the effective address, with whether
    /// indexing crossed a page. An immediate operand's address is that of its byte; a relative
    /// operand gives the branch target.
    fn operand_address(&mut self, mode: Mode) -> (r: (u16, bool))
        requires
            old(self).wf(),
        ensures
            final(self).wf(),
            r == effective(mode, old(self)@),
            final(self)@ == with_pc(
                old(self)@,
                add16(old(self).registers.pc, operand_len(mode)),
            ),
    {
        reveal(effective);
        match mode {
            Mode::Implied | Mode::Accumulator => (0, false),
            Mode::Immediate => {
                let pc = self.registers.pc;
                self.read_op();
                (pc, false)
            },
            Mode::ZeroPage => (self.get_zp_indexed(0), false),
            Mode::ZeroPageX => {
                let x = self.registers.irx;
                (self.get_zp_indexed(x), false)
            },
            Mode::ZeroPageY => {
                let y = self.registers.iry;
                (self.get_zp_indexed(y), false)
            },
            Mode::Absolute => (self.read_op16(), false),
            Mode::AbsoluteX => {
                let x = self.registers.irx;
                self.get_abs_indexed_base(x)
            },
            Mode::AbsoluteY => {
                let y = self.registers.iry;
                self.get_abs_indexed_base(y)
            },
            Mode::Indirect => (self.get_ind(), false),
            Mode::IndexedIndirect => (self.get_indx(), false),
            Mode::IndirectIndexed => self.get_indy(),
            Mode::Relative => (self.get_rel(), false),
        }
    }
}

impl Cpu6502 {
    /// Performs the mnemonic of `ins` with PC past the whole instruction and `addr` the
    /// effective address of its operand; read-modify-write mnemonics read it back through the
    /// bus. Returns the cycles that a branch adds.
    #[verifier::rlimit(50)]
    fn execute(&mut self, ins: Instruction, addr: u16) -> (r: u8)
        requires
            old(self).wf(),
        ensures
            final(self).wf(),
            final(self)@ == perform(ins, old(self)@, addr).0,
            r as int == perform(ins, old(self)@, addr).1,
            r <= 2,
            final(self).cycles == old(self).cycles,
    {
        reveal(perform);
        match ins.mnemonic {
            Mnemonic::Lda => {
                let v = self.memory.read(addr);
                self.lda(v);
                0
            },
            Mnemonic::Ldx => {
                let v = self.memory.read(addr);
                self.ldx(v);
                0
            },
            Mnemonic::Ldy => {
                let v = self.memory.read(addr);
                self.ldy(v);
                0
            },
            Mnemonic::Adc => {
                let v = self.memory.read(addr);
                self.adc(v);
                0
            },
            Mnemonic::Sbc => {
                let v = self.memory.read(addr);
                self.sbc(v);
                0
            },
            Mnemonic::Cmp => {
                let v = self.memory.read(addr);
                self.cmp(v);
                0
            },
            Mnemonic::Cpx => {
                let v = self.memory.read(addr);
                self.cpx(v);
                0
            },
            Mnemonic::Cpy => {
                let v = self.memory.read(addr);
                self.cpy(v);
                0
            },
            Mnemonic::And => {
                let v = self.memory.read(addr);
                self.and(v);
                0
            },
            Mnemonic::Ora => {
                let v = self.memory.read(addr);
                self.ora(v);
                0
            },
            Mnemonic::Eor => {
                let v = self.memory.read(addr);
                self.eor(v);
                0
            },
            Mnemonic::Bit => {
                let v = self.memory.read(addr);
                self.bit(v);
                0
            },
            Mnemonic::Sta => {
                self.sta(addr);
                0
            },
            Mnemonic::Stx => {
                self.stx(addr);
                0
            },
            Mnemonic::Sty => {
                self.sty(addr);
                0
            },
            Mnemonic::Inc => {
                self.inc(addr);
                0
            },
            Mnemonic::Dec => {
                self.dec(addr);
                0
            },
            Mnemonic::Jmp => {
                self.jmp(addr);
                0
            },
            Mnemonic::Jsr => {
                self.jsr(addr);
                0
            },
            Mnemonic::Tax => {
                self.tax();
                0
            },
            Mnemonic::Tay => {
                self.tay();
                0
            },
            Mnemonic::Txa => {
                self.txa();
                0
            },
            Mnemonic::Tya => {
                self.tya();
                0
            },
            Mnemonic::Tsx => {
                self.tsx();
                0
            },
            Mnemonic::Txs => {
                self.txs();
                0
            },
            Mnemonic::Inx => {
                self.inx();
                0
            },
            Mnemonic::Iny => {
                self.iny();
                0
            },
            Mnemonic::Dex => {
                self.dex();
                0
            },
            Mnemonic::Dey => {
                self.dey();
                0
            },
            Mnemonic::Rts => {
                self.rts();
                0
            },
            Mnemonic::Brk => {
                self.brk();
                0
            },
            Mnemonic::Rti => {
                self.rti();
                0
            },
            Mnemonic::Pha => {
                self.pha();
                0
            },
            Mnemonic::Php => {
                self.php();
                0
            },
            Mnemonic::Pla => {
                self.pla();
                0
            },
            Mnemonic::Plp => {
                self.plp();
                0
            },
            Mnemonic::Clc => {
                self.clc();
                0
            },
            Mnemonic::Sec => {
                self.sec();
                0
            },
            Mnemonic::Cli => {
                self.cli();
                0
            },
            Mnemonic::Sei => {
                self.sei();
                0
            },
            Mnemonic::Clv => {
                self.clv();
                0
            },
            Mnemonic::Cld => {
                self.cld();
                0
            },
            Mnemonic::Sed => {
                self.sed();
                0
            },
            Mnemonic::Nop => {
                self.nop();
                0
            },
            Mnemonic::Asl => {
                if ins.mode == Mode::Accumulator {
                    let v = self.registers.acc;
                    let res = self.asl(v);
                    self.registers.acc = res;
                } else {
                    let v = self.memory.read(addr);
                    let res = self.asl(v);
                    self.memory.write(addr, res);
                }
                0
            },
            Mnemonic::Lsr => {
                if ins.mode == Mode::Accumulator {
                    let v = self.registers.acc;
                    let res = self.lsr(v);
                    self.registers.acc = res;
                } else {
                    let v = self.memory.read(addr);
                    let res = self.lsr(v);
                    self.memory.write(addr, res);
                }
                0
            },
            Mnemonic::Rol => {
                if ins.mode == Mode::Accumulator {
                    let v = self.registers.acc;
                    let res = self.rol(v);
                    self.registers.acc = res;
                } else {
                    let v = self.memory.read(addr);
                    let res = self.rol(v);
                    self.memory.write(addr, res);
                }
                0
            },
            Mnemonic::Ror => {
                if ins.mode == Mode::Accumulator {
                    let v = self.registers.acc;
                    let res = self.ror(v);
                    self.registers.acc = res;
                } else {
                    let v = self.memory.read(addr);
                    let res = self.ror(v);
                    self.memory.write(addr, res);
                }
                0
            },
            Mnemonic::Bcc => {
                let taken = !self.registers.get_flag(FL_CARRY);
                self.branch_to(taken, addr)
            },
            Mnemonic::Bcs => {
                let taken = self.registers.get_flag(FL_CARRY);
                self.branch_to(taken, addr)
            },
            Mnemonic::Beq => {
                let taken = self.registers.get_flag(FL_ZERO);
                self.branch_to(taken, addr)
            },
            Mnemonic::Bne => {
                let taken = !self.registers.get_flag(FL_ZERO);
                self.branch_to(taken, addr)
            },
            Mnemonic::Bmi => {
                let taken = self.registers.get_flag(FL_SIGN);
                self.branch_to(taken, addr)
            },
            Mnemonic::Bpl => {
                let taken = !self.registers.get_flag(FL_SIGN);
                self.branch_to(taken, addr)
            },
            Mnemonic::Bvs => {
                let taken = self.registers.get_flag(FL_OVERFLOW);
                self.branch_to(taken, addr)
            },
            Mnemonic::Bvc => {
                let taken = !self.registers.get_flag(FL_OVERFLOW);
                self.branch_to(taken, addr)
            },
        }
    }

    /// Runs `ins` as the instruction at PC: fetches its operand, performs it and counts its
    /// base cycles, the page-cross cycle where the entry asks for it, and a branch's cycles.
    fn run(&mut self, ins: Instruction)
        requires
            old(self).wf(),
            old(self).cycles + 16 <= u64::MAX,
            ins.cycles <= 7,
        ensures
            final(self).wf(),
            final(self)@ == execute_spec(old(self)@, ins),
            final(self).cycles <= old(self).cycles + 10,
    {
        let ghost s = self@;
        let pc = self.registers.pc;
        self.registers.pc = if pc == 0xFFFF {
            0
        } else {
            pc + 1
        };
        let (addr, crossed) = self.operand_address(ins.mode);
        assert(self@ == fetched(s, ins));
        let extra = self.execute(ins, addr);
        let penalty: u64 = if ins.page_penalty && crossed {
            1
        } else {
            0
        };
        self.cycles = self.cycles + ins.cycles as u64 + penalty + extra as u64;
    }

    /// Runs the instruction at PC, then services a pending NMI, or an IRQ when the line is low
    /// and Interrupt-Disable is clear. An opcode without documented meaning stops the
    /// processor where it stands.
    pub fn step(&mut self) -> (r: Result<(), CpuError>)
        requires
            old(self).wf(),
            old(self).cycles + 32 <= u64::MAX,
        ensures
            final(self).wf(),
            match opcode_entry(current_opcode(old(self)@)) {
                Some(ins) => r is Ok && final(self)@ == step_spec(old(self)@, ins),
                None => r == Err::<(), CpuError>(
                    CpuError::IllegalOpcode {
                        opcode: current_opcode(old(self)@),
                        pc: old(self).registers.pc,
                    },
                ) && final(self)@ == old(self)@,
            },
    {
        let pc = self.registers.pc;
        let op = self.memory.read(pc);
        match decode(op) {
            None => Err(CpuError::IllegalOpcode { opcode: op, pc }),
            Some(ins) => {
                self.run(ins);
                self.poll_interrupts();
                Ok(())
            },
        }
    }
}

} // verus!
