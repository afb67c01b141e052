use vstd::prelude::*;

use crate::memory::{high_byte, low_byte, word, word_at, zero_page_word_at};
use crate::opcodes::{operand_len, Instruction, Mnemonic, Mode};
use crate::registers::{
    crosses_page, flag_set, is_negative, with_flag, with_nz, Registers, FL_BRK, FL_CARRY,
    FL_DECIMAL, FL_INTERRUPT_DISABLE, FL_OVERFLOW, FL_SIGN, FL_UNUSED, FL_ZERO,
};

verus! {

/// The stack occupies page 1: 0x0100 + S.
pub const STACK_LOC: u16 = 0x0100;

/// Where the NMI handler's address is stored.
pub const NMI_VECTOR: u16 = 0xFFFA;

/// Where the reset handler's address is stored.
pub const RESET_VECTOR: u16 = 0xFFFC;

/// Where the IRQ and BRK handler's address is stored.
pub const BRK_VECTOR: u16 = 0xFFFE;

/// The whole observable state of the processor and its bus: registers, the 64 KiB address
/// space, the cycle tally and the two interrupt inputs.
pub struct CpuState {
    pub regs: Registers,
    pub mem: Seq<u8>,
    pub cycles: int,
    pub nmi_pending: bool,
    pub irq_line_low: bool,
}

/// `x + 1` modulo 256.
pub open spec fn inc8(x: u8) -> u8 {
    ((x as int + 1) % 256) as u8
}

/// `x - 1` modulo 256.
pub open spec fn dec8(x: u8) -> u8 {
    ((x as int + 255) % 256) as u8
}

/// `a + d` modulo 65536.
pub open spec fn add16(a: u16, d: int) -> u16 {
    ((a as int + d) % 65536) as u16
}

/// A byte read as a two's-complement displacement.
pub open spec fn signed(b: u8) -> int {
    if b < 128 {
        b as int
    } else {
        b as int - 256
    }
}

pub open spec fn with_regs(s: CpuState, r: Registers) -> CpuState {
    CpuState { regs: r, ..s }
}

pub open spec fn with_pc(s: CpuState, pc: u16) -> CpuState {
    with_regs(s, Registers { pc, ..s.regs })
}

pub open spec fn with_status(s: CpuState, stat: u8) -> CpuState {
    with_regs(s, Registers { stat, ..s.regs })
}

pub open spec fn store(s: CpuState, addr: u16, v: u8) -> CpuState {
    CpuState { mem: s.mem.update(addr as int, v), ..s }
}

/// Writes `v` at 0x0100 + S, then decrements S (wrapping within page 1).
pub open spec fn push(s: CpuState, v: u8) -> CpuState {
    CpuState {
        mem: s.mem.update(STACK_LOC + s.regs.sp, v),
        regs: Registers { sp: dec8(s.regs.sp), ..s.regs },
        ..s
    }
}

/// The byte that a pop returns: the one just above S.
pub open spec fn pop_value(s: CpuState) -> u8 {
    s.mem[STACK_LOC + inc8(s.regs.sp)]
}

/// The state after a pop: S incremented (wrapping within page 1).
pub open spec fn after_pop(s: CpuState) -> CpuState {
    with_regs(s, Registers { sp: inc8(s.regs.sp), ..s.regs })
}

/// Pushes a word, high byte first.
pub open spec fn push16(s: CpuState, w: u16) -> CpuState {
    push(push(s, high_byte(w)), low_byte(w))
}

/// The word that two pops return, low byte first.
pub open spec fn pop16_value(s: CpuState) -> u16 {
    word(pop_value(s), pop_value(after_pop(s)))
}

pub open spec fn after_pop16(s: CpuState) -> CpuState {
    after_pop(after_pop(s))
}

/// The target of JMP through the pointer `ptr`: the high byte comes from the same page when
/// the pointer's low byte is 0xFF.
pub open spec fn jmp_indirect_target(m: Seq<u8>, ptr: u16) -> u16 {
    let hi_addr: u16 = if ptr % 256 == 255 {
        (ptr - 255) as u16
    } else {
        (ptr + 1) as u16
    };
    word(m[ptr as int], m[hi_addr as int])
}

/// The effective address of an operand and whether indexing crossed a page, with the program
/// counter on the first operand byte. Immediate operands have their own address; a relative
/// operand gives the branch target.
#[verifier::opaque]
pub open spec fn effective(mode: Mode, s: CpuState) -> (u16, bool) {
    let pc = s.regs.pc;
    let b = s.mem[pc as int];
    let w = word_at(s.mem, pc);
    let x = s.regs.irx;
    let y = s.regs.iry;
    match mode {
        Mode::Implied | Mode::Accumulator => (0, false),
        Mode::Immediate => (pc, false),
        Mode::ZeroPage => (b as u16, false),
        Mode::ZeroPageX => (((b as int + x as int) % 256) as u16, false),
        Mode::ZeroPageY => (((b as int + y as int) % 256) as u16, false),
        Mode::Absolute => (w, false),
        Mode::AbsoluteX => (add16(w, x as int), crosses_page(w, add16(w, x as int))),
        Mode::AbsoluteY => (add16(w, y as int), crosses_page(w, add16(w, y as int))),
        Mode::Indirect => (jmp_indirect_target(s.mem, w), false),
        Mode::IndexedIndirect => (
            zero_page_word_at(s.mem, ((b as int + x as int) % 256) as u8),
            false,
        ),
        Mode::IndirectIndexed => {
            let base = zero_page_word_at(s.mem, b);
            (add16(base, y as int), crosses_page(base, add16(base, y as int)))
        },
        Mode::Relative => (add16(pc, 1 + signed(b)), false),
    }
}

pub open spec fn load_a(r: Registers, v: u8) -> Registers {
    Registers { acc: v, stat: with_nz(r.stat, v), ..r }
}

pub open spec fn load_x(r: Registers, v: u8) -> Registers {
    Registers { irx: v, stat: with_nz(r.stat, v), ..r }
}

pub open spec fn load_y(r: Registers, v: u8) -> Registers {
    Registers { iry: v, stat: with_nz(r.stat, v), ..r }
}

pub open spec fn carry_in(r: Registers) -> int {
    if flag_set(r.stat, FL_CARRY) {
        1
    } else {
        0
    }
}

/// The 9-bit sum A + operand + C.
pub open spec fn adc_sum(r: Registers, v: u8) -> int {
    r.acc as int + v as int + carry_in(r)
}

/// Signed overflow of an addition whose inputs are `a` and `v` and whose result is `res`.
pub open spec fn adc_overflow(a: u8, v: u8, res: u8) -> bool {
    (a ^ res) & (v ^ res) & 0x80 != 0
}

/// ADC: A + operand + C into A; C from bit 8 of the sum, V from the signs, N and Z from A.
pub open spec fn adc_regs(r: Registers, v: u8) -> Registers {
    let sum = adc_sum(r, v);
    let res = (sum % 256) as u8;
    let p = with_flag(
        with_flag(r.stat, FL_CARRY, sum >= 256),
        FL_OVERFLOW,
        adc_overflow(r.acc, v, res),
    );
    Registers { acc: res, stat: with_nz(p, res), ..r }
}

/// SBC: ADC of the operand's one's complement.
pub open spec fn sbc_regs(r: Registers, v: u8) -> Registers {
    adc_regs(r, !v)
}

/// CMP, CPX and CPY: C when `reg >= v`, N and Z from the low byte of `reg - v`.
pub open spec fn compare_regs(r: Registers, reg: u8, v: u8) -> Registers {
    let res = ((reg as int - v as int + 256) % 256) as u8;
    Registers { stat: with_nz(with_flag(r.stat, FL_CARRY, reg >= v), res), ..r }
}

/// BIT: Z from A AND operand, N from bit 7 and V from bit 6 of the operand.
pub open spec fn bit_regs(r: Registers, v: u8) -> Registers {
    let p = with_flag(r.stat, FL_ZERO, r.acc & v == 0);
    Registers {
        stat: with_flag(with_flag(p, FL_SIGN, is_negative(v)), FL_OVERFLOW, v & 0x40 != 0),
        ..r
    }
}

pub open spec fn shift_left_value(v: u8, lsb: bool) -> u8 {
    ((v as int * 2 + if lsb {
        1int
    } else {
        0int
    }) % 256) as u8
}

pub open spec fn shift_right_value(v: u8, msb: bool) -> u8 {
    (v as int / 2 + if msb {
        128int
    } else {
        0int
    }) as u8
}

/// Result and carry out of a shift or rotate of `v`, with `c` the carry before it.
pub open spec fn shifted(m: Mnemonic, v: u8, c: bool) -> (u8, bool) {
    match m {
        Mnemonic::Asl => (shift_left_value(v, false), v >= 128),
        Mnemonic::Rol => (shift_left_value(v, c), v >= 128),
        Mnemonic::Lsr => (shift_right_value(v, false), v % 2 == 1),
        _ => (shift_right_value(v, c), v % 2 == 1),
    }
}

pub open spec fn shift_regs(r: Registers, res: u8, carry: bool) -> Registers {
    Registers { stat: with_nz(with_flag(r.stat, FL_CARRY, carry), res), ..r }
}

/// The condition under which a branch mnemonic is taken.
pub open spec fn branch_condition(m: Mnemonic, p: u8) -> bool {
    match m {
        Mnemonic::Bcc => !flag_set(p, FL_CARRY),
        Mnemonic::Bcs => flag_set(p, FL_CARRY),
        Mnemonic::Beq => flag_set(p, FL_ZERO),
        Mnemonic::Bne => !flag_set(p, FL_ZERO),
        Mnemonic::Bmi => flag_set(p, FL_SIGN),
        Mnemonic::Bpl => !flag_set(p, FL_SIGN),
        Mnemonic::Bvs => flag_set(p, FL_OVERFLOW),
        _ => !flag_set(p, FL_OVERFLOW),
    }
}

pub open spec fn is_branch(m: Mnemonic) -> bool {
    m == Mnemonic::Bcc || m == Mnemonic::Bcs || m == Mnemonic::Beq || m == Mnemonic::Bne || m
        == Mnemonic::Bmi || m == Mnemonic::Bpl || m == Mnemonic::Bvs || m == Mnemonic::Bvc
}

/// Extra cycles of a branch: none when not taken, one when taken, two when the target lies
/// on another page than the instruction that follows the branch.
pub open spec fn branch_cycles(taken: bool, pc: u16, target: u16) -> int {
    if !taken {
        0
    } else if crosses_page(pc, target) {
        2
    } else {
        1
    }
}

pub open spec fn branch_effect(s: CpuState, taken: bool, target: u16) -> CpuState {
    if taken {
        with_pc(s, target)
    } else {
        s
    }
}

/// The status word as pushed: bit 5 set, B set for PHP and BRK and clear for NMI and IRQ.
pub open spec fn pushed_status(p: u8, brk: bool) -> u8 {
    if brk {
        p | (FL_BRK | FL_UNUSED)
    } else {
        (p | FL_UNUSED) & !FL_BRK
    }
}

/// The status word after PLP pulls `pulled`: B and bit 5 keep their register values.
pub open spec fn plp_status(p: u8, pulled: u8) -> u8 {
    (pulled & 0xCF) | (p & 0x30)
}

/// The status word after RTI pulls `pulled`: B clear, bit 5 as in the register.
pub open spec fn rti_status(p: u8, pulled: u8) -> u8 {
    (pulled & 0xCF) | (p & 0x20)
}

/// Interrupt entry: push PC (high, low) and the status word, set Interrupt-Disable, and load
/// PC from `vector`.
pub open spec fn interrupt_entry(s: CpuState, vector: u16, brk: bool) -> CpuState {
    let s2 = push(push16(s, s.regs.pc), pushed_status(s.regs.stat, brk));
    with_regs(
        s2,
        Registers {
            pc: word_at(s2.mem, vector),
            stat: with_flag(s2.regs.stat, FL_INTERRUPT_DISABLE, true),
            ..s2.regs
        },
    )
}

/// What a mnemonic does, with the program counter past the whole instruction, `addr` the
/// effective address of its operand (the target for branches and jumps); also the cycles that
/// a branch adds.
#[verifier::opaque]
pub open spec fn perform(ins: Instruction, s: CpuState, addr: u16) -> (CpuState, int) {
    let r = s.regs;
    let v = s.mem[addr as int];
    let m = ins.mnemonic;
    match m {
        Mnemonic::Lda => (with_regs(s, load_a(r, v)), 0),
        Mnemonic::Ldx => (with_regs(s, load_x(r, v)), 0),
        Mnemonic::Ldy => (with_regs(s, load_y(r, v)), 0),
        Mnemonic::Sta => (store(s, addr, r.acc), 0),
        Mnemonic::Stx => (store(s, addr, r.irx), 0),
        Mnemonic::Sty => (store(s, addr, r.iry), 0),
        Mnemonic::Tax => (with_regs(s, load_x(r, r.acc)), 0),
        Mnemonic::Tay => (with_regs(s, load_y(r, r.acc)), 0),
        Mnemonic::Txa => (with_regs(s, load_a(r, r.irx)), 0),
        Mnemonic::Tya => (with_regs(s, load_a(r, r.iry)), 0),
        Mnemonic::Tsx => (with_regs(s, load_x(r, r.sp)), 0),
        Mnemonic::Txs => (with_regs(s, Registers { sp: r.irx, ..r }), 0),
        Mnemonic::Adc => (with_regs(s, adc_regs(r, v)), 0),
        Mnemonic::Sbc => (with_regs(s, sbc_regs(r, v)), 0),
        Mnemonic::Cmp => (with_regs(s, compare_regs(r, r.acc, v)), 0),
        Mnemonic::Cpx => (with_regs(s, compare_regs(r, r.irx, v)), 0),
        Mnemonic::Cpy => (with_regs(s, compare_regs(r, r.iry, v)), 0),
        Mnemonic::And => (with_regs(s, load_a(r, r.acc & v)), 0),
        Mnemonic::Ora => (with_regs(s, load_a(r, r.acc | v)), 0),
        Mnemonic::Eor => (with_regs(s, load_a(r, r.acc ^ v)), 0),
        Mnemonic::Bit => (with_regs(s, bit_regs(r, v)), 0),
        Mnemonic::Asl | Mnemonic::Lsr | Mnemonic::Rol | Mnemonic::Ror => {
            let input = if ins.mode == Mode::Accumulator {
                r.acc
            } else {
                v
            };
            let out = shifted(m, input, flag_set(r.stat, FL_CARRY));
            let r2 = shift_regs(r, out.0, out.1);
            if ins.mode == Mode::Accumulator {
                (with_regs(s, Registers { acc: out.0, ..r2 }), 0)
            } else {
                (with_regs(store(s, addr, out.0), r2), 0)
            }
        },
        Mnemonic::Inc => {
            let res = inc8(v);
            (with_regs(store(s, addr, res), Registers { stat: with_nz(r.stat, res), ..r }), 0)
        },
        Mnemonic::Dec => {
            let res = dec8(v);
            (with_regs(store(s, addr, res), Registers { stat: with_nz(r.stat, res), ..r }), 0)
        },
        Mnemonic::Inx => (with_regs(s, load_x(r, inc8(r.irx))), 0),
        Mnemonic::Iny => (with_regs(s, load_y(r, inc8(r.iry))), 0),
        Mnemonic::Dex => (with_regs(s, load_x(r, dec8(r.irx))), 0),
        Mnemonic::Dey => (with_regs(s, load_y(r, dec8(r.iry))), 0),
        Mnemonic::Bcc | Mnemonic::Bcs | Mnemonic::Beq | Mnemonic::Bne | Mnemonic::Bmi
        | Mnemonic::Bpl | Mnemonic::Bvs | Mnemonic::Bvc => {
            let taken = branch_condition(m, r.stat);
            (branch_effect(s, taken, addr), branch_cycles(taken, r.pc, addr))
        },
        Mnemonic::Jmp => (with_pc(s, addr), 0),
        Mnemonic::Jsr => (with_pc(push16(s, add16(r.pc, -1)), addr), 0),
        Mnemonic::Rts => (with_pc(after_pop16(s), add16(pop16_value(s), 1)), 0),
        Mnemonic::Brk => (interrupt_entry(with_pc(s, add16(r.pc, 1)), BRK_VECTOR, true), 0),
        Mnemonic::Rti => {
            let s1 = after_pop(s);
            let s2 = after_pop16(s1);
            (
                with_regs(
                    s2,
                    Registers {
                        stat: rti_status(r.stat, pop_value(s)),
                        pc: pop16_value(s1),
                        ..s2.regs
                    },
                ),
                0,
            )
        },
        Mnemonic::Pha => (push(s, r.acc), 0),
        Mnemonic::Php => (push(s, pushed_status(r.stat, true)), 0),
        Mnemonic::Pla => (with_regs(after_pop(s), load_a(after_pop(s).regs, pop_value(s))), 0),
        Mnemonic::Plp => (with_status(after_pop(s), plp_status(r.stat, pop_value(s))), 0),
        Mnemonic::Clc => (with_status(s, with_flag(r.stat, FL_CARRY, false)), 0),
        Mnemonic::Sec => (with_status(s, with_flag(r.stat, FL_CARRY, true)), 0),
        Mnemonic::Cli => (with_status(s, with_flag(r.stat, FL_INTERRUPT_DISABLE, false)), 0),
        Mnemonic::Sei => (with_status(s, with_flag(r.stat, FL_INTERRUPT_DISABLE, true)), 0),
        Mnemonic::Clv => (with_status(s, with_flag(r.stat, FL_OVERFLOW, false)), 0),
        Mnemonic::Cld => (with_status(s, with_flag(r.stat, FL_DECIMAL, false)), 0),
        Mnemonic::Sed => (with_status(s, with_flag(r.stat, FL_DECIMAL, true)), 0),
        Mnemonic::Nop => (s, 0),
    }
}

/// The state just after the opcode and its operand bytes have been fetched.
pub open spec fn fetched(s: CpuState, ins: Instruction) -> CpuState {
    with_pc(s, add16(s.regs.pc, 1 + operand_len(ins.mode)))
}

/// One instruction at PC whose opcode is documented: fetch, address, perform, and count base
/// cycles plus the page-cross and branch cycles.
pub open spec fn execute_spec(s: CpuState, ins: Instruction) -> CpuState {
    let ea = effective(ins.mode, with_pc(s, add16(s.regs.pc, 1)));
    let out = perform(ins, fetched(s, ins), ea.0);
    let penalty: int = if ins.page_penalty && ea.1 {
        1
    } else {
        0
    };
    CpuState { cycles: out.0.cycles + ins.cycles + penalty + out.1, ..out.0 }
}

/// NMI entry: as an interrupt with B clear in the pushed copy, vector 0xFFFA, 7 cycles; the
/// NMI latch is consumed.
pub open spec fn nmi_spec(s: CpuState) -> CpuState {
    let t = interrupt_entry(s, NMI_VECTOR, false);
    CpuState { cycles: t.cycles + 7, nmi_pending: false, ..t }
}

/// IRQ entry: as NMI but through vector 0xFFFE, latch untouched.
pub open spec fn irq_spec(s: CpuState) -> CpuState {
    let t = interrupt_entry(s, BRK_VECTOR, false);
    CpuState { cycles: t.cycles + 7, ..t }
}

/// Whether a maskable interrupt is requested and not masked.
pub open spec fn irq_active(s: CpuState) -> bool {
    s.irq_line_low && !flag_set(s.regs.stat, FL_INTERRUPT_DISABLE)
}

/// Services the pending interrupt of highest priority, NMI before IRQ, if any.
pub open spec fn service_spec(s: CpuState) -> CpuState {
    if s.nmi_pending {
        nmi_spec(s)
    } else if irq_active(s) {
        irq_spec(s)
    } else {
        s
    }
}

/// The opcode at PC.
pub open spec fn current_opcode(s: CpuState) -> u8 {
    s.mem[s.regs.pc as int]
}

/// One step: the instruction at PC, then the pending interrupts.
pub open spec fn step_spec(s: CpuState, ins: Instruction) -> CpuState {
    service_spec(execute_spec(s, ins))
}

/// Reset: Interrupt-Disable set and PC loaded from the reset vector.
pub open spec fn reset_spec(s: CpuState) -> CpuState {
    with_regs(
        s,
        Registers {
            pc: word_at(s.mem, RESET_VECTOR),
            stat: with_flag(s.regs.stat, FL_INTERRUPT_DISABLE, true),
            ..s.regs
        },
    )
}

} // verus!
