use vstd::prelude::*;

use crate::machine::{
    add16, branch_condition, branch_cycles, current_opcode, dec8, effective, is_branch,
    fetched, perform, reset_spec, step_spec, with_pc, BRK_VECTOR, adc_overflow, adc_regs, after_pop, after_pop16, carry_in, plp_status, pop16_value,
    pop_value, push, push16, pushed_status, sbc_regs, signed, CpuState, STACK_LOC,
};
use crate::memory::{high_byte, low_byte, word, word_at};
use crate::opcodes::{entry, opcode_entry, operand_len, Instruction, Mnemonic, Mode};
use crate::registers::{
    crosses_page, flag_set, with_flag, with_nz, Registers, FL_CARRY, FL_DECIMAL, FL_INTERRUPT_DISABLE,
    FL_OVERFLOW,
};

verus! {

/// Whether a signed sum lies outside the range of a signed byte.
pub open spec fn signed_overflow(x: int) -> bool {
    x < -128 || x > 127
}

proof fn lemma_overflow_bits(a: u8, m: u8, c: u8)
    requires
        c <= 1,
    ensures
        adc_overflow(a, m, ((a as int + m as int + c as int) % 256) as u8) == signed_overflow(
            signed(a) + signed(m) + c,
        ),
{
    let s: u16 = (a as u16 + m as u16 + c as u16) as u16;
    let res: u8 = (s % 256) as u8;
    assert(((a ^ res) & (m ^ res) & 0x80 != 0) == ((a < 128 && m < 128 && s >= 128) || (a >= 128
        && m >= 128 && s < 384))) by (bit_vector)
        requires
            c <= 1,
            s == a as u16 + m as u16 + c as u16,
            res == (s % 256) as u8,
    ;
}

proof fn lemma_flags_after_adc(p: u8, c: bool, v: bool, res: u8)
    ensures
        flag_set(with_nz(with_flag(with_flag(p, FL_CARRY, c), FL_OVERFLOW, v), res), FL_CARRY)
            == c,
        flag_set(with_nz(with_flag(with_flag(p, FL_CARRY, c), FL_OVERFLOW, v), res), FL_OVERFLOW)
            == v,
{
    let z = res == 0;
    let n = res >= 0x80;
    assert(flag_set(with_flag(with_flag(with_flag(with_flag(p, 0x01, c), 0x40, v), 0x02, z), 0x80, n), 0x01) == c) by (bit_vector);
    assert(flag_set(with_flag(with_flag(with_flag(with_flag(p, 0x01, c), 0x40, v), 0x02, z), 0x80, n), 0x40) == v) by (bit_vector);
}

/// ADC agrees with 9-bit two's-complement addition: for every A, operand and carry, A gets
/// the sum modulo 256, C tells whether the unsigned sum exceeds 255, and V whether the signed
/// sum leaves the range of a signed byte.
pub proof fn lemma_adc_reference(r: Registers, m: u8)
    ensures
        adc_regs(r, m).acc == (r.acc as int + m as int + carry_in(r)) % 256,
        flag_set(adc_regs(r, m).stat, FL_CARRY) == (r.acc as int + m as int + carry_in(r) >= 256),
        flag_set(adc_regs(r, m).stat, FL_OVERFLOW) == signed_overflow(
            signed(r.acc) + signed(m) + carry_in(r),
        ),
{
    let sum = r.acc as int + m as int + carry_in(r);
    let res = (sum % 256) as u8;
    lemma_overflow_bits(r.acc, m, carry_in(r) as u8);
    lemma_flags_after_adc(r.stat, sum >= 256, adc_overflow(r.acc, m, res), res);
}

/// SBC agrees with 9-bit two's-complement subtraction with borrow `1 - C`: A gets the
/// difference modulo 256, C tells that no borrow was needed, and V whether the signed
/// difference leaves the range of a signed byte.
pub proof fn lemma_sbc_reference(r: Registers, m: u8)
    ensures
        sbc_regs(r, m).acc == (r.acc as int - m as int - (1 - carry_in(r))) % 256,
        flag_set(sbc_regs(r, m).stat, FL_CARRY) == (r.acc as int - m as int - (1 - carry_in(r))
            >= 0),
        flag_set(sbc_regs(r, m).stat, FL_OVERFLOW) == signed_overflow(
            signed(r.acc) - signed(m) - (1 - carry_in(r)),
        ),
{
    assert(!m == 255 - m) by (bit_vector);
    lemma_adc_reference(r, !m);
    assert((r.acc as int + (255 - m as int) + carry_in(r)) % 256 == (r.acc as int - m as int - (1
        - carry_in(r))) % 256) by {
        let x = r.acc as int - m as int - (1 - carry_in(r));
        assert(r.acc as int + (255 - m as int) + carry_in(r) == x + 256);
        vstd::arithmetic::div_mod::lemma_mod_add_multiples_vanish(x, 256);
    }
}

/// A pushed byte pops back, and a pop after a push leaves every register as it was.
pub proof fn lemma_push_pop(s: CpuState, v: u8)
    requires
        s.mem.len() == 65536,
    ensures
        pop_value(push(s, v)) == v,
        after_pop(push(s, v)).regs == s.regs,
{
}

/// A pushed word pops back, and two pops after it leave every register as it was.
pub proof fn lemma_push_pop16(s: CpuState, w: u16)
    requires
        s.mem.len() == 65536,
    ensures
        pop16_value(push16(s, w)) == w,
        after_pop16(push16(s, w)).regs == s.regs,
{
    lemma_push_pop(push(s, high_byte(w)), low_byte(w));
}

/// PLP of the copy that PHP pushed gives the status word back.
pub proof fn lemma_php_plp(p: u8)
    ensures
        plp_status(p, pushed_status(p, true)) == p,
{
    assert(((p | (0x10u8 | 0x20u8)) & 0xCF) | (p & 0x30) == p) by (bit_vector);
}

/// No interrupt is requested: the NMI latch is clear and the IRQ line is high.
pub open spec fn quiet(s: CpuState) -> bool {
    !s.nmi_pending && !s.irq_line_low
}

/// Mnemonics that load PC with something other than the next instruction's address.
pub open spec fn is_control_flow(m: Mnemonic) -> bool {
    is_branch(m) || m == Mnemonic::Jmp || m == Mnemonic::Jsr || m == Mnemonic::Rts || m
        == Mnemonic::Rti || m == Mnemonic::Brk
}

/// What every mnemonic leaves alone: the interrupt inputs and the cycle tally; and where it
/// puts PC, with PC past the instruction.
#[verifier::rlimit(60)]
#[verifier::spinoff_prover]
proof fn lemma_perform_frame(ins: Instruction, s: CpuState, addr: u16)
    requires
        s.mem.len() == 65536,
    ensures
        ({
            let out = perform(ins, s, addr);
            let m = ins.mnemonic;
            let taken = branch_condition(m, s.regs.stat);
            &&& out.0.nmi_pending == s.nmi_pending
            &&& out.0.irq_line_low == s.irq_line_low
            &&& out.0.cycles == s.cycles
            &&& !is_control_flow(m) ==> out.0.regs.pc == s.regs.pc
            &&& is_branch(m) ==> out.0.regs.pc == (if taken {
                addr
            } else {
                s.regs.pc
            }) && out.1 == branch_cycles(taken, s.regs.pc, addr)
            &&& !is_branch(m) ==> out.1 == 0
            &&& (m == Mnemonic::Jmp || m == Mnemonic::Jsr) ==> out.0.regs.pc == addr
            &&& m == Mnemonic::Rts ==> out.0.regs.pc == add16(pop16_value(s), 1)
            &&& m == Mnemonic::Rti ==> out.0.regs.pc == pop16_value(after_pop(s))
            &&& m == Mnemonic::Brk ==> out.0.regs.pc == word_at(s.mem, BRK_VECTOR)
        }),
{
    reveal(perform);
}

/// For every documented opcode, a step with no interrupt requested moves PC past the 1, 2 or
/// 3 bytes of the instruction, unless the instruction jumps, branches, returns or breaks, and
/// then PC is its target; the cycle tally grows by the base count, plus one for a page crossed
/// by an indexed read, plus a branch's cycles.
#[verifier::rlimit(40)]
pub proof fn lemma_step_advance(s: CpuState, ins: Instruction)
    requires
        s.mem.len() == 65536,
        opcode_entry(current_opcode(s)) == Some(ins),
        quiet(s),
    ensures
        ({
            let len = 1 + operand_len(ins.mode);
            let ea = effective(ins.mode, with_pc(s, add16(s.regs.pc, 1)));
            let next = add16(s.regs.pc, len);
            let t = step_spec(s, ins);
            let m = ins.mnemonic;
            let taken = branch_condition(m, s.regs.stat);
            &&& 1 <= len <= 3
            &&& !is_control_flow(m) ==> t.regs.pc == next
            &&& is_branch(m) ==> t.regs.pc == if taken {
                ea.0
            } else {
                next
            }
            &&& (m == Mnemonic::Jmp || m == Mnemonic::Jsr) ==> t.regs.pc == ea.0
            &&& m == Mnemonic::Rts ==> t.regs.pc == add16(pop16_value(s), 1)
            &&& m == Mnemonic::Rti ==> t.regs.pc == pop16_value(after_pop(s))
            &&& m == Mnemonic::Brk ==> t.regs.pc == word_at(s.mem, BRK_VECTOR)
            &&& t.cycles == s.cycles + ins.cycles + (if ins.page_penalty && ea.1 {
                1int
            } else {
                0int
            }) + (if is_branch(m) {
                branch_cycles(taken, next, ea.0)
            } else {
                0int
            })
        }),
{
    let t0 = fetched(s, ins);
    lemma_perform_frame(ins, t0, effective(ins.mode, with_pc(s, add16(s.regs.pc, 1))).0);
}

/// A branch costs its base 2 cycles, plus 1 when taken, plus 1 more when the target lies on
/// another page than the next instruction.
pub proof fn lemma_branch_cycles(s: CpuState)
    requires
        s.mem.len() == 65536,
        quiet(s),
        ({
            let op = current_opcode(s);
            op == 0x10 || op == 0x30 || op == 0x50 || op == 0x70 || op == 0x90 || op == 0xB0
                || op == 0xD0 || op == 0xF0
        }),
    ensures
        ({
            let ins = opcode_entry(current_opcode(s)).unwrap();
            let next = add16(s.regs.pc, 2);
            let target = add16(next, signed(s.mem[add16(s.regs.pc, 1) as int]));
            let taken = branch_condition(ins.mnemonic, s.regs.stat);
            let t = step_spec(s, ins);
            &&& ins.cycles == 2
            &&& !taken ==> t.cycles == s.cycles + 2 && t.regs.pc == next
            &&& taken && !crosses_page(next, target) ==> t.cycles == s.cycles + 3 && t.regs.pc
                == target
            &&& taken && crosses_page(next, target) ==> t.cycles == s.cycles + 4 && t.regs.pc
                == target
        }),
{
    reveal(opcode_entry);
    let ins = opcode_entry(current_opcode(s)).unwrap();
    lemma_step_advance(s, ins);
    reveal(effective);
}

/// JSR followed by the RTS at its target returns to the instruction after the JSR, with S
/// back where it was. The RTS must not sit where JSR pushes its return address.
pub proof fn lemma_jsr_rts(s: CpuState)
    requires
        s.mem.len() == 65536,
        quiet(s),
        current_opcode(s) == 0x20,
        ({
            let target = word_at(s.mem, add16(s.regs.pc, 1));
            &&& s.mem[target as int] == 0x60
            &&& target != STACK_LOC + s.regs.sp
            &&& target != STACK_LOC + dec8(s.regs.sp)
        }),
    ensures
        ({
            let s1 = step_spec(s, entry(Mnemonic::Jsr, Mode::Absolute, 6, false));
            let s2 = step_spec(s1, entry(Mnemonic::Rts, Mode::Implied, 6, false));
            &&& current_opcode(s1) == 0x60
            &&& s2.regs.pc == add16(s.regs.pc, 3)
            &&& s2.regs.sp == s.regs.sp
        }),
{
    let jsr = entry(Mnemonic::Jsr, Mode::Absolute, 6, false);
    let rts = entry(Mnemonic::Rts, Mode::Implied, 6, false);
    let target = word_at(s.mem, add16(s.regs.pc, 1));
    assert(opcode_entry(0x20) == Some(jsr) && opcode_entry(0x60) == Some(rts)) by {
        reveal(opcode_entry);
    }
    assert(effective(Mode::Absolute, with_pc(s, add16(s.regs.pc, 1))).0 == target) by {
        reveal(effective);
    }
    let f = fetched(s, jsr);
    let ret = add16(f.regs.pc, -1);
    lemma_step_advance(s, jsr);
    lemma_perform_frame(jsr, f, target);
    assert(perform(jsr, f, target).0 == with_pc(push16(f, ret), target)) by {
        reveal(perform);
    }
    let s1 = step_spec(s, jsr);
    assert(s1.mem == push16(f, ret).mem);
    assert(current_opcode(s1) == 0x60);
    lemma_push_pop16(f, ret);
    let g = fetched(s1, rts);
    assert(effective(Mode::Implied, with_pc(s1, add16(s1.regs.pc, 1))).0 == 0) by {
        reveal(effective);
    }
    lemma_step_advance(s1, rts);
    lemma_perform_frame(rts, g, 0);
    assert(perform(rts, g, 0).0 == with_pc(after_pop16(g), add16(pop16_value(g), 1))) by {
        reveal(perform);
    }
    assert(pop16_value(g) == pop16_value(push16(f, ret)));
}

/// JMP through a pointer whose low byte is 0xFF takes the target's high byte from the start
/// of the pointer's own page.
pub proof fn lemma_jmp_indirect_page_wrap(s: CpuState)
    requires
        s.mem.len() == 65536,
        quiet(s),
        current_opcode(s) == 0x6C,
        word_at(s.mem, add16(s.regs.pc, 1)) % 256 == 255,
    ensures
        ({
            let ptr = word_at(s.mem, add16(s.regs.pc, 1));
            step_spec(s, entry(Mnemonic::Jmp, Mode::Indirect, 5, false)).regs.pc == word(
                s.mem[ptr as int],
                s.mem[ptr - 255],
            )
        }),
{
    reveal(opcode_entry);
    reveal(effective);
    lemma_step_advance(s, entry(Mnemonic::Jmp, Mode::Indirect, 5, false));
}

/// CLC, SEC, CLD and SED change their own flag and no other bit of the status word, and
/// nothing else but PC (one byte on) and the cycle tally (two cycles on).
pub proof fn lemma_flag_instructions(s: CpuState)
    requires
        s.mem.len() == 65536,
        quiet(s),
        current_opcode(s) == 0x18 || current_opcode(s) == 0x38 || current_opcode(s) == 0xD8
            || current_opcode(s) == 0xF8,
    ensures
        ({
            let op = current_opcode(s);
            let mask = if op == 0x18 || op == 0x38 {
                FL_CARRY
            } else {
                FL_DECIMAL
            };
            let on = op == 0x38 || op == 0xF8;
            let t = step_spec(s, opcode_entry(op).unwrap());
            &&& t.regs == (Registers {
                pc: add16(s.regs.pc, 1),
                stat: with_flag(s.regs.stat, mask, on),
                ..s.regs
            })
            &&& flag_set(t.regs.stat, mask) == on
            &&& t.regs.stat & !mask == s.regs.stat & !mask
            &&& t.mem == s.mem
            &&& t.cycles == s.cycles + 2
        }),
{
    reveal(perform);
    reveal(opcode_entry);
    let p = s.regs.stat;
    assert(flag_set(with_flag(p, 0x01, true), 0x01) && with_flag(p, 0x01, true) & !0x01u8 == p
        & !0x01u8) by (bit_vector);
    assert(!flag_set(with_flag(p, 0x01, false), 0x01) && with_flag(p, 0x01, false) & !0x01u8 == p
        & !0x01u8) by (bit_vector);
    assert(flag_set(with_flag(p, 0x08, true), 0x08) && with_flag(p, 0x08, true) & !0x08u8 == p
        & !0x08u8) by (bit_vector);
    assert(!flag_set(with_flag(p, 0x08, false), 0x08) && with_flag(p, 0x08, false) & !0x08u8 == p
        & !0x08u8) by (bit_vector);
}

/// Reset sets Interrupt-Disable and changes no other bit of the status word.
pub proof fn lemma_reset_status(s: CpuState)
    ensures
        flag_set(reset_spec(s).regs.stat, FL_INTERRUPT_DISABLE),
        reset_spec(s).regs.stat & !FL_INTERRUPT_DISABLE == s.regs.stat & !FL_INTERRUPT_DISABLE,
{
    let p = s.regs.stat;
    assert(flag_set(with_flag(p, 0x04, true), 0x04) && with_flag(p, 0x04, true) & !0x04u8 == p
        & !0x04u8) by (bit_vector);
}

/// PHA followed by PLA gives A and S back. The PLA must not sit where PHA writes.
pub proof fn lemma_pha_pla(s: CpuState)
    requires
        s.mem.len() == 65536,
        quiet(s),
        current_opcode(s) == 0x48,
        s.mem[add16(s.regs.pc, 1) as int] == 0x68,
        add16(s.regs.pc, 1) != STACK_LOC + s.regs.sp,
    ensures
        ({
            let s1 = step_spec(s, entry(Mnemonic::Pha, Mode::Implied, 3, false));
            let s2 = step_spec(s1, entry(Mnemonic::Pla, Mode::Implied, 4, false));
            &&& current_opcode(s1) == 0x68
            &&& s2.regs.acc == s.regs.acc
            &&& s2.regs.sp == s.regs.sp
        }),
{
    reveal(perform);
    lemma_push_pop(with_pc(s, add16(s.regs.pc, 1)), s.regs.acc);
}

/// PHP followed by PLP gives the status word and S back. The PLP must not sit where PHP
/// writes.
pub proof fn lemma_php_plp_steps(s: CpuState)
    requires
        s.mem.len() == 65536,
        quiet(s),
        current_opcode(s) == 0x08,
        s.mem[add16(s.regs.pc, 1) as int] == 0x28,
        add16(s.regs.pc, 1) != STACK_LOC + s.regs.sp,
    ensures
        ({
            let s1 = step_spec(s, entry(Mnemonic::Php, Mode::Implied, 3, false));
            let s2 = step_spec(s1, entry(Mnemonic::Plp, Mode::Implied, 4, false));
            &&& current_opcode(s1) == 0x28
            &&& s2.regs.stat == s.regs.stat
            &&& s2.regs.sp == s.regs.sp
        }),
{
    reveal(perform);
    lemma_push_pop(with_pc(s, add16(s.regs.pc, 1)), pushed_status(s.regs.stat, true));
    lemma_php_plp(s.regs.stat);
}

} // verus!
