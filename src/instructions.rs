use vstd::prelude::*;

use crate::cpu::Cpu6502;
use crate::machine::{add16, branch_condition, branch_cycles, branch_effect, sbc_regs, with_regs};
use crate::opcodes::Mnemonic;

verus! {

/// BNE as an instruction of its own: branch on Z clear.
pub struct Bne;

impl Bne {
    /// Branches by `rel_addr` when Z is clear; returns the cycles that this adds.
    pub fn execute(cpu: &mut Cpu6502, rel_addr: i8) -> (r: u8)
        requires
            old(cpu).wf(),
        ensures
            final(cpu).wf(),
            ({
                let taken = branch_condition(Mnemonic::Bne, old(cpu).registers.stat);
                let target = add16(old(cpu).registers.pc, rel_addr as int);
                &&& final(cpu)@ == branch_effect(old(cpu)@, taken, target)
                &&& r as int == branch_cycles(taken, old(cpu).registers.pc, target)
            }),
    {
        cpu.bne(rel_addr)
    }
}

/// SBC as an instruction of its own: subtract with borrow.
pub struct Sbc;

impl Sbc {
    /// Subtracts `rop` and the borrow from A.
    pub fn execute(cpu: &mut Cpu6502, rop: u8)
        requires
            old(cpu).wf(),
        ensures
            final(cpu).wf(),
            final(cpu)@ == with_regs(old(cpu)@, sbc_regs(old(cpu).registers, rop)),
    {
        cpu.sbc(rop)
    }
}

} // verus!
