use rs_nes::cpu::Cpu6502;
use rs_nes::instructions::{Bne, Sbc};
use rs_nes::registers::{FL_CARRY, FL_OVERFLOW, FL_SIGN, FL_ZERO};

fn branch_positive(cpu: &mut Cpu6502, branch: fn(&mut Cpu6502, i8) -> u8) {
    cpu.registers.pc = 0x1020;
    let extra = branch(cpu, 0x10);
    assert_eq!(0x1030, cpu.registers.pc);
    assert_eq!(1, extra);
}

fn branch_negative(cpu: &mut Cpu6502, branch: fn(&mut Cpu6502, i8) -> u8) {
    cpu.registers.pc = 0x1080;
    let extra = branch(cpu, -0x10);
    assert_eq!(0x1070, cpu.registers.pc);
    assert_eq!(1, extra);
}

fn no_branch(cpu: &mut Cpu6502, branch: fn(&mut Cpu6502, i8) -> u8) {
    cpu.registers.pc = 0x1020;
    let extra = branch(cpu, 0x10);
    assert_eq!(0x1020, cpu.registers.pc);
    assert_eq!(0, extra);
}

#[test]
fn bcc_spec_tests_branch_not_crossing_page_boundary_positive_offset() {
    let mut cpu = Cpu6502::new();
    cpu.registers.set_flag(FL_CARRY, false);
    branch_positive(&mut cpu, |c, o| c.bcc(o));
}

#[test]
fn bcc_spec_tests_branch_not_crossing_page_boundary_negative_offset() {
    let mut cpu = Cpu6502::new();
    cpu.registers.set_flag(FL_CARRY, false);
    branch_negative(&mut cpu, |c, o| c.bcc(o));
}

#[test]
fn bcc_spec_tests_no_branch() {
    let mut cpu = Cpu6502::new();
    cpu.registers.set_flag(FL_CARRY, true);
    no_branch(&mut cpu, |c, o| c.bcc(o));
}

#[test]
fn beq_spec_tests_branch_not_crossing_page_boundary_positive_offset() {
    let mut cpu = Cpu6502::new();
    cpu.registers.set_flag(FL_ZERO, true);
    branch_positive(&mut cpu, |c, o| c.beq(o));
}

#[test]
fn beq_spec_tests_branch_not_crossing_page_boundary_negative_offset() {
    let mut cpu = Cpu6502::new();
    cpu.registers.set_flag(FL_ZERO, true);
    branch_negative(&mut cpu, |c, o| c.beq(o));
}

#[test]
fn beq_spec_tests_no_branch() {
    let mut cpu = Cpu6502::new();
    cpu.registers.set_flag(FL_ZERO, false);
    no_branch(&mut cpu, |c, o| c.beq(o));
}

#[test]
fn bne_struct_branches_on_zero_clear() {
    let mut cpu = Cpu6502::new();
    cpu.registers.set_flag(FL_ZERO, false);
    branch_positive(&mut cpu, |c, o| Bne::execute(c, o));
    cpu.registers.set_flag(FL_ZERO, true);
    no_branch(&mut cpu, |c, o| Bne::execute(c, o));
}

#[test]
fn branch_onto_next_page_costs_two() {
    let mut cpu = Cpu6502::new();
    cpu.registers.set_flag(FL_ZERO, false);
    cpu.registers.pc = 0x10F0;
    assert_eq!(2, cpu.bne(0x20));
    assert_eq!(0x1110, cpu.registers.pc);
    cpu.registers.pc = 0x1005;
    assert_eq!(2, cpu.bne(-0x10));
    assert_eq!(0x0FF5, cpu.registers.pc);
}

#[test]
fn sbc_struct_subtracts_with_borrow() {
    let mut cpu = Cpu6502::new();
    cpu.registers.acc = 0x80;
    cpu.registers.set_flag(FL_CARRY, true);
    Sbc::execute(&mut cpu, 0x01);
    assert_eq!(0x7F, cpu.registers.acc);
    assert!(cpu.registers.get_flag(FL_CARRY));
    assert!(cpu.registers.get_flag(FL_OVERFLOW));
    assert!(!cpu.registers.get_flag(FL_SIGN));
}

#[test]
fn sta() {
    let mut cpu = Cpu6502::new();
    cpu.registers.acc = 0xff;
    cpu.sta(0x0200);
    assert_eq!(0xff, cpu.memory.read(0x0200));
}

#[test]
fn tax() {
    let mut cpu = Cpu6502::new();
    cpu.registers.acc = 0xff;
    cpu.registers.iry = 0x0;
    cpu.tay();
    assert_eq!(0xff, cpu.registers.iry);
}
