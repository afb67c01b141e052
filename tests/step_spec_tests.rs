use rs_nes::cpu::{Cpu6502, CpuError};
use rs_nes::registers::{
    FL_BRK, FL_CARRY, FL_DECIMAL, FL_INTERRUPT_DISABLE, FL_OVERFLOW, FL_SIGN, FL_UNUSED, FL_ZERO,
};

fn cpu_with_program(pc: u16, program: &[u8]) -> Cpu6502 {
    let mut cpu = Cpu6502::new();
    cpu.memory.store_many(pc, program);
    cpu.registers.pc = pc;
    cpu
}

#[test]
fn lda_immediate_zero() {
    let mut cpu = cpu_with_program(0x0000, &[0xA9, 0x00]);
    cpu.registers.acc = 0x55;
    cpu.step().unwrap();
    assert_eq!(0x00, cpu.registers.acc);
    assert!(cpu.registers.get_flag(FL_ZERO));
    assert!(!cpu.registers.get_flag(FL_SIGN));
    assert_eq!(0x0002, cpu.registers.pc);
    assert_eq!(2, cpu.cycles);
}

#[test]
fn lda_immediate_negative() {
    let mut cpu = cpu_with_program(0x0000, &[0xA9, 0x80]);
    cpu.step().unwrap();
    assert_eq!(0x80, cpu.registers.acc);
    assert!(!cpu.registers.get_flag(FL_ZERO));
    assert!(cpu.registers.get_flag(FL_SIGN));
    assert_eq!(2, cpu.cycles);
}

#[test]
fn adc_with_overflow() {
    let mut cpu = cpu_with_program(0x0200, &[0x69, 0x50]);
    cpu.registers.acc = 0x50;
    cpu.registers.set_flag(FL_CARRY, false);
    cpu.step().unwrap();
    assert_eq!(0xA0, cpu.registers.acc);
    assert!(!cpu.registers.get_flag(FL_CARRY));
    assert!(cpu.registers.get_flag(FL_OVERFLOW));
    assert!(cpu.registers.get_flag(FL_SIGN));
    assert!(!cpu.registers.get_flag(FL_ZERO));
}

#[test]
fn sbc_across_zero() {
    let mut cpu = cpu_with_program(0x0200, &[0xE9, 0x01]);
    cpu.registers.acc = 0x00;
    cpu.registers.set_flag(FL_CARRY, true);
    cpu.step().unwrap();
    assert_eq!(0xFF, cpu.registers.acc);
    assert!(!cpu.registers.get_flag(FL_CARRY));
    assert!(!cpu.registers.get_flag(FL_OVERFLOW));
    assert!(cpu.registers.get_flag(FL_SIGN));
    assert!(!cpu.registers.get_flag(FL_ZERO));
}

#[test]
fn indirect_jmp_bug() {
    let mut cpu = cpu_with_program(0x0200, &[0x6C, 0xFF, 0x30]);
    cpu.memory.write(0x30FF, 0x40);
    cpu.memory.write(0x3000, 0x80);
    cpu.memory.write(0x3100, 0x50);
    cpu.step().unwrap();
    assert_eq!(0x8040, cpu.registers.pc);
    assert_eq!(5, cpu.cycles);
}

#[test]
fn indirect_jmp_within_page() {
    let mut cpu = cpu_with_program(0x0200, &[0x6C, 0x10, 0x30]);
    cpu.memory.write(0x3010, 0x34);
    cpu.memory.write(0x3011, 0x12);
    cpu.step().unwrap();
    assert_eq!(0x1234, cpu.registers.pc);
}

#[test]
fn branch_taken_crossing_page() {
    let mut cpu = cpu_with_program(0x00F0, &[0xD0, 0x20]);
    cpu.registers.set_flag(FL_ZERO, false);
    cpu.step().unwrap();
    assert_eq!(0x0112, cpu.registers.pc);
    assert_eq!(4, cpu.cycles);
}

#[test]
fn branch_cycles_taken_and_not() {
    let mut cpu = cpu_with_program(0x0200, &[0xF0, 0x10]);
    cpu.registers.set_flag(FL_ZERO, false);
    cpu.step().unwrap();
    assert_eq!(0x0202, cpu.registers.pc);
    assert_eq!(2, cpu.cycles);
    let mut cpu = cpu_with_program(0x0200, &[0xF0, 0x10]);
    cpu.registers.set_flag(FL_ZERO, true);
    cpu.step().unwrap();
    assert_eq!(0x0212, cpu.registers.pc);
    assert_eq!(3, cpu.cycles);
    let mut cpu = cpu_with_program(0x0200, &[0xF0, 0xFC]);
    cpu.registers.set_flag(FL_ZERO, true);
    cpu.step().unwrap();
    assert_eq!(0x01FE, cpu.registers.pc);
    assert_eq!(4, cpu.cycles);
}

#[test]
fn reset_then_flag_instructions() {
    let mut cpu = cpu_with_program(0x8000, &[0x18, 0x38, 0xD8, 0xF8]);
    cpu.memory.write(0xFFFC, 0x00);
    cpu.memory.write(0xFFFD, 0x80);
    cpu.registers.pc = 0;
    cpu.registers.stat = 0x00;
    cpu.reset();
    assert_eq!(0x8000, cpu.registers.pc);
    assert_eq!(FL_INTERRUPT_DISABLE, cpu.registers.stat);
    let expected = [
        FL_INTERRUPT_DISABLE,
        FL_INTERRUPT_DISABLE | FL_CARRY,
        FL_INTERRUPT_DISABLE | FL_CARRY,
        FL_INTERRUPT_DISABLE | FL_CARRY | FL_DECIMAL,
    ];
    for stat in expected.iter() {
        cpu.step().unwrap();
        assert_eq!(*stat, cpu.registers.stat);
    }
    assert_eq!(0x8004, cpu.registers.pc);
    assert_eq!(8, cpu.cycles);
}

#[test]
fn jsr_then_rts() {
    let mut cpu = cpu_with_program(0x0200, &[0x20, 0x00, 0x03]);
    cpu.memory.write(0x0300, 0x60);
    cpu.step().unwrap();
    assert_eq!(0x0300, cpu.registers.pc);
    assert_eq!(0xFB, cpu.registers.sp);
    assert_eq!(0x02, cpu.memory.read(0x01FD));
    assert_eq!(0x02, cpu.memory.read(0x01FC));
    cpu.step().unwrap();
    assert_eq!(0x0203, cpu.registers.pc);
    assert_eq!(0xFD, cpu.registers.sp);
    assert_eq!(12, cpu.cycles);
}

#[test]
fn pha_then_pla() {
    let mut cpu = cpu_with_program(0x0200, &[0x48, 0xA9, 0x00, 0x68]);
    cpu.registers.acc = 0x42;
    for _ in 0..3 {
        cpu.step().unwrap();
    }
    assert_eq!(0x42, cpu.registers.acc);
    assert_eq!(0xFD, cpu.registers.sp);
    assert_eq!(9, cpu.cycles);
}

#[test]
fn php_then_plp() {
    let mut cpu = cpu_with_program(0x0200, &[0x08, 0x18, 0x28]);
    cpu.registers.stat = 0xC3 | FL_UNUSED;
    cpu.step().unwrap();
    assert_eq!(0xC3 | FL_UNUSED | FL_BRK, cpu.memory.read(0x01FD));
    cpu.step().unwrap();
    cpu.step().unwrap();
    assert_eq!(0xC3 | FL_UNUSED, cpu.registers.stat);
    assert_eq!(0xFD, cpu.registers.sp);
}

#[test]
fn plp_ignores_break_and_bit5() {
    let mut cpu = Cpu6502::new();
    cpu.registers.stat = 0x24;
    cpu.push_stack(0xFF);
    cpu.plp();
    assert_eq!(0xEF, cpu.registers.stat);
    cpu.registers.stat = 0x10;
    cpu.push_stack(0x00);
    cpu.plp();
    assert_eq!(0x10, cpu.registers.stat);
}

#[test]
fn brk_pushes_break_flag_set() {
    let mut cpu = cpu_with_program(0x0200, &[0x00, 0xEA]);
    cpu.memory.write(0xFFFE, 0x00);
    cpu.memory.write(0xFFFF, 0x90);
    cpu.registers.stat = FL_UNUSED;
    cpu.step().unwrap();
    assert_eq!(0x9000, cpu.registers.pc);
    assert_eq!(0x02, cpu.memory.read(0x01FD));
    assert_eq!(0x02, cpu.memory.read(0x01FC));
    assert_eq!(FL_UNUSED | FL_BRK, cpu.memory.read(0x01FB));
    assert_eq!(FL_UNUSED | FL_INTERRUPT_DISABLE, cpu.registers.stat);
    assert_eq!(0xFA, cpu.registers.sp);
    assert_eq!(7, cpu.cycles);
}

#[test]
fn nmi_pushes_break_flag_clear() {
    let mut cpu = cpu_with_program(0x0200, &[0xEA]);
    cpu.memory.write(0xFFFA, 0x00);
    cpu.memory.write(0xFFFB, 0xA0);
    cpu.registers.stat = FL_UNUSED;
    cpu.nmi_pending = true;
    cpu.step().unwrap();
    assert_eq!(0xA000, cpu.registers.pc);
    assert_eq!(0x02, cpu.memory.read(0x01FD));
    assert_eq!(0x01, cpu.memory.read(0x01FC));
    assert_eq!(FL_UNUSED, cpu.memory.read(0x01FB));
    assert!(cpu.registers.get_flag(FL_INTERRUPT_DISABLE));
    assert!(!cpu.nmi_pending);
    assert_eq!(9, cpu.cycles);
}

#[test]
fn irq_respects_interrupt_disable() {
    let mut cpu = cpu_with_program(0x0200, &[0xEA, 0xEA]);
    cpu.memory.write(0xFFFE, 0x00);
    cpu.memory.write(0xFFFF, 0xB0);
    cpu.irq_line_low = true;
    cpu.registers.set_flag(FL_INTERRUPT_DISABLE, true);
    cpu.step().unwrap();
    assert_eq!(0x0201, cpu.registers.pc);
    cpu.registers.set_flag(FL_INTERRUPT_DISABLE, false);
    cpu.step().unwrap();
    assert_eq!(0xB000, cpu.registers.pc);
    assert_eq!(FL_UNUSED, cpu.memory.read(0x01FB) & (FL_UNUSED | FL_BRK));
    assert_eq!(2 + 2 + 7, cpu.cycles);
}

#[test]
fn rti_restores_status_then_pc() {
    let mut cpu = cpu_with_program(0x0200, &[0x40]);
    cpu.registers.stat = 0x24;
    cpu.push_stack16(0x1234);
    cpu.push_stack(0xFF);
    cpu.step().unwrap();
    assert_eq!(0x1234, cpu.registers.pc);
    assert_eq!(0xEF, cpu.registers.stat);
    assert_eq!(0xFD, cpu.registers.sp);
    assert_eq!(6, cpu.cycles);
}

#[test]
fn illegal_opcode_stops() {
    let mut cpu = cpu_with_program(0x0200, &[0x02]);
    assert_eq!(Err(CpuError::IllegalOpcode { opcode: 0x02, pc: 0x0200 }), cpu.step());
    assert_eq!(0x0200, cpu.registers.pc);
    assert_eq!(0, cpu.cycles);
}

#[test]
fn absolute_x_read_crossing_page_costs_one() {
    let mut cpu = cpu_with_program(0x0200, &[0xBD, 0xF0, 0x10]);
    cpu.registers.irx = 0x20;
    cpu.memory.write(0x1110, 0x77);
    cpu.step().unwrap();
    assert_eq!(0x77, cpu.registers.acc);
    assert_eq!(5, cpu.cycles);
    assert_eq!(0x0203, cpu.registers.pc);
}

#[test]
fn absolute_x_store_crossing_page_costs_nothing_more() {
    let mut cpu = cpu_with_program(0x0200, &[0x9D, 0xF0, 0x10]);
    cpu.registers.irx = 0x20;
    cpu.registers.acc = 0x66;
    cpu.step().unwrap();
    assert_eq!(0x66, cpu.memory.read(0x1110));
    assert_eq!(5, cpu.cycles);
}

#[test]
fn indirect_indexed_read_crossing_page() {
    let mut cpu = cpu_with_program(0x0200, &[0xB1, 0x10]);
    cpu.memory.write(0x0010, 0xF0);
    cpu.memory.write(0x0011, 0x12);
    cpu.memory.write(0x1310, 0x99);
    cpu.registers.iry = 0x20;
    cpu.step().unwrap();
    assert_eq!(0x99, cpu.registers.acc);
    assert_eq!(6, cpu.cycles);
}

#[test]
fn indexed_indirect_wraps_in_zero_page() {
    let mut cpu = cpu_with_program(0x0200, &[0xA1, 0xFE]);
    cpu.registers.irx = 0x01;
    cpu.memory.write(0x00FF, 0x34);
    cpu.memory.write(0x0000, 0x12);
    cpu.memory.write(0x1234, 0x5A);
    cpu.step().unwrap();
    assert_eq!(0x5A, cpu.registers.acc);
    assert_eq!(6, cpu.cycles);
}

#[test]
fn zero_page_x_wraps() {
    let mut cpu = cpu_with_program(0x0200, &[0xB5, 0xF0]);
    cpu.registers.irx = 0x20;
    cpu.memory.write(0x0010, 0x3C);
    cpu.step().unwrap();
    assert_eq!(0x3C, cpu.registers.acc);
    assert_eq!(4, cpu.cycles);
}

#[test]
fn read_modify_write_in_memory() {
    let mut cpu = cpu_with_program(0x0200, &[0x06, 0x40, 0xE6, 0x41]);
    cpu.memory.write(0x0040, 0x81);
    cpu.memory.write(0x0041, 0xFF);
    cpu.step().unwrap();
    assert_eq!(0x02, cpu.memory.read(0x0040));
    assert!(cpu.registers.get_flag(FL_CARRY));
    cpu.step().unwrap();
    assert_eq!(0x00, cpu.memory.read(0x0041));
    assert!(cpu.registers.get_flag(FL_ZERO));
    assert_eq!(10, cpu.cycles);
}

#[test]
fn accumulator_rotate() {
    let mut cpu = cpu_with_program(0x0200, &[0x6A]);
    cpu.registers.acc = 0x01;
    cpu.registers.set_flag(FL_CARRY, true);
    cpu.step().unwrap();
    assert_eq!(0x80, cpu.registers.acc);
    assert!(cpu.registers.get_flag(FL_CARRY));
    assert!(cpu.registers.get_flag(FL_SIGN));
    assert_eq!(2, cpu.cycles);
}
