use rs_nes::cpu::Cpu6502;
use rs_nes::registers::{FL_CARRY, FL_INTERRUPT_DISABLE, FL_OVERFLOW, FL_SIGN, FL_ZERO};

fn adc_case(a: u8, operand: u8, carry: bool) -> (u8, bool, bool) {
    let mut cpu = Cpu6502::new();
    cpu.registers.acc = a;
    cpu.registers.set_flag(FL_CARRY, carry);
    cpu.adc(operand);
    (cpu.registers.acc, cpu.registers.get_flag(FL_CARRY), cpu.registers.get_flag(FL_OVERFLOW))
}

fn sbc_case(a: u8, operand: u8, carry: bool) -> (u8, bool, bool) {
    let mut cpu = Cpu6502::new();
    cpu.registers.acc = a;
    cpu.registers.set_flag(FL_CARRY, carry);
    cpu.sbc(operand);
    (cpu.registers.acc, cpu.registers.get_flag(FL_CARRY), cpu.registers.get_flag(FL_OVERFLOW))
}

#[test]
fn adc_matches_signed_reference() {
    assert_eq!((0x00, true, false), adc_case(0xFF, 0x01, false));
    assert_eq!((0x00, true, true), adc_case(0x80, 0x80, false));
    assert_eq!((0x80, false, true), adc_case(0x7F, 0x00, true));
    assert_eq!((0x02, false, false), adc_case(0x01, 0x00, true));
    for a in 0..=255u16 {
        for m in (0..=255u16).step_by(7) {
            for c in 0..=1u16 {
                let sum = a + m + c;
                let signed = (a as u8 as i8) as i16 + (m as u8 as i8) as i16 + c as i16;
                let expected = ((sum & 0xFF) as u8, sum > 0xFF, signed < -128 || signed > 127);
                assert_eq!(expected, adc_case(a as u8, m as u8, c == 1));
            }
        }
    }
}

#[test]
fn sbc_matches_signed_reference() {
    assert_eq!((0x7F, true, true), sbc_case(0x80, 0x01, true));
    assert_eq!((0xFF, false, false), sbc_case(0x00, 0x01, true));
    assert_eq!((0xFE, false, false), sbc_case(0x00, 0x01, false));
    for a in 0..=255i16 {
        for m in (0..=255i16).step_by(5) {
            for c in 0..=1i16 {
                let diff = a - m - (1 - c);
                let signed = (a as u8 as i8) as i16 - (m as u8 as i8) as i16 - (1 - c);
                let expected = ((diff & 0xFF) as u8, diff >= 0, signed < -128 || signed > 127);
                assert_eq!(expected, sbc_case(a as u8, m as u8, c == 1));
            }
        }
    }
}

#[test]
fn compare_sets_carry_and_sign() {
    let mut cpu = Cpu6502::new();
    cpu.registers.acc = 0x10;
    cpu.cmp(0x20);
    assert!(!cpu.registers.get_flag(FL_CARRY));
    assert!(cpu.registers.get_flag(FL_SIGN));
    assert!(!cpu.registers.get_flag(FL_ZERO));
    cpu.cmp(0x10);
    assert!(cpu.registers.get_flag(FL_CARRY));
    assert!(cpu.registers.get_flag(FL_ZERO));
    cpu.registers.irx = 0x05;
    cpu.cpx(0x01);
    assert!(cpu.registers.get_flag(FL_CARRY));
    assert!(!cpu.registers.get_flag(FL_ZERO));
    cpu.registers.iry = 0x00;
    cpu.cpy(0x01);
    assert!(!cpu.registers.get_flag(FL_CARRY));
    assert!(cpu.registers.get_flag(FL_SIGN));
    assert_eq!(0x10, cpu.registers.acc);
}

#[test]
fn bit_takes_sign_and_overflow_from_operand() {
    let mut cpu = Cpu6502::new();
    cpu.registers.acc = 0x0F;
    cpu.bit(0xC0);
    assert!(cpu.registers.get_flag(FL_ZERO));
    assert!(cpu.registers.get_flag(FL_SIGN));
    assert!(cpu.registers.get_flag(FL_OVERFLOW));
    cpu.bit(0x01);
    assert!(!cpu.registers.get_flag(FL_ZERO));
    assert!(!cpu.registers.get_flag(FL_SIGN));
    assert!(!cpu.registers.get_flag(FL_OVERFLOW));
    assert_eq!(0x0F, cpu.registers.acc);
}

#[test]
fn logical_operations() {
    let mut cpu = Cpu6502::new();
    cpu.registers.acc = 0xF0;
    cpu.and(0x3C);
    assert_eq!(0x30, cpu.registers.acc);
    cpu.ora(0x81);
    assert_eq!(0xB1, cpu.registers.acc);
    assert!(cpu.registers.get_flag(FL_SIGN));
    cpu.eor(0xB1);
    assert_eq!(0x00, cpu.registers.acc);
    assert!(cpu.registers.get_flag(FL_ZERO));
}

#[test]
fn shifts_and_rotates() {
    let mut cpu = Cpu6502::new();
    assert_eq!(0x02, cpu.asl(0x81));
    assert!(cpu.registers.get_flag(FL_CARRY));
    assert_eq!(0x40, cpu.lsr(0x81));
    assert!(cpu.registers.get_flag(FL_CARRY));
    cpu.registers.set_flag(FL_CARRY, false);
    assert_eq!(0x00, cpu.rol(0x80));
    assert!(cpu.registers.get_flag(FL_CARRY));
    assert!(cpu.registers.get_flag(FL_ZERO));
    assert_eq!(0x80, cpu.ror(0x00));
    assert!(!cpu.registers.get_flag(FL_CARRY));
    assert!(cpu.registers.get_flag(FL_SIGN));
    assert_eq!(0x02, cpu.rol(0x81));
    assert!(cpu.registers.get_flag(FL_CARRY));
    assert_eq!(0x05, cpu.rol(0x82));
}

#[test]
fn increments_and_decrements_wrap() {
    let mut cpu = Cpu6502::new();
    cpu.registers.irx = 0x00;
    cpu.dex();
    assert_eq!(0xFF, cpu.registers.irx);
    assert!(cpu.registers.get_flag(FL_SIGN));
    cpu.inx();
    assert_eq!(0x00, cpu.registers.irx);
    assert!(cpu.registers.get_flag(FL_ZERO));
    cpu.registers.iry = 0x7F;
    cpu.iny();
    assert_eq!(0x80, cpu.registers.iry);
    cpu.dey();
    assert_eq!(0x7F, cpu.registers.iry);
    cpu.memory.write(0x0300, 0x00);
    cpu.dec(0x0300);
    assert_eq!(0xFF, cpu.memory.read(0x0300));
    cpu.inc(0x0300);
    assert_eq!(0x00, cpu.memory.read(0x0300));
    assert!(cpu.registers.get_flag(FL_ZERO));
}

#[test]
fn transfers() {
    let mut cpu = Cpu6502::new();
    cpu.registers.acc = 0x80;
    cpu.tax();
    assert_eq!(0x80, cpu.registers.irx);
    assert!(cpu.registers.get_flag(FL_SIGN));
    cpu.registers.iry = 0x00;
    cpu.tya();
    assert_eq!(0x00, cpu.registers.acc);
    assert!(cpu.registers.get_flag(FL_ZERO));
    cpu.registers.irx = 0x33;
    cpu.txa();
    assert_eq!(0x33, cpu.registers.acc);
    cpu.registers.sp = 0xF0;
    cpu.tsx();
    assert_eq!(0xF0, cpu.registers.irx);
    assert!(cpu.registers.get_flag(FL_SIGN));
}

#[test]
fn txs_leaves_flags_alone() {
    let mut cpu = Cpu6502::new();
    cpu.registers.irx = 0x00;
    cpu.registers.stat = 0x24;
    cpu.txs();
    assert_eq!(0x00, cpu.registers.sp);
    assert_eq!(0x24, cpu.registers.stat);
}

#[test]
fn stack_wraps_within_page_one() {
    let mut cpu = Cpu6502::new();
    cpu.registers.sp = 0x00;
    cpu.push_stack(0xAB);
    assert_eq!(0xAB, cpu.memory.read(0x0100));
    assert_eq!(0xFF, cpu.registers.sp);
    assert_eq!(0xAB, cpu.peek_stack());
    assert_eq!(0xAB, cpu.pop_stack());
    assert_eq!(0x00, cpu.registers.sp);
}

#[test]
fn push_then_pop_word() {
    let mut cpu = Cpu6502::new();
    cpu.push_stack16(0xBEEF);
    assert_eq!(0xBE, cpu.memory.read(0x01FD));
    assert_eq!(0xEF, cpu.memory.read(0x01FC));
    assert_eq!(0xBEEF, cpu.peek_stack16());
    assert_eq!(0xBEEF, cpu.pop_stack16());
    assert_eq!(0xFD, cpu.registers.sp);
}

#[test]
fn flag_instructions() {
    let mut cpu = Cpu6502::new();
    cpu.registers.stat = 0x00;
    cpu.sec();
    cpu.sei();
    cpu.sed();
    assert_eq!(0x0D, cpu.registers.stat);
    cpu.registers.stat = 0xFF;
    cpu.clc();
    cpu.cli();
    cpu.cld();
    cpu.clv();
    assert_eq!(0xB2, cpu.registers.stat);
    cpu.nop();
    assert_eq!(0xB2, cpu.registers.stat);
    assert!(!cpu.registers.get_flag(FL_INTERRUPT_DISABLE));
}

#[test]
fn jmp_jsr_rts_directly() {
    let mut cpu = Cpu6502::new();
    cpu.registers.pc = 0x0203;
    cpu.jsr(0x4000);
    assert_eq!(0x4000, cpu.registers.pc);
    assert_eq!(0x0202, cpu.peek_stack16());
    cpu.rts();
    assert_eq!(0x0203, cpu.registers.pc);
    cpu.jmp(0x1234);
    assert_eq!(0x1234, cpu.registers.pc);
}

#[test]
fn explicit_interrupt_entries() {
    let mut cpu = Cpu6502::new();
    cpu.memory.write(0xFFFA, 0x11);
    cpu.memory.write(0xFFFB, 0x22);
    cpu.memory.write(0xFFFE, 0x33);
    cpu.memory.write(0xFFFF, 0x44);
    cpu.registers.pc = 0x0500;
    cpu.nmi_pending = true;
    cpu.nmi();
    assert_eq!(0x2211, cpu.registers.pc);
    assert!(!cpu.nmi_pending);
    assert_eq!(7, cpu.cycles);
    cpu.irq();
    assert_eq!(0x4433, cpu.registers.pc);
    assert_eq!(14, cpu.cycles);
    assert!(!cpu.poll_interrupts());
    cpu.nmi_pending = true;
    assert!(cpu.poll_interrupts());
    assert_eq!(0x2211, cpu.registers.pc);
}

#[test]
fn brk_skips_padding_byte() {
    let mut cpu = Cpu6502::new();
    cpu.memory.write(0xFFFE, 0x00);
    cpu.memory.write(0xFFFF, 0xC0);
    cpu.registers.pc = 0x0301;
    cpu.brk();
    assert_eq!(0xC000, cpu.registers.pc);
    cpu.rti();
    assert_eq!(0x0302, cpu.registers.pc);
}
