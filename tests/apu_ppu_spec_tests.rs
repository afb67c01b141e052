use rs_nes::envelope::Envelope;
use rs_nes::status_register::StatusRegister;
use rs_nes::triangle_generator::TriangleGenerator;

#[test]
fn status_register_flags() {
    let mut reg = StatusRegister::new(0x00);
    assert!(!reg.in_vblank());
    reg.set_in_vblank();
    assert!(reg.in_vblank());
    assert_eq!(0x80, reg.read());
    reg.set_sprite_zero_hit();
    assert!(reg.sprite_zero_hit());
    reg.set_sprite_overflow();
    assert!(reg.sprite_overflow());
    assert_eq!(0xE0, reg.read());
    reg.clear_in_vblank();
    assert!(!reg.in_vblank());
    assert_eq!(0x60, reg.read());
    reg.clear_sprite_zero_hit();
    assert!(!reg.sprite_zero_hit());
    reg.clear_sprite_overflow();
    assert!(!reg.sprite_overflow());
    assert_eq!(0x00, reg.read());
}

#[test]
fn status_register_keeps_low_bits() {
    let mut reg = StatusRegister::new(0x1F);
    reg.set_in_vblank();
    reg.clear_sprite_zero_hit();
    assert_eq!(0x9F, reg.read());
    let reg = StatusRegister::default();
    assert_eq!(0, reg.read());
}

#[test]
fn triangle_registers() {
    let mut tri = TriangleGenerator::default();
    tri.write_linear_counter_reg(0b1010_1010);
    assert!(tri.control_flag());
    assert_eq!(0b010_1010, tri.counter_reload_value());
    tri.write_timer_low_reg(0x34);
    tri.write_counter_load_timer_high_reg(0b1111_1101);
    assert_eq!(0x534, tri.timer_period());
    tri.write_linear_counter_reg(0x7F);
    assert!(!tri.control_flag());
    assert_eq!(0x7F, tri.counter_reload_value());
}

#[test]
fn envelope_decays_and_loops() {
    let mut env = Envelope::default();
    assert_eq!(0, env.decay_level());
    env.set_start_flag();
    env.clock(false);
    assert_eq!(15, env.decay_level());
    for level in (0..15).rev() {
        env.clock(false);
        assert_eq!(level, env.decay_level());
    }
    env.clock(false);
    assert_eq!(0, env.decay_level());
    env.clock(true);
    assert_eq!(15, env.decay_level());
}
