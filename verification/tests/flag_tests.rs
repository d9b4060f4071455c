use rustgirl::cpu::Cpu;
use rustgirl::flag::{flag_bit, is_set, reset, Flag};

#[test]
fn flag_bits() {
    assert_eq!(flag_bit(Flag::Z), 0x80);
    assert_eq!(flag_bit(Flag::N), 0x40);
    assert_eq!(flag_bit(Flag::H), 0x20);
    assert_eq!(flag_bit(Flag::C), 0x10);
}

#[test]
fn set_then_is_set_and_reset_then_not() {
    let mut cpu = Cpu::new();
    rustgirl::flag::set(Flag::H, &mut cpu);
    assert_eq!(cpu.F, 0x20);
    assert!(is_set(Flag::H, &mut cpu));
    assert!(!is_set(Flag::Z, &mut cpu));
    reset(Flag::H, &mut cpu);
    assert_eq!(cpu.F, 0x00);
    assert!(!is_set(Flag::H, &mut cpu));
}

#[test]
fn flags_do_not_disturb_each_other() {
    let mut cpu = Cpu::new();
    cpu.F = 0x0F;
    rustgirl::flag::set(Flag::Z, &mut cpu);
    rustgirl::flag::set(Flag::C, &mut cpu);
    assert_eq!(cpu.F, 0x9F);
    reset(Flag::Z, &mut cpu);
    assert_eq!(cpu.F, 0x1F);
    assert!(is_set(Flag::C, &mut cpu));
    assert!(!is_set(Flag::N, &mut cpu));
}

#[test]
fn set_and_reset_are_idempotent() {
    let mut cpu = Cpu::new();
    cpu.F = 0xA5;
    rustgirl::flag::set(Flag::N, &mut cpu);
    let once = cpu.F;
    rustgirl::flag::set(Flag::N, &mut cpu);
    assert_eq!(cpu.F, once);
    assert_eq!(once, 0xE5);
    reset(Flag::N, &mut cpu);
    reset(Flag::N, &mut cpu);
    assert_eq!(cpu.F, 0xA5);
}

#[test]
fn flags_leave_other_registers_alone() {
    let mut cpu = Cpu::new();
    cpu.A = 7;
    cpu.memory[0x1234] = 9;
    rustgirl::flag::set(Flag::Z, &mut cpu);
    assert_eq!(cpu.A, 7);
    assert_eq!(cpu.memory[0x1234], 9);
}
