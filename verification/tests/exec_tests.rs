use rustgirl::cpu::Cpu;
use rustgirl::decode::lookup_op;
use rustgirl::exec::{exec_instr, exec_ld, exec_ld_m, exec_xor};
use rustgirl::flag::{is_set, Flag};
use rustgirl::opcode::OpCode;
use rustgirl::register::{
    read_multi_register, read_register, write_multi_register, write_register, Register,
};

#[test]
fn xor_a_clears_a_and_sets_only_the_zero_flag() {
    let mut cpu = Cpu::new();
    cpu.A = 0x5A;
    cpu.F = 0x70;
    exec_xor(Register::A, &mut cpu);
    assert_eq!(cpu.A, 0);
    assert_eq!(cpu.F, 0x80);
    assert!(is_set(Flag::Z, &mut cpu));
    assert!(!is_set(Flag::C, &mut cpu));
}

#[test]
fn xor_with_another_register() {
    let mut cpu = Cpu::new();
    cpu.A = 0xF0;
    cpu.B = 0x0F;
    cpu.F = 0x80;
    exec_xor(Register::B, &mut cpu);
    assert_eq!(cpu.A, 0xFF);
    assert_eq!(cpu.F, 0x00);
    assert_eq!(cpu.B, 0x0F);
}

#[test]
fn byte_register_read_after_write() {
    let mut cpu = Cpu::new();
    for (i, reg) in [
        Register::A,
        Register::B,
        Register::C,
        Register::D,
        Register::E,
        Register::F,
        Register::H,
        Register::L,
    ]
    .iter()
    .enumerate()
    {
        write_register(*reg, 0x10 + i as u8, &mut cpu);
    }
    assert_eq!(read_register(Register::A, &mut cpu), 0x10);
    assert_eq!(read_register(Register::C, &mut cpu), 0x12);
    assert_eq!(read_register(Register::L, &mut cpu), 0x17);
    assert_eq!(read_multi_register(Register::BC, &mut cpu), 0x1112);
    assert_eq!(read_multi_register(Register::HL, &mut cpu), 0x1617);
}

#[test]
fn pair_write_keeps_only_the_low_nibble_of_the_low_byte() {
    let mut cpu = Cpu::new();
    write_multi_register(Register::HL, 0x9FFF, &mut cpu);
    assert_eq!(cpu.H, 0x9F);
    assert_eq!(cpu.L, 0x0F);
    assert_eq!(read_multi_register(Register::HL, &mut cpu), 0x9F0F);
    write_multi_register(Register::SP, 0xFFFE, &mut cpu);
    assert_eq!(read_multi_register(Register::SP, &mut cpu), 0xFFFE);
    cpu.PC = 0x0100;
    assert_eq!(read_multi_register(Register::PC, &mut cpu), 0x0100);
}

#[test]
fn loads_return_the_address_they_are_given() {
    let mut cpu = Cpu::new();
    assert_eq!(exec_ld(Register::D, 0x42, 7, &mut cpu), 7);
    assert_eq!(cpu.D, 0x42);
    assert_eq!(exec_ld_m(Register::DE, 0x1234, 9, &mut cpu), 9);
    assert_eq!((cpu.D, cpu.E), (0x12, 0x04));
}

#[test]
fn jumps_return_their_target() {
    let mut cpu = Cpu::new();
    assert_eq!(exec_instr(OpCode::JP(0x0150), 3, &mut cpu), 0x0150);
    cpu.H = 0x12;
    cpu.L = 0x34;
    assert_eq!(exec_instr(OpCode::JP_HL, 3, &mut cpu), 0x1234);
    assert_eq!(exec_instr(OpCode::NOP, 3, &mut cpu), 3);
}

#[test]
fn runs_the_start_of_the_boot_rom() {
    let boot = vec![0x31, 0xFE, 0xFF, 0xAF, 0x21, 0xFF, 0x9F];
    let mut cpu = Cpu::new();
    cpu.A = 0x33;
    let mut next_addr = 0;
    for _ in 0..3 {
        let (len, instr, _) = lookup_op(next_addr, &boot);
        next_addr += len;
        next_addr = exec_instr(instr, next_addr, &mut cpu);
    }
    assert_eq!(next_addr, 7);
    assert_eq!(cpu.SP, 0xFFFE);
    assert_eq!(cpu.A, 0);
    assert_eq!(cpu.F, 0x80);
    assert_eq!((cpu.H, cpu.L), (0x9F, 0x0F));
}
