use vstd::prelude::*;

use crate::cpu::Cpu;
use crate::flag::{flag_in, Flag};
use crate::opcode::OpCode;
use crate::register::{
    byte_register, is_byte_register, is_writable_pair, pair_register, read_multi_register,
    read_register, with_byte_register, with_pair_register, write_multi_register, write_register,
    Register,
};

verus! {

/// The instructions the executor carries out: jumps, NOP, XOR with an
/// 8-bit register, and the immediate loads into an 8-bit register or into
/// a writable register pair.
pub open spec fn is_executable(op: OpCode) -> bool {
    match op {
        OpCode::JP(_) => true,
        OpCode::JP_HL => true,
        OpCode::NOP => true,
        OpCode::XOR(reg) => is_byte_register(reg),
        OpCode::LD(reg, _) => is_byte_register(reg),
        OpCode::LD_M(reg, _) => is_writable_pair(reg),
        _ => false,
    }
}

/// The machine after `XOR reg`: A takes `A ^ reg`, and F is 0x80 (only the
/// zero flag) when the result is zero, else 0.
pub open spec fn xor_state(cpu: Cpu, reg: Register) -> Cpu {
    let res = cpu.A ^ byte_register(cpu, reg);
    Cpu { A: res, F: if res == 0 { 0x80u8 } else { 0u8 }, ..cpu }
}

/// The address of the next instruction after carrying out `op`, where
/// `curr_addr` is the address that follows `op`: the target of a jump,
/// else `curr_addr`.
pub open spec fn next_address(op: OpCode, curr_addr: usize, cpu: Cpu) -> usize {
    match op {
        OpCode::JP(addr) => addr as usize,
        OpCode::JP_HL => pair_register(cpu, Register::HL) as usize,
        _ => curr_addr,
    }
}

/// The machine after carrying out `op`.
pub open spec fn exec_state(op: OpCode, cpu: Cpu) -> Cpu {
    match op {
        OpCode::XOR(reg) => xor_state(cpu, reg),
        OpCode::LD(reg, val) => with_byte_register(cpu, reg, val),
        OpCode::LD_M(reg, val) => with_pair_register(cpu, reg, val),
        _ => cpu,
    }
}

/// Whether `exec_instr` can carry out `op`.
pub fn can_execute(op: &OpCode) -> (ok: bool)
    ensures
        ok == is_executable(*op),
{
    match op {
        OpCode::JP(_) => true,
        OpCode::JP_HL => true,
        OpCode::NOP => true,
        OpCode::XOR(reg) => is_byte_reg(*reg),
        OpCode::LD(reg, _) => is_byte_reg(*reg),
        OpCode::LD_M(reg, _) => match reg {
            Register::HL | Register::AF | Register::BC | Register::DE | Register::SP => true,
            _ => false,
        },
        _ => false,
    }
}

fn is_byte_reg(reg: Register) -> (ok: bool)
    ensures
        ok == is_byte_register(reg),
{
    match reg {
        Register::A | Register::B | Register::C | Register::D | Register::E | Register::F
        | Register::H | Register::L => true,
        _ => false,
    }
}

/// Loads a 16-bit value into a register pair or SP.
pub fn exec_ld_m(reg: Register, val: u16, curr_addr: usize, cpu: &mut Cpu) -> (next: usize)
    requires
        is_writable_pair(reg),
    ensures
        next == curr_addr,
        *final(cpu) == with_pair_register(*old(cpu), reg, val),
{
    write_multi_register(reg, val, cpu);
    curr_addr
}

/// Loads an 8-bit value into a register.
pub fn exec_ld(reg: Register, val: u8, curr_addr: usize, cpu: &mut Cpu) -> (next: usize)
    requires
        is_byte_register(reg),
    ensures
        next == curr_addr,
        *final(cpu) == with_byte_register(*old(cpu), reg, val),
{
    write_register(reg, val, cpu);
    curr_addr
}

/// XORs A with an 8-bit register into A and sets F to the zero flag alone
/// or to nothing.
pub fn exec_xor(reg: Register, cpu: &mut Cpu)
    requires
        is_byte_register(reg),
    ensures
        *final(cpu) == xor_state(*old(cpu), reg),
{
    let reg_a_val = read_register(Register::A, cpu);
    let reg_val = read_register(reg, cpu);
    let res = reg_a_val ^ reg_val;
    proof {
        assert(1u8 << 7u8 == 0x80 && 0u8 << 7u8 == 0) by (bit_vector);
    }
    let res_f: u8 = (if res == 0 {
        1u8
    } else {
        0u8
    }) << 7u8;
    write_register(Register::A, res, cpu);
    write_register(Register::F, res_f, cpu);
}

/// Carries out `op` and returns the address of the next instruction.
pub fn exec_instr(op: OpCode, curr_addr: usize, cpu: &mut Cpu) -> (next: usize)
    requires
        is_executable(op),
    ensures
        next == next_address(op, curr_addr, *old(cpu)),
        *final(cpu) == exec_state(op, *old(cpu)),
{
    match op {
        OpCode::JP(addr) => addr as usize,
        OpCode::JP_HL => read_multi_register(Register::HL, cpu) as usize,
        OpCode::NOP => curr_addr,
        OpCode::XOR(reg) => {
            exec_xor(reg, cpu);
            curr_addr
        },
        OpCode::LD(reg, val) => exec_ld(reg, val, curr_addr, cpu),
        OpCode::LD_M(reg, val) => exec_ld_m(reg, val, curr_addr, cpu),
        _ => curr_addr,
    }
}


/// `XOR A` clears A and leaves the zero flag as the only flag set; in
/// general, after `XOR r` the zero flag is set exactly when A is zero.
pub proof fn lemma_xor_zero_flag(cpu: Cpu, reg: Register)
    requires
        is_byte_register(reg),
    ensures
        xor_state(cpu, Register::A).A == 0,
        xor_state(cpu, Register::A).F == 0x80,
        flag_in(xor_state(cpu, reg).F, Flag::Z) <==> xor_state(cpu, reg).A == 0,
        !flag_in(xor_state(cpu, reg).F, Flag::N),
        !flag_in(xor_state(cpu, reg).F, Flag::H),
        !flag_in(xor_state(cpu, reg).F, Flag::C),
{
    let a = cpu.A;
    assert(a ^ a == 0) by (bit_vector);
    assert(0x80u8 & 0x80 != 0 && 0u8 & 0x80 == 0 && 0x80u8 & 0x40 == 0 && 0x80u8 & 0x20 == 0
        && 0x80u8 & 0x10 == 0 && 0u8 & 0x40 == 0 && 0u8 & 0x20 == 0 && 0u8 & 0x10 == 0)
        by (bit_vector);
}


/// What each executable instruction does: a load of an 8-bit register
/// leaves the value in that register and every other register, memory
/// and the sound unit as they were; a load of SP sets SP; a load of a pair
/// sets the high register to the upper byte and the low register to the
/// low four bits; XOR leaves `A ^ r` in A; NOP and the jumps change no
/// state; loads, XOR and NOP continue at `curr_addr`, JP at its target,
/// JP (HL) at H * 256 + L. These are the instructions the executor
/// accepts; a load into anything but an 8-bit register or a writable pair,
/// and every other instruction, it does not.
pub proof fn lemma_exec_effects(
    cpu: Cpu,
    reg: Register,
    other: Register,
    n: u8,
    nn: u16,
    addr: u16,
    curr: usize,
)
    requires
        is_byte_register(reg),
        is_byte_register(other),
        other != reg,
    ensures
        byte_register(exec_state(OpCode::LD(reg, n), cpu), reg) == n,
        byte_register(exec_state(OpCode::LD(reg, n), cpu), other) == byte_register(cpu, other),
        exec_state(OpCode::LD(reg, n), cpu).SP == cpu.SP,
        exec_state(OpCode::LD(reg, n), cpu).PC == cpu.PC,
        exec_state(OpCode::LD(reg, n), cpu).memory == cpu.memory,
        exec_state(OpCode::LD(reg, n), cpu).apu == cpu.apu,
        exec_state(OpCode::LD(Register::A, n), cpu).A == n,
        exec_state(OpCode::LD(Register::B, n), cpu).B == n,
        exec_state(OpCode::LD(Register::C, n), cpu).C == n,
        exec_state(OpCode::LD(Register::D, n), cpu).D == n,
        exec_state(OpCode::LD(Register::E, n), cpu).E == n,
        exec_state(OpCode::LD(Register::F, n), cpu).F == n,
        exec_state(OpCode::LD(Register::H, n), cpu).H == n,
        exec_state(OpCode::LD(Register::L, n), cpu).L == n,
        exec_state(OpCode::LD(Register::B, n), cpu).A == cpu.A,
        exec_state(OpCode::LD_M(Register::SP, nn), cpu) == (Cpu { SP: nn, ..cpu }),
        exec_state(OpCode::LD_M(Register::BC, nn), cpu) == (Cpu {
            B: (nn / 256) as u8,
            C: (nn % 16) as u8,
            ..cpu
        }),
        exec_state(OpCode::LD_M(Register::DE, nn), cpu) == (Cpu {
            D: (nn / 256) as u8,
            E: (nn % 16) as u8,
            ..cpu
        }),
        exec_state(OpCode::LD_M(Register::HL, nn), cpu) == (Cpu {
            H: (nn / 256) as u8,
            L: (nn % 16) as u8,
            ..cpu
        }),
        exec_state(OpCode::LD_M(Register::AF, nn), cpu) == (Cpu {
            A: (nn / 256) as u8,
            F: (nn % 16) as u8,
            ..cpu
        }),
        exec_state(OpCode::XOR(reg), cpu).A == cpu.A ^ byte_register(cpu, reg),
        exec_state(OpCode::NOP, cpu) == cpu,
        exec_state(OpCode::JP(addr), cpu) == cpu,
        exec_state(OpCode::JP_HL, cpu) == cpu,
        next_address(OpCode::LD(reg, n), curr, cpu) == curr,
        next_address(OpCode::LD_M(Register::SP, nn), curr, cpu) == curr,
        next_address(OpCode::XOR(reg), curr, cpu) == curr,
        next_address(OpCode::NOP, curr, cpu) == curr,
        next_address(OpCode::JP(addr), curr, cpu) == addr,
        next_address(OpCode::JP_HL, curr, cpu) == cpu.H * 256 + cpu.L,
        is_executable(OpCode::LD(reg, n)),
        is_executable(OpCode::XOR(reg)),
        is_executable(OpCode::JP(addr)),
        is_executable(OpCode::JP_HL),
        is_executable(OpCode::NOP),
        is_executable(OpCode::LD_M(Register::SP, nn)),
        is_executable(OpCode::LD_M(Register::HL, nn)),
        !is_executable(OpCode::LD_M(Register::PC, nn)),
        !is_executable(OpCode::LD(Register::HL, n)),
        !is_executable(OpCode::HALT),
{
}

} // verus!
