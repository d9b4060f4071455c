use vstd::prelude::*;

use crate::cpu::Cpu;

verus! {

/// The operands an instruction names: the 8-bit registers, the 16-bit
/// register pairs, and the memory operands `(HL)`, `(HL+)`, `(HL-)`,
/// `(0xFF00 + C)`, a direct address and `SP + offset`.
#[allow(non_camel_case_types)]
#[derive(Clone, Copy, Debug, PartialEq, Eq, Structural)]
pub enum Register {
    A,
    B,
    C,
    D,
    E,
    F,
    H,
    L,
    HL_ADDR,
    BC,
    DE,
    HL,
    SP,
    PC,
    AF,
    HLP,
    HLM,
    CH,
    ADDR(u16),
    SP_OFF(i8),
}

/// `reg` names one of the eight 8-bit registers.
pub open spec fn is_byte_register(reg: Register) -> bool {
    matches!(reg, Register::A | Register::B | Register::C | Register::D | Register::E | Register::F | Register::H | Register::L)
}

/// `reg` names a 16-bit value that can be read: a register pair, SP or PC.
pub open spec fn is_readable_pair(reg: Register) -> bool {
    matches!(reg, Register::HL | Register::AF | Register::BC | Register::DE | Register::SP | Register::PC)
}

/// `reg` names a 16-bit value that can be written: a register pair or SP.
pub open spec fn is_writable_pair(reg: Register) -> bool {
    matches!(reg, Register::HL | Register::AF | Register::BC | Register::DE | Register::SP)
}

/// The value of the 8-bit register `reg`.
pub open spec fn byte_register(cpu: Cpu, reg: Register) -> u8 {
    match reg {
        Register::A => cpu.A,
        Register::B => cpu.B,
        Register::C => cpu.C,
        Register::D => cpu.D,
        Register::E => cpu.E,
        Register::F => cpu.F,
        Register::H => cpu.H,
        _ => cpu.L,
    }
}

/// `cpu` with the 8-bit register `reg` set to `val`.
pub open spec fn with_byte_register(cpu: Cpu, reg: Register, val: u8) -> Cpu {
    match reg {
        Register::A => Cpu { A: val, ..cpu },
        Register::B => Cpu { B: val, ..cpu },
        Register::C => Cpu { C: val, ..cpu },
        Register::D => Cpu { D: val, ..cpu },
        Register::E => Cpu { E: val, ..cpu },
        Register::F => Cpu { F: val, ..cpu },
        Register::H => Cpu { H: val, ..cpu },
        _ => Cpu { L: val, ..cpu },
    }
}

/// The 16-bit value of `reg`: the high register times 256 plus the low
/// register for a pair, else SP or PC.
pub open spec fn pair_register(cpu: Cpu, reg: Register) -> u16 {
    match reg {
        Register::HL => (cpu.H * 256 + cpu.L) as u16,
        Register::AF => (cpu.A * 256 + cpu.F) as u16,
        Register::BC => (cpu.B * 256 + cpu.C) as u16,
        Register::DE => (cpu.D * 256 + cpu.E) as u16,
        Register::SP => cpu.SP,
        _ => cpu.PC,
    }
}

/// `cpu` after writing `val` to `reg`: SP takes `val`; for a pair the high
/// register takes the upper byte of `val` and the low register only its
/// low four bits.
pub open spec fn with_pair_register(cpu: Cpu, reg: Register, val: u16) -> Cpu {
    let hi = (val / 256) as u8;
    let lo = (val % 16) as u8;
    match reg {
        Register::HL => Cpu { H: hi, L: lo, ..cpu },
        Register::AF => Cpu { A: hi, F: lo, ..cpu },
        Register::BC => Cpu { B: hi, C: lo, ..cpu },
        Register::DE => Cpu { D: hi, E: lo, ..cpu },
        _ => Cpu { SP: val, ..cpu },
    }
}

/// Reads an 8-bit register.
pub fn read_register(reg: Register, cpu: &mut Cpu) -> (val: u8)
    requires
        is_byte_register(reg),
    ensures
        val == byte_register(*old(cpu), reg),
        *final(cpu) == *old(cpu),
{
    match reg {
        Register::A => cpu.A,
        Register::B => cpu.B,
        Register::C => cpu.C,
        Register::D => cpu.D,
        Register::E => cpu.E,
        Register::F => cpu.F,
        Register::H => cpu.H,
        _ => cpu.L,
    }
}

/// Writes an 8-bit register.
pub fn write_register(reg: Register, val: u8, cpu: &mut Cpu)
    requires
        is_byte_register(reg),
    ensures
        *final(cpu) == with_byte_register(*old(cpu), reg, val),
{
    match reg {
        Register::A => cpu.A = val,
        Register::B => cpu.B = val,
        Register::C => cpu.C = val,
        Register::D => cpu.D = val,
        Register::E => cpu.E = val,
        Register::F => cpu.F = val,
        Register::H => cpu.H = val,
        _ => cpu.L = val,
    }
}

/// Reads a 16-bit register pair, SP or PC.
pub fn read_multi_register(reg: Register, cpu: &mut Cpu) -> (val: u16)
    requires
        is_readable_pair(reg),
    ensures
        val == pair_register(*old(cpu), reg),
        *final(cpu) == *old(cpu),
{
    proof {
        let (a, b, c, d, e, f, h, l) = (cpu.A, cpu.B, cpu.C, cpu.D, cpu.E, cpu.F, cpu.H, cpu.L);
        assert(((h as u16) << 8) == h * 256 && ((a as u16) << 8) == a * 256 && ((b as u16) << 8)
            == b * 256 && ((d as u16) << 8) == d * 256) by (bit_vector);
    }
    match reg {
        Register::HL => ((cpu.H as u16) << 8) + (cpu.L as u16),
        Register::AF => ((cpu.A as u16) << 8) + (cpu.F as u16),
        Register::BC => ((cpu.B as u16) << 8) + (cpu.C as u16),
        Register::DE => ((cpu.D as u16) << 8) + (cpu.E as u16),
        Register::SP => cpu.SP,
        _ => cpu.PC,
    }
}

/// Writes a 16-bit register pair or SP.
pub fn write_multi_register(reg: Register, val: u16, cpu: &mut Cpu)
    requires
        is_writable_pair(reg),
    ensures
        *final(cpu) == with_pair_register(*old(cpu), reg, val),
{
    proof {
        assert((val >> 8) as u8 == val / 256 && (0x0F & val) as u8 == val % 16) by (bit_vector);
    }
    let (l_byte, r_byte) = ((val >> 8) as u8, (0x0F & val) as u8);
    match reg {
        Register::HL => {
            cpu.H = l_byte;
            cpu.L = r_byte;
        },
        Register::AF => {
            cpu.A = l_byte;
            cpu.F = r_byte;
        },
        Register::BC => {
            cpu.B = l_byte;
            cpu.C = r_byte;
        },
        Register::DE => {
            cpu.D = l_byte;
            cpu.E = r_byte;
        },
        _ => cpu.SP = val,
    };
}


/// Reading an 8-bit register gives back what was last written to it, and
/// writing one 8-bit register leaves every other register as it was.
pub proof fn lemma_byte_read_after_write(cpu: Cpu, reg: Register, other: Register, val: u8)
    requires
        is_byte_register(reg),
        is_byte_register(other),
    ensures
        byte_register(with_byte_register(cpu, reg, val), reg) == val,
        other != reg ==> byte_register(with_byte_register(cpu, reg, val), other) == byte_register(
            cpu,
            other,
        ),
        with_byte_register(cpu, reg, val).SP == cpu.SP,
        with_byte_register(cpu, reg, val).PC == cpu.PC,
        with_byte_register(cpu, reg, val).memory == cpu.memory,
        with_byte_register(cpu, reg, val).apu == cpu.apu,
{
}

/// Reading a pair after writing `val` to it gives `val` for SP; for the
/// other pairs the high byte of `val` comes back whole and the low byte
/// keeps only its low four bits.
pub proof fn lemma_pair_read_after_write(cpu: Cpu, reg: Register, val: u16)
    requires
        is_writable_pair(reg),
    ensures
        pair_register(with_pair_register(cpu, reg, val), reg) == if reg == Register::SP {
            val
        } else {
            ((val / 256) * 256 + val % 16) as u16
        },
        with_pair_register(cpu, reg, val).PC == cpu.PC,
        with_pair_register(cpu, reg, val).memory == cpu.memory,
        with_pair_register(cpu, reg, val).apu == cpu.apu,
{
}

} // verus!
