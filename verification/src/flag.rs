use vstd::prelude::*;

use crate::cpu::Cpu;
use crate::register::{read_register, write_register, Register};

verus! {

/// The four condition flags held in the upper nibble of register F: zero,
/// subtract, half carry and carry.
#[derive(Clone, Copy, Debug, PartialEq, Eq, Structural)]
pub enum Flag {
    Z,
    N,
    H,
    C,
}

/// The bit position of a flag in register F: 7 for Z, 6 for N, 5 for H and
/// 4 for C.
pub open spec fn flag_position(flag: Flag) -> u8 {
    match flag {
        Flag::Z => 7,
        Flag::N => 6,
        Flag::H => 5,
        Flag::C => 4,
    }
}

/// The mask of a flag in register F.
pub open spec fn flag_mask(flag: Flag) -> u8 {
    match flag {
        Flag::Z => 0x80,
        Flag::N => 0x40,
        Flag::H => 0x20,
        Flag::C => 0x10,
    }
}

/// `flag` is set in the value `f` of register F.
pub open spec fn flag_in(f: u8, flag: Flag) -> bool {
    f & flag_mask(flag) != 0
}

/// `cpu` with register F replaced by `f`.
pub open spec fn with_f(cpu: Cpu, f: u8) -> Cpu {
    Cpu { F: f, ..cpu }
}

/// The single bit of register F that holds `flag`.
pub fn flag_bit(flag: Flag) -> (bit: u8)
    ensures
        bit == flag_mask(flag),
        bit == 1u8 << flag_position(flag),
{
    let shift: u8 = match flag {
        Flag::Z => 7,
        Flag::N => 6,
        Flag::H => 5,
        Flag::C => 4,
    };
    proof {
        assert(1u8 << 7u8 == 0x80 && 1u8 << 6u8 == 0x40 && 1u8 << 5u8 == 0x20 && 1u8 << 4u8 == 0x10)
            by (bit_vector);
    }
    1 << shift
}

/// Sets `flag` in register F; nothing else changes.
pub fn set(flag: Flag, cpu: &mut Cpu)
    ensures
        *final(cpu) == with_f(*old(cpu), f_after_set(old(cpu).F, flag)),
{
    let f = read_register(Register::F, cpu);
    write_register(Register::F, f | flag_bit(flag), cpu);
}

/// Clears `flag` in register F; nothing else changes.
pub fn reset(flag: Flag, cpu: &mut Cpu)
    ensures
        *final(cpu) == with_f(*old(cpu), f_after_reset(old(cpu).F, flag)),
{
    let f = read_register(Register::F, cpu);
    write_register(Register::F, f & (255 - flag_bit(flag)), cpu);
}

/// Whether `flag` is set in register F.
pub fn is_set(flag: Flag, cpu: &mut Cpu) -> (b: bool)
    ensures
        b == flag_in(old(cpu).F, flag),
        *final(cpu) == *old(cpu),
{
    read_register(Register::F, cpu) & flag_bit(flag) != 0
}


/// Register F after `set(flag)`.
pub open spec fn f_after_set(f: u8, flag: Flag) -> u8 {
    f | flag_mask(flag)
}

/// Register F after `reset(flag)`.
pub open spec fn f_after_reset(f: u8, flag: Flag) -> u8 {
    f & (255 - flag_mask(flag)) as u8
}

/// After `set(flag)` the flag reads as set, and after `reset(flag)` it
/// reads as clear, whatever register F held before.
pub proof fn lemma_set_then_is_set(f: u8, flag: Flag)
    ensures
        flag_in(f_after_set(f, flag), flag),
        !flag_in(f_after_reset(f, flag), flag),
{
    match flag {
        Flag::Z => {
            assert((f | 0x80) & 0x80 != 0 && (f & 0x7F) & 0x80 == 0) by (bit_vector);
        },
        Flag::N => {
            assert((f | 0x40) & 0x40 != 0 && (f & 0xBF) & 0x40 == 0) by (bit_vector);
        },
        Flag::H => {
            assert((f | 0x20) & 0x20 != 0 && (f & 0xDF) & 0x20 == 0) by (bit_vector);
        },
        Flag::C => {
            assert((f | 0x10) & 0x10 != 0 && (f & 0xEF) & 0x10 == 0) by (bit_vector);
        },
    }
}

/// Setting or clearing one flag leaves every other flag as it was.
pub proof fn lemma_other_flags_unchanged(f: u8, flag: Flag, other: Flag)
    requires
        flag != other,
    ensures
        flag_in(f_after_set(f, flag), other) == flag_in(f, other),
        flag_in(f_after_reset(f, flag), other) == flag_in(f, other),
{
    let m = flag_mask(flag);
    let n = flag_mask(other);
    let k = (255 - m) as u8;
    assert(m == 0x80 || m == 0x40 || m == 0x20 || m == 0x10);
    assert(n == 0x80 || n == 0x40 || n == 0x20 || n == 0x10);
    assert(m != n);
    assert(k == 255 - m);
    assert((m == 0x80 || m == 0x40 || m == 0x20 || m == 0x10) && (n == 0x80 || n == 0x40 || n
        == 0x20 || n == 0x10) && m != n && k == 255 - m ==> ((f | m) & n != 0) == (f & n != 0) && ((
    f & k) & n != 0) == (f & n != 0)) by (bit_vector);
}

/// `reset` undoes `set` and `set` undoes `reset`: setting after clearing
/// gives what setting alone gives, and clearing after setting gives what
/// clearing alone gives; each is idempotent.
pub proof fn lemma_set_reset_undo(f: u8, flag: Flag)
    ensures
        f_after_set(f_after_reset(f, flag), flag) == f_after_set(f, flag),
        f_after_reset(f_after_set(f, flag), flag) == f_after_reset(f, flag),
        f_after_set(f_after_set(f, flag), flag) == f_after_set(f, flag),
        f_after_reset(f_after_reset(f, flag), flag) == f_after_reset(f, flag),
{
    let m = flag_mask(flag);
    let k = (255 - m) as u8;
    assert(k == 255 - m);
    assert(k == 255 - m ==> (f & k) | m == f | m && (f | m) & k == f & k && (f | m) | m == f | m
        && (f & k) & k == f & k) by (bit_vector);
}

} // verus!
