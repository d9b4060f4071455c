use vstd::prelude::*;

use crate::apu::Apu;

verus! {

/// The machine state: the 8-bit registers, the stack pointer and program
/// counter, the 64 KiB address space, and the sound unit.
#[allow(non_snake_case)]
pub struct Cpu {
    pub A: u8,
    pub B: u8,
    pub C: u8,
    pub D: u8,
    pub E: u8,
    pub F: u8,
    pub H: u8,
    pub L: u8,
    pub SP: u16,
    pub PC: u16,
    pub memory: [u8; 65536],
    pub apu: Apu,
}

/// The byte stored at `addr` in the address space of `cpu`.
pub open spec fn mem(cpu: Cpu, addr: int) -> u8 {
    cpu.memory@[addr]
}

/// `cpu` with its sound unit replaced by `apu`.
pub open spec fn with_apu(cpu: Cpu, apu: Apu) -> Cpu {
    Cpu { apu: apu, ..cpu }
}

/// `a` and `b` agree on everything but memory.
pub open spec fn same_but_memory(a: Cpu, b: Cpu) -> bool {
    &&& a.A == b.A && a.B == b.B && a.C == b.C && a.D == b.D
    &&& a.E == b.E && a.F == b.F && a.H == b.H && a.L == b.L
    &&& a.SP == b.SP && a.PC == b.PC
    &&& a.apu == b.apu
}

impl Cpu {
    /// A machine with every register and every byte of memory at zero and
    /// the sound unit in its power-on state.
    pub fn new() -> (cpu: Cpu)
        ensures
            cpu.A == 0 && cpu.B == 0 && cpu.C == 0 && cpu.D == 0,
            cpu.E == 0 && cpu.F == 0 && cpu.H == 0 && cpu.L == 0,
            cpu.SP == 0 && cpu.PC == 0,
            forall|i: int| 0 <= i < 65536 ==> #[trigger] cpu.memory@[i] == 0,
            cpu.apu.power_on_state(),
    {
        Cpu {
            A: 0,
            B: 0,
            C: 0,
            D: 0,
            E: 0,
            F: 0,
            H: 0,
            L: 0,
            SP: 0,
            PC: 0,
            memory: [0u8; 65536],
            apu: Apu::default(),
        }
    }
}

/// Reads one byte of the address space.
pub fn read_address(addr: u16, cpu: &Cpu) -> (val: u8)
    ensures
        val == mem(*cpu, addr as int),
{
    cpu.memory[addr as usize]
}

/// Writes one byte of the address space; nothing else changes.
pub fn write_address(addr: u16, val: u8, cpu: &mut Cpu)
    ensures
        final(cpu).memory@ == old(cpu).memory@.update(addr as int, val),
        same_but_memory(*final(cpu), *old(cpu)),
{
    cpu.memory[addr as usize] = val;
}

/// Reads the five registers of sound channel 1, NR10 to NR14
/// (addresses 0xFF10 to 0xFF14).
pub fn read_channel_1_addresses(cpu: &Cpu) -> (regs: (u8, u8, u8, u8, u8))
    ensures
        regs == (mem(*cpu, 0xFF10), mem(*cpu, 0xFF11), mem(*cpu, 0xFF12), mem(*cpu, 0xFF13), mem(
            *cpu,
            0xFF14,
        )),
{
    (
        read_address(0xFF10, cpu),
        read_address(0xFF11, cpu),
        read_address(0xFF12, cpu),
        read_address(0xFF13, cpu),
        read_address(0xFF14, cpu),
    )
}

/// Reads the four registers of sound channel 2, NR21 to NR24
/// (addresses 0xFF16 to 0xFF19).
pub fn read_channel_2_addresses(cpu: &Cpu) -> (regs: (u8, u8, u8, u8))
    ensures
        regs == (mem(*cpu, 0xFF16), mem(*cpu, 0xFF17), mem(*cpu, 0xFF18), mem(*cpu, 0xFF19)),
{
    (
        read_address(0xFF16, cpu),
        read_address(0xFF17, cpu),
        read_address(0xFF18, cpu),
        read_address(0xFF19, cpu),
    )
}

} // verus!
