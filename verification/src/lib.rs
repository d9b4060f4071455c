//! Core of a Game Boy emulator: the processor state, its registers and
//! flags, the LCD status registers, the two square-wave sound channels,
//! and a decoder and executor for the instruction set.

pub mod apu;
pub mod cpu;
pub mod register;
pub mod flag;
pub mod lcd;
pub mod opcode;
pub mod decode;
pub mod exec;
pub mod optable;
