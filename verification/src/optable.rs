use vstd::prelude::*;

use crate::decode::decode;
use crate::opcode::{Cond, OpCode};
use crate::register::Register;

verus! {

// The instruction set written out byte by byte, as a table of its own, so
// that the field-wise statement `decode` is checked against every entry.

/// The instructions that begin with the bytes 0x00 to 0x1F; `None` marks a byte that begins none.
pub proof fn lemma_opcodes_00_1f(n1: u8, n2: u8)
    ensures
        decode(0x00, n1, n2) == Some((1usize, OpCode::NOP, 4u8)),
        decode(0x01, n1, n2) == Some((3usize, OpCode::LD_M(Register::BC, ((n2 as int) * 256 + n1 as int) as u16), 12u8)),
        decode(0x02, n1, n2) == Some((1usize, OpCode::LD_R(Register::BC, Register::A), 8u8)),
        decode(0x03, n1, n2) == Some((1usize, OpCode::INC(Register::BC), 8u8)),
        decode(0x04, n1, n2) == Some((1usize, OpCode::INC_F(Register::B), 4u8)),
        decode(0x05, n1, n2) == Some((1usize, OpCode::DEC_F(Register::B), 4u8)),
        decode(0x06, n1, n2) == Some((2usize, OpCode::LD(Register::B, n1), 8u8)),
        decode(0x07, n1, n2) == Some((1usize, OpCode::RLCA, 4u8)),
        decode(0x08, n1, n2) == Some((3usize, OpCode::LD_R(Register::ADDR(((n2 as int) * 256 + n1 as int) as u16), Register::SP), 20u8)),
        decode(0x09, n1, n2) == Some((1usize, OpCode::ADD(Register::HL, Register::BC), 8u8)),
        decode(0x0A, n1, n2) == Some((1usize, OpCode::LD_R(Register::A, Register::BC), 8u8)),
        decode(0x0B, n1, n2) == Some((1usize, OpCode::DEC(Register::BC), 8u8)),
        decode(0x0C, n1, n2) == Some((1usize, OpCode::INC_F(Register::C), 4u8)),
        decode(0x0D, n1, n2) == Some((1usize, OpCode::DEC_F(Register::C), 4u8)),
        decode(0x0E, n1, n2) == Some((2usize, OpCode::LD(Register::C, n1), 8u8)),
        decode(0x0F, n1, n2) == Some((1usize, OpCode::RRCA, 4u8)),
        decode(0x10, n1, n2) == Some((2usize, OpCode::STOP, 4u8)),
        decode(0x11, n1, n2) == Some((3usize, OpCode::LD_M(Register::DE, ((n2 as int) * 256 + n1 as int) as u16), 12u8)),
        decode(0x12, n1, n2) == Some((1usize, OpCode::LD_R(Register::DE, Register::A), 8u8)),
        decode(0x13, n1, n2) == Some((1usize, OpCode::INC(Register::DE), 8u8)),
        decode(0x14, n1, n2) == Some((1usize, OpCode::INC_F(Register::D), 4u8)),
        decode(0x15, n1, n2) == Some((1usize, OpCode::DEC_F(Register::D), 4u8)),
        decode(0x16, n1, n2) == Some((2usize, OpCode::LD(Register::D, n1), 8u8)),
        decode(0x17, n1, n2) == Some((1usize, OpCode::RLA, 4u8)),
        decode(0x18, n1, n2) == Some((2usize, OpCode::JR(n1 as i8), 4u8)),
        decode(0x19, n1, n2) == Some((1usize, OpCode::ADD(Register::HL, Register::DE), 8u8)),
        decode(0x1A, n1, n2) == Some((1usize, OpCode::LD_R(Register::A, Register::DE), 8u8)),
        decode(0x1B, n1, n2) == Some((1usize, OpCode::DEC(Register::DE), 8u8)),
        decode(0x1C, n1, n2) == Some((1usize, OpCode::INC_F(Register::E), 4u8)),
        decode(0x1D, n1, n2) == Some((1usize, OpCode::DEC_F(Register::E), 4u8)),
        decode(0x1E, n1, n2) == Some((2usize, OpCode::LD(Register::E, n1), 8u8)),
        decode(0x1F, n1, n2) == Some((1usize, OpCode::RRA, 4u8)),
{
}

/// The instructions that begin with the bytes 0x20 to 0x3F; `None` marks a byte that begins none.
pub proof fn lemma_opcodes_20_3f(n1: u8, n2: u8)
    ensures
        decode(0x20, n1, n2) == Some((2usize, OpCode::JR_C(Cond::NZ, n1 as i8), 12u8)),
        decode(0x21, n1, n2) == Some((3usize, OpCode::LD_M(Register::HL, ((n2 as int) * 256 + n1 as int) as u16), 12u8)),
        decode(0x22, n1, n2) == Some((1usize, OpCode::LD_R(Register::HLP, Register::A), 8u8)),
        decode(0x23, n1, n2) == Some((1usize, OpCode::INC(Register::HL), 8u8)),
        decode(0x24, n1, n2) == Some((1usize, OpCode::INC_F(Register::H), 4u8)),
        decode(0x25, n1, n2) == Some((1usize, OpCode::DEC_F(Register::H), 4u8)),
        decode(0x26, n1, n2) == Some((2usize, OpCode::LD(Register::H, n1), 8u8)),
        decode(0x27, n1, n2) == Some((1usize, OpCode::DAA, 4u8)),
        decode(0x28, n1, n2) == Some((2usize, OpCode::JR_C(Cond::Z, n1 as i8), 4u8)),
        decode(0x29, n1, n2) == Some((1usize, OpCode::ADD(Register::HL, Register::HL), 8u8)),
        decode(0x2A, n1, n2) == Some((1usize, OpCode::LD_R(Register::A, Register::HLP), 8u8)),
        decode(0x2B, n1, n2) == Some((1usize, OpCode::DEC(Register::HL), 8u8)),
        decode(0x2C, n1, n2) == Some((1usize, OpCode::INC_F(Register::L), 4u8)),
        decode(0x2D, n1, n2) == Some((1usize, OpCode::DEC_F(Register::L), 4u8)),
        decode(0x2E, n1, n2) == Some((2usize, OpCode::LD(Register::L, n1), 8u8)),
        decode(0x2F, n1, n2) == Some((1usize, OpCode::CPL, 4u8)),
        decode(0x30, n1, n2) == Some((2usize, OpCode::JR_C(Cond::NC, n1 as i8), 12u8)),
        decode(0x31, n1, n2) == Some((3usize, OpCode::LD_M(Register::SP, ((n2 as int) * 256 + n1 as int) as u16), 12u8)),
        decode(0x32, n1, n2) == Some((1usize, OpCode::LD_R(Register::HLM, Register::A), 8u8)),
        decode(0x33, n1, n2) == Some((1usize, OpCode::INC(Register::SP), 8u8)),
        decode(0x34, n1, n2) == Some((1usize, OpCode::INC_F(Register::HL), 12u8)),
        decode(0x35, n1, n2) == Some((1usize, OpCode::DEC_F(Register::HL), 12u8)),
        decode(0x36, n1, n2) == Some((2usize, OpCode::LD(Register::HL_ADDR, n1), 12u8)),
        decode(0x37, n1, n2) == Some((1usize, OpCode::SCF, 4u8)),
        decode(0x38, n1, n2) == Some((2usize, OpCode::JR_C(Cond::C, n1 as i8), 4u8)),
        decode(0x39, n1, n2) == Some((1usize, OpCode::ADD(Register::HL, Register::SP), 8u8)),
        decode(0x3A, n1, n2) == Some((1usize, OpCode::LD_R(Register::A, Register::HLM), 8u8)),
        decode(0x3B, n1, n2) == Some((1usize, OpCode::DEC(Register::SP), 8u8)),
        decode(0x3C, n1, n2) == Some((1usize, OpCode::INC_F(Register::A), 4u8)),
        decode(0x3D, n1, n2) == Some((1usize, OpCode::DEC_F(Register::A), 4u8)),
        decode(0x3E, n1, n2) == Some((2usize, OpCode::LD(Register::A, n1), 8u8)),
        decode(0x3F, n1, n2) == Some((1usize, OpCode::CCF, 4u8)),
{
}

/// The instructions that begin with the bytes 0x40 to 0x5F; `None` marks a byte that begins none.
pub proof fn lemma_opcodes_40_5f(n1: u8, n2: u8)
    ensures
        decode(0x40, n1, n2) == Some((1usize, OpCode::LD_R(Register::B, Register::B), 4u8)),
        decode(0x41, n1, n2) == Some((1usize, OpCode::LD_R(Register::B, Register::C), 4u8)),
        decode(0x42, n1, n2) == Some((1usize, OpCode::LD_R(Register::B, Register::D), 4u8)),
        decode(0x43, n1, n2) == Some((1usize, OpCode::LD_R(Register::B, Register::E), 4u8)),
        decode(0x44, n1, n2) == Some((1usize, OpCode::LD_R(Register::B, Register::H), 4u8)),
        decode(0x45, n1, n2) == Some((1usize, OpCode::LD_R(Register::B, Register::L), 4u8)),
        decode(0x46, n1, n2) == Some((1usize, OpCode::LD_R(Register::B, Register::HL_ADDR), 8u8)),
        decode(0x47, n1, n2) == Some((1usize, OpCode::LD_R(Register::B, Register::A), 4u8)),
        decode(0x48, n1, n2) == Some((1usize, OpCode::LD_R(Register::C, Register::B), 4u8)),
        decode(0x49, n1, n2) == Some((1usize, OpCode::LD_R(Register::C, Register::C), 4u8)),
        decode(0x4A, n1, n2) == Some((1usize, OpCode::LD_R(Register::C, Register::D), 4u8)),
        decode(0x4B, n1, n2) == Some((1usize, OpCode::LD_R(Register::C, Register::E), 4u8)),
        decode(0x4C, n1, n2) == Some((1usize, OpCode::LD_R(Register::C, Register::H), 4u8)),
        decode(0x4D, n1, n2) == Some((1usize, OpCode::LD_R(Register::C, Register::L), 4u8)),
        decode(0x4E, n1, n2) == Some((1usize, OpCode::LD_R(Register::C, Register::HL_ADDR), 8u8)),
        decode(0x4F, n1, n2) == Some((1usize, OpCode::LD_R(Register::C, Register::A), 4u8)),
        decode(0x50, n1, n2) == Some((1usize, OpCode::LD_R(Register::D, Register::B), 4u8)),
        decode(0x51, n1, n2) == Some((1usize, OpCode::LD_R(Register::D, Register::C), 4u8)),
        decode(0x52, n1, n2) == Some((1usize, OpCode::LD_R(Register::D, Register::D), 4u8)),
        decode(0x53, n1, n2) == Some((1usize, OpCode::LD_R(Register::D, Register::E), 4u8)),
        decode(0x54, n1, n2) == Some((1usize, OpCode::LD_R(Register::D, Register::H), 4u8)),
        decode(0x55, n1, n2) == Some((1usize, OpCode::LD_R(Register::D, Register::L), 4u8)),
        decode(0x56, n1, n2) == Some((1usize, OpCode::LD_R(Register::D, Register::HL_ADDR), 8u8)),
        decode(0x57, n1, n2) == Some((1usize, OpCode::LD_R(Register::D, Register::A), 4u8)),
        decode(0x58, n1, n2) == Some((1usize, OpCode::LD_R(Register::E, Register::B), 4u8)),
        decode(0x59, n1, n2) == Some((1usize, OpCode::LD_R(Register::E, Register::C), 4u8)),
        decode(0x5A, n1, n2) == Some((1usize, OpCode::LD_R(Register::E, Register::D), 4u8)),
        decode(0x5B, n1, n2) == Some((1usize, OpCode::LD_R(Register::E, Register::E), 4u8)),
        decode(0x5C, n1, n2) == Some((1usize, OpCode::LD_R(Register::E, Register::H), 4u8)),
        decode(0x5D, n1, n2) == Some((1usize, OpCode::LD_R(Register::E, Register::L), 4u8)),
        decode(0x5E, n1, n2) == Some((1usize, OpCode::LD_R(Register::E, Register::HL_ADDR), 8u8)),
        decode(0x5F, n1, n2) == Some((1usize, OpCode::LD_R(Register::E, Register::A), 4u8)),
{
}

/// The instructions that begin with the bytes 0x60 to 0x7F; `None` marks a byte that begins none.
pub proof fn lemma_opcodes_60_7f(n1: u8, n2: u8)
    ensures
        decode(0x60, n1, n2) == Some((1usize, OpCode::LD_R(Register::H, Register::B), 4u8)),
        decode(0x61, n1, n2) == Some((1usize, OpCode::LD_R(Register::H, Register::C), 4u8)),
        decode(0x62, n1, n2) == Some((1usize, OpCode::LD_R(Register::H, Register::D), 4u8)),
        decode(0x63, n1, n2) == Some((1usize, OpCode::LD_R(Register::H, Register::E), 4u8)),
        decode(0x64, n1, n2) == Some((1usize, OpCode::LD_R(Register::H, Register::H), 4u8)),
        decode(0x65, n1, n2) == Some((1usize, OpCode::LD_R(Register::H, Register::L), 4u8)),
        decode(0x66, n1, n2) == Some((1usize, OpCode::LD_R(Register::H, Register::HL_ADDR), 8u8)),
        decode(0x67, n1, n2) == Some((1usize, OpCode::LD_R(Register::H, Register::A), 4u8)),
        decode(0x68, n1, n2) == Some((1usize, OpCode::LD_R(Register::L, Register::B), 4u8)),
        decode(0x69, n1, n2) == Some((1usize, OpCode::LD_R(Register::L, Register::C), 4u8)),
        decode(0x6A, n1, n2) == Some((1usize, OpCode::LD_R(Register::L, Register::D), 4u8)),
        decode(0x6B, n1, n2) == Some((1usize, OpCode::LD_R(Register::L, Register::E), 4u8)),
        decode(0x6C, n1, n2) == Some((1usize, OpCode::LD_R(Register::L, Register::H), 4u8)),
        decode(0x6D, n1, n2) == Some((1usize, OpCode::LD_R(Register::L, Register::L), 4u8)),
        decode(0x6E, n1, n2) == Some((1usize, OpCode::LD_R(Register::L, Register::HL_ADDR), 8u8)),
        decode(0x6F, n1, n2) == Some((1usize, OpCode::LD_R(Register::L, Register::A), 4u8)),
        decode(0x70, n1, n2) == Some((1usize, OpCode::LD_R(Register::HL_ADDR, Register::B), 8u8)),
        decode(0x71, n1, n2) == Some((1usize, OpCode::LD_R(Register::HL_ADDR, Register::C), 8u8)),
        decode(0x72, n1, n2) == Some((1usize, OpCode::LD_R(Register::HL_ADDR, Register::D), 8u8)),
        decode(0x73, n1, n2) == Some((1usize, OpCode::LD_R(Register::HL_ADDR, Register::E), 8u8)),
        decode(0x74, n1, n2) == Some((1usize, OpCode::LD_R(Register::HL_ADDR, Register::H), 8u8)),
        decode(0x75, n1, n2) == Some((1usize, OpCode::LD_R(Register::HL_ADDR, Register::L), 8u8)),
        decode(0x76, n1, n2) == Some((1usize, OpCode::HALT, 4u8)),
        decode(0x77, n1, n2) == Some((1usize, OpCode::LD_R(Register::HL_ADDR, Register::A), 8u8)),
        decode(0x78, n1, n2) == Some((1usize, OpCode::LD_R(Register::A, Register::B), 4u8)),
        decode(0x79, n1, n2) == Some((1usize, OpCode::LD_R(Register::A, Register::C), 4u8)),
        decode(0x7A, n1, n2) == Some((1usize, OpCode::LD_R(Register::A, Register::D), 4u8)),
        decode(0x7B, n1, n2) == Some((1usize, OpCode::LD_R(Register::A, Register::E), 4u8)),
        decode(0x7C, n1, n2) == Some((1usize, OpCode::LD_R(Register::A, Register::H), 4u8)),
        decode(0x7D, n1, n2) == Some((1usize, OpCode::LD_R(Register::A, Register::L), 4u8)),
        decode(0x7E, n1, n2) == Some((1usize, OpCode::LD_R(Register::A, Register::HL_ADDR), 8u8)),
        decode(0x7F, n1, n2) == Some((1usize, OpCode::LD_R(Register::A, Register::A), 4u8)),
{
}

/// The instructions that begin with the bytes 0x80 to 0x9F; `None` marks a byte that begins none.
pub proof fn lemma_opcodes_80_9f(n1: u8, n2: u8)
    ensures
        decode(0x80, n1, n2) == Some((1usize, OpCode::ADD(Register::A, Register::B), 4u8)),
        decode(0x81, n1, n2) == Some((1usize, OpCode::ADD(Register::A, Register::C), 4u8)),
        decode(0x82, n1, n2) == Some((1usize, OpCode::ADD(Register::A, Register::D), 4u8)),
        decode(0x83, n1, n2) == Some((1usize, OpCode::ADD(Register::A, Register::E), 4u8)),
        decode(0x84, n1, n2) == Some((1usize, OpCode::ADD(Register::A, Register::H), 4u8)),
        decode(0x85, n1, n2) == Some((1usize, OpCode::ADD(Register::A, Register::L), 4u8)),
        decode(0x86, n1, n2) == Some((1usize, OpCode::ADD(Register::A, Register::HL_ADDR), 8u8)),
        decode(0x87, n1, n2) == Some((1usize, OpCode::ADD(Register::A, Register::A), 4u8)),
        decode(0x88, n1, n2) == Some((1usize, OpCode::ADD(Register::A, Register::B), 4u8)),
        decode(0x89, n1, n2) == Some((1usize, OpCode::ADD_C(Register::A, Register::C), 4u8)),
        decode(0x8A, n1, n2) == Some((1usize, OpCode::ADD_C(Register::A, Register::D), 4u8)),
        decode(0x8B, n1, n2) == Some((1usize, OpCode::ADD_C(Register::A, Register::E), 4u8)),
        decode(0x8C, n1, n2) == Some((1usize, OpCode::ADD_C(Register::A, Register::H), 4u8)),
        decode(0x8D, n1, n2) == Some((1usize, OpCode::ADD_C(Register::A, Register::L), 4u8)),
        decode(0x8E, n1, n2) == Some((1usize, OpCode::ADD_C(Register::A, Register::HL_ADDR), 8u8)),
        decode(0x8F, n1, n2) == Some((1usize, OpCode::ADD_C(Register::A, Register::A), 4u8)),
        decode(0x90, n1, n2) == Some((1usize, OpCode::SUB(Register::B), 4u8)),
        decode(0x91, n1, n2) == Some((1usize, OpCode::SUB(Register::C), 4u8)),
        decode(0x92, n1, n2) == Some((1usize, OpCode::SUB(Register::D), 4u8)),
        decode(0x93, n1, n2) == Some((1usize, OpCode::SUB(Register::E), 4u8)),
        decode(0x94, n1, n2) == Some((1usize, OpCode::SUB(Register::H), 4u8)),
        decode(0x95, n1, n2) == Some((1usize, OpCode::SUB(Register::L), 4u8)),
        decode(0x96, n1, n2) == Some((1usize, OpCode::SUB(Register::HL_ADDR), 8u8)),
        decode(0x97, n1, n2) == Some((1usize, OpCode::SUB(Register::A), 4u8)),
        decode(0x98, n1, n2) == Some((1usize, OpCode::SUB(Register::B), 4u8)),
        decode(0x99, n1, n2) == Some((1usize, OpCode::SUB_C(Register::A, Register::C), 4u8)),
        decode(0x9A, n1, n2) == Some((1usize, OpCode::SUB_C(Register::A, Register::D), 4u8)),
        decode(0x9B, n1, n2) == Some((1usize, OpCode::SUB_C(Register::A, Register::E), 4u8)),
        decode(0x9C, n1, n2) == Some((1usize, OpCode::SUB_C(Register::A, Register::H), 4u8)),
        decode(0x9D, n1, n2) == Some((1usize, OpCode::SUB_C(Register::A, Register::L), 4u8)),
        decode(0x9E, n1, n2) == Some((1usize, OpCode::SUB_C(Register::A, Register::HL_ADDR), 8u8)),
        decode(0x9F, n1, n2) == Some((1usize, OpCode::SUB_C(Register::A, Register::A), 4u8)),
{
}

/// The instructions that begin with the bytes 0xA0 to 0xBF; `None` marks a byte that begins none.
pub proof fn lemma_opcodes_a0_bf(n1: u8, n2: u8)
    ensures
        decode(0xA0, n1, n2) == Some((1usize, OpCode::AND(Register::B), 4u8)),
        decode(0xA1, n1, n2) == Some((1usize, OpCode::AND(Register::C), 4u8)),
        decode(0xA2, n1, n2) == Some((1usize, OpCode::AND(Register::D), 4u8)),
        decode(0xA3, n1, n2) == Some((1usize, OpCode::AND(Register::E), 4u8)),
        decode(0xA4, n1, n2) == Some((1usize, OpCode::AND(Register::H), 4u8)),
        decode(0xA5, n1, n2) == Some((1usize, OpCode::AND(Register::L), 4u8)),
        decode(0xA6, n1, n2) == Some((1usize, OpCode::AND(Register::HL_ADDR), 8u8)),
        decode(0xA7, n1, n2) == Some((1usize, OpCode::AND(Register::A), 4u8)),
        decode(0xA8, n1, n2) == Some((1usize, OpCode::AND(Register::B), 4u8)),
        decode(0xA9, n1, n2) == Some((1usize, OpCode::XOR(Register::C), 4u8)),
        decode(0xAA, n1, n2) == Some((1usize, OpCode::XOR(Register::D), 4u8)),
        decode(0xAB, n1, n2) == Some((1usize, OpCode::XOR(Register::E), 4u8)),
        decode(0xAC, n1, n2) == Some((1usize, OpCode::XOR(Register::H), 4u8)),
        decode(0xAD, n1, n2) == Some((1usize, OpCode::XOR(Register::L), 4u8)),
        decode(0xAE, n1, n2) == Some((1usize, OpCode::XOR(Register::HL_ADDR), 8u8)),
        decode(0xAF, n1, n2) == Some((1usize, OpCode::XOR(Register::A), 4u8)),
        decode(0xB0, n1, n2) == Some((1usize, OpCode::OR(Register::B), 4u8)),
        decode(0xB1, n1, n2) == Some((1usize, OpCode::OR(Register::C), 4u8)),
        decode(0xB2, n1, n2) == Some((1usize, OpCode::OR(Register::D), 4u8)),
        decode(0xB3, n1, n2) == Some((1usize, OpCode::OR(Register::E), 4u8)),
        decode(0xB4, n1, n2) == Some((1usize, OpCode::OR(Register::H), 4u8)),
        decode(0xB5, n1, n2) == Some((1usize, OpCode::OR(Register::L), 4u8)),
        decode(0xB6, n1, n2) == Some((1usize, OpCode::OR(Register::HL_ADDR), 8u8)),
        decode(0xB7, n1, n2) == Some((1usize, OpCode::OR(Register::A), 4u8)),
        decode(0xB8, n1, n2) == Some((1usize, OpCode::OR(Register::B), 4u8)),
        decode(0xB9, n1, n2) == Some((1usize, OpCode::CP(Register::C), 4u8)),
        decode(0xBA, n1, n2) == Some((1usize, OpCode::CP(Register::D), 4u8)),
        decode(0xBB, n1, n2) == Some((1usize, OpCode::CP(Register::E), 4u8)),
        decode(0xBC, n1, n2) == Some((1usize, OpCode::CP(Register::H), 4u8)),
        decode(0xBD, n1, n2) == Some((1usize, OpCode::CP(Register::L), 4u8)),
        decode(0xBE, n1, n2) == Some((1usize, OpCode::CP(Register::HL_ADDR), 8u8)),
        decode(0xBF, n1, n2) == Some((1usize, OpCode::CP(Register::A), 4u8)),
{
}

/// The instructions that begin with the bytes 0xC0 to 0xDF; `None` marks a byte that begins none.
pub proof fn lemma_opcodes_c0_df(n1: u8, n2: u8)
    ensures
        decode(0xC0, n1, n2) == Some((1usize, OpCode::RET_C(Cond::NZ), 8u8)),
        decode(0xC1, n1, n2) == Some((1usize, OpCode::POP(Register::BC), 12u8)),
        decode(0xC2, n1, n2) == Some((3usize, OpCode::JP_C(Cond::NZ, ((n2 as int) * 256 + n1 as int) as u16), 16u8)),
        decode(0xC3, n1, n2) == Some((3usize, OpCode::JP(((n2 as int) * 256 + n1 as int) as u16), 16u8)),
        decode(0xC4, n1, n2) == Some((3usize, OpCode::CALL_C(Cond::NZ, Register::ADDR(((n2 as int) * 256 + n1 as int) as u16)), 24u8)),
        decode(0xC5, n1, n2) == Some((1usize, OpCode::PUSH(Register::BC), 16u8)),
        decode(0xC6, n1, n2) == Some((2usize, OpCode::ADD_d8(Register::A, n1), 8u8)),
        decode(0xC7, n1, n2) == Some((1usize, OpCode::RST(0x00), 8u8)),
        decode(0xC8, n1, n2) == Some((1usize, OpCode::RET_C(Cond::Z), 8u8)),
        decode(0xC9, n1, n2) == Some((1usize, OpCode::RET, 16u8)),
        decode(0xCA, n1, n2) == Some((3usize, OpCode::JP_C(Cond::Z, ((n2 as int) * 256 + n1 as int) as u16), 16u8)),
        decode(0xCC, n1, n2) == Some((3usize, OpCode::CALL_C(Cond::Z, Register::ADDR(((n2 as int) * 256 + n1 as int) as u16)), 24u8)),
        decode(0xCD, n1, n2) == Some((3usize, OpCode::CALL(Register::ADDR(((n2 as int) * 256 + n1 as int) as u16)), 24u8)),
        decode(0xCE, n1, n2) == Some((2usize, OpCode::ADD_C_d8(Register::A, n1), 8u8)),
        decode(0xCF, n1, n2) == Some((1usize, OpCode::RST(0x08), 16u8)),
        decode(0xD0, n1, n2) == Some((1usize, OpCode::RET_C(Cond::NC), 8u8)),
        decode(0xD1, n1, n2) == Some((1usize, OpCode::POP(Register::DE), 12u8)),
        decode(0xD2, n1, n2) == Some((3usize, OpCode::JP_C(Cond::NC, ((n2 as int) * 256 + n1 as int) as u16), 16u8)),
        decode(0xD3, n1, n2) is None,
        decode(0xD4, n1, n2) == Some((3usize, OpCode::CALL_C(Cond::NC, Register::ADDR(((n2 as int) * 256 + n1 as int) as u16)), 24u8)),
        decode(0xD5, n1, n2) == Some((1usize, OpCode::PUSH(Register::DE), 16u8)),
        decode(0xD6, n1, n2) == Some((2usize, OpCode::SUB_d8(n1), 8u8)),
        decode(0xD7, n1, n2) == Some((1usize, OpCode::RST(0x10), 16u8)),
        decode(0xD8, n1, n2) == Some((1usize, OpCode::RET_C(Cond::C), 8u8)),
        decode(0xD9, n1, n2) == Some((1usize, OpCode::RETI, 16u8)),
        decode(0xDA, n1, n2) == Some((3usize, OpCode::JP_C(Cond::C, ((n2 as int) * 256 + n1 as int) as u16), 16u8)),
        decode(0xDB, n1, n2) is None,
        decode(0xDC, n1, n2) == Some((3usize, OpCode::CALL_C(Cond::C, Register::ADDR(((n2 as int) * 256 + n1 as int) as u16)), 24u8)),
        decode(0xDD, n1, n2) is None,
        decode(0xDE, n1, n2) == Some((2usize, OpCode::SUB_C_d8(Register::A, n1), 8u8)),
        decode(0xDF, n1, n2) == Some((1usize, OpCode::RST(0x18), 16u8)),
{
}

/// The instructions that begin with the bytes 0xE0 to 0xFF; `None` marks a byte that begins none.
pub proof fn lemma_opcodes_e0_ff(n1: u8, n2: u8)
    ensures
        decode(0xE0, n1, n2) == Some((2usize, OpCode::LD_R(Register::ADDR((0xFF00 + n1 as int) as u16), Register::A), 12u8)),
        decode(0xE1, n1, n2) == Some((1usize, OpCode::POP(Register::HL), 12u8)),
        decode(0xE2, n1, n2) == Some((1usize, OpCode::LD_R(Register::CH, Register::A), 8u8)),
        decode(0xE3, n1, n2) is None,
        decode(0xE4, n1, n2) is None,
        decode(0xE5, n1, n2) == Some((1usize, OpCode::PUSH(Register::HL), 16u8)),
        decode(0xE6, n1, n2) == Some((2usize, OpCode::AND_d8(n1), 8u8)),
        decode(0xE7, n1, n2) == Some((1usize, OpCode::RST(0x20), 16u8)),
        decode(0xE8, n1, n2) == Some((2usize, OpCode::ADD_r8(Register::SP, n1 as i8), 16u8)),
        decode(0xE9, n1, n2) == Some((1usize, OpCode::JP_HL, 4u8)),
        decode(0xEA, n1, n2) == Some((3usize, OpCode::LD_R(Register::ADDR(((n2 as int) * 256 + n1 as int) as u16), Register::A), 16u8)),
        decode(0xEB, n1, n2) is None,
        decode(0xEC, n1, n2) is None,
        decode(0xED, n1, n2) is None,
        decode(0xEE, n1, n2) == Some((2usize, OpCode::XOR_d8(n1), 8u8)),
        decode(0xEF, n1, n2) == Some((1usize, OpCode::RST(0x28), 16u8)),
        decode(0xF0, n1, n2) == Some((2usize, OpCode::LD_R(Register::A, Register::ADDR((0xFF00 + n1 as int) as u16)), 12u8)),
        decode(0xF1, n1, n2) == Some((1usize, OpCode::POP(Register::AF), 12u8)),
        decode(0xF2, n1, n2) == Some((1usize, OpCode::LD_R(Register::A, Register::CH), 8u8)),
        decode(0xF3, n1, n2) == Some((1usize, OpCode::DI, 4u8)),
        decode(0xF4, n1, n2) is None,
        decode(0xF5, n1, n2) == Some((1usize, OpCode::PUSH(Register::AF), 16u8)),
        decode(0xF6, n1, n2) == Some((2usize, OpCode::OR_d8(n1), 8u8)),
        decode(0xF7, n1, n2) == Some((1usize, OpCode::RST(0x30), 16u8)),
        decode(0xF8, n1, n2) == Some((2usize, OpCode::LD_R(Register::HL, Register::SP_OFF(n1 as i8)), 12u8)),
        decode(0xF9, n1, n2) == Some((1usize, OpCode::LD_R(Register::SP, Register::HL), 8u8)),
        decode(0xFA, n1, n2) == Some((3usize, OpCode::LD_R(Register::A, Register::ADDR(((n2 as int) * 256 + n1 as int) as u16)), 16u8)),
        decode(0xFB, n1, n2) == Some((1usize, OpCode::EI, 4u8)),
        decode(0xFC, n1, n2) is None,
        decode(0xFD, n1, n2) is None,
        decode(0xFE, n1, n2) == Some((2usize, OpCode::CP_d8(n1), 8u8)),
        decode(0xFF, n1, n2) == Some((1usize, OpCode::RST(0x38), 16u8)),
{
}

/// The instructions 0xCB 0x00 to 0xCB 0x3F.
pub proof fn lemma_prefixed_opcodes_00_3f(n1: u8, n2: u8)
    ensures
        decode(0xCB, 0x00, n2) == Some((2usize, OpCode::RLC(Register::B), 8u8)),
        decode(0xCB, 0x01, n2) == Some((2usize, OpCode::RLC(Register::C), 8u8)),
        decode(0xCB, 0x02, n2) == Some((2usize, OpCode::RLC(Register::D), 8u8)),
        decode(0xCB, 0x03, n2) == Some((2usize, OpCode::RLC(Register::E), 8u8)),
        decode(0xCB, 0x04, n2) == Some((2usize, OpCode::RLC(Register::H), 8u8)),
        decode(0xCB, 0x05, n2) == Some((2usize, OpCode::RLC(Register::L), 8u8)),
        decode(0xCB, 0x06, n2) == Some((2usize, OpCode::RLC(Register::HL_ADDR), 16u8)),
        decode(0xCB, 0x07, n2) == Some((2usize, OpCode::RLC(Register::A), 8u8)),
        decode(0xCB, 0x08, n2) == Some((2usize, OpCode::RRC(Register::B), 8u8)),
        decode(0xCB, 0x09, n2) == Some((2usize, OpCode::RRC(Register::C), 8u8)),
        decode(0xCB, 0x0A, n2) == Some((2usize, OpCode::RRC(Register::D), 8u8)),
        decode(0xCB, 0x0B, n2) == Some((2usize, OpCode::RRC(Register::E), 8u8)),
        decode(0xCB, 0x0C, n2) == Some((2usize, OpCode::RRC(Register::H), 8u8)),
        decode(0xCB, 0x0D, n2) == Some((2usize, OpCode::RRC(Register::L), 8u8)),
        decode(0xCB, 0x0E, n2) == Some((2usize, OpCode::RRC(Register::HL_ADDR), 16u8)),
        decode(0xCB, 0x0F, n2) == Some((2usize, OpCode::RRC(Register::A), 8u8)),
        decode(0xCB, 0x10, n2) == Some((2usize, OpCode::RL(Register::B), 8u8)),
        decode(0xCB, 0x11, n2) == Some((2usize, OpCode::RL(Register::C), 8u8)),
        decode(0xCB, 0x12, n2) == Some((2usize, OpCode::RL(Register::D), 8u8)),
        decode(0xCB, 0x13, n2) == Some((2usize, OpCode::RL(Register::E), 8u8)),
        decode(0xCB, 0x14, n2) == Some((2usize, OpCode::RL(Register::H), 8u8)),
        decode(0xCB, 0x15, n2) == Some((2usize, OpCode::RL(Register::L), 8u8)),
        decode(0xCB, 0x16, n2) == Some((2usize, OpCode::RL(Register::HL_ADDR), 16u8)),
        decode(0xCB, 0x17, n2) == Some((2usize, OpCode::RL(Register::A), 8u8)),
        decode(0xCB, 0x18, n2) == Some((2usize, OpCode::RR(Register::B), 8u8)),
        decode(0xCB, 0x19, n2) == Some((2usize, OpCode::RR(Register::C), 8u8)),
        decode(0xCB, 0x1A, n2) == Some((2usize, OpCode::RR(Register::D), 8u8)),
        decode(0xCB, 0x1B, n2) == Some((2usize, OpCode::RR(Register::E), 8u8)),
        decode(0xCB, 0x1C, n2) == Some((2usize, OpCode::RR(Register::H), 8u8)),
        decode(0xCB, 0x1D, n2) == Some((2usize, OpCode::RR(Register::L), 8u8)),
        decode(0xCB, 0x1E, n2) == Some((2usize, OpCode::RR(Register::HL_ADDR), 16u8)),
        decode(0xCB, 0x1F, n2) == Some((2usize, OpCode::RR(Register::A), 8u8)),
        decode(0xCB, 0x20, n2) == Some((2usize, OpCode::SLA(Register::B), 8u8)),
        decode(0xCB, 0x21, n2) == Some((2usize, OpCode::SLA(Register::C), 8u8)),
        decode(0xCB, 0x22, n2) == Some((2usize, OpCode::SLA(Register::D), 8u8)),
        decode(0xCB, 0x23, n2) == Some((2usize, OpCode::SLA(Register::E), 8u8)),
        decode(0xCB, 0x24, n2) == Some((2usize, OpCode::SLA(Register::H), 8u8)),
        decode(0xCB, 0x25, n2) == Some((2usize, OpCode::SLA(Register::L), 8u8)),
        decode(0xCB, 0x26, n2) == Some((2usize, OpCode::SLA(Register::HL_ADDR), 16u8)),
        decode(0xCB, 0x27, n2) == Some((2usize, OpCode::SLA(Register::A), 8u8)),
        decode(0xCB, 0x28, n2) == Some((2usize, OpCode::SRA(Register::B), 8u8)),
        decode(0xCB, 0x29, n2) == Some((2usize, OpCode::SRA(Register::C), 8u8)),
        decode(0xCB, 0x2A, n2) == Some((2usize, OpCode::SRA(Register::D), 8u8)),
        decode(0xCB, 0x2B, n2) == Some((2usize, OpCode::SRA(Register::E), 8u8)),
        decode(0xCB, 0x2C, n2) == Some((2usize, OpCode::SRA(Register::H), 8u8)),
        decode(0xCB, 0x2D, n2) == Some((2usize, OpCode::SRA(Register::L), 8u8)),
        decode(0xCB, 0x2E, n2) == Some((2usize, OpCode::SRA(Register::HL_ADDR), 16u8)),
        decode(0xCB, 0x2F, n2) == Some((2usize, OpCode::SRA(Register::A), 8u8)),
        decode(0xCB, 0x30, n2) == Some((2usize, OpCode::SWAP(Register::B), 8u8)),
        decode(0xCB, 0x31, n2) == Some((2usize, OpCode::SWAP(Register::C), 8u8)),
        decode(0xCB, 0x32, n2) == Some((2usize, OpCode::SWAP(Register::D), 8u8)),
        decode(0xCB, 0x33, n2) == Some((2usize, OpCode::SWAP(Register::E), 8u8)),
        decode(0xCB, 0x34, n2) == Some((2usize, OpCode::SWAP(Register::H), 8u8)),
        decode(0xCB, 0x35, n2) == Some((2usize, OpCode::SWAP(Register::L), 8u8)),
        decode(0xCB, 0x36, n2) == Some((2usize, OpCode::SWAP(Register::HL_ADDR), 16u8)),
        decode(0xCB, 0x37, n2) == Some((2usize, OpCode::SWAP(Register::A), 8u8)),
        decode(0xCB, 0x38, n2) == Some((2usize, OpCode::SRL(Register::B), 8u8)),
        decode(0xCB, 0x39, n2) == Some((2usize, OpCode::SRL(Register::C), 8u8)),
        decode(0xCB, 0x3A, n2) == Some((2usize, OpCode::SRL(Register::D), 8u8)),
        decode(0xCB, 0x3B, n2) == Some((2usize, OpCode::SRL(Register::E), 8u8)),
        decode(0xCB, 0x3C, n2) == Some((2usize, OpCode::SRL(Register::H), 8u8)),
        decode(0xCB, 0x3D, n2) == Some((2usize, OpCode::SRL(Register::L), 8u8)),
        decode(0xCB, 0x3E, n2) == Some((2usize, OpCode::SRL(Register::HL_ADDR), 16u8)),
        decode(0xCB, 0x3F, n2) == Some((2usize, OpCode::SRL(Register::A), 8u8)),
{
}

/// The instructions 0xCB 0x40 to 0xCB 0x7F.
pub proof fn lemma_prefixed_opcodes_40_7f(n1: u8, n2: u8)
    ensures
        decode(0xCB, 0x40, n2) == Some((2usize, OpCode::BIT(0, Register::B), 8u8)),
        decode(0xCB, 0x41, n2) == Some((2usize, OpCode::BIT(0, Register::C), 8u8)),
        decode(0xCB, 0x42, n2) == Some((2usize, OpCode::BIT(0, Register::D), 8u8)),
        decode(0xCB, 0x43, n2) == Some((2usize, OpCode::BIT(0, Register::E), 8u8)),
        decode(0xCB, 0x44, n2) == Some((2usize, OpCode::BIT(0, Register::H), 8u8)),
        decode(0xCB, 0x45, n2) == Some((2usize, OpCode::BIT(0, Register::L), 8u8)),
        decode(0xCB, 0x46, n2) == Some((2usize, OpCode::BIT(0, Register::HL_ADDR), 16u8)),
        decode(0xCB, 0x47, n2) == Some((2usize, OpCode::BIT(0, Register::A), 8u8)),
        decode(0xCB, 0x48, n2) == Some((2usize, OpCode::BIT(1, Register::B), 8u8)),
        decode(0xCB, 0x49, n2) == Some((2usize, OpCode::BIT(1, Register::C), 8u8)),
        decode(0xCB, 0x4A, n2) == Some((2usize, OpCode::BIT(1, Register::D), 8u8)),
        decode(0xCB, 0x4B, n2) == Some((2usize, OpCode::BIT(1, Register::E), 8u8)),
        decode(0xCB, 0x4C, n2) == Some((2usize, OpCode::BIT(1, Register::H), 8u8)),
        decode(0xCB, 0x4D, n2) == Some((2usize, OpCode::BIT(1, Register::L), 8u8)),
        decode(0xCB, 0x4E, n2) == Some((2usize, OpCode::BIT(1, Register::HL_ADDR), 16u8)),
        decode(0xCB, 0x4F, n2) == Some((2usize, OpCode::BIT(1, Register::A), 8u8)),
        decode(0xCB, 0x50, n2) == Some((2usize, OpCode::BIT(2, Register::B), 8u8)),
        decode(0xCB, 0x51, n2) == Some((2usize, OpCode::BIT(2, Register::C), 8u8)),
        decode(0xCB, 0x52, n2) == Some((2usize, OpCode::BIT(2, Register::D), 8u8)),
        decode(0xCB, 0x53, n2) == Some((2usize, OpCode::BIT(2, Register::E), 8u8)),
        decode(0xCB, 0x54, n2) == Some((2usize, OpCode::BIT(2, Register::H), 8u8)),
        decode(0xCB, 0x55, n2) == Some((2usize, OpCode::BIT(2, Register::L), 8u8)),
        decode(0xCB, 0x56, n2) == Some((2usize, OpCode::BIT(2, Register::HL_ADDR), 16u8)),
        decode(0xCB, 0x57, n2) == Some((2usize, OpCode::BIT(2, Register::A), 8u8)),
        decode(0xCB, 0x58, n2) == Some((2usize, OpCode::BIT(3, Register::B), 8u8)),
        decode(0xCB, 0x59, n2) == Some((2usize, OpCode::BIT(3, Register::C), 8u8)),
        decode(0xCB, 0x5A, n2) == Some((2usize, OpCode::BIT(3, Register::D), 8u8)),
        decode(0xCB, 0x5B, n2) == Some((2usize, OpCode::BIT(3, Register::E), 8u8)),
        decode(0xCB, 0x5C, n2) == Some((2usize, OpCode::BIT(3, Register::H), 8u8)),
        decode(0xCB, 0x5D, n2) == Some((2usize, OpCode::BIT(3, Register::L), 8u8)),
        decode(0xCB, 0x5E, n2) == Some((2usize, OpCode::BIT(3, Register::HL_ADDR), 16u8)),
        decode(0xCB, 0x5F, n2) == Some((2usize, OpCode::BIT(3, Register::A), 8u8)),
        decode(0xCB, 0x60, n2) == Some((2usize, OpCode::BIT(4, Register::B), 8u8)),
        decode(0xCB, 0x61, n2) == Some((2usize, OpCode::BIT(4, Register::C), 8u8)),
        decode(0xCB, 0x62, n2) == Some((2usize, OpCode::BIT(4, Register::D), 8u8)),
        decode(0xCB, 0x63, n2) == Some((2usize, OpCode::BIT(4, Register::E), 8u8)),
        decode(0xCB, 0x64, n2) == Some((2usize, OpCode::BIT(4, Register::H), 8u8)),
        decode(0xCB, 0x65, n2) == Some((2usize, OpCode::BIT(4, Register::L), 8u8)),
        decode(0xCB, 0x66, n2) == Some((2usize, OpCode::BIT(4, Register::HL_ADDR), 16u8)),
        decode(0xCB, 0x67, n2) == Some((2usize, OpCode::BIT(4, Register::A), 8u8)),
        decode(0xCB, 0x68, n2) == Some((2usize, OpCode::BIT(5, Register::B), 8u8)),
        decode(0xCB, 0x69, n2) == Some((2usize, OpCode::BIT(5, Register::C), 8u8)),
        decode(0xCB, 0x6A, n2) == Some((2usize, OpCode::BIT(5, Register::D), 8u8)),
        decode(0xCB, 0x6B, n2) == Some((2usize, OpCode::BIT(5, Register::E), 8u8)),
        decode(0xCB, 0x6C, n2) == Some((2usize, OpCode::BIT(5, Register::H), 8u8)),
        decode(0xCB, 0x6D, n2) == Some((2usize, OpCode::BIT(5, Register::L), 8u8)),
        decode(0xCB, 0x6E, n2) == Some((2usize, OpCode::BIT(5, Register::HL_ADDR), 16u8)),
        decode(0xCB, 0x6F, n2) == Some((2usize, OpCode::BIT(5, Register::A), 8u8)),
        decode(0xCB, 0x70, n2) == Some((2usize, OpCode::BIT(6, Register::B), 8u8)),
        decode(0xCB, 0x71, n2) == Some((2usize, OpCode::BIT(6, Register::C), 8u8)),
        decode(0xCB, 0x72, n2) == Some((2usize, OpCode::BIT(6, Register::D), 8u8)),
        decode(0xCB, 0x73, n2) == Some((2usize, OpCode::BIT(6, Register::E), 8u8)),
        decode(0xCB, 0x74, n2) == Some((2usize, OpCode::BIT(6, Register::H), 8u8)),
        decode(0xCB, 0x75, n2) == Some((2usize, OpCode::BIT(6, Register::L), 8u8)),
        decode(0xCB, 0x76, n2) == Some((2usize, OpCode::BIT(6, Register::HL_ADDR), 16u8)),
        decode(0xCB, 0x77, n2) == Some((2usize, OpCode::BIT(6, Register::A), 8u8)),
        decode(0xCB, 0x78, n2) == Some((2usize, OpCode::BIT(7, Register::B), 8u8)),
        decode(0xCB, 0x79, n2) == Some((2usize, OpCode::BIT(7, Register::C), 8u8)),
        decode(0xCB, 0x7A, n2) == Some((2usize, OpCode::BIT(7, Register::D), 8u8)),
        decode(0xCB, 0x7B, n2) == Some((2usize, OpCode::BIT(7, Register::E), 8u8)),
        decode(0xCB, 0x7C, n2) == Some((2usize, OpCode::BIT(7, Register::H), 8u8)),
        decode(0xCB, 0x7D, n2) == Some((2usize, OpCode::BIT(7, Register::L), 8u8)),
        decode(0xCB, 0x7E, n2) == Some((2usize, OpCode::BIT(7, Register::HL_ADDR), 16u8)),
        decode(0xCB, 0x7F, n2) == Some((2usize, OpCode::BIT(7, Register::A), 8u8)),
{
}

/// The instructions 0xCB 0x80 to 0xCB 0xBF.
pub proof fn lemma_prefixed_opcodes_80_bf(n1: u8, n2: u8)
    ensures
        decode(0xCB, 0x80, n2) == Some((2usize, OpCode::RES(0, Register::B), 8u8)),
        decode(0xCB, 0x81, n2) == Some((2usize, OpCode::RES(0, Register::C), 8u8)),
        decode(0xCB, 0x82, n2) == Some((2usize, OpCode::RES(0, Register::D), 8u8)),
        decode(0xCB, 0x83, n2) == Some((2usize, OpCode::RES(0, Register::E), 8u8)),
        decode(0xCB, 0x84, n2) == Some((2usize, OpCode::RES(0, Register::H), 8u8)),
        decode(0xCB, 0x85, n2) == Some((2usize, OpCode::RES(0, Register::L), 8u8)),
        decode(0xCB, 0x86, n2) == Some((2usize, OpCode::RES(0, Register::HL_ADDR), 16u8)),
        decode(0xCB, 0x87, n2) == Some((2usize, OpCode::RES(0, Register::A), 8u8)),
        decode(0xCB, 0x88, n2) == Some((2usize, OpCode::RES(1, Register::B), 8u8)),
        decode(0xCB, 0x89, n2) == Some((2usize, OpCode::RES(1, Register::C), 8u8)),
        decode(0xCB, 0x8A, n2) == Some((2usize, OpCode::RES(1, Register::D), 8u8)),
        decode(0xCB, 0x8B, n2) == Some((2usize, OpCode::RES(1, Register::E), 8u8)),
        decode(0xCB, 0x8C, n2) == Some((2usize, OpCode::RES(1, Register::H), 8u8)),
        decode(0xCB, 0x8D, n2) == Some((2usize, OpCode::RES(1, Register::L), 8u8)),
        decode(0xCB, 0x8E, n2) == Some((2usize, OpCode::RES(1, Register::HL_ADDR), 16u8)),
        decode(0xCB, 0x8F, n2) == Some((2usize, OpCode::RES(1, Register::A), 8u8)),
        decode(0xCB, 0x90, n2) == Some((2usize, OpCode::RES(2, Register::B), 8u8)),
        decode(0xCB, 0x91, n2) == Some((2usize, OpCode::RES(2, Register::C), 8u8)),
        decode(0xCB, 0x92, n2) == Some((2usize, OpCode::RES(2, Register::D), 8u8)),
        decode(0xCB, 0x93, n2) == Some((2usize, OpCode::RES(2, Register::E), 8u8)),
        decode(0xCB, 0x94, n2) == Some((2usize, OpCode::RES(2, Register::H), 8u8)),
        decode(0xCB, 0x95, n2) == Some((2usize, OpCode::RES(2, Register::L), 8u8)),
        decode(0xCB, 0x96, n2) == Some((2usize, OpCode::RES(2, Register::HL_ADDR), 16u8)),
        decode(0xCB, 0x97, n2) == Some((2usize, OpCode::RES(2, Register::A), 8u8)),
        decode(0xCB, 0x98, n2) == Some((2usize, OpCode::RES(3, Register::B), 8u8)),
        decode(0xCB, 0x99, n2) == Some((2usize, OpCode::RES(3, Register::C), 8u8)),
        decode(0xCB, 0x9A, n2) == Some((2usize, OpCode::RES(3, Register::D), 8u8)),
        decode(0xCB, 0x9B, n2) == Some((2usize, OpCode::RES(3, Register::E), 8u8)),
        decode(0xCB, 0x9C, n2) == Some((2usize, OpCode::RES(3, Register::H), 8u8)),
        decode(0xCB, 0x9D, n2) == Some((2usize, OpCode::RES(3, Register::L), 8u8)),
        decode(0xCB, 0x9E, n2) == Some((2usize, OpCode::RES(3, Register::HL_ADDR), 16u8)),
        decode(0xCB, 0x9F, n2) == Some((2usize, OpCode::RES(3, Register::A), 8u8)),
        decode(0xCB, 0xA0, n2) == Some((2usize, OpCode::RES(4, Register::B), 8u8)),
        decode(0xCB, 0xA1, n2) == Some((2usize, OpCode::RES(4, Register::C), 8u8)),
        decode(0xCB, 0xA2, n2) == Some((2usize, OpCode::RES(4, Register::D), 8u8)),
        decode(0xCB, 0xA3, n2) == Some((2usize, OpCode::RES(4, Register::E), 8u8)),
        decode(0xCB, 0xA4, n2) == Some((2usize, OpCode::RES(4, Register::H), 8u8)),
        decode(0xCB, 0xA5, n2) == Some((2usize, OpCode::RES(4, Register::L), 8u8)),
        decode(0xCB, 0xA6, n2) == Some((2usize, OpCode::RES(4, Register::HL_ADDR), 16u8)),
        decode(0xCB, 0xA7, n2) == Some((2usize, OpCode::RES(4, Register::A), 8u8)),
        decode(0xCB, 0xA8, n2) == Some((2usize, OpCode::RES(5, Register::B), 8u8)),
        decode(0xCB, 0xA9, n2) == Some((2usize, OpCode::RES(5, Register::C), 8u8)),
        decode(0xCB, 0xAA, n2) == Some((2usize, OpCode::RES(5, Register::D), 8u8)),
        decode(0xCB, 0xAB, n2) == Some((2usize, OpCode::RES(5, Register::E), 8u8)),
        decode(0xCB, 0xAC, n2) == Some((2usize, OpCode::RES(5, Register::H), 8u8)),
        decode(0xCB, 0xAD, n2) == Some((2usize, OpCode::RES(5, Register::L), 8u8)),
        decode(0xCB, 0xAE, n2) == Some((2usize, OpCode::RES(5, Register::HL_ADDR), 16u8)),
        decode(0xCB, 0xAF, n2) == Some((2usize, OpCode::RES(5, Register::A), 8u8)),
        decode(0xCB, 0xB0, n2) == Some((2usize, OpCode::RES(6, Register::B), 8u8)),
        decode(0xCB, 0xB1, n2) == Some((2usize, OpCode::RES(6, Register::C), 8u8)),
        decode(0xCB, 0xB2, n2) == Some((2usize, OpCode::RES(6, Register::D), 8u8)),
        decode(0xCB, 0xB3, n2) == Some((2usize, OpCode::RES(6, Register::E), 8u8)),
        decode(0xCB, 0xB4, n2) == Some((2usize, OpCode::RES(6, Register::H), 8u8)),
        decode(0xCB, 0xB5, n2) == Some((2usize, OpCode::RES(6, Register::L), 8u8)),
        decode(0xCB, 0xB6, n2) == Some((2usize, OpCode::RES(6, Register::HL_ADDR), 16u8)),
        decode(0xCB, 0xB7, n2) == Some((2usize, OpCode::RES(6, Register::A), 8u8)),
        decode(0xCB, 0xB8, n2) == Some((2usize, OpCode::RES(7, Register::B), 8u8)),
        decode(0xCB, 0xB9, n2) == Some((2usize, OpCode::RES(7, Register::C), 8u8)),
        decode(0xCB, 0xBA, n2) == Some((2usize, OpCode::RES(7, Register::D), 8u8)),
        decode(0xCB, 0xBB, n2) == Some((2usize, OpCode::RES(7, Register::E), 8u8)),
        decode(0xCB, 0xBC, n2) == Some((2usize, OpCode::RES(7, Register::H), 8u8)),
        decode(0xCB, 0xBD, n2) == Some((2usize, OpCode::RES(7, Register::L), 8u8)),
        decode(0xCB, 0xBE, n2) == Some((2usize, OpCode::RES(7, Register::HL_ADDR), 16u8)),
        decode(0xCB, 0xBF, n2) == Some((2usize, OpCode::RES(7, Register::A), 8u8)),
{
}

/// The instructions 0xCB 0xC0 to 0xCB 0xFF.
pub proof fn lemma_prefixed_opcodes_c0_ff(n1: u8, n2: u8)
    ensures
        decode(0xCB, 0xC0, n2) == Some((2usize, OpCode::SET(0, Register::B), 8u8)),
        decode(0xCB, 0xC1, n2) == Some((2usize, OpCode::SET(0, Register::C), 8u8)),
        decode(0xCB, 0xC2, n2) == Some((2usize, OpCode::SET(0, Register::D), 8u8)),
        decode(0xCB, 0xC3, n2) == Some((2usize, OpCode::SET(0, Register::E), 8u8)),
        decode(0xCB, 0xC4, n2) == Some((2usize, OpCode::SET(0, Register::H), 8u8)),
        decode(0xCB, 0xC5, n2) == Some((2usize, OpCode::SET(0, Register::L), 8u8)),
        decode(0xCB, 0xC6, n2) == Some((2usize, OpCode::SET(0, Register::HL_ADDR), 16u8)),
        decode(0xCB, 0xC7, n2) == Some((2usize, OpCode::SET(0, Register::A), 8u8)),
        decode(0xCB, 0xC8, n2) == Some((2usize, OpCode::SET(1, Register::B), 8u8)),
        decode(0xCB, 0xC9, n2) == Some((2usize, OpCode::SET(1, Register::C), 8u8)),
        decode(0xCB, 0xCA, n2) == Some((2usize, OpCode::SET(1, Register::D), 8u8)),
        decode(0xCB, 0xCB, n2) == Some((2usize, OpCode::SET(1, Register::E), 8u8)),
        decode(0xCB, 0xCC, n2) == Some((2usize, OpCode::SET(1, Register::H), 8u8)),
        decode(0xCB, 0xCD, n2) == Some((2usize, OpCode::SET(1, Register::L), 8u8)),
        decode(0xCB, 0xCE, n2) == Some((2usize, OpCode::SET(1, Register::HL_ADDR), 16u8)),
        decode(0xCB, 0xCF, n2) == Some((2usize, OpCode::SET(1, Register::A), 8u8)),
        decode(0xCB, 0xD0, n2) == Some((2usize, OpCode::SET(2, Register::B), 8u8)),
        decode(0xCB, 0xD1, n2) == Some((2usize, OpCode::SET(2, Register::C), 8u8)),
        decode(0xCB, 0xD2, n2) == Some((2usize, OpCode::SET(2, Register::D), 8u8)),
        decode(0xCB, 0xD3, n2) == Some((2usize, OpCode::SET(2, Register::E), 8u8)),
        decode(0xCB, 0xD4, n2) == Some((2usize, OpCode::SET(2, Register::H), 8u8)),
        decode(0xCB, 0xD5, n2) == Some((2usize, OpCode::SET(2, Register::L), 8u8)),
        decode(0xCB, 0xD6, n2) == Some((2usize, OpCode::SET(2, Register::HL_ADDR), 16u8)),
        decode(0xCB, 0xD7, n2) == Some((2usize, OpCode::SET(2, Register::A), 8u8)),
        decode(0xCB, 0xD8, n2) == Some((2usize, OpCode::SET(3, Register::B), 8u8)),
        decode(0xCB, 0xD9, n2) == Some((2usize, OpCode::SET(3, Register::C), 8u8)),
        decode(0xCB, 0xDA, n2) == Some((2usize, OpCode::SET(3, Register::D), 8u8)),
        decode(0xCB, 0xDB, n2) == Some((2usize, OpCode::SET(3, Register::E), 8u8)),
        decode(0xCB, 0xDC, n2) == Some((2usize, OpCode::SET(3, Register::H), 8u8)),
        decode(0xCB, 0xDD, n2) == Some((2usize, OpCode::SET(3, Register::L), 8u8)),
        decode(0xCB, 0xDE, n2) == Some((2usize, OpCode::SET(3, Register::HL_ADDR), 16u8)),
        decode(0xCB, 0xDF, n2) == Some((2usize, OpCode::SET(3, Register::A), 8u8)),
        decode(0xCB, 0xE0, n2) == Some((2usize, OpCode::SET(4, Register::B), 8u8)),
        decode(0xCB, 0xE1, n2) == Some((2usize, OpCode::SET(4, Register::C), 8u8)),
        decode(0xCB, 0xE2, n2) == Some((2usize, OpCode::SET(4, Register::D), 8u8)),
        decode(0xCB, 0xE3, n2) == Some((2usize, OpCode::SET(4, Register::E), 8u8)),
        decode(0xCB, 0xE4, n2) == Some((2usize, OpCode::SET(4, Register::H), 8u8)),
        decode(0xCB, 0xE5, n2) == Some((2usize, OpCode::SET(4, Register::L), 8u8)),
        decode(0xCB, 0xE6, n2) == Some((2usize, OpCode::SET(4, Register::HL_ADDR), 16u8)),
        decode(0xCB, 0xE7, n2) == Some((2usize, OpCode::SET(4, Register::A), 8u8)),
        decode(0xCB, 0xE8, n2) == Some((2usize, OpCode::SET(5, Register::B), 8u8)),
        decode(0xCB, 0xE9, n2) == Some((2usize, OpCode::SET(5, Register::C), 8u8)),
        decode(0xCB, 0xEA, n2) == Some((2usize, OpCode::SET(5, Register::D), 8u8)),
        decode(0xCB, 0xEB, n2) == Some((2usize, OpCode::SET(5, Register::E), 8u8)),
        decode(0xCB, 0xEC, n2) == Some((2usize, OpCode::SET(5, Register::H), 8u8)),
        decode(0xCB, 0xED, n2) == Some((2usize, OpCode::SET(5, Register::L), 8u8)),
        decode(0xCB, 0xEE, n2) == Some((2usize, OpCode::SET(5, Register::HL_ADDR), 16u8)),
        decode(0xCB, 0xEF, n2) == Some((2usize, OpCode::SET(5, Register::A), 8u8)),
        decode(0xCB, 0xF0, n2) == Some((2usize, OpCode::SET(6, Register::B), 8u8)),
        decode(0xCB, 0xF1, n2) == Some((2usize, OpCode::SET(6, Register::C), 8u8)),
        decode(0xCB, 0xF2, n2) == Some((2usize, OpCode::SET(6, Register::D), 8u8)),
        decode(0xCB, 0xF3, n2) == Some((2usize, OpCode::SET(6, Register::E), 8u8)),
        decode(0xCB, 0xF4, n2) == Some((2usize, OpCode::SET(6, Register::H), 8u8)),
        decode(0xCB, 0xF5, n2) == Some((2usize, OpCode::SET(6, Register::L), 8u8)),
        decode(0xCB, 0xF6, n2) == Some((2usize, OpCode::SET(6, Register::HL_ADDR), 16u8)),
        decode(0xCB, 0xF7, n2) == Some((2usize, OpCode::SET(6, Register::A), 8u8)),
        decode(0xCB, 0xF8, n2) == Some((2usize, OpCode::SET(7, Register::B), 8u8)),
        decode(0xCB, 0xF9, n2) == Some((2usize, OpCode::SET(7, Register::C), 8u8)),
        decode(0xCB, 0xFA, n2) == Some((2usize, OpCode::SET(7, Register::D), 8u8)),
        decode(0xCB, 0xFB, n2) == Some((2usize, OpCode::SET(7, Register::E), 8u8)),
        decode(0xCB, 0xFC, n2) == Some((2usize, OpCode::SET(7, Register::H), 8u8)),
        decode(0xCB, 0xFD, n2) == Some((2usize, OpCode::SET(7, Register::L), 8u8)),
        decode(0xCB, 0xFE, n2) == Some((2usize, OpCode::SET(7, Register::HL_ADDR), 16u8)),
        decode(0xCB, 0xFF, n2) == Some((2usize, OpCode::SET(7, Register::A), 8u8)),
{
}

} // verus!
