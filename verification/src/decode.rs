use vstd::prelude::*;

use crate::opcode::{Cond, OpCode};
use crate::register::Register;

verus! {

// ---------------------------------------------------------------------
// The instruction set, stated by the fields of the first byte: its two
// high bits `x`, the three middle bits `y` and the three low bits `z`.
// ---------------------------------------------------------------------

/// The operand named by a three-bit field: B, C, D, E, H, L, (HL), A.
pub open spec fn operand_register(i: u8) -> Register {
    if i == 0 {
        Register::B
    } else if i == 1 {
        Register::C
    } else if i == 2 {
        Register::D
    } else if i == 3 {
        Register::E
    } else if i == 4 {
        Register::H
    } else if i == 5 {
        Register::L
    } else if i == 6 {
        Register::HL_ADDR
    } else {
        Register::A
    }
}

/// The operand of the 8-bit increments and decrements: as
/// `operand_register`, except that field 6 names HL.
pub open spec fn step_register(i: u8) -> Register {
    if i == 6 {
        Register::HL
    } else {
        operand_register(i)
    }
}

/// The register pair named by a two-bit field: BC, DE, HL, SP.
pub open spec fn pair_operand(i: u8) -> Register {
    if i == 0 {
        Register::BC
    } else if i == 1 {
        Register::DE
    } else if i == 2 {
        Register::HL
    } else {
        Register::SP
    }
}

/// The indirect operand of the accumulator loads: (BC), (DE), (HL+), (HL-).
pub open spec fn indirect_operand(i: u8) -> Register {
    if i == 0 {
        Register::BC
    } else if i == 1 {
        Register::DE
    } else if i == 2 {
        Register::HLP
    } else {
        Register::HLM
    }
}

/// The pair pushed or popped: BC, DE, HL, AF.
pub open spec fn stack_operand(i: u8) -> Register {
    if i == 0 {
        Register::BC
    } else if i == 1 {
        Register::DE
    } else if i == 2 {
        Register::HL
    } else {
        Register::AF
    }
}

/// The condition named by a two-bit field: NZ, Z, NC, C.
pub open spec fn condition(i: u8) -> Cond {
    if i == 0 {
        Cond::NZ
    } else if i == 1 {
        Cond::Z
    } else if i == 2 {
        Cond::NC
    } else {
        Cond::C
    }
}

/// The little-endian 16-bit operand made of `lo` and `hi`.
pub open spec fn imm16(lo: u8, hi: u8) -> u16 {
    (hi * 256 + lo) as u16
}

/// Instructions 0x00 to 0x3F, as (length, instruction, cycles).
pub open spec fn decode_block0(y: u8, z: u8, n1: u8, n2: u8) -> (usize, OpCode, u8) {
    if z == 0 {
        if y == 0 {
            (1, OpCode::NOP, 4)
        } else if y == 1 {
            (3, OpCode::LD_R(Register::ADDR(imm16(n1, n2)), Register::SP), 20)
        } else if y == 2 {
            (2, OpCode::STOP, 4)
        } else if y == 3 {
            (2, OpCode::JR(n1 as i8), 4)
        } else {
            // JR NZ and JR NC take 12 cycles, JR Z and JR C take 4
            (2, OpCode::JR_C(condition((y - 4) as u8), n1 as i8), if y % 2 == 0 { 12 } else { 4 })
        }
    } else if z == 1 {
        if y % 2 == 0 {
            (3, OpCode::LD_M(pair_operand(y / 2), imm16(n1, n2)), 12)
        } else {
            (1, OpCode::ADD(Register::HL, pair_operand(y / 2)), 8)
        }
    } else if z == 2 {
        if y % 2 == 0 {
            (1, OpCode::LD_R(indirect_operand(y / 2), Register::A), 8)
        } else {
            (1, OpCode::LD_R(Register::A, indirect_operand(y / 2)), 8)
        }
    } else if z == 3 {
        if y % 2 == 0 {
            (1, OpCode::INC(pair_operand(y / 2)), 8)
        } else {
            (1, OpCode::DEC(pair_operand(y / 2)), 8)
        }
    } else if z == 4 {
        (1, OpCode::INC_F(step_register(y)), if y == 6 { 12 } else { 4 })
    } else if z == 5 {
        (1, OpCode::DEC_F(step_register(y)), if y == 6 { 12 } else { 4 })
    } else if z == 6 {
        (2, OpCode::LD(operand_register(y), n1), if y == 6 { 12 } else { 8 })
    } else {
        (
            1,
            if y == 0 {
                OpCode::RLCA
            } else if y == 1 {
                OpCode::RRCA
            } else if y == 2 {
                OpCode::RLA
            } else if y == 3 {
                OpCode::RRA
            } else if y == 4 {
                OpCode::DAA
            } else if y == 5 {
                OpCode::CPL
            } else if y == 6 {
                OpCode::SCF
            } else {
                OpCode::CCF
            },
            4,
        )
    }
}

/// Instructions 0x40 to 0x7F: HALT at 0x76, else LD r, r' with both
/// operands from `operand_register`; 8 cycles when one operand is (HL).
pub open spec fn decode_block1(y: u8, z: u8) -> (usize, OpCode, u8) {
    if y == 6 && z == 6 {
        (1, OpCode::HALT, 4)
    } else {
        (
            1,
            OpCode::LD_R(operand_register(y), operand_register(z)),
            if y == 6 || z == 6 { 8 } else { 4 },
        )
    }
}

/// Instructions 0x80 to 0xBF: the accumulator operations on an operand
/// from `operand_register`, 8 cycles on (HL). The operation is chosen by
/// `y`, except that a zero `z` with an odd `y` takes the operation of the
/// row above (0x88 is ADD, 0x98 SUB, 0xA8 AND, 0xB8 OR).
pub open spec fn decode_block2(y: u8, z: u8) -> (usize, OpCode, u8) {
    let r = operand_register(z);
    let row = if z == 0 && y % 2 == 1 { (y - 1) as u8 } else { y };
    (
        1,
        if row == 0 {
            OpCode::ADD(Register::A, r)
        } else if row == 1 {
            OpCode::ADD_C(Register::A, r)
        } else if row == 2 {
            OpCode::SUB(r)
        } else if row == 3 {
            OpCode::SUB_C(Register::A, r)
        } else if row == 4 {
            OpCode::AND(r)
        } else if row == 5 {
            OpCode::XOR(r)
        } else if row == 6 {
            OpCode::OR(r)
        } else {
            OpCode::CP(r)
        },
        if z == 6 { 8 } else { 4 },
    )
}

/// The instructions that follow the prefix 0xCB, from their second byte:
/// rotates and shifts, then BIT, RES and SET of bit `y`, on an operand
/// from `operand_register`; 8 cycles, 16 on (HL); length 2.
pub open spec fn decode_prefixed(b: u8) -> (usize, OpCode, u8) {
    let x = b / 64;
    let y = (b / 8) % 8;
    let r = operand_register(b % 8);
    (
        2,
        if x == 0 {
            if y == 0 {
                OpCode::RLC(r)
            } else if y == 1 {
                OpCode::RRC(r)
            } else if y == 2 {
                OpCode::RL(r)
            } else if y == 3 {
                OpCode::RR(r)
            } else if y == 4 {
                OpCode::SLA(r)
            } else if y == 5 {
                OpCode::SRA(r)
            } else if y == 6 {
                OpCode::SWAP(r)
            } else {
                OpCode::SRL(r)
            }
        } else if x == 1 {
            OpCode::BIT(y, r)
        } else if x == 2 {
            OpCode::RES(y, r)
        } else {
            OpCode::SET(y, r)
        },
        if b % 8 == 6 { 16 } else { 8 },
    )
}

/// Instructions 0xC0 to 0xFF; `None` for the bytes that begin no
/// instruction (0xD3, 0xDB, 0xDD, 0xE3, 0xE4, 0xEB, 0xEC, 0xED, 0xF4, 0xFC,
/// 0xFD).
pub open spec fn decode_block3(y: u8, z: u8, n1: u8, n2: u8) -> Option<(usize, OpCode, u8)> {
    let high = Register::ADDR((0xFF00 + n1) as u16);
    if z == 0 {
        if y < 4 {
            Some((1, OpCode::RET_C(condition(y)), 8))
        } else if y == 4 {
            Some((2, OpCode::LD_R(high, Register::A), 12))
        } else if y == 5 {
            Some((2, OpCode::ADD_r8(Register::SP, n1 as i8), 16))
        } else if y == 6 {
            Some((2, OpCode::LD_R(Register::A, high), 12))
        } else {
            Some((2, OpCode::LD_R(Register::HL, Register::SP_OFF(n1 as i8)), 12))
        }
    } else if z == 1 {
        if y % 2 == 0 {
            Some((1, OpCode::POP(stack_operand(y / 2)), 12))
        } else if y == 1 {
            Some((1, OpCode::RET, 16))
        } else if y == 3 {
            Some((1, OpCode::RETI, 16))
        } else if y == 5 {
            Some((1, OpCode::JP_HL, 4))
        } else {
            Some((1, OpCode::LD_R(Register::SP, Register::HL), 8))
        }
    } else if z == 2 {
        if y < 4 {
            Some((3, OpCode::JP_C(condition(y), imm16(n1, n2)), 16))
        } else if y == 4 {
            Some((1, OpCode::LD_R(Register::CH, Register::A), 8))
        } else if y == 5 {
            Some((3, OpCode::LD_R(Register::ADDR(imm16(n1, n2)), Register::A), 16))
        } else if y == 6 {
            Some((1, OpCode::LD_R(Register::A, Register::CH), 8))
        } else {
            Some((3, OpCode::LD_R(Register::A, Register::ADDR(imm16(n1, n2))), 16))
        }
    } else if z == 3 {
        if y == 0 {
            Some((3, OpCode::JP(imm16(n1, n2)), 16))
        } else if y == 1 {
            Some(decode_prefixed(n1))
        } else if y == 6 {
            Some((1, OpCode::DI, 4))
        } else if y == 7 {
            Some((1, OpCode::EI, 4))
        } else {
            None
        }
    } else if z == 4 {
        if y < 4 {
            Some((3, OpCode::CALL_C(condition(y), Register::ADDR(imm16(n1, n2))), 24))
        } else {
            None
        }
    } else if z == 5 {
        if y % 2 == 0 {
            Some((1, OpCode::PUSH(stack_operand(y / 2)), 16))
        } else if y == 1 {
            Some((3, OpCode::CALL(Register::ADDR(imm16(n1, n2))), 24))
        } else {
            None
        }
    } else if z == 6 {
        Some(
            (
                2,
                if y == 0 {
                    OpCode::ADD_d8(Register::A, n1)
                } else if y == 1 {
                    OpCode::ADD_C_d8(Register::A, n1)
                } else if y == 2 {
                    OpCode::SUB_d8(n1)
                } else if y == 3 {
                    OpCode::SUB_C_d8(Register::A, n1)
                } else if y == 4 {
                    OpCode::AND_d8(n1)
                } else if y == 5 {
                    OpCode::XOR_d8(n1)
                } else if y == 6 {
                    OpCode::OR_d8(n1)
                } else {
                    OpCode::CP_d8(n1)
                },
                8,
            ),
        )
    } else {
        Some((1, OpCode::RST((y * 8) as u8), if y == 0 { 8 } else { 16 }))
    }
}

/// The instruction that begins with byte `b`, followed by `n1` and `n2`,
/// as (length in bytes, instruction, cycles); `None` when `b` begins no
/// instruction.
pub open spec fn decode(b: u8, n1: u8, n2: u8) -> Option<(usize, OpCode, u8)> {
    let x = b / 64;
    let y = (b / 8) % 8;
    let z = b % 8;
    if x == 0 {
        Some(decode_block0(y, z, n1, n2))
    } else if x == 1 {
        Some(decode_block1(y, z))
    } else if x == 2 {
        Some(decode_block2(y, z))
    } else {
        decode_block3(y, z, n1, n2)
    }
}

/// The length of the instruction that begins with byte `b` (1 for a byte
/// that begins none); it does not depend on the operand bytes.
pub open spec fn instr_len(b: u8) -> usize {
    match decode(b, 0, 0) {
        Some(d) => d.0,
        None => 1,
    }
}

/// Byte `i` of `bytes`, or 0 past its end.
pub open spec fn byte_at(bytes: Seq<u8>, i: int) -> u8 {
    if 0 <= i < bytes.len() {
        bytes[i]
    } else {
        0
    }
}

/// The upper-case hex digit of `d`.
pub open spec fn hex_char(d: u8) -> char {
    if d == 0 {
        '0'
    } else if d == 1 {
        '1'
    } else if d == 2 {
        '2'
    } else if d == 3 {
        '3'
    } else if d == 4 {
        '4'
    } else if d == 5 {
        '5'
    } else if d == 6 {
        '6'
    } else if d == 7 {
        '7'
    } else if d == 8 {
        '8'
    } else if d == 9 {
        '9'
    } else if d == 10 {
        'A'
    } else if d == 11 {
        'B'
    } else if d == 12 {
        'C'
    } else if d == 13 {
        'D'
    } else if d == 14 {
        'E'
    } else {
        'F'
    }
}

/// `b` as two upper-case hex digits.
pub open spec fn hex_chars(b: u8) -> Seq<char> {
    seq![hex_char(b / 16), hex_char(b % 16)]
}

/// The hex digits of a byte are two characters, '0' to '9' for the values
/// 0 to 9 and 'A' to 'F' for 10 to 15, the high nibble first.
pub proof fn lemma_hex_digits(b: u8)
    ensures
        hex_chars(b).len() == 2,
        hex_chars(b)[0] as u32 == if b / 16 < 10 { 48 + b / 16 } else { 55 + b / 16 },
        hex_chars(b)[1] as u32 == if b % 16 < 10 { 48 + b % 16 } else { 55 + b % 16 },
{
}


/// The bytes that begin no instruction.
pub open spec fn is_undefined_byte(b: u8) -> bool {
    b == 0xD3 || b == 0xDB || b == 0xDD || b == 0xE3 || b == 0xE4 || b == 0xEB || b == 0xEC || b
        == 0xED || b == 0xF4 || b == 0xFC || b == 0xFD
}

/// Exactly eleven bytes begin no instruction; every other byte begins an
/// instruction of one to three bytes whose length and cycle count depend on
/// the first byte alone, and whose cycle count is a non-zero multiple of
/// four.
pub proof fn lemma_decode_shape(b: u8, n1: u8, n2: u8)
    ensures
        decode(b, n1, n2) is None <==> is_undefined_byte(b),
        decode(b, n1, n2) is Some ==> {
            let d = decode(b, n1, n2)->0;
            let base = decode(b, 0, 0)->0;
            &&& 1 <= d.0 <= 3
            &&& d.0 == instr_len(b)
            &&& b != 0xCB ==> d.2 == base.2
            &&& d.2 >= 4 && d.2 % 4 == 0
        },
{
}

/// Every byte after the prefix 0xCB begins a two-byte instruction of 8
/// cycles, or 16 when its operand is (HL).
pub proof fn lemma_prefixed_shape(b: u8)
    ensures
        decode_prefixed(b).0 == 2,
        decode_prefixed(b).2 == if b % 8 == 6 { 16u8 } else { 8u8 },
{
}

// ---------------------------------------------------------------------
// The decoder.
// ---------------------------------------------------------------------

/// The hex digit of `d` as a one-character string.
fn hex_digit(d: u8) -> (s: &'static str)
    requires
        d < 16,
    ensures
        s@ == seq![hex_char(d)],
{
    proof {
        reveal_strlit("0");
        reveal_strlit("1");
        reveal_strlit("2");
        reveal_strlit("3");
        reveal_strlit("4");
        reveal_strlit("5");
        reveal_strlit("6");
        reveal_strlit("7");
        reveal_strlit("8");
        reveal_strlit("9");
        reveal_strlit("A");
        reveal_strlit("B");
        reveal_strlit("C");
        reveal_strlit("D");
        reveal_strlit("E");
        reveal_strlit("F");
    }
    match d {
        0 => "0",
        1 => "1",
        2 => "2",
        3 => "3",
        4 => "4",
        5 => "5",
        6 => "6",
        7 => "7",
        8 => "8",
        9 => "9",
        10 => "A",
        11 => "B",
        12 => "C",
        13 => "D",
        14 => "E",
        _ => "F",
    }
}

/// `b` as two upper-case hex digits, padded with a leading zero.
pub fn hex_byte(b: u8) -> (s: String)
    ensures
        s@ == hex_chars(b),
{
    let mut s = String::new();
    s.append(hex_digit(b / 16));
    s.append(hex_digit(b % 16));
    s
}

/// The operand of an instruction: the 16-bit little-endian value that
/// follows the first byte when the instruction has 3 bytes, else 0.
pub fn get_arg(start: usize, num: u8, res: &Vec<u8>) -> (arg: u16)
    requires
        num == 3 ==> start + 2 < res.len(),
    ensures
        arg == if num == 3 {
            imm16(res@[start + 1], res@[start + 2])
        } else {
            0
        },
{
    match num {
        3 => {
            let hi = res[start + 2];
            let lo = res[start + 1];
            proof {
                assert((hi as u16) << 8 == hi * 256) by (bit_vector);
            }
            ((hi as u16) << 8) + (lo as u16)
        },
        _ => 0,
    }
}

/// The operand named by the three low bits of `b`.
pub fn lookup_mod_register(b: u8) -> (reg: Register)
    ensures
        reg == operand_register(b % 8),
{
    let registers = [
        Register::B,
        Register::C,
        Register::D,
        Register::E,
        Register::H,
        Register::L,
        Register::HL_ADDR,
        Register::A,
    ];
    registers[(b % 8) as usize]
}

/// The cycles of a one-byte accumulator operation on the operand named by
/// the low bits of `b`: 8 on (HL), else 4.
pub fn lookup_mod_cycles(b: u8) -> (cycles: u8)
    ensures
        cycles == if b % 8 == 6 { 8u8 } else { 4u8 },
{
    if (b % 8) == 6 {
        8
    } else {
        4
    }
}

/// The cycle multiplier of a prefixed instruction on the operand named by
/// the low bits of `b`: 2 on (HL), else 1.
pub fn lookup_mod_mult(b: u8) -> (mult: u8)
    ensures
        mult == if b % 8 == 6 { 2u8 } else { 1u8 },
{
    if (b % 8) == 6 {
        2
    } else {
        1
    }
}

/// Decodes the instruction after the prefix 0xCB at `start`.
pub fn get_cb(start: usize, y: &Vec<u8>) -> (d: (usize, OpCode, u8))
    requires
        start + 1 < y.len(),
    ensures
        d == decode_prefixed(y@[start + 1]),
{
    let b = y[start + 1];
    match y[start + 1] {
        0x00..=0x07 => (2, OpCode::RLC(lookup_mod_register(b)), 8 * lookup_mod_mult(b)),
        0x08..=0x0F => (2, OpCode::RRC(lookup_mod_register(b)), 8 * lookup_mod_mult(b)),
        0x10..=0x17 => (2, OpCode::RL(lookup_mod_register(b)), 8 * lookup_mod_mult(b)),
        0x18..=0x1F => (2, OpCode::RR(lookup_mod_register(b)), 8 * lookup_mod_mult(b)),
        0x20..=0x27 => (2, OpCode::SLA(lookup_mod_register(b)), 8 * lookup_mod_mult(b)),
        0x28..=0x2F => (2, OpCode::SRA(lookup_mod_register(b)), 8 * lookup_mod_mult(b)),
        0x30..=0x37 => (2, OpCode::SWAP(lookup_mod_register(b)), 8 * lookup_mod_mult(b)),
        0x38..=0x3F => (2, OpCode::SRL(lookup_mod_register(b)), 8 * lookup_mod_mult(b)),
        0x40..=0x7F => (2, OpCode::BIT((b - 0x40) / 8, lookup_mod_register(b)), 8 * lookup_mod_mult(b)),
        0x80..=0xBF => (2, OpCode::RES((b - 0x80) / 8, lookup_mod_register(b)), 8 * lookup_mod_mult(b)),
        0xC0..=0xFF => (2, OpCode::SET((b - 0xC0) / 8, lookup_mod_register(b)), 8 * lookup_mod_mult(b)),
    }
}

/// Decodes a load between two operands, 0x40 to 0x7F (other than 0x76):
/// the destination is named by bits 5 to 3 of `b`, the source by bits 2 to
/// 0; 8 cycles when either is (HL), else 4.
#[allow(non_snake_case)]
pub fn lookup_LD_R(start: usize, b: u8) -> (d: (usize, OpCode, u8))
    requires
        0x40 <= b <= 0x7F,
    ensures
        d == (
            1usize,
            OpCode::LD_R(operand_register((b / 8) % 8), operand_register(b % 8)),
            if (b / 8) % 8 == 6 || b % 8 == 6 { 8u8 } else { 4u8 },
        ),
{
    let idx = b - 0x40;
    let registers = [
        Register::B,
        Register::C,
        Register::D,
        Register::E,
        Register::H,
        Register::L,
        Register::HL_ADDR,
        Register::A,
    ];
    let (left, right) = (registers[(idx / 8) as usize], lookup_mod_register(b));
    let cycles = if (idx / 8) == 6 || (idx % 8) == 6 {
        8
    } else {
        4
    };
    (1, OpCode::LD_R(left, right), cycles)
}

/// Decodes a one-byte accumulator operation with two operands: `op` is
/// applied to A and to the operand named by the low bits of `b`.
pub fn lookup_mod_op_a(op: impl Fn(Register, Register) -> OpCode, b: u8) -> (d: (usize, OpCode, u8))
    requires
        call_requires(op, (Register::A, operand_register(b % 8))),
    ensures
        d.0 == 1,
        call_ensures(op, (Register::A, operand_register(b % 8)), d.1),
        d.2 == if b % 8 == 6 { 8u8 } else { 4u8 },
{
    (1, op(Register::A, lookup_mod_register(b)), lookup_mod_cycles(b))
}

/// Decodes a one-byte accumulator operation with one operand: `op` is
/// applied to the operand named by the low bits of `b`.
pub fn lookup_mod_op(op: impl Fn(Register) -> OpCode, b: u8) -> (d: (usize, OpCode, u8))
    requires
        call_requires(op, (operand_register(b % 8),)),
    ensures
        d.0 == 1,
        call_ensures(op, (operand_register(b % 8),), d.1),
        d.2 == if b % 8 == 6 { 8u8 } else { 4u8 },
{
    (1, op(lookup_mod_register(b)), lookup_mod_cycles(b))
}


/// Builds `ADD` of two operands.
fn op_add(a: Register, r: Register) -> (o: OpCode)
    ensures
        o == OpCode::ADD(a, r),
{
    OpCode::ADD(a, r)
}

/// Builds `ADD_C` of two operands.
fn op_add_c(a: Register, r: Register) -> (o: OpCode)
    ensures
        o == OpCode::ADD_C(a, r),
{
    OpCode::ADD_C(a, r)
}

/// Builds `SUB_C` of two operands.
fn op_sub_c(a: Register, r: Register) -> (o: OpCode)
    ensures
        o == OpCode::SUB_C(a, r),
{
    OpCode::SUB_C(a, r)
}

/// Builds `SUB` of one operand.
fn op_sub(r: Register) -> (o: OpCode)
    ensures
        o == OpCode::SUB(r),
{
    OpCode::SUB(r)
}

/// Builds `AND` of one operand.
fn op_and(r: Register) -> (o: OpCode)
    ensures
        o == OpCode::AND(r),
{
    OpCode::AND(r)
}

/// Builds `XOR` of one operand.
fn op_xor(r: Register) -> (o: OpCode)
    ensures
        o == OpCode::XOR(r),
{
    OpCode::XOR(r)
}

/// Builds `OR` of one operand.
fn op_or(r: Register) -> (o: OpCode)
    ensures
        o == OpCode::OR(r),
{
    OpCode::OR(r)
}

/// Builds `CP` of one operand.
fn op_cp(r: Register) -> (o: OpCode)
    ensures
        o == OpCode::CP(r),
{
    OpCode::CP(r)
}

/// Decodes the instruction that begins at `start` in `y`, as (length in
/// bytes, instruction, cycles); a byte that begins no instruction decodes
/// as `ERR` with its hex digits, length 1 and no cycles.
#[verifier::rlimit(100)]
#[verifier::spinoff_prover]
#[allow(overlapping_range_endpoints)]
pub fn lookup_op(start: usize, y: &Vec<u8>) -> (d: (usize, OpCode, u8))
    requires
        start < y.len(),
        y@[start as int] != 0x10 ==> start + instr_len(y@[start as int]) <= y.len(),
    ensures
        match decode(y@[start as int], byte_at(y@, start + 1), byte_at(y@, start + 2)) {
            Some(r) => d == r,
            None => d.0 == 1 && d.2 == 0 && d.1 is ERR && d.1->ERR_0@ == hex_chars(y@[start as int]),
        },
{
    let res = match y[start] {
        0x00 => (1, OpCode::NOP, 4),
        0x10 => (2, OpCode::STOP, 4),
        0x20 => (2, OpCode::JR_C(Cond::NZ, y[start + 1] as i8), 12),
        0x30 => (2, OpCode::JR_C(Cond::NC, y[start + 1] as i8), 12),
        0x01 => (3, OpCode::LD_M(Register::BC, get_arg(start, 3, y)), 12),
        0x11 => (3, OpCode::LD_M(Register::DE, get_arg(start, 3, y)), 12),
        0x21 => (3, OpCode::LD_M(Register::HL, get_arg(start, 3, y)), 12),
        0x31 => (3, OpCode::LD_M(Register::SP, get_arg(start, 3, y)), 12),
        0x02 => (1, OpCode::LD_R(Register::BC, Register::A), 8),
        0x12 => (1, OpCode::LD_R(Register::DE, Register::A), 8),
        0x22 => (1, OpCode::LD_R(Register::HLP, Register::A), 8),
        0x32 => (1, OpCode::LD_R(Register::HLM, Register::A), 8),
        0x03 => (1, OpCode::INC(Register::BC), 8),
        0x13 => (1, OpCode::INC(Register::DE), 8),
        0x23 => (1, OpCode::INC(Register::HL), 8),
        0x33 => (1, OpCode::INC(Register::SP), 8),
        0x04 => (1, OpCode::INC_F(Register::B), 4),
        0x14 => (1, OpCode::INC_F(Register::D), 4),
        0x24 => (1, OpCode::INC_F(Register::H), 4),
        0x34 => (1, OpCode::INC_F(Register::HL), 12),
        0x05 => (1, OpCode::DEC_F(Register::B), 4),
        0x15 => (1, OpCode::DEC_F(Register::D), 4),
        0x25 => (1, OpCode::DEC_F(Register::H), 4),
        0x35 => (1, OpCode::DEC_F(Register::HL), 12),
        0x06 => (2, OpCode::LD(Register::B, y[start + 1]), 8),
        0x16 => (2, OpCode::LD(Register::D, y[start + 1]), 8),
        0x26 => (2, OpCode::LD(Register::H, y[start + 1]), 8),
        0x36 => (2, OpCode::LD(Register::HL_ADDR, y[start + 1]), 12),
        0x07 => (1, OpCode::RLCA, 4),
        0x17 => (1, OpCode::RLA, 4),
        0x27 => (1, OpCode::DAA, 4),
        0x37 => (1, OpCode::SCF, 4),
        0x08 => (3, OpCode::LD_R(Register::ADDR(get_arg(start, 3, y)), Register::SP), 20),
        0x18 => (2, OpCode::JR(y[start + 1] as i8), 4),
        0x28 => (2, OpCode::JR_C(Cond::Z, y[start + 1] as i8), 4),
        0x38 => (2, OpCode::JR_C(Cond::C, y[start + 1] as i8), 4),
        0x09 => (1, OpCode::ADD(Register::HL, Register::BC), 8),
        0x19 => (1, OpCode::ADD(Register::HL, Register::DE), 8),
        0x29 => (1, OpCode::ADD(Register::HL, Register::HL), 8),
        0x39 => (1, OpCode::ADD(Register::HL, Register::SP), 8),
        0x0B => (1, OpCode::DEC(Register::BC), 8),
        0x1B => (1, OpCode::DEC(Register::DE), 8),
        0x2B => (1, OpCode::DEC(Register::HL), 8),
        0x3B => (1, OpCode::DEC(Register::SP), 8),
        0x0C => (1, OpCode::INC_F(Register::C), 4),
        0x1C => (1, OpCode::INC_F(Register::E), 4),
        0x2C => (1, OpCode::INC_F(Register::L), 4),
        0x3C => (1, OpCode::INC_F(Register::A), 4),
        0x0D => (1, OpCode::DEC_F(Register::C), 4),
        0x1D => (1, OpCode::DEC_F(Register::E), 4),
        0x2D => (1, OpCode::DEC_F(Register::L), 4),
        0x3D => (1, OpCode::DEC_F(Register::A), 4),
        0x0E => (2, OpCode::LD(Register::C, y[start + 1]), 8),
        0x1E => (2, OpCode::LD(Register::E, y[start + 1]), 8),
        0x2E => (2, OpCode::LD(Register::L, y[start + 1]), 8),
        0x3E => (2, OpCode::LD(Register::A, y[start + 1]), 8),
        0x0F => (1, OpCode::RRCA, 4),
        0x1F => (1, OpCode::RRA, 4),
        0x2F => (1, OpCode::CPL, 4),
        0x3F => (1, OpCode::CCF, 4),
        0x0A => (1, OpCode::LD_R(Register::A, Register::BC), 8),
        0x1A => (1, OpCode::LD_R(Register::A, Register::DE), 8),
        0x2A => (1, OpCode::LD_R(Register::A, Register::HLP), 8),
        0x3A => (1, OpCode::LD_R(Register::A, Register::HLM), 8),
        0xE0 => (2, OpCode::LD_R(Register::ADDR(0xFF00 + (y[start + 1] as u16)), Register::A), 12),
        0xF0 => (2, OpCode::LD_R(Register::A, Register::ADDR(0xFF00 + (y[start + 1] as u16))), 12),
        0xC2 => (3, OpCode::JP_C(Cond::NZ, get_arg(start, 3, y)), 16),
        0xD2 => (3, OpCode::JP_C(Cond::NC, get_arg(start, 3, y)), 16),
        0xE2 => (1, OpCode::LD_R(Register::CH, Register::A), 8),
        0xF2 => (1, OpCode::LD_R(Register::A, Register::CH), 8),
        0xC3 => (3, OpCode::JP(get_arg(start, 3, y)), 16),
        0xF3 => (1, OpCode::DI, 4),
        0xC4 => (3, OpCode::CALL_C(Cond::NZ, Register::ADDR(get_arg(start, 3, y))), 24),
        0xD4 => (3, OpCode::CALL_C(Cond::NC, Register::ADDR(get_arg(start, 3, y))), 24),
        0xCB => get_cb(start, y),
        0xFB => (1, OpCode::EI, 4),
        0xCC => (3, OpCode::CALL_C(Cond::Z, Register::ADDR(get_arg(start, 3, y))), 24),
        0xDC => (3, OpCode::CALL_C(Cond::C, Register::ADDR(get_arg(start, 3, y))), 24),
        0xCD => (3, OpCode::CALL(Register::ADDR(get_arg(start, 3, y))), 24),
        0x76 => (1, OpCode::HALT, 4),
        b @ 0x40..=0x7F => lookup_LD_R(start, b),
        b @ 0x80..=0x88 => lookup_mod_op_a(op_add, b),
        b @ 0x88..=0x8F => lookup_mod_op_a(op_add_c, b),
        b @ 0x90..=0x98 => lookup_mod_op(op_sub, b),
        b @ 0x98..=0x9F => lookup_mod_op_a(op_sub_c, b),
        b @ 0xA0..=0xA8 => lookup_mod_op(op_and, b),
        b @ 0xA8..=0xAF => lookup_mod_op(op_xor, b),
        b @ 0xB0..=0xB8 => lookup_mod_op(op_or, b),
        b @ 0xB8..=0xBF => lookup_mod_op(op_cp, b),
        0xC0 => (1, OpCode::RET_C(Cond::NZ), 8),
        0xD0 => (1, OpCode::RET_C(Cond::NC), 8),
        0xC1 => (1, OpCode::POP(Register::BC), 12),
        0xD1 => (1, OpCode::POP(Register::DE), 12),
        0xE1 => (1, OpCode::POP(Register::HL), 12),
        0xF1 => (1, OpCode::POP(Register::AF), 12),
        0xC5 => (1, OpCode::PUSH(Register::BC), 16),
        0xD5 => (1, OpCode::PUSH(Register::DE), 16),
        0xE5 => (1, OpCode::PUSH(Register::HL), 16),
        0xF5 => (1, OpCode::PUSH(Register::AF), 16),
        0xC6 => (2, OpCode::ADD_d8(Register::A, y[start + 1]), 8),
        0xD6 => (2, OpCode::SUB_d8(y[start + 1]), 8),
        0xE6 => (2, OpCode::AND_d8(y[start + 1]), 8),
        0xF6 => (2, OpCode::OR_d8(y[start + 1]), 8),
        0xC7 => (1, OpCode::RST(0x00), 8),
        0xD7 => (1, OpCode::RST(0x10), 16),
        0xE7 => (1, OpCode::RST(0x20), 16),
        0xF7 => (1, OpCode::RST(0x30), 16),
        0xC8 => (1, OpCode::RET_C(Cond::Z), 8),
        0xD8 => (1, OpCode::RET_C(Cond::C), 8),
        0xE8 => (2, OpCode::ADD_r8(Register::SP, y[start + 1] as i8), 16),
        0xF8 => (2, OpCode::LD_R(Register::HL, Register::SP_OFF(y[start + 1] as i8)), 12),
        0xC9 => (1, OpCode::RET, 16),
        0xD9 => (1, OpCode::RETI, 16),
        0xE9 => (1, OpCode::JP_HL, 4),
        0xF9 => (1, OpCode::LD_R(Register::SP, Register::HL), 8),
        0xCA => (3, OpCode::JP_C(Cond::Z, get_arg(start, 3, y)), 16),
        0xDA => (3, OpCode::JP_C(Cond::C, get_arg(start, 3, y)), 16),
        0xEA => (3, OpCode::LD_R(Register::ADDR(get_arg(start, 3, y)), Register::A), 16),
        0xFA => (3, OpCode::LD_R(Register::A, Register::ADDR(get_arg(start, 3, y))), 16),
        0xCE => (2, OpCode::ADD_C_d8(Register::A, y[start + 1]), 8),
        0xDE => (2, OpCode::SUB_C_d8(Register::A, y[start + 1]), 8),
        0xEE => (2, OpCode::XOR_d8(y[start + 1]), 8),
        0xFE => (2, OpCode::CP_d8(y[start + 1]), 8),
        0xCF => (1, OpCode::RST(0x08), 16),
        0xDF => (1, OpCode::RST(0x18), 16),
        0xEF => (1, OpCode::RST(0x28), 16),
        0xFF => (1, OpCode::RST(0x38), 16),
        _ => (1, OpCode::ERR(hex_byte(y[start])), 0)
    };
    res
}


/// The length of the instruction that begins with byte `b`, 1 for a byte
/// that begins none.
pub fn instruction_length(b: u8) -> (len: usize)
    ensures
        len == instr_len(b),
{
    let bytes: Vec<u8> = vec![b, 0, 0];
    let d = lookup_op(0, &bytes);
    d.0
}

/// Whether `lookup_op(start, y)` finds all the bytes it reads in `y`.
pub fn can_lookup_op(start: usize, y: &Vec<u8>) -> (ok: bool)
    ensures
        ok == (start < y.len() && (y@[start as int] != 0x10 ==> start + instr_len(
            y@[start as int],
        ) <= y.len())),
{
    if start >= y.len() {
        return false;
    }
    if y[start] == 0x10 {
        return true;
    }
    let len = instruction_length(y[start]);
    len <= y.len() - start
}

} // verus!
