use rustgirl::decode::{get_arg, get_cb, hex_byte, lookup_LD_R, lookup_mod_register, lookup_op};
use rustgirl::opcode::{Cond, OpCode};
use rustgirl::register::Register;

const UNDEFINED: [u8; 11] = [0xD3, 0xDB, 0xDD, 0xE3, 0xE4, 0xEB, 0xEC, 0xED, 0xF4, 0xFC, 0xFD];

fn decode(bytes: &[u8]) -> (usize, OpCode, u8) {
    lookup_op(0, &bytes.to_vec())
}

#[test]
fn decodes_stack_pointer_load() {
    assert_eq!(decode(&[0x31, 0xFE, 0xFF]), (3, OpCode::LD_M(Register::SP, 0xFFFE), 12));
}

#[test]
fn decodes_nop_and_stop() {
    assert_eq!(decode(&[0x00]), (1, OpCode::NOP, 4));
    // STOP is two bytes long but reads no operand, so it may end the buffer
    assert_eq!(decode(&[0x10]), (2, OpCode::STOP, 4));
}

#[test]
fn decodes_relative_jumps_with_signed_offsets() {
    assert_eq!(decode(&[0x18, 0xFE]), (2, OpCode::JR(-2), 4));
    assert_eq!(decode(&[0x20, 0xFB]), (2, OpCode::JR_C(Cond::NZ, -5), 12));
    assert_eq!(decode(&[0x28, 0x05]), (2, OpCode::JR_C(Cond::Z, 5), 4));
    assert_eq!(decode(&[0x30, 0x80]), (2, OpCode::JR_C(Cond::NC, -128), 12));
    assert_eq!(decode(&[0x38, 0x7F]), (2, OpCode::JR_C(Cond::C, 127), 4));
}

#[test]
fn decodes_high_page_loads() {
    assert_eq!(
        decode(&[0xE0, 0x44]),
        (2, OpCode::LD_R(Register::ADDR(0xFF44), Register::A), 12)
    );
    assert_eq!(
        decode(&[0xF0, 0x00]),
        (2, OpCode::LD_R(Register::A, Register::ADDR(0xFF00)), 12)
    );
    assert_eq!(decode(&[0xE2]), (1, OpCode::LD_R(Register::CH, Register::A), 8));
}

#[test]
fn decodes_register_loads_and_halt() {
    assert_eq!(decode(&[0x76]), (1, OpCode::HALT, 4));
    assert_eq!(decode(&[0x46]), (1, OpCode::LD_R(Register::B, Register::HL_ADDR), 8));
    assert_eq!(decode(&[0x7F]), (1, OpCode::LD_R(Register::A, Register::A), 4));
    assert_eq!(decode(&[0x70]), (1, OpCode::LD_R(Register::HL_ADDR, Register::B), 8));
    assert_eq!(lookup_LD_R(0, 0x4D), (1, OpCode::LD_R(Register::C, Register::L), 4));
}

#[test]
fn decodes_accumulator_operations() {
    assert_eq!(decode(&[0x80]), (1, OpCode::ADD(Register::A, Register::B), 4));
    assert_eq!(decode(&[0x8E]), (1, OpCode::ADD_C(Register::A, Register::HL_ADDR), 8));
    assert_eq!(decode(&[0x97]), (1, OpCode::SUB(Register::A), 4));
    assert_eq!(decode(&[0x9A]), (1, OpCode::SUB_C(Register::A, Register::D), 4));
    assert_eq!(decode(&[0xAF]), (1, OpCode::XOR(Register::A), 4));
    assert_eq!(decode(&[0xB1]), (1, OpCode::OR(Register::C), 4));
    assert_eq!(decode(&[0xBE]), (1, OpCode::CP(Register::HL_ADDR), 8));
}

#[test]
fn first_byte_of_each_odd_row_takes_the_operation_of_the_row_above() {
    assert_eq!(decode(&[0x88]), (1, OpCode::ADD(Register::A, Register::B), 4));
    assert_eq!(decode(&[0x98]), (1, OpCode::SUB(Register::B), 4));
    assert_eq!(decode(&[0xA8]), (1, OpCode::AND(Register::B), 4));
    assert_eq!(decode(&[0xB8]), (1, OpCode::OR(Register::B), 4));
}

#[test]
fn decodes_prefixed_instructions() {
    assert_eq!(decode(&[0xCB, 0x7C]), (2, OpCode::BIT(7, Register::H), 8));
    assert_eq!(decode(&[0xCB, 0x11]), (2, OpCode::RL(Register::C), 8));
    assert_eq!(decode(&[0xCB, 0x86]), (2, OpCode::RES(0, Register::HL_ADDR), 16));
    assert_eq!(decode(&[0xCB, 0xFF]), (2, OpCode::SET(7, Register::A), 8));
    assert_eq!(get_cb(0, &vec![0xCB, 0x37]), (2, OpCode::SWAP(Register::A), 8));
}

#[test]
fn decodes_calls_returns_and_restarts() {
    assert_eq!(decode(&[0xCD, 0x95, 0x00]), (3, OpCode::CALL(Register::ADDR(0x0095)), 24));
    assert_eq!(
        decode(&[0xDC, 0x34, 0x12]),
        (3, OpCode::CALL_C(Cond::C, Register::ADDR(0x1234)), 24)
    );
    assert_eq!(decode(&[0xC9]), (1, OpCode::RET, 16));
    assert_eq!(decode(&[0xC8]), (1, OpCode::RET_C(Cond::Z), 8));
    assert_eq!(decode(&[0xC7]), (1, OpCode::RST(0x00), 8));
    assert_eq!(decode(&[0xFF]), (1, OpCode::RST(0x38), 16));
    assert_eq!(decode(&[0xF5]), (1, OpCode::PUSH(Register::AF), 16));
    assert_eq!(decode(&[0xC1]), (1, OpCode::POP(Register::BC), 12));
}

#[test]
fn decodes_immediate_operations() {
    assert_eq!(decode(&[0xFE, 0x34]), (2, OpCode::CP_d8(0x34), 8));
    assert_eq!(decode(&[0xDE, 0x01]), (2, OpCode::SUB_C_d8(Register::A, 1), 8));
    assert_eq!(decode(&[0xE8, 0xF0]), (2, OpCode::ADD_r8(Register::SP, -16), 16));
    assert_eq!(decode(&[0xF8, 0x02]), (2, OpCode::LD_R(Register::HL, Register::SP_OFF(2)), 12));
    assert_eq!(decode(&[0x36, 0x12]), (2, OpCode::LD(Register::HL_ADDR, 0x12), 12));
    assert_eq!(decode(&[0x34]), (1, OpCode::INC_F(Register::HL), 12));
    assert_eq!(
        decode(&[0x08, 0x00, 0xC0]),
        (3, OpCode::LD_R(Register::ADDR(0xC000), Register::SP), 20)
    );
}

#[test]
fn undefined_bytes_decode_as_errors_with_their_hex_digits() {
    assert_eq!(decode(&[0xD3]), (1, OpCode::ERR("D3".to_string()), 0));
    assert_eq!(decode(&[0xFD]), (1, OpCode::ERR("FD".to_string()), 0));
    assert_eq!(decode(&[0xE4]), (1, OpCode::ERR("E4".to_string()), 0));
}

#[test]
fn hex_digits_are_upper_case_and_padded() {
    assert_eq!(hex_byte(0x0A), "0A");
    assert_eq!(hex_byte(0x00), "00");
    assert_eq!(hex_byte(0xFF), "FF");
    assert_eq!(hex_byte(0xC3), "C3");
}

#[test]
fn every_byte_decodes_to_one_to_three_bytes_and_eleven_are_undefined() {
    let mut undefined = Vec::new();
    for b in 0..=255u8 {
        let (len, op, cycles) = decode(&[b, 0x00, 0x00]);
        assert!((1..=3).contains(&len));
        match op {
            OpCode::ERR(_) => {
                assert_eq!(len, 1);
                assert_eq!(cycles, 0);
                undefined.push(b);
            }
            _ => {
                assert!(cycles >= 4 && cycles % 4 == 0);
                // the length does not depend on the operand bytes
                let (len2, _, cycles2) = decode(&[b, 0xAB, 0xCD]);
                assert_eq!(len, len2);
                if b != 0xCB {
                    assert_eq!(cycles, cycles2);
                }
            }
        }
    }
    assert_eq!(undefined, UNDEFINED.to_vec());
}

#[test]
fn operand_decoding_helpers() {
    assert_eq!(get_arg(0, 3, &vec![0x21, 0xFF, 0x9F]), 0x9FFF);
    assert_eq!(get_arg(0, 2, &vec![0x21, 0xFF, 0x9F]), 0);
    assert_eq!(lookup_mod_register(0x06), Register::HL_ADDR);
    assert_eq!(lookup_mod_register(0xFF), Register::A);
}

#[test]
fn decodes_in_the_middle_of_a_buffer() {
    let boot = vec![0x31, 0xFE, 0xFF, 0xAF, 0x21, 0xFF, 0x9F, 0x32];
    assert_eq!(lookup_op(3, &boot), (1, OpCode::XOR(Register::A), 4));
    assert_eq!(lookup_op(4, &boot), (3, OpCode::LD_M(Register::HL, 0x9FFF), 12));
    assert_eq!(lookup_op(7, &boot), (1, OpCode::LD_R(Register::HLM, Register::A), 8));
}
