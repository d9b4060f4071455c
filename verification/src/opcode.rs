use vstd::prelude::*;

use crate::register::Register;

verus! {

/// The branch conditions: not zero, zero, no carry, carry.
#[derive(Clone, Copy, Debug, PartialEq, Eq, Structural)]
pub enum Cond {
    NZ,
    NC,
    Z,
    C,
}

/// A decoded instruction with its operands.
#[allow(non_camel_case_types)]
#[derive(Debug, PartialEq, Eq)]
pub enum OpCode {
    NOP,
    STOP,
    HALT,
    DI,
    EI,
    JR(i8),
    JR_C(Cond, i8),
    JP(u16),
    JP_C(Cond, u16),
    JP_HL,
    CALL(Register),
    CALL_C(Cond, Register),
    RET,
    RETI,
    RET_C(Cond),
    RST(u8),
    LD(Register, u8),
    LD_M(Register, u16),
    LD_R(Register, Register),
    PUSH(Register),
    POP(Register),
    INC(Register),
    DEC(Register),
    INC_F(Register),
    DEC_F(Register),
    ADD(Register, Register),
    ADD_C(Register, Register),
    SUB(Register),
    SUB_C(Register, Register),
    AND(Register),
    XOR(Register),
    OR(Register),
    CP(Register),
    ADD_d8(Register, u8),
    ADD_C_d8(Register, u8),
    SUB_d8(u8),
    SUB_C_d8(Register, u8),
    AND_d8(u8),
    XOR_d8(u8),
    OR_d8(u8),
    CP_d8(u8),
    ADD_r8(Register, i8),
    RLCA,
    RRCA,
    RLA,
    RRA,
    DAA,
    CPL,
    SCF,
    CCF,
    RLC(Register),
    RRC(Register),
    RL(Register),
    RR(Register),
    SLA(Register),
    SRA(Register),
    SWAP(Register),
    SRL(Register),
    BIT(u8, Register),
    RES(u8, Register),
    SET(u8, Register),
    /// A byte that begins no instruction, as two upper-case hex digits.
    ERR(String),
}

} // verus!
