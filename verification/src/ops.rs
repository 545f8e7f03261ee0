use vstd::prelude::*;

use crate::alu::spec_to_i8;
use crate::alu::to_signed8;
use crate::fault::Fault;
use crate::regs::Reg16;
use crate::regs::Reg8;

verus! {

/// An indirect-address form: the effective address is a register pair, a
/// high-RAM base (0xFF00) plus an offset from register C or an immediate
/// byte, or an absolute 16-bit literal.
#[derive(Clone, Copy, Debug, PartialEq, Eq, Structural)]
pub enum IndirectAddr {
    BC,
    DE,
    HL,
    C,
    Imm8(u8),
    Imm16(u16),
}

/// The flag predicate guarding a control transfer.
#[derive(Clone, Copy, Debug, PartialEq, Eq, Structural)]
pub enum Cond {
    Always,
    Z,
    NZ,
    C,
    NC,
}

/// A decode-time 8-bit operand descriptor.
#[derive(Clone, Copy, Debug, PartialEq, Eq, Structural)]
pub enum Arg8 {
    Reg(Reg8),
    Ind(IndirectAddr),
    Imm(u8),
}

/// A decode-time 16-bit operand descriptor.
#[derive(Clone, Copy, Debug, PartialEq, Eq, Structural)]
pub enum Arg16 {
    Reg(Reg16),
    Ind(IndirectAddr),
    Imm(u16),
}

/// One fully decoded instruction, one variant per opcode family. Produced
/// once per fetch cycle, consumed exactly once by the dispatcher.
#[derive(Clone, Copy, Debug, PartialEq, Eq, Structural)]
pub enum Instruction {
    // 8-bit load
    LD(Arg8, Arg8),
    LDD(Arg8, Arg8),
    LDI(Arg8, Arg8),
    LDH(Arg8, Arg8),
    // 16-bit load
    LD16(Arg16, Arg16),
    LDHL16(i8),
    PUSH(Arg16),
    POP(Arg16),
    // 8-bit arithmetic
    ADD(Arg8),
    ADC(Arg8),
    SUB(Arg8),
    SBC(Arg8),
    AND(Arg8),
    OR(Arg8),
    XOR(Arg8),
    CP(Arg8),
    INC(Arg8),
    DEC(Arg8),
    // 16-bit arithmetic
    ADD16(Arg16),
    ADD16SP(i8),
    INC16(Arg16),
    DEC16(Arg16),
    // misc
    NOP,
    DAA,
    CPL,
    CCF,
    SCF,
    HALT,
    STOP,
    EI,
    DI,
    // rotate and shift
    RLC(Arg8),
    RL(Arg8),
    RRC(Arg8),
    RR(Arg8),
    SLA(Arg8),
    SRA(Arg8),
    SWAP(Arg8),
    SRL(Arg8),
    // bit manipulation
    BIT(u8, Arg8),
    SET(u8, Arg8),
    RES(u8, Arg8),
    // control
    JP(Cond, Arg16),
    JR(Cond, i8),
    CALL(Cond, Arg16),
    RST(u8),
    RET(Cond),
    RETI,
}

/// An instruction that still awaits one trailing immediate byte.
#[derive(Clone, Copy, Debug, PartialEq, Eq, Structural)]
pub enum Pend8 {
    /// LD dst, n
    LdDst(Arg8),
    /// LDH (0xFF00+n), A
    LdhStore,
    /// LDH A, (0xFF00+n)
    LdhLoad,
    /// The accumulator operation of the given row (0 ADD .. 7 CP) with an
    /// immediate operand.
    Alu(u8),
    /// JR cond, n (signed displacement)
    Jr(Cond),
    /// ADD SP, n (signed displacement)
    AddSp,
    /// LD HL, SP+n (signed displacement)
    LdHlSp,
}

/// An instruction that still awaits a trailing little-endian 16-bit
/// immediate.
#[derive(Clone, Copy, Debug, PartialEq, Eq, Structural)]
pub enum Pend16 {
    /// LD rr, nn
    Ld16(Reg16),
    /// LD (nn), SP
    StoreSp,
    /// LD A, (nn)
    LoadA,
    /// LD (nn), A
    StoreA,
    /// JP cond, nn
    Jp(Cond),
    /// CALL cond, nn
    Call(Cond),
}

/// The decode state machine. Decode is a suspended computation resumed by
/// each fetched byte: it starts at `NeedOpcode`, and every delivered byte
/// transitions the state exactly once until `Complete` holds a full
/// instruction.
#[derive(Clone, Copy, Debug, PartialEq, Eq, Structural)]
pub enum Cont {
    /// Awaiting the first opcode byte.
    NeedOpcode,
    /// Saw the two-byte-table prefix; awaiting the second opcode byte.
    NeedCb,
    /// Awaiting one trailing immediate byte.
    NeedByte(Pend8),
    /// Awaiting the low byte of a 16-bit immediate.
    NeedLo(Pend16),
    /// Awaiting the high byte of a 16-bit immediate, the low byte in hand.
    NeedHi(Pend16, u8),
    /// A fully decoded instruction.
    Complete(Instruction),
}

/// The operand named by a three-bit register code of the opcode grid:
/// B, C, D, E, H, L, (HL), A.
pub open spec fn spec_reg_code(k: u8) -> Arg8 {
    if k == 0 {
        Arg8::Reg(Reg8::B)
    } else if k == 1 {
        Arg8::Reg(Reg8::C)
    } else if k == 2 {
        Arg8::Reg(Reg8::D)
    } else if k == 3 {
        Arg8::Reg(Reg8::E)
    } else if k == 4 {
        Arg8::Reg(Reg8::H)
    } else if k == 5 {
        Arg8::Reg(Reg8::L)
    } else if k == 6 {
        Arg8::Ind(IndirectAddr::HL)
    } else {
        Arg8::Reg(Reg8::A)
    }
}

/// The accumulator operation of row `k` of the opcode grid:
/// ADD, ADC, SUB, SBC, AND, XOR, OR, CP.
pub open spec fn spec_alu_instr(k: u8, a: Arg8) -> Instruction {
    if k == 0 {
        Instruction::ADD(a)
    } else if k == 1 {
        Instruction::ADC(a)
    } else if k == 2 {
        Instruction::SUB(a)
    } else if k == 3 {
        Instruction::SBC(a)
    } else if k == 4 {
        Instruction::AND(a)
    } else if k == 5 {
        Instruction::XOR(a)
    } else if k == 6 {
        Instruction::OR(a)
    } else {
        Instruction::CP(a)
    }
}

/// The rotate/shift operation of row `k` of the two-byte table:
/// RLC, RRC, RL, RR, SLA, SRA, SWAP, SRL.
pub open spec fn spec_rot_instr(k: u8, a: Arg8) -> Instruction {
    if k == 0 {
        Instruction::RLC(a)
    } else if k == 1 {
        Instruction::RRC(a)
    } else if k == 2 {
        Instruction::RL(a)
    } else if k == 3 {
        Instruction::RR(a)
    } else if k == 4 {
        Instruction::SLA(a)
    } else if k == 5 {
        Instruction::SRA(a)
    } else if k == 6 {
        Instruction::SWAP(a)
    } else {
        Instruction::SRL(a)
    }
}

/// The instruction encoded by the second opcode byte of the two-byte
/// (0xCB-prefixed) table; every one of its 256 entries is defined.
pub open spec fn spec_cb_instr(b: u8) -> Instruction {
    let a = spec_reg_code(b % 8);
    if b < 0x40 {
        spec_rot_instr(b / 8, a)
    } else if b < 0x80 {
        Instruction::BIT((b / 8) % 8, a)
    } else if b < 0xC0 {
        Instruction::RES((b / 8) % 8, a)
    } else {
        Instruction::SET((b / 8) % 8, a)
    }
}

/// Completes a one-trailing-byte instruction with its immediate byte.
pub open spec fn spec_finish8(p: Pend8, n: u8) -> Instruction {
    match p {
        Pend8::LdDst(dst) => Instruction::LD(dst, Arg8::Imm(n)),
        Pend8::LdhStore => Instruction::LDH(
            Arg8::Ind(IndirectAddr::Imm8(n)),
            Arg8::Reg(Reg8::A),
        ),
        Pend8::LdhLoad => Instruction::LDH(
            Arg8::Reg(Reg8::A),
            Arg8::Ind(IndirectAddr::Imm8(n)),
        ),
        Pend8::Alu(k) => spec_alu_instr(k, Arg8::Imm(n)),
        Pend8::Jr(c) => Instruction::JR(c, spec_to_i8(n)),
        Pend8::AddSp => Instruction::ADD16SP(spec_to_i8(n)),
        Pend8::LdHlSp => Instruction::LDHL16(spec_to_i8(n)),
    }
}

/// Completes a two-trailing-byte instruction with its little-endian
/// immediate (low byte first).
pub open spec fn spec_finish16(p: Pend16, lo: u8, hi: u8) -> Instruction {
    let nn = (hi * 256 + lo) as u16;
    match p {
        Pend16::Ld16(rr) => Instruction::LD16(Arg16::Reg(rr), Arg16::Imm(nn)),
        Pend16::StoreSp => Instruction::LD16(
            Arg16::Ind(IndirectAddr::Imm16(nn)),
            Arg16::Reg(Reg16::SP),
        ),
        Pend16::LoadA => Instruction::LD(Arg8::Reg(Reg8::A), Arg8::Ind(IndirectAddr::Imm16(nn))),
        Pend16::StoreA => Instruction::LD(Arg8::Ind(IndirectAddr::Imm16(nn)), Arg8::Reg(Reg8::A)),
        Pend16::Jp(c) => Instruction::JP(c, Arg16::Imm(nn)),
        Pend16::Call(c) => Instruction::CALL(c, Arg16::Imm(nn)),
    }
}

/// The supported one-byte opcode table: what the first opcode byte decodes
/// to — a complete instruction, a continuation awaiting more bytes, or a
/// decode fault for the opcodes with no defined meaning.
pub open spec fn spec_decode_op(op: u8) -> Result<Cont, Fault> {
    if op == 0x00 {
        Ok(Cont::Complete(Instruction::NOP))
    } else if op == 0x01 {
        Ok(Cont::NeedLo(Pend16::Ld16(Reg16::BC)))
    } else if op == 0x11 {
        Ok(Cont::NeedLo(Pend16::Ld16(Reg16::DE)))
    } else if op == 0x21 {
        Ok(Cont::NeedLo(Pend16::Ld16(Reg16::HL)))
    } else if op == 0x31 {
        Ok(Cont::NeedLo(Pend16::Ld16(Reg16::SP)))
    } else if op == 0x02 {
        Ok(Cont::Complete(Instruction::LD(Arg8::Ind(IndirectAddr::BC), Arg8::Reg(Reg8::A))))
    } else if op == 0x12 {
        Ok(Cont::Complete(Instruction::LD(Arg8::Ind(IndirectAddr::DE), Arg8::Reg(Reg8::A))))
    } else if op == 0x22 {
        Ok(Cont::Complete(Instruction::LDI(Arg8::Ind(IndirectAddr::HL), Arg8::Reg(Reg8::A))))
    } else if op == 0x32 {
        Ok(Cont::Complete(Instruction::LDD(Arg8::Ind(IndirectAddr::HL), Arg8::Reg(Reg8::A))))
    } else if op == 0x0A {
        Ok(Cont::Complete(Instruction::LD(Arg8::Reg(Reg8::A), Arg8::Ind(IndirectAddr::BC))))
    } else if op == 0x1A {
        Ok(Cont::Complete(Instruction::LD(Arg8::Reg(Reg8::A), Arg8::Ind(IndirectAddr::DE))))
    } else if op == 0x2A {
        Ok(Cont::Complete(Instruction::LDI(Arg8::Reg(Reg8::A), Arg8::Ind(IndirectAddr::HL))))
    } else if op == 0x3A {
        Ok(Cont::Complete(Instruction::LDD(Arg8::Reg(Reg8::A), Arg8::Ind(IndirectAddr::HL))))
    } else if op == 0x03 {
        Ok(Cont::Complete(Instruction::INC16(Arg16::Reg(Reg16::BC))))
    } else if op == 0x13 {
        Ok(Cont::Complete(Instruction::INC16(Arg16::Reg(Reg16::DE))))
    } else if op == 0x23 {
        Ok(Cont::Complete(Instruction::INC16(Arg16::Reg(Reg16::HL))))
    } else if op == 0x33 {
        Ok(Cont::Complete(Instruction::INC16(Arg16::Reg(Reg16::SP))))
    } else if op == 0x0B {
        Ok(Cont::Complete(Instruction::DEC16(Arg16::Reg(Reg16::BC))))
    } else if op == 0x1B {
        Ok(Cont::Complete(Instruction::DEC16(Arg16::Reg(Reg16::DE))))
    } else if op == 0x2B {
        Ok(Cont::Complete(Instruction::DEC16(Arg16::Reg(Reg16::HL))))
    } else if op == 0x3B {
        Ok(Cont::Complete(Instruction::DEC16(Arg16::Reg(Reg16::SP))))
    } else if op == 0x07 {
        Ok(Cont::Complete(Instruction::RLC(Arg8::Reg(Reg8::A))))
    } else if op == 0x0F {
        Ok(Cont::Complete(Instruction::RRC(Arg8::Reg(Reg8::A))))
    } else if op == 0x17 {
        Ok(Cont::Complete(Instruction::RL(Arg8::Reg(Reg8::A))))
    } else if op == 0x1F {
        Ok(Cont::Complete(Instruction::RR(Arg8::Reg(Reg8::A))))
    } else if op == 0x08 {
        Ok(Cont::NeedLo(Pend16::StoreSp))
    } else if op == 0x09 {
        Ok(Cont::Complete(Instruction::ADD16(Arg16::Reg(Reg16::BC))))
    } else if op == 0x19 {
        Ok(Cont::Complete(Instruction::ADD16(Arg16::Reg(Reg16::DE))))
    } else if op == 0x29 {
        Ok(Cont::Complete(Instruction::ADD16(Arg16::Reg(Reg16::HL))))
    } else if op == 0x39 {
        Ok(Cont::Complete(Instruction::ADD16(Arg16::Reg(Reg16::SP))))
    } else if op == 0x10 {
        Ok(Cont::Complete(Instruction::STOP))
    } else if op == 0x18 {
        Ok(Cont::NeedByte(Pend8::Jr(Cond::Always)))
    } else if op == 0x20 {
        Ok(Cont::NeedByte(Pend8::Jr(Cond::NZ)))
    } else if op == 0x28 {
        Ok(Cont::NeedByte(Pend8::Jr(Cond::Z)))
    } else if op == 0x30 {
        Ok(Cont::NeedByte(Pend8::Jr(Cond::NC)))
    } else if op == 0x38 {
        Ok(Cont::NeedByte(Pend8::Jr(Cond::C)))
    } else if op == 0x27 {
        Ok(Cont::Complete(Instruction::DAA))
    } else if op == 0x2F {
        Ok(Cont::Complete(Instruction::CPL))
    } else if op == 0x37 {
        Ok(Cont::Complete(Instruction::SCF))
    } else if op == 0x3F {
        Ok(Cont::Complete(Instruction::CCF))
    } else if op < 0x40 && op % 8 == 4 {
        Ok(Cont::Complete(Instruction::INC(spec_reg_code(op / 8))))
    } else if op < 0x40 && op % 8 == 5 {
        Ok(Cont::Complete(Instruction::DEC(spec_reg_code(op / 8))))
    } else if op < 0x40 && op % 8 == 6 {
        Ok(Cont::NeedByte(Pend8::LdDst(spec_reg_code(op / 8))))
    } else if op == 0x76 {
        Ok(Cont::Complete(Instruction::HALT))
    } else if 0x40 <= op && op < 0x80 {
        Ok(Cont::Complete(Instruction::LD(
            spec_reg_code(((op - 0x40) / 8) as u8),
            spec_reg_code(op % 8),
        )))
    } else if 0x80 <= op && op < 0xC0 {
        Ok(Cont::Complete(spec_alu_instr(((op - 0x80) / 8) as u8, spec_reg_code(op % 8))))
    } else if op == 0xC0 {
        Ok(Cont::Complete(Instruction::RET(Cond::NZ)))
    } else if op == 0xC8 {
        Ok(Cont::Complete(Instruction::RET(Cond::Z)))
    } else if op == 0xD0 {
        Ok(Cont::Complete(Instruction::RET(Cond::NC)))
    } else if op == 0xD8 {
        Ok(Cont::Complete(Instruction::RET(Cond::C)))
    } else if op == 0xC9 {
        Ok(Cont::Complete(Instruction::RET(Cond::Always)))
    } else if op == 0xD9 {
        Ok(Cont::Complete(Instruction::RETI))
    } else if op == 0xC1 {
        Ok(Cont::Complete(Instruction::POP(Arg16::Reg(Reg16::BC))))
    } else if op == 0xD1 {
        Ok(Cont::Complete(Instruction::POP(Arg16::Reg(Reg16::DE))))
    } else if op == 0xE1 {
        Ok(Cont::Complete(Instruction::POP(Arg16::Reg(Reg16::HL))))
    } else if op == 0xF1 {
        Ok(Cont::Complete(Instruction::POP(Arg16::Reg(Reg16::AF))))
    } else if op == 0xC5 {
        Ok(Cont::Complete(Instruction::PUSH(Arg16::Reg(Reg16::BC))))
    } else if op == 0xD5 {
        Ok(Cont::Complete(Instruction::PUSH(Arg16::Reg(Reg16::DE))))
    } else if op == 0xE5 {
        Ok(Cont::Complete(Instruction::PUSH(Arg16::Reg(Reg16::HL))))
    } else if op == 0xF5 {
        Ok(Cont::Complete(Instruction::PUSH(Arg16::Reg(Reg16::AF))))
    } else if op == 0xC3 {
        Ok(Cont::NeedLo(Pend16::Jp(Cond::Always)))
    } else if op == 0xC2 {
        Ok(Cont::NeedLo(Pend16::Jp(Cond::NZ)))
    } else if op == 0xCA {
        Ok(Cont::NeedLo(Pend16::Jp(Cond::Z)))
    } else if op == 0xD2 {
        Ok(Cont::NeedLo(Pend16::Jp(Cond::NC)))
    } else if op == 0xDA {
        Ok(Cont::NeedLo(Pend16::Jp(Cond::C)))
    } else if op == 0xE9 {
        Ok(Cont::Complete(Instruction::JP(Cond::Always, Arg16::Reg(Reg16::HL))))
    } else if op == 0xCD {
        Ok(Cont::NeedLo(Pend16::Call(Cond::Always)))
    } else if op == 0xC4 {
        Ok(Cont::NeedLo(Pend16::Call(Cond::NZ)))
    } else if op == 0xCC {
        Ok(Cont::NeedLo(Pend16::Call(Cond::Z)))
    } else if op == 0xD4 {
        Ok(Cont::NeedLo(Pend16::Call(Cond::NC)))
    } else if op == 0xDC {
        Ok(Cont::NeedLo(Pend16::Call(Cond::C)))
    } else if op == 0xC6 {
        Ok(Cont::NeedByte(Pend8::Alu(0)))
    } else if op == 0xCE {
        Ok(Cont::NeedByte(Pend8::Alu(1)))
    } else if op == 0xD6 {
        Ok(Cont::NeedByte(Pend8::Alu(2)))
    } else if op == 0xDE {
        Ok(Cont::NeedByte(Pend8::Alu(3)))
    } else if op == 0xE6 {
        Ok(Cont::NeedByte(Pend8::Alu(4)))
    } else if op == 0xEE {
        Ok(Cont::NeedByte(Pend8::Alu(5)))
    } else if op == 0xF6 {
        Ok(Cont::NeedByte(Pend8::Alu(6)))
    } else if op == 0xFE {
        Ok(Cont::NeedByte(Pend8::Alu(7)))
    } else if op >= 0xC0 && op % 8 == 7 {
        Ok(Cont::Complete(Instruction::RST((op - 0xC7) as u8)))
    } else if op == 0xCB {
        Ok(Cont::NeedCb)
    } else if op == 0xE0 {
        Ok(Cont::NeedByte(Pend8::LdhStore))
    } else if op == 0xF0 {
        Ok(Cont::NeedByte(Pend8::LdhLoad))
    } else if op == 0xE2 {
        Ok(Cont::Complete(Instruction::LD(Arg8::Ind(IndirectAddr::C), Arg8::Reg(Reg8::A))))
    } else if op == 0xF2 {
        Ok(Cont::Complete(Instruction::LD(Arg8::Reg(Reg8::A), Arg8::Ind(IndirectAddr::C))))
    } else if op == 0xE8 {
        Ok(Cont::NeedByte(Pend8::AddSp))
    } else if op == 0xF8 {
        Ok(Cont::NeedByte(Pend8::LdHlSp))
    } else if op == 0xEA {
        Ok(Cont::NeedLo(Pend16::StoreA))
    } else if op == 0xFA {
        Ok(Cont::NeedLo(Pend16::LoadA))
    } else if op == 0xF3 {
        Ok(Cont::Complete(Instruction::DI))
    } else if op == 0xFB {
        Ok(Cont::Complete(Instruction::EI))
    } else if op == 0xF9 {
        Ok(Cont::Complete(Instruction::LD16(Arg16::Reg(Reg16::SP), Arg16::Reg(Reg16::HL))))
    } else {
        Err(Fault::Decode(op))
    }
}

/// One transition of the decode state machine on one delivered byte.
/// Delivering a byte to an already complete state leaves it complete.
pub open spec fn spec_decode_step(c: Cont, b: u8) -> Result<Cont, Fault> {
    match c {
        Cont::NeedOpcode => spec_decode_op(b),
        Cont::NeedCb => Ok(Cont::Complete(spec_cb_instr(b))),
        Cont::NeedByte(p) => Ok(Cont::Complete(spec_finish8(p, b))),
        Cont::NeedLo(p) => Ok(Cont::NeedHi(p, b)),
        Cont::NeedHi(p, lo) => Ok(Cont::Complete(spec_finish16(p, lo, b))),
        Cont::Complete(i) => Ok(Cont::Complete(i)),
    }
}

/// A structurally valid instruction: bit-manipulation indices name one of
/// the eight bits. Decode only ever produces valid instructions.
pub open spec fn spec_instr_wf(i: Instruction) -> bool {
    match i {
        Instruction::BIT(b, _) => b < 8,
        Instruction::SET(b, _) => b < 8,
        Instruction::RES(b, _) => b < 8,
        _ => true,
    }
}

/// The opcode table hands back only continuations that later bytes can
/// finish: a complete instruction, the two-byte-table prefix, or a wait
/// for one or two immediate bytes.
pub proof fn lemma_decode_op_shape(op: u8)
    ensures
        spec_decode_op(op) matches Ok(c) ==> (c is Complete || c is NeedCb || c is NeedByte
            || c is NeedLo),
{
}

/// Every instruction decode can produce is structurally valid.
pub proof fn lemma_decode_wf(op: u8, b: u8, p8: Pend8, p16: Pend16, lo: u8, hi: u8)
    ensures
        spec_decode_op(op) matches Ok(Cont::Complete(i)) ==> spec_instr_wf(i),
        spec_instr_wf(spec_cb_instr(b)),
        spec_instr_wf(spec_finish8(p8, b)),
        spec_instr_wf(spec_finish16(p16, lo, hi)),
{
}

/// The operand named by a three-bit register code.
pub fn reg_code(k: u8) -> (a: Arg8)
    requires
        k < 8,
    ensures
        a == spec_reg_code(k),
{
    if k == 0 {
        Arg8::Reg(Reg8::B)
    } else if k == 1 {
        Arg8::Reg(Reg8::C)
    } else if k == 2 {
        Arg8::Reg(Reg8::D)
    } else if k == 3 {
        Arg8::Reg(Reg8::E)
    } else if k == 4 {
        Arg8::Reg(Reg8::H)
    } else if k == 5 {
        Arg8::Reg(Reg8::L)
    } else if k == 6 {
        Arg8::Ind(IndirectAddr::HL)
    } else {
        Arg8::Reg(Reg8::A)
    }
}

/// The accumulator operation of row `k` of the opcode grid.
pub fn alu_instr(k: u8, a: Arg8) -> (i: Instruction)
    ensures
        i == spec_alu_instr(k, a),
{
    if k == 0 {
        Instruction::ADD(a)
    } else if k == 1 {
        Instruction::ADC(a)
    } else if k == 2 {
        Instruction::SUB(a)
    } else if k == 3 {
        Instruction::SBC(a)
    } else if k == 4 {
        Instruction::AND(a)
    } else if k == 5 {
        Instruction::XOR(a)
    } else if k == 6 {
        Instruction::OR(a)
    } else {
        Instruction::CP(a)
    }
}

/// The rotate/shift operation of row `k` of the two-byte table.
pub fn rot_instr(k: u8, a: Arg8) -> (i: Instruction)
    ensures
        i == spec_rot_instr(k, a),
{
    if k == 0 {
        Instruction::RLC(a)
    } else if k == 1 {
        Instruction::RRC(a)
    } else if k == 2 {
        Instruction::RL(a)
    } else if k == 3 {
        Instruction::RR(a)
    } else if k == 4 {
        Instruction::SLA(a)
    } else if k == 5 {
        Instruction::SRA(a)
    } else if k == 6 {
        Instruction::SWAP(a)
    } else {
        Instruction::SRL(a)
    }
}

/// Decodes the second opcode byte of the two-byte table.
pub fn cb_instr(b: u8) -> (i: Instruction)
    ensures
        i == spec_cb_instr(b),
{
    let a = reg_code(b % 8);
    if b < 0x40 {
        rot_instr(b / 8, a)
    } else if b < 0x80 {
        Instruction::BIT((b / 8) % 8, a)
    } else if b < 0xC0 {
        Instruction::RES((b / 8) % 8, a)
    } else {
        Instruction::SET((b / 8) % 8, a)
    }
}

/// Completes a one-trailing-byte instruction with its immediate byte.
pub fn finish8(p: Pend8, n: u8) -> (i: Instruction)
    ensures
        i == spec_finish8(p, n),
{
    match p {
        Pend8::LdDst(dst) => Instruction::LD(dst, Arg8::Imm(n)),
        Pend8::LdhStore => Instruction::LDH(
            Arg8::Ind(IndirectAddr::Imm8(n)),
            Arg8::Reg(Reg8::A),
        ),
        Pend8::LdhLoad => Instruction::LDH(
            Arg8::Reg(Reg8::A),
            Arg8::Ind(IndirectAddr::Imm8(n)),
        ),
        Pend8::Alu(k) => alu_instr(k, Arg8::Imm(n)),
        Pend8::Jr(c) => Instruction::JR(c, to_signed8(n)),
        Pend8::AddSp => Instruction::ADD16SP(to_signed8(n)),
        Pend8::LdHlSp => Instruction::LDHL16(to_signed8(n)),
    }
}

/// Completes a two-trailing-byte instruction with its little-endian
/// immediate.
pub fn finish16(p: Pend16, lo: u8, hi: u8) -> (i: Instruction)
    ensures
        i == spec_finish16(p, lo, hi),
{
    let nn = (hi as u16) * 256 + (lo as u16);
    match p {
        Pend16::Ld16(rr) => Instruction::LD16(Arg16::Reg(rr), Arg16::Imm(nn)),
        Pend16::StoreSp => Instruction::LD16(
            Arg16::Ind(IndirectAddr::Imm16(nn)),
            Arg16::Reg(Reg16::SP),
        ),
        Pend16::LoadA => Instruction::LD(Arg8::Reg(Reg8::A), Arg8::Ind(IndirectAddr::Imm16(nn))),
        Pend16::StoreA => Instruction::LD(Arg8::Ind(IndirectAddr::Imm16(nn)), Arg8::Reg(Reg8::A)),
        Pend16::Jp(c) => Instruction::JP(c, Arg16::Imm(nn)),
        Pend16::Call(c) => Instruction::CALL(c, Arg16::Imm(nn)),
    }
}

/// Decodes the first opcode byte.
pub fn decode_op(op: u8) -> (res: Result<Cont, Fault>)
    ensures
        res == spec_decode_op(op),
{
    if op == 0x00 {
        Ok(Cont::Complete(Instruction::NOP))
    } else if op == 0x01 {
        Ok(Cont::NeedLo(Pend16::Ld16(Reg16::BC)))
    } else if op == 0x11 {
        Ok(Cont::NeedLo(Pend16::Ld16(Reg16::DE)))
    } else if op == 0x21 {
        Ok(Cont::NeedLo(Pend16::Ld16(Reg16::HL)))
    } else if op == 0x31 {
        Ok(Cont::NeedLo(Pend16::Ld16(Reg16::SP)))
    } else if op == 0x02 {
        Ok(Cont::Complete(Instruction::LD(Arg8::Ind(IndirectAddr::BC), Arg8::Reg(Reg8::A))))
    } else if op == 0x12 {
        Ok(Cont::Complete(Instruction::LD(Arg8::Ind(IndirectAddr::DE), Arg8::Reg(Reg8::A))))
    } else if op == 0x22 {
        Ok(Cont::Complete(Instruction::LDI(Arg8::Ind(IndirectAddr::HL), Arg8::Reg(Reg8::A))))
    } else if op == 0x32 {
        Ok(Cont::Complete(Instruction::LDD(Arg8::Ind(IndirectAddr::HL), Arg8::Reg(Reg8::A))))
    } else if op == 0x0A {
        Ok(Cont::Complete(Instruction::LD(Arg8::Reg(Reg8::A), Arg8::Ind(IndirectAddr::BC))))
    } else if op == 0x1A {
        Ok(Cont::Complete(Instruction::LD(Arg8::Reg(Reg8::A), Arg8::Ind(IndirectAddr::DE))))
    } else if op == 0x2A {
        Ok(Cont::Complete(Instruction::LDI(Arg8::Reg(Reg8::A), Arg8::Ind(IndirectAddr::HL))))
    } else if op == 0x3A {
        Ok(Cont::Complete(Instruction::LDD(Arg8::Reg(Reg8::A), Arg8::Ind(IndirectAddr::HL))))
    } else if op == 0x03 {
        Ok(Cont::Complete(Instruction::INC16(Arg16::Reg(Reg16::BC))))
    } else if op == 0x13 {
        Ok(Cont::Complete(Instruction::INC16(Arg16::Reg(Reg16::DE))))
    } else if op == 0x23 {
        Ok(Cont::Complete(Instruction::INC16(Arg16::Reg(Reg16::HL))))
    } else if op == 0x33 {
        Ok(Cont::Complete(Instruction::INC16(Arg16::Reg(Reg16::SP))))
    } else if op == 0x0B {
        Ok(Cont::Complete(Instruction::DEC16(Arg16::Reg(Reg16::BC))))
    } else if op == 0x1B {
        Ok(Cont::Complete(Instruction::DEC16(Arg16::Reg(Reg16::DE))))
    } else if op == 0x2B {
        Ok(Cont::Complete(Instruction::DEC16(Arg16::Reg(Reg16::HL))))
    } else if op == 0x3B {
        Ok(Cont::Complete(Instruction::DEC16(Arg16::Reg(Reg16::SP))))
    } else if op == 0x07 {
        Ok(Cont::Complete(Instruction::RLC(Arg8::Reg(Reg8::A))))
    } else if op == 0x0F {
        Ok(Cont::Complete(Instruction::RRC(Arg8::Reg(Reg8::A))))
    } else if op == 0x17 {
        Ok(Cont::Complete(Instruction::RL(Arg8::Reg(Reg8::A))))
    } else if op == 0x1F {
        Ok(Cont::Complete(Instruction::RR(Arg8::Reg(Reg8::A))))
    } else if op == 0x08 {
        Ok(Cont::NeedLo(Pend16::StoreSp))
    } else if op == 0x09 {
        Ok(Cont::Complete(Instruction::ADD16(Arg16::Reg(Reg16::BC))))
    } else if op == 0x19 {
        Ok(Cont::Complete(Instruction::ADD16(Arg16::Reg(Reg16::DE))))
    } else if op == 0x29 {
        Ok(Cont::Complete(Instruction::ADD16(Arg16::Reg(Reg16::HL))))
    } else if op == 0x39 {
        Ok(Cont::Complete(Instruction::ADD16(Arg16::Reg(Reg16::SP))))
    } else if op == 0x10 {
        Ok(Cont::Complete(Instruction::STOP))
    } else if op == 0x18 {
        Ok(Cont::NeedByte(Pend8::Jr(Cond::Always)))
    } else if op == 0x20 {
        Ok(Cont::NeedByte(Pend8::Jr(Cond::NZ)))
    } else if op == 0x28 {
        Ok(Cont::NeedByte(Pend8::Jr(Cond::Z)))
    } else if op == 0x30 {
        Ok(Cont::NeedByte(Pend8::Jr(Cond::NC)))
    } else if op == 0x38 {
        Ok(Cont::NeedByte(Pend8::Jr(Cond::C)))
    } else if op == 0x27 {
        Ok(Cont::Complete(Instruction::DAA))
    } else if op == 0x2F {
        Ok(Cont::Complete(Instruction::CPL))
    } else if op == 0x37 {
        Ok(Cont::Complete(Instruction::SCF))
    } else if op == 0x3F {
        Ok(Cont::Complete(Instruction::CCF))
    } else if op < 0x40 && op % 8 == 4 {
        Ok(Cont::Complete(Instruction::INC(reg_code(op / 8))))
    } else if op < 0x40 && op % 8 == 5 {
        Ok(Cont::Complete(Instruction::DEC(reg_code(op / 8))))
    } else if op < 0x40 && op % 8 == 6 {
        Ok(Cont::NeedByte(Pend8::LdDst(reg_code(op / 8))))
    } else if op == 0x76 {
        Ok(Cont::Complete(Instruction::HALT))
    } else if 0x40 <= op && op < 0x80 {
        Ok(Cont::Complete(Instruction::LD(reg_code((op - 0x40) / 8), reg_code(op % 8))))
    } else if 0x80 <= op && op < 0xC0 {
        Ok(Cont::Complete(alu_instr((op - 0x80) / 8, reg_code(op % 8))))
    } else if op == 0xC0 {
        Ok(Cont::Complete(Instruction::RET(Cond::NZ)))
    } else if op == 0xC8 {
        Ok(Cont::Complete(Instruction::RET(Cond::Z)))
    } else if op == 0xD0 {
        Ok(Cont::Complete(Instruction::RET(Cond::NC)))
    } else if op == 0xD8 {
        Ok(Cont::Complete(Instruction::RET(Cond::C)))
    } else if op == 0xC9 {
        Ok(Cont::Complete(Instruction::RET(Cond::Always)))
    } else if op == 0xD9 {
        Ok(Cont::Complete(Instruction::RETI))
    } else if op == 0xC1 {
        Ok(Cont::Complete(Instruction::POP(Arg16::Reg(Reg16::BC))))
    } else if op == 0xD1 {
        Ok(Cont::Complete(Instruction::POP(Arg16::Reg(Reg16::DE))))
    } else if op == 0xE1 {
        Ok(Cont::Complete(Instruction::POP(Arg16::Reg(Reg16::HL))))
    } else if op == 0xF1 {
        Ok(Cont::Complete(Instruction::POP(Arg16::Reg(Reg16::AF))))
    } else if op == 0xC5 {
        Ok(Cont::Complete(Instruction::PUSH(Arg16::Reg(Reg16::BC))))
    } else if op == 0xD5 {
        Ok(Cont::Complete(Instruction::PUSH(Arg16::Reg(Reg16::DE))))
    } else if op == 0xE5 {
        Ok(Cont::Complete(Instruction::PUSH(Arg16::Reg(Reg16::HL))))
    } else if op == 0xF5 {
        Ok(Cont::Complete(Instruction::PUSH(Arg16::Reg(Reg16::AF))))
    } else if op == 0xC3 {
        Ok(Cont::NeedLo(Pend16::Jp(Cond::Always)))
    } else if op == 0xC2 {
        Ok(Cont::NeedLo(Pend16::Jp(Cond::NZ)))
    } else if op == 0xCA {
        Ok(Cont::NeedLo(Pend16::Jp(Cond::Z)))
    } else if op == 0xD2 {
        Ok(Cont::NeedLo(Pend16::Jp(Cond::NC)))
    } else if op == 0xDA {
        Ok(Cont::NeedLo(Pend16::Jp(Cond::C)))
    } else if op == 0xE9 {
        Ok(Cont::Complete(Instruction::JP(Cond::Always, Arg16::Reg(Reg16::HL))))
    } else if op == 0xCD {
        Ok(Cont::NeedLo(Pend16::Call(Cond::Always)))
    } else if op == 0xC4 {
        Ok(Cont::NeedLo(Pend16::Call(Cond::NZ)))
    } else if op == 0xCC {
        Ok(Cont::NeedLo(Pend16::Call(Cond::Z)))
    } else if op == 0xD4 {
        Ok(Cont::NeedLo(Pend16::Call(Cond::NC)))
    } else if op == 0xDC {
        Ok(Cont::NeedLo(Pend16::Call(Cond::C)))
    } else if op == 0xC6 {
        Ok(Cont::NeedByte(Pend8::Alu(0)))
    } else if op == 0xCE {
        Ok(Cont::NeedByte(Pend8::Alu(1)))
    } else if op == 0xD6 {
        Ok(Cont::NeedByte(Pend8::Alu(2)))
    } else if op == 0xDE {
        Ok(Cont::NeedByte(Pend8::Alu(3)))
    } else if op == 0xE6 {
        Ok(Cont::NeedByte(Pend8::Alu(4)))
    } else if op == 0xEE {
        Ok(Cont::NeedByte(Pend8::Alu(5)))
    } else if op == 0xF6 {
        Ok(Cont::NeedByte(Pend8::Alu(6)))
    } else if op == 0xFE {
        Ok(Cont::NeedByte(Pend8::Alu(7)))
    } else if op >= 0xC0 && op % 8 == 7 {
        Ok(Cont::Complete(Instruction::RST(op - 0xC7)))
    } else if op == 0xCB {
        Ok(Cont::NeedCb)
    } else if op == 0xE0 {
        Ok(Cont::NeedByte(Pend8::LdhStore))
    } else if op == 0xF0 {
        Ok(Cont::NeedByte(Pend8::LdhLoad))
    } else if op == 0xE2 {
        Ok(Cont::Complete(Instruction::LD(Arg8::Ind(IndirectAddr::C), Arg8::Reg(Reg8::A))))
    } else if op == 0xF2 {
        Ok(Cont::Complete(Instruction::LD(Arg8::Reg(Reg8::A), Arg8::Ind(IndirectAddr::C))))
    } else if op == 0xE8 {
        Ok(Cont::NeedByte(Pend8::AddSp))
    } else if op == 0xF8 {
        Ok(Cont::NeedByte(Pend8::LdHlSp))
    } else if op == 0xEA {
        Ok(Cont::NeedLo(Pend16::StoreA))
    } else if op == 0xFA {
        Ok(Cont::NeedLo(Pend16::LoadA))
    } else if op == 0xF3 {
        Ok(Cont::Complete(Instruction::DI))
    } else if op == 0xFB {
        Ok(Cont::Complete(Instruction::EI))
    } else if op == 0xF9 {
        Ok(Cont::Complete(Instruction::LD16(Arg16::Reg(Reg16::SP), Arg16::Reg(Reg16::HL))))
    } else {
        Err(Fault::Decode(op))
    }
}

/// Advances the decode state machine by one delivered byte.
pub fn decode_step(c: Cont, b: u8) -> (res: Result<Cont, Fault>)
    ensures
        res == spec_decode_step(c, b),
{
    match c {
        Cont::NeedOpcode => decode_op(b),
        Cont::NeedCb => Ok(Cont::Complete(cb_instr(b))),
        Cont::NeedByte(p) => Ok(Cont::Complete(finish8(p, b))),
        Cont::NeedLo(p) => Ok(Cont::NeedHi(p, b)),
        Cont::NeedHi(p, lo) => Ok(Cont::Complete(finish16(p, lo, b))),
        Cont::Complete(i) => Ok(Cont::Complete(i)),
    }
}

} // verus!
