use gb_core::bus::Bus;
use gb_core::cartridge::Mbc;
use gb_core::cartridge::ROM;
use gb_core::cpu::Cpu;
use gb_core::cpu::RunState;
use gb_core::fault::Fault;
use gb_core::ops::decode_op;
use gb_core::ops::decode_step;
use gb_core::ops::Arg16;
use gb_core::ops::Arg8;
use gb_core::ops::Cond;
use gb_core::ops::Cont;
use gb_core::ops::IndirectAddr;
use gb_core::ops::Instruction;
use gb_core::ops::Pend16;
use gb_core::regs::Flag;
use gb_core::regs::Reg16;
use gb_core::regs::Reg8;

/// A CPU whose cartridge holds the given bytes starting at the power-on
/// PC (0x0100), everything else zero.
fn cpu_with_program(program: &[u8]) -> Cpu {
    let mut data = vec![0u8; 0x8000];
    for (k, byte) in program.iter().enumerate() {
        data[0x0100 + k] = *byte;
    }
    let rom = ROM::new(&data).unwrap();
    Cpu::new(Bus::new(Mbc::PlainRom(rom)))
}

#[test]
fn decode_zero_operand_opcode_completes_immediately() {
    assert_eq!(decode_op(0x00), Ok(Cont::Complete(Instruction::NOP)));
    assert_eq!(decode_op(0x76), Ok(Cont::Complete(Instruction::HALT)));
    assert_eq!(
        decode_op(0x47),
        Ok(Cont::Complete(Instruction::LD(Arg8::Reg(Reg8::B), Arg8::Reg(Reg8::A))))
    );
    assert_eq!(
        decode_op(0x86),
        Ok(Cont::Complete(Instruction::ADD(Arg8::Ind(IndirectAddr::HL))))
    );
    assert_eq!(decode_op(0xE9), Ok(Cont::Complete(Instruction::JP(Cond::Always, Arg16::Reg(Reg16::HL)))));
    assert_eq!(decode_op(0xC7), Ok(Cont::Complete(Instruction::RST(0x00))));
    assert_eq!(decode_op(0xFF), Ok(Cont::Complete(Instruction::RST(0x38))));
}

#[test]
fn decode_state_machine_steps_once_per_byte() {
    // LD BC, 0xBEEF: opcode, then low byte, then high byte.
    let st1 = decode_step(Cont::NeedOpcode, 0x01).unwrap();
    assert_eq!(st1, Cont::NeedLo(Pend16::Ld16(Reg16::BC)));
    let st2 = decode_step(st1, 0xEF).unwrap();
    assert_eq!(st2, Cont::NeedHi(Pend16::Ld16(Reg16::BC), 0xEF));
    let st3 = decode_step(st2, 0xBE).unwrap();
    assert_eq!(
        st3,
        Cont::Complete(Instruction::LD16(Arg16::Reg(Reg16::BC), Arg16::Imm(0xBEEF)))
    );
}

#[test]
fn decode_cb_prefix_second_stage() {
    let st1 = decode_step(Cont::NeedOpcode, 0xCB).unwrap();
    assert_eq!(st1, Cont::NeedCb);
    // 0x37 in the two-byte table is SWAP A.
    let st2 = decode_step(st1, 0x37).unwrap();
    assert_eq!(st2, Cont::Complete(Instruction::SWAP(Arg8::Reg(Reg8::A))));
    // 0x7F is BIT 7, A.
    assert_eq!(
        decode_step(Cont::NeedCb, 0x7F).unwrap(),
        Cont::Complete(Instruction::BIT(7, Arg8::Reg(Reg8::A)))
    );
    // 0xC0 is SET 0, B; 0x80 is RES 0, B.
    assert_eq!(
        decode_step(Cont::NeedCb, 0xC0).unwrap(),
        Cont::Complete(Instruction::SET(0, Arg8::Reg(Reg8::B)))
    );
    assert_eq!(
        decode_step(Cont::NeedCb, 0x80).unwrap(),
        Cont::Complete(Instruction::RES(0, Arg8::Reg(Reg8::B)))
    );
}

#[test]
fn decode_undefined_opcodes_fault() {
    for op in [0xD3u8, 0xDB, 0xDD, 0xE3, 0xE4, 0xEB, 0xEC, 0xED, 0xF4, 0xFC, 0xFD] {
        assert_eq!(decode_op(op), Err(Fault::Decode(op)));
    }
}

#[test]
fn fetch_advances_pc_by_encoded_length() {
    // Representative opcodes and their total encoded lengths.
    let table: [(Vec<u8>, u16); 8] = [
        (vec![0x00], 1),             // NOP
        (vec![0x80], 1),             // ADD A, B
        (vec![0x3E, 0x42], 2),       // LD A, n
        (vec![0x18, 0x05], 2),       // JR n
        (vec![0xCB, 0x37], 2),       // SWAP A
        (vec![0x01, 0x34, 0x12], 3), // LD BC, nn
        (vec![0xC3, 0x00, 0x02], 3), // JP nn
        (vec![0x08, 0x00, 0x90], 3), // LD (nn), SP
    ];
    for (program, len) in table.iter() {
        let mut cpu = cpu_with_program(program);
        let start = cpu.regs.pc;
        cpu.fetch_instr().unwrap();
        assert_eq!(cpu.regs.pc, start + len);
    }
}

#[test]
fn fetch_two_trailing_bytes_little_endian() {
    let mut cpu = cpu_with_program(&[0x01, 0xEF, 0xBE]);
    let instr = cpu.fetch_instr().unwrap();
    assert_eq!(instr, Instruction::LD16(Arg16::Reg(Reg16::BC), Arg16::Imm(0xBEEF)));
    assert_eq!(cpu.regs.pc, 0x0103);
}

#[test]
fn fetch_signed_displacement_two_complement() {
    let mut cpu = cpu_with_program(&[0x18, 0xFE]); // JR -2
    let instr = cpu.fetch_instr().unwrap();
    assert_eq!(instr, Instruction::JR(Cond::Always, -2));
}

#[test]
fn tick_executes_one_instruction() {
    // LD A, 0x42; LD B, 0x10; ADD A, B
    let mut cpu = cpu_with_program(&[0x3E, 0x42, 0x06, 0x10, 0x80]);
    assert_eq!(cpu.tick(), Ok(true));
    assert_eq!(cpu.regs.a, 0x42);
    assert_eq!(cpu.regs.pc, 0x0102);
    assert_eq!(cpu.tick(), Ok(true));
    assert_eq!(cpu.regs.b, 0x10);
    assert_eq!(cpu.tick(), Ok(true));
    assert_eq!(cpu.regs.a, 0x52);
    assert_eq!(cpu.regs.pc, 0x0105);
}

#[test]
fn tick_surfaces_decode_fault_and_stops() {
    let mut cpu = cpu_with_program(&[0xD3]);
    assert_eq!(cpu.tick(), Err(Fault::Decode(0xD3)));
    assert!(!cpu.running);
    assert_eq!(cpu.tick(), Ok(false));
}

#[test]
fn tick_halt_suspends_until_wake() {
    let mut cpu = cpu_with_program(&[0x76, 0x04]); // HALT; INC B
    assert_eq!(cpu.tick(), Ok(true));
    assert_eq!(cpu.mode, RunState::Halted);
    let pc = cpu.regs.pc;
    // Suspended: ticks perform nothing.
    assert_eq!(cpu.tick(), Ok(true));
    assert_eq!(cpu.tick(), Ok(true));
    assert_eq!(cpu.regs.pc, pc);
    // The wake signal resumes fetching.
    cpu.wake();
    assert_eq!(cpu.tick(), Ok(true));
    assert_eq!(cpu.regs.b, 0x01);
}

#[test]
fn tick_stop_suspends() {
    let mut cpu = cpu_with_program(&[0x10]);
    assert_eq!(cpu.tick(), Ok(true));
    assert_eq!(cpu.mode, RunState::Stopped);
    let pc = cpu.regs.pc;
    assert_eq!(cpu.tick(), Ok(true));
    assert_eq!(cpu.regs.pc, pc);
}

#[test]
fn tick_ei_di_record_intent() {
    let mut cpu = cpu_with_program(&[0xFB, 0xF3]);
    assert!(!cpu.ime);
    assert_eq!(cpu.tick(), Ok(true));
    assert!(cpu.ime);
    assert_eq!(cpu.tick(), Ok(true));
    assert!(!cpu.ime);
}

#[test]
fn tick_cb_instruction_through_program() {
    // LD A, 0xA7; SWAP A
    let mut cpu = cpu_with_program(&[0x3E, 0xA7, 0xCB, 0x37]);
    assert_eq!(cpu.tick(), Ok(true));
    assert_eq!(cpu.tick(), Ok(true));
    assert_eq!(cpu.regs.a, 0x7A);
    assert_eq!(cpu.regs.pc, 0x0104);
}

#[test]
fn tick_relative_jump_backwards() {
    // NOP; JR -3 (back to the NOP)
    let mut cpu = cpu_with_program(&[0x00, 0x18, 0xFD]);
    assert_eq!(cpu.tick(), Ok(true));
    assert_eq!(cpu.regs.pc, 0x0101);
    assert_eq!(cpu.tick(), Ok(true));
    assert_eq!(cpu.regs.pc, 0x0100);
}

#[test]
fn tick_conditional_jr_not_taken_falls_through() {
    // CP 0 on A=0x01 clears Z, so JR Z, +2 falls through to INC B.
    let mut cpu = cpu_with_program(&[0x3E, 0x01, 0xFE, 0x00, 0x28, 0x02, 0x04]);
    assert_eq!(cpu.tick(), Ok(true)); // LD A, 1
    assert_eq!(cpu.tick(), Ok(true)); // CP 0
    assert!(!cpu.regs.get_flag(Flag::Z));
    assert_eq!(cpu.tick(), Ok(true)); // JR Z not taken
    assert_eq!(cpu.regs.pc, 0x0106);
    assert_eq!(cpu.tick(), Ok(true)); // INC B
    assert_eq!(cpu.regs.b, 0x01);
}

#[test]
fn tick_call_and_ret_program() {
    // CALL 0x0110; (at 0x0110) RET
    let mut program = vec![0xCD, 0x10, 0x01];
    while program.len() < 0x10 {
        program.push(0x00);
    }
    program.push(0xC9); // at 0x0110
    let mut cpu = cpu_with_program(&program);
    assert_eq!(cpu.tick(), Ok(true));
    assert_eq!(cpu.regs.pc, 0x0110);
    assert_eq!(cpu.regs.sp, 0xFFFC);
    assert_eq!(cpu.tick(), Ok(true));
    assert_eq!(cpu.regs.pc, 0x0103);
    assert_eq!(cpu.regs.sp, 0xFFFE);
}

#[test]
fn jp_hl_register_indirect_jump() {
    let mut cpu = cpu_with_program(&[]);
    cpu.regs.write16(Reg16::HL, 0x2345);
    cpu.jp_hl();
    assert_eq!(cpu.regs.pc, 0x2345);
}

#[test]
fn fetch_wraps_pc_at_address_space_top() {
    let mut cpu = cpu_with_program(&[]);
    cpu.regs.pc = 0xFFFF; // RAM half, holds 0x00 = NOP
    let instr = cpu.fetch_instr().unwrap();
    assert_eq!(instr, Instruction::NOP);
    assert_eq!(cpu.regs.pc, 0x0000);
}
