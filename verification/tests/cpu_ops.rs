use gb_core::bus::Bus;
use gb_core::cpu::Cpu;
use gb_core::cpu::CpuOps;
use gb_core::fault::Fault;
use gb_core::ops::Arg16;
use gb_core::ops::Arg8;
use gb_core::ops::Cond;
use gb_core::ops::IndirectAddr;
use gb_core::regs::Flag;
use gb_core::regs::Reg16;
use gb_core::regs::Reg8;

fn init_cpu() -> Cpu {
    Cpu::new(Bus::new_blank())
}

fn test_u8() -> u8 {
    144u8
}

fn test_u16() -> u16 {
    47628u16
}

#[test]
fn load_from_reg_a_to_b() {
    let mut cpu = init_cpu();
    cpu.ld(Arg8::Reg(Reg8::A), Arg8::Imm(test_u8())).unwrap();
    cpu.ld(Arg8::Reg(Reg8::B), Arg8::Reg(Reg8::A)).unwrap();
    assert_eq!(cpu.regs.a, test_u8());
    assert_eq!(cpu.regs.a, cpu.regs.b);
}

#[test]
fn load_from_reg_bc_to_de() {
    let mut cpu = init_cpu();
    cpu.ld16(Arg16::Reg(Reg16::BC), Arg16::Imm(test_u16())).unwrap();
    cpu.ld16(Arg16::Reg(Reg16::DE), Arg16::Reg(Reg16::BC)).unwrap();
    assert_eq!(cpu.regs.read16(Reg16::BC), test_u16());
    assert_eq!(cpu.regs.read16(Reg16::BC), cpu.regs.read16(Reg16::DE));
}

#[test]
fn add_half_carry_concrete() {
    let mut cpu = init_cpu();
    cpu.regs.a = 0x0F;
    cpu.add(Arg8::Imm(0x01));
    assert_eq!(cpu.regs.a, 0x10);
    assert!(cpu.regs.get_flag(Flag::H));
    assert!(!cpu.regs.get_flag(Flag::C));
    assert!(!cpu.regs.get_flag(Flag::Z));
    assert!(!cpu.regs.get_flag(Flag::N));
}

#[test]
fn add_carry_and_zero() {
    let mut cpu = init_cpu();
    cpu.regs.a = 0xFF;
    cpu.add(Arg8::Imm(0x01));
    assert_eq!(cpu.regs.a, 0x00);
    assert!(cpu.regs.get_flag(Flag::Z));
    assert!(cpu.regs.get_flag(Flag::H));
    assert!(cpu.regs.get_flag(Flag::C));
}

#[test]
fn adc_folds_previous_carry() {
    let mut cpu = init_cpu();
    cpu.regs.a = 0xFF;
    cpu.add(Arg8::Imm(0x01));
    // carry is now set; 0x00 + 0x00 + carry = 0x01
    cpu.adc(Arg8::Imm(0x00));
    assert_eq!(cpu.regs.a, 0x01);
    assert!(!cpu.regs.get_flag(Flag::C));
}

#[test]
fn sub_borrow_semantics() {
    let mut cpu = init_cpu();
    cpu.regs.a = 0x10;
    cpu.sub(Arg8::Imm(0x20));
    assert_eq!(cpu.regs.a, 0xF0);
    assert!(cpu.regs.get_flag(Flag::C));
    assert!(cpu.regs.get_flag(Flag::N));
    assert!(!cpu.regs.get_flag(Flag::H));
}

#[test]
fn sub_half_borrow() {
    let mut cpu = init_cpu();
    cpu.regs.a = 0x10;
    cpu.sub(Arg8::Imm(0x01));
    assert_eq!(cpu.regs.a, 0x0F);
    assert!(cpu.regs.get_flag(Flag::H));
    assert!(!cpu.regs.get_flag(Flag::C));
}

#[test]
fn sbc_folds_borrow() {
    let mut cpu = init_cpu();
    cpu.regs.a = 0x10;
    cpu.sub(Arg8::Imm(0x20)); // leaves carry (borrow) set
    cpu.regs.a = 0x05;
    cpu.sbc(Arg8::Imm(0x02));
    assert_eq!(cpu.regs.a, 0x02);
}

#[test]
fn cp_discards_result_sets_flags() {
    let mut cpu = init_cpu();
    cpu.regs.a = 0x42;
    cpu.cp(Arg8::Imm(0x42));
    assert_eq!(cpu.regs.a, 0x42);
    assert!(cpu.regs.get_flag(Flag::Z));
    assert!(cpu.regs.get_flag(Flag::N));
}

#[test]
fn and_or_xor_flags() {
    let mut cpu = init_cpu();
    cpu.regs.a = 0xF0;
    cpu.and(Arg8::Imm(0x0F));
    assert_eq!(cpu.regs.a, 0x00);
    assert!(cpu.regs.get_flag(Flag::Z));
    assert!(cpu.regs.get_flag(Flag::H));
    assert!(!cpu.regs.get_flag(Flag::C));

    cpu.regs.a = 0xF0;
    cpu.or(Arg8::Imm(0x0F));
    assert_eq!(cpu.regs.a, 0xFF);
    assert!(!cpu.regs.get_flag(Flag::Z));
    assert!(!cpu.regs.get_flag(Flag::H));

    cpu.xor(Arg8::Reg(Reg8::A));
    assert_eq!(cpu.regs.a, 0x00);
    assert!(cpu.regs.get_flag(Flag::Z));
}

#[test]
fn inc_dec_leave_carry_untouched() {
    let mut cpu = init_cpu();
    cpu.regs.a = 0xFF;
    cpu.add(Arg8::Imm(0x01)); // sets C
    assert!(cpu.regs.get_flag(Flag::C));
    cpu.regs.b = 0x0F;
    cpu.inc(Arg8::Reg(Reg8::B)).unwrap();
    assert_eq!(cpu.regs.b, 0x10);
    assert!(cpu.regs.get_flag(Flag::H));
    assert!(cpu.regs.get_flag(Flag::C)); // untouched
    cpu.dec(Arg8::Reg(Reg8::B)).unwrap();
    assert_eq!(cpu.regs.b, 0x0F);
    assert!(cpu.regs.get_flag(Flag::N));
    assert!(cpu.regs.get_flag(Flag::C)); // still untouched
}

#[test]
fn inc_then_dec_round_trip_value() {
    let mut cpu = init_cpu();
    for x in [0u8, 1, 0x0F, 0x7F, 0xFF] {
        cpu.regs.d = x;
        cpu.inc(Arg8::Reg(Reg8::D)).unwrap();
        cpu.dec(Arg8::Reg(Reg8::D)).unwrap();
        assert_eq!(cpu.regs.d, x);
    }
}

#[test]
fn push_pop_round_trip() {
    let mut cpu = init_cpu();
    assert_eq!(cpu.regs.sp, 0xFFFE);
    cpu.regs.write16(Reg16::BC, 0x1234);
    cpu.push(Arg16::Reg(Reg16::BC));
    assert_eq!(cpu.regs.sp, 0xFFFC);
    cpu.pop(Arg16::Reg(Reg16::DE)).unwrap();
    assert_eq!(cpu.regs.read16(Reg16::DE), 0x1234);
    assert_eq!(cpu.regs.sp, 0xFFFE);
}

#[test]
fn swap_twice_restores_byte() {
    let mut cpu = init_cpu();
    for x in [0u8, 0x01, 0xA7, 0xF0, 0xFF] {
        cpu.regs.a = x;
        cpu.swap(Arg8::Reg(Reg8::A)).unwrap();
        cpu.swap(Arg8::Reg(Reg8::A)).unwrap();
        assert_eq!(cpu.regs.a, x);
        assert_eq!(cpu.regs.get_flag(Flag::Z), x == 0);
    }
    cpu.regs.a = 0xA7;
    cpu.swap(Arg8::Reg(Reg8::A)).unwrap();
    assert_eq!(cpu.regs.a, 0x7A);
}

#[test]
fn rlc_rrc_concrete() {
    let mut cpu = init_cpu();
    cpu.regs.a = 0x85;
    cpu.rlc(Arg8::Reg(Reg8::A)).unwrap();
    assert_eq!(cpu.regs.a, 0x0B);
    assert!(cpu.regs.get_flag(Flag::C));

    cpu.regs.a = 0x85;
    cpu.rrc(Arg8::Reg(Reg8::A)).unwrap();
    assert_eq!(cpu.regs.a, 0xC2);
    assert!(cpu.regs.get_flag(Flag::C));
}

#[test]
fn rl_rr_fold_in_previous_carry() {
    let mut cpu = init_cpu();
    cpu.regs.set_flags(false, false, false, true); // carry in
    cpu.regs.a = 0x00;
    cpu.rl(Arg8::Reg(Reg8::A)).unwrap();
    assert_eq!(cpu.regs.a, 0x01); // not RLC: old carry entered bit 0
    assert!(!cpu.regs.get_flag(Flag::C));

    cpu.regs.set_flags(false, false, false, true);
    cpu.regs.a = 0x00;
    cpu.rr(Arg8::Reg(Reg8::A)).unwrap();
    assert_eq!(cpu.regs.a, 0x80); // not RRC: old carry entered bit 7
    assert!(!cpu.regs.get_flag(Flag::C));
}

#[test]
fn shift_family() {
    let mut cpu = init_cpu();
    cpu.regs.a = 0x81;
    cpu.sla(Arg8::Reg(Reg8::A)).unwrap();
    assert_eq!(cpu.regs.a, 0x02);
    assert!(cpu.regs.get_flag(Flag::C));

    cpu.regs.a = 0x81;
    cpu.sra(Arg8::Reg(Reg8::A)).unwrap();
    assert_eq!(cpu.regs.a, 0xC0); // sign bit preserved
    assert!(cpu.regs.get_flag(Flag::C));

    cpu.regs.a = 0x81;
    cpu.srl(Arg8::Reg(Reg8::A)).unwrap();
    assert_eq!(cpu.regs.a, 0x40); // zero shifted in
    assert!(cpu.regs.get_flag(Flag::C));
}

#[test]
fn bit7_sets_z_without_mutating_a() {
    let mut cpu = init_cpu();
    cpu.regs.a = 0x00;
    cpu.bit(7, Arg8::Reg(Reg8::A));
    assert!(cpu.regs.get_flag(Flag::Z));
    assert_eq!(cpu.regs.a, 0x00);

    cpu.regs.a = 0x80;
    cpu.bit(7, Arg8::Reg(Reg8::A));
    assert!(!cpu.regs.get_flag(Flag::Z));
    assert_eq!(cpu.regs.a, 0x80);
    assert!(cpu.regs.get_flag(Flag::H));
    assert!(!cpu.regs.get_flag(Flag::N));
}

#[test]
fn set_res_bits() {
    let mut cpu = init_cpu();
    cpu.regs.b = 0x00;
    cpu.set(3, Arg8::Reg(Reg8::B)).unwrap();
    assert_eq!(cpu.regs.b, 0x08);
    cpu.set(3, Arg8::Reg(Reg8::B)).unwrap();
    assert_eq!(cpu.regs.b, 0x08);
    cpu.res(3, Arg8::Reg(Reg8::B)).unwrap();
    assert_eq!(cpu.regs.b, 0x00);
    cpu.res(3, Arg8::Reg(Reg8::B)).unwrap();
    assert_eq!(cpu.regs.b, 0x00);
}

#[test]
fn daa_after_bcd_addition() {
    let mut cpu = init_cpu();
    cpu.regs.a = 0x15;
    cpu.add(Arg8::Imm(0x27));
    assert_eq!(cpu.regs.a, 0x3C);
    cpu.daa();
    assert_eq!(cpu.regs.a, 0x42);
    assert!(!cpu.regs.get_flag(Flag::C));
    assert!(!cpu.regs.get_flag(Flag::H));
}

#[test]
fn daa_high_nibble_overflow_sets_carry() {
    let mut cpu = init_cpu();
    cpu.regs.a = 0x90;
    cpu.add(Arg8::Imm(0x20)); // 0xB0, no carry out of bit 7
    cpu.daa();
    assert_eq!(cpu.regs.a, 0x10);
    assert!(cpu.regs.get_flag(Flag::C));
}

#[test]
fn daa_after_subtraction() {
    let mut cpu = init_cpu();
    cpu.regs.a = 0x42;
    cpu.sub(Arg8::Imm(0x15));
    assert_eq!(cpu.regs.a, 0x2D);
    cpu.daa();
    assert_eq!(cpu.regs.a, 0x27);
}

#[test]
fn cpl_ccf_scf() {
    let mut cpu = init_cpu();
    cpu.regs.a = 0x35;
    cpu.cpl();
    assert_eq!(cpu.regs.a, 0xCA);
    assert!(cpu.regs.get_flag(Flag::N));
    assert!(cpu.regs.get_flag(Flag::H));

    cpu.scf();
    assert!(cpu.regs.get_flag(Flag::C));
    assert!(!cpu.regs.get_flag(Flag::N));
    assert!(!cpu.regs.get_flag(Flag::H));

    cpu.ccf();
    assert!(!cpu.regs.get_flag(Flag::C));
    cpu.ccf();
    assert!(cpu.regs.get_flag(Flag::C));
}

#[test]
fn add16_flags_at_bit_11_and_15() {
    let mut cpu = init_cpu();
    cpu.regs.write16(Reg16::HL, 0x0FFF);
    cpu.regs.write16(Reg16::BC, 0x0001);
    let z = cpu.regs.get_flag(Flag::Z);
    cpu.add16(Arg16::Reg(Reg16::BC));
    assert_eq!(cpu.regs.read16(Reg16::HL), 0x1000);
    assert!(cpu.regs.get_flag(Flag::H));
    assert!(!cpu.regs.get_flag(Flag::C));
    assert_eq!(cpu.regs.get_flag(Flag::Z), z); // Z unaffected

    cpu.regs.write16(Reg16::HL, 0xFFFF);
    cpu.regs.write16(Reg16::BC, 0x0001);
    cpu.add16(Arg16::Reg(Reg16::BC));
    assert_eq!(cpu.regs.read16(Reg16::HL), 0x0000);
    assert!(cpu.regs.get_flag(Flag::C));
}

#[test]
fn add16_sp_signed_displacement() {
    let mut cpu = init_cpu();
    cpu.regs.sp = 0x1000;
    cpu.add16_sp(-1);
    assert_eq!(cpu.regs.sp, 0x0FFF);
    assert!(!cpu.regs.get_flag(Flag::Z));
    assert!(!cpu.regs.get_flag(Flag::N));

    cpu.regs.sp = 0x00FF;
    cpu.add16_sp(1);
    assert_eq!(cpu.regs.sp, 0x0100);
    assert!(cpu.regs.get_flag(Flag::H)); // low-byte half carry
    assert!(cpu.regs.get_flag(Flag::C)); // low-byte carry
}

#[test]
fn ld16_hlsp_signed_displacement() {
    let mut cpu = init_cpu();
    cpu.regs.sp = 0xFFF8;
    cpu.ld16_hlsp(2);
    assert_eq!(cpu.regs.read16(Reg16::HL), 0xFFFA);
    assert!(!cpu.regs.get_flag(Flag::Z));
    assert!(!cpu.regs.get_flag(Flag::N));
    assert_eq!(cpu.regs.sp, 0xFFF8);
}

#[test]
fn inc16_dec16_wrap() {
    let mut cpu = init_cpu();
    cpu.regs.write16(Reg16::BC, 0xFFFF);
    cpu.inc16(Arg16::Reg(Reg16::BC)).unwrap();
    assert_eq!(cpu.regs.read16(Reg16::BC), 0x0000);
    cpu.dec16(Arg16::Reg(Reg16::BC)).unwrap();
    assert_eq!(cpu.regs.read16(Reg16::BC), 0xFFFF);
}

#[test]
fn ldi_ldd_step_hl() {
    let mut cpu = init_cpu();
    cpu.regs.write16(Reg16::HL, 0x9000);
    cpu.regs.a = 0x5A;
    cpu.ldi(Arg8::Ind(IndirectAddr::HL), Arg8::Reg(Reg8::A)).unwrap();
    assert_eq!(cpu.regs.read16(Reg16::HL), 0x9001);
    assert_eq!(cpu.bus.read_u8(0x9000), 0x5A);

    cpu.ldd(Arg8::Reg(Reg8::B), Arg8::Reg(Reg8::A)).unwrap();
    assert_eq!(cpu.regs.b, 0x5A);
    assert_eq!(cpu.regs.read16(Reg16::HL), 0x9000);
}

#[test]
fn ldh_uses_high_ram_base() {
    let mut cpu = init_cpu();
    cpu.regs.a = 0x77;
    cpu.ldh(Arg8::Ind(IndirectAddr::Imm8(0x80)), Arg8::Reg(Reg8::A)).unwrap();
    assert_eq!(cpu.bus.read_u8(0xFF80), 0x77);
    cpu.regs.a = 0x00;
    cpu.ldh(Arg8::Reg(Reg8::A), Arg8::Ind(IndirectAddr::Imm8(0x80))).unwrap();
    assert_eq!(cpu.regs.a, 0x77);
}

#[test]
fn c_relative_addressing() {
    let mut cpu = init_cpu();
    cpu.regs.c = 0x81;
    cpu.regs.a = 0x66;
    cpu.ld(Arg8::Ind(IndirectAddr::C), Arg8::Reg(Reg8::A)).unwrap();
    assert_eq!(cpu.bus.read_u8(0xFF81), 0x66);
}

#[test]
fn jp_and_jr_conditional() {
    let mut cpu = init_cpu();
    cpu.regs.set_flags(false, false, false, false);
    cpu.regs.pc = 0x0200;
    cpu.jp(Cond::Z, Arg16::Imm(0x1234));
    assert_eq!(cpu.regs.pc, 0x0200); // Z clear: not taken
    cpu.jp(Cond::NZ, Arg16::Imm(0x1234));
    assert_eq!(cpu.regs.pc, 0x1234);

    cpu.jr(Cond::Always, -4);
    assert_eq!(cpu.regs.pc, 0x1230);
    cpu.jr(Cond::C, 10);
    assert_eq!(cpu.regs.pc, 0x1230); // C clear: not taken
}

#[test]
fn call_ret_round_trip() {
    let mut cpu = init_cpu();
    cpu.regs.pc = 0x0103;
    cpu.call(Cond::Always, Arg16::Imm(0x4000));
    assert_eq!(cpu.regs.pc, 0x4000);
    assert_eq!(cpu.regs.sp, 0xFFFC);
    cpu.ret(Cond::Always);
    assert_eq!(cpu.regs.pc, 0x0103);
    assert_eq!(cpu.regs.sp, 0xFFFE);
}

#[test]
fn conditional_call_and_ret_not_taken() {
    let mut cpu = init_cpu();
    cpu.regs.set_flags(false, false, false, false);
    cpu.regs.pc = 0x0103;
    cpu.call(Cond::C, Arg16::Imm(0x4000));
    assert_eq!(cpu.regs.pc, 0x0103);
    assert_eq!(cpu.regs.sp, 0xFFFE);
    cpu.ret(Cond::Z);
    assert_eq!(cpu.regs.pc, 0x0103);
}

#[test]
fn rst_pushes_and_jumps_to_vector() {
    let mut cpu = init_cpu();
    cpu.regs.pc = 0x0150;
    cpu.rst(0x38);
    assert_eq!(cpu.regs.pc, 0x0038);
    assert_eq!(cpu.regs.sp, 0xFFFC);
    assert_eq!(cpu.bus.read_u16(0xFFFC), 0x0150);
}

#[test]
fn reti_pops_and_enables_interrupt_intent() {
    let mut cpu = init_cpu();
    cpu.di();
    assert!(!cpu.ime);
    cpu.regs.pc = 0x0103;
    cpu.call(Cond::Always, Arg16::Imm(0x4000));
    cpu.reti();
    assert_eq!(cpu.regs.pc, 0x0103);
    assert!(cpu.ime);
}

#[test]
fn write_to_immediate_is_invalid_operand() {
    let mut cpu = init_cpu();
    assert_eq!(cpu.write_arg8(Arg8::Imm(5), 1), Err(Fault::InvalidOperand));
    assert_eq!(cpu.write_arg16(Arg16::Imm(5), 1), Err(Fault::InvalidOperand));
    assert_eq!(cpu.ld(Arg8::Imm(5), Arg8::Reg(Reg8::A)), Err(Fault::InvalidOperand));
    assert_eq!(cpu.pop(Arg16::Imm(5)), Err(Fault::InvalidOperand));
    assert_eq!(cpu.inc(Arg8::Imm(5)), Err(Fault::InvalidOperand));
    // nothing was applied
    assert_eq!(cpu.regs.sp, 0xFFFE);
}

#[test]
fn dump_state_reports_registers_and_flags() {
    let mut cpu = init_cpu();
    cpu.regs.a = 0x12;
    cpu.regs.set_flags(true, false, true, false);
    let s = cpu.dump_state();
    assert_eq!(s.a, 0x12);
    assert!(s.zf);
    assert!(!s.nf);
    assert!(s.hf);
    assert!(!s.cf);
    assert!(s.running);
    assert_eq!(s.sp, 0xFFFE);
}

#[test]
fn flag_accessors_mask_low_nibble() {
    let mut cpu = init_cpu();
    cpu.regs.write8(Reg8::F, 0xFF);
    assert_eq!(cpu.regs.f, 0xF0); // low nibble architecturally zero
    cpu.regs.write16(Reg16::AF, 0x12FF);
    assert_eq!(cpu.regs.read16(Reg16::AF), 0x12F0);
    cpu.regs.update_flag(Flag::Z, false);
    assert_eq!(cpu.regs.f, 0x70);
    cpu.regs.reset_flag(Flag::C);
    assert_eq!(cpu.regs.f, 0x60);
    cpu.regs.set_flag(Flag::Z);
    assert_eq!(cpu.regs.f, 0xE0);
    assert!(cpu.regs.get_flag(Flag::Z));
    assert!(!cpu.regs.get_flag(Flag::C));
}
