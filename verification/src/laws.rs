use vstd::arithmetic::div_mod::lemma_add_mod_noop;
use vstd::arithmetic::div_mod::lemma_fundamental_div_mod;
use vstd::prelude::*;

use crate::alu::spec_dec8;
use crate::alu::spec_inc8;
use crate::alu::spec_swap;
use crate::alu::wrap_add16;
use crate::bus::spec_bus_wrote8;
use crate::bus::Bus;
use crate::cpu::spec_fetch;
use crate::cpu::spec_instr_effect;
use crate::cpu::Cpu;
use crate::fault::Fault;
use crate::ops::spec_decode_op;
use crate::ops::spec_finish16;
use crate::ops::Arg16;
use crate::ops::Arg8;
use crate::ops::Cont;
use crate::ops::Instruction;
use crate::ops::Pend16;
use crate::regs::lemma_flags_to_f_bits;
use crate::regs::Flag;
use crate::regs::Reg16;
use crate::regs::Reg8;

verus! {

/// INC then DEC on one 8-bit register restores the register's value, and
/// restores C — the one flag neither operation touches. Z, N and H are not
/// generally restored: they hold exactly what the second operation (DEC)
/// freshly computes. Register F itself is excluded: the flag updates of
/// the two operations own it.
pub proof fn lemma_inc_then_dec_restores(pre: Cpu, mid: Cpu, post: Cpu, r: Reg8)
    requires
        r != Reg8::F,
        spec_instr_effect(pre, mid, Instruction::INC(Arg8::Reg(r)), Ok::<(), Fault>(())),
        spec_instr_effect(mid, post, Instruction::DEC(Arg8::Reg(r)), Ok::<(), Fault>(())),
    ensures
        post.regs.spec_read8(r) == pre.regs.spec_read8(r),
        post.regs.flag(Flag::C) == pre.regs.flag(Flag::C),
        post.regs.flag(Flag::Z) == (spec_dec8(mid.regs.spec_read8(r)) == 0),
        post.regs.flag(Flag::N) == true,
        post.regs.flag(Flag::H) == (mid.regs.spec_read8(r) % 16 == 0),
{
    let x = pre.regs.spec_read8(r);
    let y = spec_inc8(x);
    assert(spec_dec8(y) == x);
    lemma_flags_to_f_bits(y == 0, false, x % 16 == 15, pre.regs.flag(Flag::C));
    lemma_flags_to_f_bits(spec_dec8(y) == 0, true, y % 16 == 0, mid.regs.flag(Flag::C));
}

/// DEC then INC on one 8-bit register restores the register's value and
/// C; Z, N and H hold what the second operation (INC) freshly computes.
pub proof fn lemma_dec_then_inc_restores(pre: Cpu, mid: Cpu, post: Cpu, r: Reg8)
    requires
        r != Reg8::F,
        spec_instr_effect(pre, mid, Instruction::DEC(Arg8::Reg(r)), Ok::<(), Fault>(())),
        spec_instr_effect(mid, post, Instruction::INC(Arg8::Reg(r)), Ok::<(), Fault>(())),
    ensures
        post.regs.spec_read8(r) == pre.regs.spec_read8(r),
        post.regs.flag(Flag::C) == pre.regs.flag(Flag::C),
        post.regs.flag(Flag::Z) == (spec_inc8(mid.regs.spec_read8(r)) == 0),
        post.regs.flag(Flag::N) == false,
        post.regs.flag(Flag::H) == (mid.regs.spec_read8(r) % 16 == 15),
{
    let x = pre.regs.spec_read8(r);
    let y = spec_dec8(x);
    assert(spec_inc8(y) == x);
    lemma_flags_to_f_bits(y == 0, true, x % 16 == 0, pre.regs.flag(Flag::C));
    lemma_flags_to_f_bits(spec_inc8(y) == 0, false, y % 16 == 15, mid.regs.flag(Flag::C));
}

/// ADD whose exact sum fits in 8 bits: the accumulator receives the sum
/// itself, Z reflects it, N and C are clear, and H is the carry out of
/// bit 3.
pub proof fn lemma_add_in_range(pre: Cpu, post: Cpu, i: Arg8)
    requires
        spec_instr_effect(pre, post, Instruction::ADD(i), Ok::<(), Fault>(())),
        pre.regs.a + pre.spec_arg8(i) < 256,
    ensures
        post.regs.a == pre.regs.a + pre.spec_arg8(i),
        post.regs.flag(Flag::Z) == (pre.regs.a + pre.spec_arg8(i) == 0),
        post.regs.flag(Flag::N) == false,
        post.regs.flag(Flag::H) == (pre.regs.a % 16 + pre.spec_arg8(i) % 16 >= 16),
        post.regs.flag(Flag::C) == false,
{
    let a = pre.regs.a;
    let v = pre.spec_arg8(i);
    lemma_flags_to_f_bits((a + v) % 256 == 0, false, a % 16 + v % 16 >= 16, a + v >= 256);
}

/// The nibble swap is an involution on bytes: applied twice it restores
/// the byte, and the Z bit of the second application reflects the
/// restored value.
pub proof fn lemma_swap_value_involutive(x: u8)
    ensures
        spec_swap(spec_swap(x).r).r == x,
        spec_swap(spec_swap(x).r).z == (x == 0),
{
    lemma_fundamental_div_mod(x as int, 16);
}

/// SWAP applied twice to one 8-bit register restores the original byte,
/// with Z reflecting the final (restored) value. Register F itself is
/// excluded: the flag updates of the two operations own it.
pub proof fn lemma_swap_twice_restores(pre: Cpu, mid: Cpu, post: Cpu, r: Reg8)
    requires
        r != Reg8::F,
        spec_instr_effect(pre, mid, Instruction::SWAP(Arg8::Reg(r)), Ok::<(), Fault>(())),
        spec_instr_effect(mid, post, Instruction::SWAP(Arg8::Reg(r)), Ok::<(), Fault>(())),
    ensures
        post.regs.spec_read8(r) == pre.regs.spec_read8(r),
        post.regs.flag(Flag::Z) == (pre.regs.spec_read8(r) == 0),
        post.regs.flag(Flag::N) == false,
        post.regs.flag(Flag::H) == false,
        post.regs.flag(Flag::C) == false,
{
    let x = pre.regs.spec_read8(r);
    lemma_swap_value_involutive(x);
    let y = spec_swap(x).r;
    lemma_flags_to_f_bits(y == 0, false, false, false);
    lemma_flags_to_f_bits(x == 0, false, false, false);
}

/// PUSH of one 16-bit register followed by POP into another transfers the
/// pushed value exactly and restores SP, whenever the two stacked bytes
/// land in RAM (not in the read-only cartridge window, and not wrapping
/// off the top of the address space). The destination must not be SP
/// itself (the pop's final SP step owns it) nor AF (whose F half
/// architecturally masks its low nibble).
pub proof fn lemma_push_pop_round_trip(pre: Cpu, mid: Cpu, post: Cpu, rr1: Reg16, rr2: Reg16)
    requires
        rr2 != Reg16::SP,
        rr2 != Reg16::AF,
        0x8000 <= wrap_add16(pre.regs.sp, -2),
        wrap_add16(pre.regs.sp, -2) < 0xFFFF,
        spec_instr_effect(pre, mid, Instruction::PUSH(Arg16::Reg(rr1)), Ok::<(), Fault>(())),
        spec_instr_effect(mid, post, Instruction::POP(Arg16::Reg(rr2)), Ok::<(), Fault>(())),
    ensures
        post.regs.spec_read16(rr2) == pre.regs.spec_read16(rr1),
        post.regs.sp == pre.regs.sp,
{
    let v = pre.regs.spec_read16(rr1);
    let sp0 = pre.regs.sp;
    let sp2 = wrap_add16(sp0, -2);
    lemma_fundamental_div_mod(v as int, 256);
    assert(mid.bus.word_at(sp2) == v) by {
        assert(mid.bus.byte_at(sp2) == v % 256);
        assert(wrap_add16(sp2, 1) == sp2 + 1);
        assert(mid.bus.byte_at((sp2 + 1) as u16) == v / 256);
    };
    assert(wrap_add16(sp2, 2) == sp0) by {
        lemma_add_mod_noop(sp0 - 2 + 0x10000, 2, 0x10000);
        lemma_fundamental_div_mod(sp0 - 2 + 0x10000, 0x10000);
        lemma_fundamental_div_mod(sp0 + 0x10000, 0x10000);
    };
}

/// A write aimed at a read-only cartridge address leaves every byte of
/// the address space unchanged — a later read at that address sees the
/// old byte — and no fault arises; only the diagnostic counter moves.
pub proof fn lemma_rom_write_dropped(pre: Bus, post: Bus, addr: u16, v: u8)
    requires
        spec_bus_wrote8(pre, post, addr, v),
        addr < 0x8000,
    ensures
        forall|x: u16| post.byte_at(x) == pre.byte_at(x),
{
}

/// A two-trailing-byte opcode consumes exactly its two immediate bytes:
/// fetch/decode completes the instruction from the bytes at PC+1 and
/// PC+2, and PC advances by the full three-byte encoded length (mod
/// 2^16).
pub proof fn lemma_two_byte_fetch_length(c: Cpu, p: Pend16)
    requires
        spec_decode_op(c.bus.byte_at(c.regs.pc)) == Ok::<Cont, Fault>(Cont::NeedLo(p)),
    ensures
        spec_fetch(c).0 == Ok::<Instruction, Fault>(
            spec_finish16(
                p,
                c.bus.byte_at(wrap_add16(c.regs.pc, 1)),
                c.bus.byte_at(wrap_add16(c.regs.pc, 2)),
            ),
        ),
        spec_fetch(c).1 == wrap_add16(c.regs.pc, 3),
{
    let pc0 = c.regs.pc;
    assert(wrap_add16(wrap_add16(pc0, 1), 1) == wrap_add16(pc0, 2)) by {
        lemma_add_mod_noop(pc0 + 1, 1, 0x10000);
        lemma_fundamental_div_mod(pc0 + 1, 0x10000);
    };
    assert(wrap_add16(wrap_add16(pc0, 2), 1) == wrap_add16(pc0, 3)) by {
        lemma_add_mod_noop(pc0 + 2, 1, 0x10000);
        lemma_fundamental_div_mod(pc0 + 2, 0x10000);
    };
}

/// A one-trailing-byte opcode consumes exactly its one immediate byte:
/// PC advances by the full two-byte encoded length (mod 2^16).
pub proof fn lemma_one_byte_fetch_length(c: Cpu)
    requires
        spec_decode_op(c.bus.byte_at(c.regs.pc)) matches Ok(k) && (k is NeedByte || k is NeedCb),
    ensures
        spec_fetch(c).1 == wrap_add16(c.regs.pc, 2),
{
    let pc0 = c.regs.pc;
    assert(wrap_add16(wrap_add16(pc0, 1), 1) == wrap_add16(pc0, 2)) by {
        lemma_add_mod_noop(pc0 + 1, 1, 0x10000);
        lemma_fundamental_div_mod(pc0 + 1, 0x10000);
    };
}

} // verus!
