use vstd::prelude::*;

use crate::alu::spec_add8;
use crate::alu::spec_bit_set;
use crate::alu::spec_daa;
use crate::alu::spec_dec8;
use crate::alu::spec_inc8;
use crate::alu::spec_rl;
use crate::alu::spec_rlc;
use crate::alu::spec_rr;
use crate::alu::spec_rrc;
use crate::alu::spec_sla;
use crate::alu::spec_sra;
use crate::alu::spec_srl;
use crate::alu::spec_sub8;
use crate::alu::spec_swap;
use crate::alu::spec_to_u8;
use crate::alu::spec_with_bit;
use crate::alu::test_bit;
use crate::alu::to_unsigned8;
use crate::alu::with_bit;
use crate::alu::add_signed16;
use crate::alu::wrap_add16;
use crate::alu::wrapping_add2_16;
use crate::alu::wrapping_dec16;
use crate::alu::wrapping_inc16;
use crate::alu::wrapping_sub2_16;
use crate::alu::AluOut;
use crate::bus::spec_bus_wrote16;
use crate::bus::spec_bus_wrote8;
use crate::bus::Bus;
use crate::fault::Fault;
use crate::ops::cb_instr;
use crate::ops::decode_step;
use crate::ops::finish16;
use crate::ops::finish8;
use crate::ops::lemma_decode_op_shape;
use crate::ops::lemma_decode_wf;
use crate::ops::spec_cb_instr;
use crate::ops::spec_decode_op;
use crate::ops::spec_finish16;
use crate::ops::spec_finish8;
use crate::ops::spec_instr_wf;
use crate::ops::Arg16;
use crate::ops::Arg8;
use crate::ops::Cond;
use crate::ops::Cont;
use crate::ops::IndirectAddr;
use crate::ops::Pend16;
use crate::ops::Pend8;
use crate::ops::Instruction;
use crate::regs::Flag;
use crate::regs::Reg16;
use crate::regs::Reg8;
use crate::regs::Registers;

verus! {

/// The dispatcher's execution state: running, or one of the two suspended
/// pseudo-states that block instruction fetch until an external wake
/// signal.
#[derive(Clone, Copy, Debug, PartialEq, Eq, Structural)]
pub enum RunState {
    Running,
    /// Suspended by HALT until an interrupt wakes the core.
    Halted,
    /// Suspended by STOP until an external wake signal.
    Stopped,
}

/// A read-only diagnostic snapshot of all registers and flags.
#[derive(Clone, Copy, Debug, PartialEq, Eq, Structural)]
pub struct CpuState {
    pub a: u8,
    pub f: u8,
    pub b: u8,
    pub c: u8,
    pub d: u8,
    pub e: u8,
    pub h: u8,
    pub l: u8,
    pub sp: u16,
    pub pc: u16,
    pub zf: bool,
    pub nf: bool,
    pub hf: bool,
    pub cf: bool,
    pub running: bool,
}

/// The instruction execution engine: the register file, the address bus it
/// owns, the interrupt-enable intent, and the run/suspend state.
pub struct Cpu {
    pub running: bool,
    pub regs: Registers,
    pub bus: Bus,
    pub mode: RunState,
    /// The process-wide interrupt-enable intent recorded by EI/DI/RETI for
    /// the (out-of-scope) interrupt controller.
    pub ime: bool,
}

/// The effective address of an indirect operand: register-pair forms read
/// the pair, the two high-RAM forms add their offset to 0xFF00, and the
/// absolute form is its own literal. Resolution never touches the bus.
pub open spec fn spec_get_address(regs: Registers, a: IndirectAddr) -> u16 {
    match a {
        IndirectAddr::BC => regs.spec_read16(Reg16::BC),
        IndirectAddr::DE => regs.spec_read16(Reg16::DE),
        IndirectAddr::HL => regs.spec_read16(Reg16::HL),
        IndirectAddr::C => (0xFF00 + regs.c) as u16,
        IndirectAddr::Imm8(n) => (0xFF00 + n) as u16,
        IndirectAddr::Imm16(n) => n,
    }
}

/// Whether a flag predicate holds of the current flags.
pub open spec fn spec_cond_holds(regs: Registers, c: Cond) -> bool {
    match c {
        Cond::Always => true,
        Cond::Z => regs.flag(Flag::Z),
        Cond::NZ => !regs.flag(Flag::Z),
        Cond::C => regs.flag(Flag::C),
        Cond::NC => !regs.flag(Flag::C),
    }
}

/// An 8-bit operand is a valid write target unless it is an immediate.
pub open spec fn spec_arg8_writable(arg: Arg8) -> bool {
    !(arg is Imm)
}

/// A 16-bit operand is a valid write target unless it is an immediate.
pub open spec fn spec_arg16_writable(arg: Arg16) -> bool {
    !(arg is Imm)
}

/// The run/suspend state, the interrupt-enable intent and the running flag
/// are untouched.
pub open spec fn spec_same_ctrl(pre: Cpu, post: Cpu) -> bool {
    &&& post.running == pre.running
    &&& post.mode == pre.mode
    &&& post.ime == pre.ime
}

impl Cpu {
    /// The machine invariant: register file and bus are well formed.
    pub open spec fn wf(self) -> bool {
        &&& self.regs.wf()
        &&& self.bus.wf()
    }

    /// The same machine with another register file.
    pub open spec fn with_regs(self, regs: Registers) -> Cpu {
        Cpu { regs, ..self }
    }

    /// The same machine with the running flag cleared, as after a surfaced
    /// fault.
    pub open spec fn stopped(self) -> Cpu {
        Cpu { running: false, ..self }
    }

    /// The value an 8-bit operand resolves to.
    pub open spec fn spec_arg8(self, arg: Arg8) -> u8 {
        match arg {
            Arg8::Reg(r) => self.regs.spec_read8(r),
            Arg8::Ind(ia) => self.bus.byte_at(spec_get_address(self.regs, ia)),
            Arg8::Imm(v) => v,
        }
    }

    /// The value a 16-bit operand resolves to.
    pub open spec fn spec_arg16(self, arg: Arg16) -> u16 {
        match arg {
            Arg16::Reg(r) => self.regs.spec_read16(r),
            Arg16::Ind(ia) => self.bus.word_at(spec_get_address(self.regs, ia)),
            Arg16::Imm(v) => v,
        }
    }

    /// A fresh machine over the given bus, with power-on register values,
    /// running, awake, and interrupts not yet enabled.
    pub fn new(bus: Bus) -> (cpu: Cpu)
        requires
            bus.wf(),
        ensures
            cpu.wf(),
            cpu.running == true,
            cpu.mode == RunState::Running,
            cpu.ime == false,
            cpu.regs == Registers::power_on(),
            cpu.bus == bus,
    {
        Cpu { running: true, regs: Registers::new(), bus, mode: RunState::Running, ime: false }
    }

    /// Reads one byte at PC through the bus and advances PC by one: the
    /// sole mechanism by which PC moves during decode.
    pub fn fetch_word(&mut self) -> (b: u8)
        requires
            old(self).wf(),
        ensures
            final(self).wf(),
            b == old(self).bus.byte_at(old(self).regs.pc),
            final(self).regs == old(self).regs.with16(Reg16::PC, wrap_add16(old(self).regs.pc, 1)),
            final(self).bus == old(self).bus,
            spec_same_ctrl(*old(self), *final(self)),
    {
        let b = self.bus.read_u8(self.regs.pc);
        self.regs.pc = wrapping_inc16(self.regs.pc);
        b
    }




}

/// What a register-or-memory 8-bit write does: a register target updates
/// the register file alone; an indirect target performs exactly one bus
/// write at the resolved address. An immediate target never writes.
pub open spec fn spec_wrote8(pre: Cpu, post: Cpu, arg: Arg8, v: u8) -> bool {
    &&& spec_same_ctrl(pre, post)
    &&& match arg {
        Arg8::Reg(r) => post.regs == pre.regs.with8(r, v) && post.bus == pre.bus,
        Arg8::Ind(ia) => post.regs == pre.regs && spec_bus_wrote8(
            pre.bus,
            post.bus,
            spec_get_address(pre.regs, ia),
            v,
        ),
        Arg8::Imm(_) => false,
    }
}

/// What a register-or-memory 16-bit write does.
pub open spec fn spec_wrote16(pre: Cpu, post: Cpu, arg: Arg16, v: u16) -> bool {
    &&& spec_same_ctrl(pre, post)
    &&& match arg {
        Arg16::Reg(r) => post.regs == pre.regs.with16(r, v) && post.bus == pre.bus,
        Arg16::Ind(ia) => post.regs == pre.regs && spec_bus_wrote16(
            pre.bus,
            post.bus,
            spec_get_address(pre.regs, ia),
            v,
        ),
        Arg16::Imm(_) => false,
    }
}

/// Computes the effective address of an indirect operand. This never
/// itself touches the bus.
pub fn get_address(cpu: &Cpu, a: &IndirectAddr) -> (addr: u16)
    ensures
        addr == spec_get_address(cpu.regs, *a),
{
    match *a {
        IndirectAddr::BC => cpu.regs.read16(Reg16::BC),
        IndirectAddr::DE => cpu.regs.read16(Reg16::DE),
        IndirectAddr::HL => cpu.regs.read16(Reg16::HL),
        IndirectAddr::C => 0xFF00 + (cpu.regs.c as u16),
        IndirectAddr::Imm8(n) => 0xFF00 + (n as u16),
        IndirectAddr::Imm16(n) => n,
    }
}


/// Target write of an 8-bit operation combined with replacing all four
/// flags.
pub open spec fn spec_wrote8_flags(
    pre: Cpu,
    post: Cpu,
    io: Arg8,
    v: u8,
    z: bool,
    n: bool,
    h: bool,
    c: bool,
) -> bool {
    &&& spec_same_ctrl(pre, post)
    &&& match io {
        Arg8::Reg(r) => post.regs == pre.regs.with8(r, v).with_flags(z, n, h, c) && post.bus
            == pre.bus,
        Arg8::Ind(ia) => post.regs == pre.regs.with_flags(z, n, h, c) && spec_bus_wrote8(
            pre.bus,
            post.bus,
            spec_get_address(pre.regs, ia),
            v,
        ),
        Arg8::Imm(_) => false,
    }
}

/// An accumulator operation: A and all four flags come from one ALU
/// result; nothing else moves.
pub open spec fn spec_acc_effect(pre: Cpu, post: Cpu, out: AluOut) -> bool {
    &&& post.regs == pre.regs.with8(Reg8::A, out.r).with_flags(out.z, out.n, out.h, out.c)
    &&& post.bus == pre.bus
    &&& spec_same_ctrl(pre, post)
}

/// A flags-only operation: the four flag bits are replaced, nothing else
/// moves.
pub open spec fn spec_flags_effect(pre: Cpu, post: Cpu, z: bool, n: bool, h: bool, c: bool) -> bool {
    &&& post.regs == pre.regs.with_flags(z, n, h, c)
    &&& post.bus == pre.bus
    &&& spec_same_ctrl(pre, post)
}

/// A load followed by an HL step of `delta`: the post-increment and
/// post-decrement load forms.
pub open spec fn spec_ld_step_effect(pre: Cpu, post: Cpu, o: Arg8, i: Arg8, delta: int) -> bool {
    let v = pre.spec_arg8(i);
    &&& spec_same_ctrl(pre, post)
    &&& match o {
        Arg8::Reg(r) => ({
            let r1 = pre.regs.with8(r, v);
            post.regs == r1.with16(Reg16::HL, wrap_add16(r1.spec_read16(Reg16::HL), delta))
                && post.bus == pre.bus
        }),
        Arg8::Ind(ia) => post.regs == pre.regs.with16(
            Reg16::HL,
            wrap_add16(pre.regs.spec_read16(Reg16::HL), delta),
        ) && spec_bus_wrote8(pre.bus, post.bus, spec_get_address(pre.regs, ia), v),
        Arg8::Imm(_) => false,
    }
}

/// Either the write target is valid and the operation's effect holds with
/// success, or it is an immediate, the invalid-operand fault is surfaced,
/// and nothing changed.
pub open spec fn spec_fault_or(
    pre: Cpu,
    post: Cpu,
    res: Result<(), Fault>,
    writable: bool,
    eff: bool,
) -> bool {
    if writable {
        res == Ok::<(), Fault>(()) && eff
    } else {
        res == Err::<(), Fault>(Fault::InvalidOperand) && post == pre
    }
}

/// The exact effect of dispatching one decoded instruction on the whole
/// machine: how registers, flags, memory, the suspend state and the
/// interrupt-enable intent move, and precisely when the invalid-operand
/// fault is surfaced instead.
pub open spec fn spec_instr_effect(
    pre: Cpu,
    post: Cpu,
    instr: Instruction,
    res: Result<(), Fault>,
) -> bool {
    match instr {
        Instruction::LD(o, i) => spec_fault_or(
            pre,
            post,
            res,
            spec_arg8_writable(o),
            spec_wrote8(pre, post, o, pre.spec_arg8(i)),
        ),
        Instruction::LDD(o, i) => spec_fault_or(
            pre,
            post,
            res,
            spec_arg8_writable(o),
            spec_ld_step_effect(pre, post, o, i, -1),
        ),
        Instruction::LDI(o, i) => spec_fault_or(
            pre,
            post,
            res,
            spec_arg8_writable(o),
            spec_ld_step_effect(pre, post, o, i, 1),
        ),
        Instruction::LDH(o, i) => spec_fault_or(
            pre,
            post,
            res,
            spec_arg8_writable(o),
            spec_wrote8(pre, post, o, pre.spec_arg8(i)),
        ),
        Instruction::LD16(o, i) => spec_fault_or(
            pre,
            post,
            res,
            spec_arg16_writable(o),
            spec_wrote16(pre, post, o, pre.spec_arg16(i)),
        ),
        Instruction::LDHL16(d) => res == Ok::<(), Fault>(()) && ({
            let sp = pre.regs.sp;
            let u = spec_to_u8(d);
            &&& post.regs == pre.regs.with16(Reg16::HL, wrap_add16(sp, d as int)).with_flags(
                false,
                false,
                sp % 16 + u % 16 >= 16,
                sp % 256 + u >= 256,
            )
            &&& post.bus == pre.bus
            &&& spec_same_ctrl(pre, post)
        }),
        Instruction::PUSH(i) => res == Ok::<(), Fault>(()) && ({
            let v = pre.spec_arg16(i);
            let sp2 = wrap_add16(pre.regs.sp, -2);
            &&& post.regs == pre.regs.with16(Reg16::SP, sp2)
            &&& spec_bus_wrote16(pre.bus, post.bus, sp2, v)
            &&& spec_same_ctrl(pre, post)
        }),
        Instruction::POP(o) => ({
            let v = pre.bus.word_at(pre.regs.sp);
            match o {
                Arg16::Reg(rr) => res == Ok::<(), Fault>(()) && ({
                    let r1 = pre.regs.with16(rr, v);
                    &&& post.regs == r1.with16(Reg16::SP, wrap_add16(r1.sp, 2))
                    &&& post.bus == pre.bus
                    &&& spec_same_ctrl(pre, post)
                }),
                Arg16::Ind(ia) => res == Ok::<(), Fault>(()) && ({
                    &&& post.regs == pre.regs.with16(Reg16::SP, wrap_add16(pre.regs.sp, 2))
                    &&& spec_bus_wrote16(pre.bus, post.bus, spec_get_address(pre.regs, ia), v)
                    &&& spec_same_ctrl(pre, post)
                }),
                Arg16::Imm(_) => res == Err::<(), Fault>(Fault::InvalidOperand) && post == pre,
            }
        }),
        Instruction::ADD(i) => res == Ok::<(), Fault>(()) && spec_acc_effect(
            pre,
            post,
            spec_add8(pre.regs.a, pre.spec_arg8(i), false),
        ),
        Instruction::ADC(i) => res == Ok::<(), Fault>(()) && spec_acc_effect(
            pre,
            post,
            spec_add8(pre.regs.a, pre.spec_arg8(i), pre.regs.flag(Flag::C)),
        ),
        Instruction::SUB(i) => res == Ok::<(), Fault>(()) && spec_acc_effect(
            pre,
            post,
            spec_sub8(pre.regs.a, pre.spec_arg8(i), false),
        ),
        Instruction::SBC(i) => res == Ok::<(), Fault>(()) && spec_acc_effect(
            pre,
            post,
            spec_sub8(pre.regs.a, pre.spec_arg8(i), pre.regs.flag(Flag::C)),
        ),
        Instruction::AND(i) => res == Ok::<(), Fault>(()) && spec_acc_effect(
            pre,
            post,
            crate::alu::spec_and8(pre.regs.a, pre.spec_arg8(i)),
        ),
        Instruction::OR(i) => res == Ok::<(), Fault>(()) && spec_acc_effect(
            pre,
            post,
            crate::alu::spec_or8(pre.regs.a, pre.spec_arg8(i)),
        ),
        Instruction::XOR(i) => res == Ok::<(), Fault>(()) && spec_acc_effect(
            pre,
            post,
            crate::alu::spec_xor8(pre.regs.a, pre.spec_arg8(i)),
        ),
        Instruction::CP(i) => res == Ok::<(), Fault>(()) && ({
            let out = spec_sub8(pre.regs.a, pre.spec_arg8(i), false);
            spec_flags_effect(pre, post, out.z, out.n, out.h, out.c)
        }),
        Instruction::INC(io) => spec_fault_or(
            pre,
            post,
            res,
            spec_arg8_writable(io),
            ({
                let x = pre.spec_arg8(io);
                spec_wrote8_flags(
                    pre,
                    post,
                    io,
                    spec_inc8(x),
                    spec_inc8(x) == 0,
                    false,
                    x % 16 == 15,
                    pre.regs.flag(Flag::C),
                )
            }),
        ),
        Instruction::DEC(io) => spec_fault_or(
            pre,
            post,
            res,
            spec_arg8_writable(io),
            ({
                let x = pre.spec_arg8(io);
                spec_wrote8_flags(
                    pre,
                    post,
                    io,
                    spec_dec8(x),
                    spec_dec8(x) == 0,
                    true,
                    x % 16 == 0,
                    pre.regs.flag(Flag::C),
                )
            }),
        ),
        Instruction::ADD16(i) => res == Ok::<(), Fault>(()) && ({
            let hl = pre.regs.spec_read16(Reg16::HL);
            let v = pre.spec_arg16(i);
            &&& post.regs == pre.regs.with16(Reg16::HL, wrap_add16(hl, v as int)).with_flags(
                pre.regs.flag(Flag::Z),
                pre.regs.flag(Flag::N),
                hl % 4096 + v % 4096 >= 4096,
                hl + v >= 65536,
            )
            &&& post.bus == pre.bus
            &&& spec_same_ctrl(pre, post)
        }),
        Instruction::ADD16SP(d) => res == Ok::<(), Fault>(()) && ({
            let sp = pre.regs.sp;
            let u = spec_to_u8(d);
            &&& post.regs == pre.regs.with16(Reg16::SP, wrap_add16(sp, d as int)).with_flags(
                false,
                false,
                sp % 16 + u % 16 >= 16,
                sp % 256 + u >= 256,
            )
            &&& post.bus == pre.bus
            &&& spec_same_ctrl(pre, post)
        }),
        Instruction::INC16(io) => spec_fault_or(
            pre,
            post,
            res,
            spec_arg16_writable(io),
            spec_wrote16(pre, post, io, wrap_add16(pre.spec_arg16(io), 1)),
        ),
        Instruction::DEC16(io) => spec_fault_or(
            pre,
            post,
            res,
            spec_arg16_writable(io),
            spec_wrote16(pre, post, io, wrap_add16(pre.spec_arg16(io), -1)),
        ),
        Instruction::NOP => res == Ok::<(), Fault>(()) && post == pre,
        Instruction::DAA => res == Ok::<(), Fault>(()) && spec_acc_effect(
            pre,
            post,
            spec_daa(
                pre.regs.a,
                pre.regs.flag(Flag::N),
                pre.regs.flag(Flag::H),
                pre.regs.flag(Flag::C),
            ),
        ),
        Instruction::CPL => res == Ok::<(), Fault>(()) && ({
            &&& post.regs == pre.regs.with8(Reg8::A, !pre.regs.a).with_flags(
                pre.regs.flag(Flag::Z),
                true,
                true,
                pre.regs.flag(Flag::C),
            )
            &&& post.bus == pre.bus
            &&& spec_same_ctrl(pre, post)
        }),
        Instruction::CCF => res == Ok::<(), Fault>(()) && spec_flags_effect(
            pre,
            post,
            pre.regs.flag(Flag::Z),
            false,
            false,
            !pre.regs.flag(Flag::C),
        ),
        Instruction::SCF => res == Ok::<(), Fault>(()) && spec_flags_effect(
            pre,
            post,
            pre.regs.flag(Flag::Z),
            false,
            false,
            true,
        ),
        Instruction::HALT => res == Ok::<(), Fault>(()) && post.regs == pre.regs && post.bus
            == pre.bus && post.running == pre.running && post.ime == pre.ime && post.mode
            == RunState::Halted,
        Instruction::STOP => res == Ok::<(), Fault>(()) && post.regs == pre.regs && post.bus
            == pre.bus && post.running == pre.running && post.ime == pre.ime && post.mode
            == RunState::Stopped,
        Instruction::EI => res == Ok::<(), Fault>(()) && post.regs == pre.regs && post.bus
            == pre.bus && post.running == pre.running && post.mode == pre.mode && post.ime == true,
        Instruction::DI => res == Ok::<(), Fault>(()) && post.regs == pre.regs && post.bus
            == pre.bus && post.running == pre.running && post.mode == pre.mode && post.ime == false,
        Instruction::RLC(io) => spec_rot_effect(pre, post, io, res, spec_rlc(pre.spec_arg8(io))),
        Instruction::RL(io) => spec_rot_effect(
            pre,
            post,
            io,
            res,
            spec_rl(pre.spec_arg8(io), pre.regs.flag(Flag::C)),
        ),
        Instruction::RRC(io) => spec_rot_effect(pre, post, io, res, spec_rrc(pre.spec_arg8(io))),
        Instruction::RR(io) => spec_rot_effect(
            pre,
            post,
            io,
            res,
            spec_rr(pre.spec_arg8(io), pre.regs.flag(Flag::C)),
        ),
        Instruction::SLA(io) => spec_rot_effect(pre, post, io, res, spec_sla(pre.spec_arg8(io))),
        Instruction::SRA(io) => spec_rot_effect(pre, post, io, res, spec_sra(pre.spec_arg8(io))),
        Instruction::SWAP(io) => spec_rot_effect(pre, post, io, res, spec_swap(pre.spec_arg8(io))),
        Instruction::SRL(io) => spec_rot_effect(pre, post, io, res, spec_srl(pre.spec_arg8(io))),
        Instruction::BIT(b, i) => res == Ok::<(), Fault>(()) && spec_flags_effect(
            pre,
            post,
            !spec_bit_set(pre.spec_arg8(i), b),
            false,
            true,
            pre.regs.flag(Flag::C),
        ),
        Instruction::SET(b, io) => spec_fault_or(
            pre,
            post,
            res,
            spec_arg8_writable(io),
            spec_wrote8(pre, post, io, spec_with_bit(pre.spec_arg8(io), b, true)),
        ),
        Instruction::RES(b, io) => spec_fault_or(
            pre,
            post,
            res,
            spec_arg8_writable(io),
            spec_wrote8(pre, post, io, spec_with_bit(pre.spec_arg8(io), b, false)),
        ),
        Instruction::JP(c, dest) => res == Ok::<(), Fault>(()) && post.bus == pre.bus
            && spec_same_ctrl(pre, post) && (if spec_cond_holds(pre.regs, c) {
            post.regs == pre.regs.with16(Reg16::PC, pre.spec_arg16(dest))
        } else {
            post.regs == pre.regs
        }),
        Instruction::JR(c, d) => res == Ok::<(), Fault>(()) && post.bus == pre.bus
            && spec_same_ctrl(pre, post) && (if spec_cond_holds(pre.regs, c) {
            post.regs == pre.regs.with16(Reg16::PC, wrap_add16(pre.regs.pc, d as int))
        } else {
            post.regs == pre.regs
        }),
        Instruction::CALL(c, dest) => res == Ok::<(), Fault>(()) && spec_same_ctrl(pre, post) && (
        if spec_cond_holds(pre.regs, c) {
            let sp2 = wrap_add16(pre.regs.sp, -2);
            &&& post.regs == pre.regs.with16(Reg16::SP, sp2).with16(
                Reg16::PC,
                pre.spec_arg16(dest),
            )
            &&& spec_bus_wrote16(pre.bus, post.bus, sp2, pre.regs.pc)
        } else {
            post.regs == pre.regs && post.bus == pre.bus
        }),
        Instruction::RST(v) => res == Ok::<(), Fault>(()) && spec_same_ctrl(pre, post) && ({
            let sp2 = wrap_add16(pre.regs.sp, -2);
            &&& post.regs == pre.regs.with16(Reg16::SP, sp2).with16(Reg16::PC, v as u16)
            &&& spec_bus_wrote16(pre.bus, post.bus, sp2, pre.regs.pc)
        }),
        Instruction::RET(c) => res == Ok::<(), Fault>(()) && post.bus == pre.bus && spec_same_ctrl(
            pre,
            post,
        ) && (if spec_cond_holds(pre.regs, c) {
            post.regs == pre.regs.with16(Reg16::PC, pre.bus.word_at(pre.regs.sp)).with16(
                Reg16::SP,
                wrap_add16(pre.regs.sp, 2),
            )
        } else {
            post.regs == pre.regs
        }),
        Instruction::RETI => res == Ok::<(), Fault>(()) && post.bus == pre.bus && post.running
            == pre.running && post.mode == pre.mode && post.ime == true && post.regs
            == pre.regs.with16(Reg16::PC, pre.bus.word_at(pre.regs.sp)).with16(
            Reg16::SP,
            wrap_add16(pre.regs.sp, 2),
        ),
    }
}

/// A rotate/shift operation: the target byte and all four flags come from
/// one ALU result, or the invalid-operand fault is surfaced unchanged.
pub open spec fn spec_rot_effect(
    pre: Cpu,
    post: Cpu,
    io: Arg8,
    res: Result<(), Fault>,
    out: AluOut,
) -> bool {
    spec_fault_or(
        pre,
        post,
        res,
        spec_arg8_writable(io),
        spec_wrote8_flags(pre, post, io, out.r, out.z, out.n, out.h, out.c),
    )
}


/// The executable operations of the instruction set, one per
/// Instruction variant, together with the operand accessors and the
/// dispatcher that maps a decoded instruction to its operation. The
/// contracts are stated over the machine state an implementor presents;
/// [`Cpu`] is the interpreter implementation.
pub trait CpuOps {
    /// The machine state this implementor presents to the contracts.
    spec fn as_cpu(&self) -> Cpu;

    /// Reads the value of an 8-bit operand: registers from the register
    /// file, indirect forms through exactly one bus read, immediates as
    /// themselves.
    fn read_arg8(&self, arg: Arg8) -> (v: u8)
        requires
            self.as_cpu().wf(),
        ensures
            v == self.as_cpu().spec_arg8(arg),
    ;

    /// Writes an 8-bit operand. An immediate is not a valid write target:
    /// that is an invalid-operand fault and nothing changes.
    fn write_arg8(&mut self, arg: Arg8, data: u8) -> (res: Result<(), Fault>)
        requires
            old(self).as_cpu().wf(),
        ensures
            final(self).as_cpu().wf(),
            spec_arg8_writable(arg) ==> res == Ok::<(), Fault>(()) && spec_wrote8(
                old(self).as_cpu(),
                final(self).as_cpu(),
                arg,
                data,
            ),
            !spec_arg8_writable(arg) ==> res == Err::<(), Fault>(Fault::InvalidOperand)
                && final(self).as_cpu() == old(self).as_cpu(),
    ;

    /// Reads the value of a 16-bit operand.
    fn read_arg16(&self, arg: Arg16) -> (v: u16)
        requires
            self.as_cpu().wf(),
        ensures
            v == self.as_cpu().spec_arg16(arg),
    ;

    /// Writes a 16-bit operand. An immediate is not a valid write target:
    /// that is an invalid-operand fault and nothing changes.
    fn write_arg16(&mut self, arg: Arg16, data: u16) -> (res: Result<(), Fault>)
        requires
            old(self).as_cpu().wf(),
        ensures
            final(self).as_cpu().wf(),
            spec_arg16_writable(arg) ==> res == Ok::<(), Fault>(()) && spec_wrote16(
                old(self).as_cpu(),
                final(self).as_cpu(),
                arg,
                data,
            ),
            !spec_arg16_writable(arg) ==> res == Err::<(), Fault>(Fault::InvalidOperand)
                && final(self).as_cpu() == old(self).as_cpu(),
    ;

    /// LD: copies the source operand into the destination operand.
    fn ld(&mut self, o: Arg8, i: Arg8) -> (res: Result<(), Fault>)
        requires
            old(self).as_cpu().wf(),
        ensures
            final(self).as_cpu().wf(),
            spec_instr_effect(old(self).as_cpu(), final(self).as_cpu(), Instruction::LD(o, i), res),
    ;

    /// LDD: LD, then HL steps down by one.
    fn ldd(&mut self, o: Arg8, i: Arg8) -> (res: Result<(), Fault>)
        requires
            old(self).as_cpu().wf(),
        ensures
            final(self).as_cpu().wf(),
            spec_instr_effect(old(self).as_cpu(), final(self).as_cpu(), Instruction::LDD(o, i), res),
    ;

    /// LDI: LD, then HL steps up by one.
    fn ldi(&mut self, o: Arg8, i: Arg8) -> (res: Result<(), Fault>)
        requires
            old(self).as_cpu().wf(),
        ensures
            final(self).as_cpu().wf(),
            spec_instr_effect(old(self).as_cpu(), final(self).as_cpu(), Instruction::LDI(o, i), res),
    ;

    /// LDH: the high-RAM load; the addressing layer supplies the 0xFF00
    /// base, the copy itself is an LD.
    fn ldh(&mut self, o: Arg8, i: Arg8) -> (res: Result<(), Fault>)
        requires
            old(self).as_cpu().wf(),
        ensures
            final(self).as_cpu().wf(),
            spec_instr_effect(old(self).as_cpu(), final(self).as_cpu(), Instruction::LDH(o, i), res),
    ;

    /// LD (16-bit): copies the 16-bit source operand into the destination.
    fn ld16(&mut self, o: Arg16, i: Arg16) -> (res: Result<(), Fault>)
        requires
            old(self).as_cpu().wf(),
        ensures
            final(self).as_cpu().wf(),
            spec_instr_effect(old(self).as_cpu(), final(self).as_cpu(), Instruction::LD16(o, i), res),
    ;

    /// LD HL, SP+n: HL receives SP displaced by a signed byte; Z and N are
    /// cleared and H/C come from the low-byte addition alone.
    fn ld16_hlsp(&mut self, offset: i8)
        requires
            old(self).as_cpu().wf(),
        ensures
            final(self).as_cpu().wf(),
            spec_instr_effect(
                old(self).as_cpu(),
                final(self).as_cpu(),
                Instruction::LDHL16(offset),
                Ok::<(), Fault>(()),
            ),
    ;

    /// PUSH: SP steps down by two, then the 16-bit value lands at the new
    /// SP, so the stack grows downward.
    fn push(&mut self, i: Arg16)
        requires
            old(self).as_cpu().wf(),
        ensures
            final(self).as_cpu().wf(),
            spec_instr_effect(old(self).as_cpu(), final(self).as_cpu(), Instruction::PUSH(i), Ok::<(), Fault>(())),
    ;

    /// POP: the 16-bit value at SP is read into the destination, then SP
    /// steps up by two.
    fn pop(&mut self, o: Arg16) -> (res: Result<(), Fault>)
        requires
            old(self).as_cpu().wf(),
        ensures
            final(self).as_cpu().wf(),
            spec_instr_effect(old(self).as_cpu(), final(self).as_cpu(), Instruction::POP(o), res),
    ;

    /// ADD A, operand.
    fn add(&mut self, i: Arg8)
        requires
            old(self).as_cpu().wf(),
        ensures
            final(self).as_cpu().wf(),
            spec_instr_effect(old(self).as_cpu(), final(self).as_cpu(), Instruction::ADD(i), Ok::<(), Fault>(())),
    ;

    /// ADC A, operand: ADD folding in the previous carry.
    fn adc(&mut self, i: Arg8)
        requires
            old(self).as_cpu().wf(),
        ensures
            final(self).as_cpu().wf(),
            spec_instr_effect(old(self).as_cpu(), final(self).as_cpu(), Instruction::ADC(i), Ok::<(), Fault>(())),
    ;

    /// SUB A, operand, with borrow semantics for H and C.
    fn sub(&mut self, i: Arg8)
        requires
            old(self).as_cpu().wf(),
        ensures
            final(self).as_cpu().wf(),
            spec_instr_effect(old(self).as_cpu(), final(self).as_cpu(), Instruction::SUB(i), Ok::<(), Fault>(())),
    ;

    /// SBC A, operand: SUB folding in the previous carry as a borrow.
    fn sbc(&mut self, i: Arg8)
        requires
            old(self).as_cpu().wf(),
        ensures
            final(self).as_cpu().wf(),
            spec_instr_effect(old(self).as_cpu(), final(self).as_cpu(), Instruction::SBC(i), Ok::<(), Fault>(())),
    ;

    /// AND A, operand: Z from the result, H set, N and C cleared.
    fn and(&mut self, i: Arg8)
        requires
            old(self).as_cpu().wf(),
        ensures
            final(self).as_cpu().wf(),
            spec_instr_effect(old(self).as_cpu(), final(self).as_cpu(), Instruction::AND(i), Ok::<(), Fault>(())),
    ;

    /// OR A, operand: Z from the result, N, H and C cleared.
    fn or(&mut self, i: Arg8)
        requires
            old(self).as_cpu().wf(),
        ensures
            final(self).as_cpu().wf(),
            spec_instr_effect(old(self).as_cpu(), final(self).as_cpu(), Instruction::OR(i), Ok::<(), Fault>(())),
    ;

    /// XOR A, operand: Z from the result, N, H and C cleared.
    fn xor(&mut self, i: Arg8)
        requires
            old(self).as_cpu().wf(),
        ensures
            final(self).as_cpu().wf(),
            spec_instr_effect(old(self).as_cpu(), final(self).as_cpu(), Instruction::XOR(i), Ok::<(), Fault>(())),
    ;

    /// CP A, operand: the flags of SUB with the numeric result discarded.
    fn cp(&mut self, i: Arg8)
        requires
            old(self).as_cpu().wf(),
        ensures
            final(self).as_cpu().wf(),
            spec_instr_effect(old(self).as_cpu(), final(self).as_cpu(), Instruction::CP(i), Ok::<(), Fault>(())),
    ;

    /// INC: adds one to the 8-bit operand. C is never touched; H reflects
    /// the carry into bit 4.
    fn inc(&mut self, io: Arg8) -> (res: Result<(), Fault>)
        requires
            old(self).as_cpu().wf(),
        ensures
            final(self).as_cpu().wf(),
            spec_instr_effect(old(self).as_cpu(), final(self).as_cpu(), Instruction::INC(io), res),
    ;

    /// DEC: subtracts one from the 8-bit operand. C is never touched; H
    /// reflects the borrow from bit 4.
    fn dec(&mut self, io: Arg8) -> (res: Result<(), Fault>)
        requires
            old(self).as_cpu().wf(),
        ensures
            final(self).as_cpu().wf(),
            spec_instr_effect(old(self).as_cpu(), final(self).as_cpu(), Instruction::DEC(io), res),
    ;

    /// ADD HL, operand: H is the carry out of bit 11, C the carry out of
    /// bit 15; Z and N are unaffected.
    fn add16(&mut self, i: Arg16)
        requires
            old(self).as_cpu().wf(),
        ensures
            final(self).as_cpu().wf(),
            spec_instr_effect(old(self).as_cpu(), final(self).as_cpu(), Instruction::ADD16(i), Ok::<(), Fault>(())),
    ;

    /// ADD SP, n: SP receives itself displaced by a signed byte; Z and N
    /// are cleared and H/C come from the low-byte addition alone.
    fn add16_sp(&mut self, offset: i8)
        requires
            old(self).as_cpu().wf(),
        ensures
            final(self).as_cpu().wf(),
            spec_instr_effect(
                old(self).as_cpu(),
                final(self).as_cpu(),
                Instruction::ADD16SP(offset),
                Ok::<(), Fault>(()),
            ),
    ;

    /// INC (16-bit): adds one to the operand, wrapping; no flags move.
    fn inc16(&mut self, io: Arg16) -> (res: Result<(), Fault>)
        requires
            old(self).as_cpu().wf(),
        ensures
            final(self).as_cpu().wf(),
            spec_instr_effect(old(self).as_cpu(), final(self).as_cpu(), Instruction::INC16(io), res),
    ;

    /// DEC (16-bit): subtracts one from the operand, wrapping; no flags
    /// move.
    fn dec16(&mut self, io: Arg16) -> (res: Result<(), Fault>)
        requires
            old(self).as_cpu().wf(),
        ensures
            final(self).as_cpu().wf(),
            spec_instr_effect(old(self).as_cpu(), final(self).as_cpu(), Instruction::DEC16(io), res),
    ;

    /// NOP: nothing moves.
    fn nop(&mut self)
        requires
            old(self).as_cpu().wf(),
        ensures
            final(self).as_cpu().wf(),
            spec_instr_effect(old(self).as_cpu(), final(self).as_cpu(), Instruction::NOP, Ok::<(), Fault>(())),
    ;

    /// DAA: corrects the accumulator to packed BCD after an add or
    /// subtract, per nibble, conditioned on N, H and C.
    fn daa(&mut self)
        requires
            old(self).as_cpu().wf(),
        ensures
            final(self).as_cpu().wf(),
            spec_instr_effect(old(self).as_cpu(), final(self).as_cpu(), Instruction::DAA, Ok::<(), Fault>(())),
    ;

    /// CPL: complements the accumulator; N and H are set, Z and C kept.
    fn cpl(&mut self)
        requires
            old(self).as_cpu().wf(),
        ensures
            final(self).as_cpu().wf(),
            spec_instr_effect(old(self).as_cpu(), final(self).as_cpu(), Instruction::CPL, Ok::<(), Fault>(())),
    ;

    /// CCF: complements the carry; N and H are cleared, Z kept.
    fn ccf(&mut self)
        requires
            old(self).as_cpu().wf(),
        ensures
            final(self).as_cpu().wf(),
            spec_instr_effect(old(self).as_cpu(), final(self).as_cpu(), Instruction::CCF, Ok::<(), Fault>(())),
    ;

    /// SCF: sets the carry; N and H are cleared, Z kept.
    fn scf(&mut self)
        requires
            old(self).as_cpu().wf(),
        ensures
            final(self).as_cpu().wf(),
            spec_instr_effect(old(self).as_cpu(), final(self).as_cpu(), Instruction::SCF, Ok::<(), Fault>(())),
    ;

    /// HALT: suspends instruction fetch until an interrupt wakes the core.
    fn halt(&mut self)
        requires
            old(self).as_cpu().wf(),
        ensures
            final(self).as_cpu().wf(),
            spec_instr_effect(old(self).as_cpu(), final(self).as_cpu(), Instruction::HALT, Ok::<(), Fault>(())),
    ;

    /// STOP: suspends instruction fetch until an external wake signal.
    fn stop(&mut self)
        requires
            old(self).as_cpu().wf(),
        ensures
            final(self).as_cpu().wf(),
            spec_instr_effect(old(self).as_cpu(), final(self).as_cpu(), Instruction::STOP, Ok::<(), Fault>(())),
    ;

    /// EI: records the interrupt-enable intent for the interrupt
    /// controller collaborator.
    fn ei(&mut self)
        requires
            old(self).as_cpu().wf(),
        ensures
            final(self).as_cpu().wf(),
            spec_instr_effect(old(self).as_cpu(), final(self).as_cpu(), Instruction::EI, Ok::<(), Fault>(())),
    ;

    /// DI: clears the interrupt-enable intent.
    fn di(&mut self)
        requires
            old(self).as_cpu().wf(),
        ensures
            final(self).as_cpu().wf(),
            spec_instr_effect(old(self).as_cpu(), final(self).as_cpu(), Instruction::DI, Ok::<(), Fault>(())),
    ;

    /// RLC: rotates left; the outgoing high bit re-enters at bit 0 and
    /// becomes the carry.
    fn rlc(&mut self, io: Arg8) -> (res: Result<(), Fault>)
        requires
            old(self).as_cpu().wf(),
        ensures
            final(self).as_cpu().wf(),
            spec_instr_effect(old(self).as_cpu(), final(self).as_cpu(), Instruction::RLC(io), res),
    ;

    /// RL: rotates left through the carry: the previous carry enters at
    /// bit 0 — it is not RLC.
    fn rl(&mut self, io: Arg8) -> (res: Result<(), Fault>)
        requires
            old(self).as_cpu().wf(),
        ensures
            final(self).as_cpu().wf(),
            spec_instr_effect(old(self).as_cpu(), final(self).as_cpu(), Instruction::RL(io), res),
    ;

    /// RRC: rotates right; the outgoing low bit re-enters at bit 7 and
    /// becomes the carry.
    fn rrc(&mut self, io: Arg8) -> (res: Result<(), Fault>)
        requires
            old(self).as_cpu().wf(),
        ensures
            final(self).as_cpu().wf(),
            spec_instr_effect(old(self).as_cpu(), final(self).as_cpu(), Instruction::RRC(io), res),
    ;

    /// RR: rotates right through the carry: the previous carry enters at
    /// bit 7 — it is not RRC.
    fn rr(&mut self, io: Arg8) -> (res: Result<(), Fault>)
        requires
            old(self).as_cpu().wf(),
        ensures
            final(self).as_cpu().wf(),
            spec_instr_effect(old(self).as_cpu(), final(self).as_cpu(), Instruction::RR(io), res),
    ;

    /// SLA: shifts left, zero entering at bit 0; bit 7 becomes the carry.
    fn sla(&mut self, io: Arg8) -> (res: Result<(), Fault>)
        requires
            old(self).as_cpu().wf(),
        ensures
            final(self).as_cpu().wf(),
            spec_instr_effect(old(self).as_cpu(), final(self).as_cpu(), Instruction::SLA(io), res),
    ;

    /// SRA: shifts right preserving the sign bit; bit 0 becomes the carry.
    fn sra(&mut self, io: Arg8) -> (res: Result<(), Fault>)
        requires
            old(self).as_cpu().wf(),
        ensures
            final(self).as_cpu().wf(),
            spec_instr_effect(old(self).as_cpu(), final(self).as_cpu(), Instruction::SRA(io), res),
    ;

    /// SWAP: exchanges the high and low nibbles; Z from the result, N, H
    /// and C cleared.
    fn swap(&mut self, io: Arg8) -> (res: Result<(), Fault>)
        requires
            old(self).as_cpu().wf(),
        ensures
            final(self).as_cpu().wf(),
            spec_instr_effect(old(self).as_cpu(), final(self).as_cpu(), Instruction::SWAP(io), res),
    ;

    /// SRL: shifts right, zero entering at bit 7; bit 0 becomes the carry.
    fn srl(&mut self, io: Arg8) -> (res: Result<(), Fault>)
        requires
            old(self).as_cpu().wf(),
        ensures
            final(self).as_cpu().wf(),
            spec_instr_effect(old(self).as_cpu(), final(self).as_cpu(), Instruction::SRL(io), res),
    ;

    /// BIT b, operand: Z is set exactly when bit b is zero; H is set, N
    /// cleared, C untouched, and the operand itself never moves.
    fn bit(&mut self, bit_id: u8, i: Arg8)
        requires
            old(self).as_cpu().wf(),
            bit_id < 8,
        ensures
            final(self).as_cpu().wf(),
            spec_instr_effect(
                old(self).as_cpu(),
                final(self).as_cpu(),
                Instruction::BIT(bit_id, i),
                Ok::<(), Fault>(()),
            ),
    ;

    /// SET b, operand: forces bit b to one; no flags move.
    fn set(&mut self, bit_id: u8, io: Arg8) -> (res: Result<(), Fault>)
        requires
            old(self).as_cpu().wf(),
            bit_id < 8,
        ensures
            final(self).as_cpu().wf(),
            spec_instr_effect(old(self).as_cpu(), final(self).as_cpu(), Instruction::SET(bit_id, io), res),
    ;

    /// RES b, operand: forces bit b to zero; no flags move.
    fn res(&mut self, bit_id: u8, io: Arg8) -> (r: Result<(), Fault>)
        requires
            old(self).as_cpu().wf(),
            bit_id < 8,
        ensures
            final(self).as_cpu().wf(),
            spec_instr_effect(old(self).as_cpu(), final(self).as_cpu(), Instruction::RES(bit_id, io), r),
    ;

    /// JP: transfers to the destination when the predicate holds.
    fn jp(&mut self, cond: Cond, dest: Arg16)
        requires
            old(self).as_cpu().wf(),
        ensures
            final(self).as_cpu().wf(),
            spec_instr_effect(
                old(self).as_cpu(),
                final(self).as_cpu(),
                Instruction::JP(cond, dest),
                Ok::<(), Fault>(()),
            ),
    ;

    /// JR: adds a signed displacement to PC when the predicate holds.
    fn jr(&mut self, cond: Cond, offset: i8)
        requires
            old(self).as_cpu().wf(),
        ensures
            final(self).as_cpu().wf(),
            spec_instr_effect(
                old(self).as_cpu(),
                final(self).as_cpu(),
                Instruction::JR(cond, offset),
                Ok::<(), Fault>(()),
            ),
    ;

    /// CALL: when the predicate holds, pushes the return address (the
    /// current PC) and transfers to the destination.
    fn call(&mut self, cond: Cond, dest: Arg16)
        requires
            old(self).as_cpu().wf(),
        ensures
            final(self).as_cpu().wf(),
            spec_instr_effect(
                old(self).as_cpu(),
                final(self).as_cpu(),
                Instruction::CALL(cond, dest),
                Ok::<(), Fault>(()),
            ),
    ;

    /// RST: pushes the return address and transfers to the fixed low
    /// vector.
    fn rst(&mut self, offset: u8)
        requires
            old(self).as_cpu().wf(),
        ensures
            final(self).as_cpu().wf(),
            spec_instr_effect(old(self).as_cpu(), final(self).as_cpu(), Instruction::RST(offset), Ok::<(), Fault>(())),
    ;

    /// RET: when the predicate holds, pops an address into PC.
    fn ret(&mut self, cond: Cond)
        requires
            old(self).as_cpu().wf(),
        ensures
            final(self).as_cpu().wf(),
            spec_instr_effect(old(self).as_cpu(), final(self).as_cpu(), Instruction::RET(cond), Ok::<(), Fault>(())),
    ;

    /// RETI: RET that additionally re-enables the interrupt intent.
    fn reti(&mut self)
        requires
            old(self).as_cpu().wf(),
        ensures
            final(self).as_cpu().wf(),
            spec_instr_effect(old(self).as_cpu(), final(self).as_cpu(), Instruction::RETI, Ok::<(), Fault>(())),
    ;

    /// Maps one decoded instruction to its executing operation and applies
    /// its effect on registers, flags and memory.
    fn dispatch(&mut self, instr: Instruction) -> (res: Result<(), Fault>)
        requires
            old(self).as_cpu().wf(),
            spec_instr_wf(instr),
        ensures
            final(self).as_cpu().wf(),
            spec_instr_effect(old(self).as_cpu(), final(self).as_cpu(), instr, res),
    ;
}

impl CpuOps for Cpu {
    open spec fn as_cpu(&self) -> Cpu {
        *self
    }

    fn read_arg8(&self, arg: Arg8) -> (v: u8)
    {
        match arg {
            Arg8::Reg(r) => self.regs.read8(r),
            Arg8::Ind(ia) => {
                let addr = get_address(self, &ia);
                self.bus.read_u8(addr)
            },
            Arg8::Imm(v) => v,
        }
    }

    fn write_arg8(&mut self, arg: Arg8, data: u8) -> (res: Result<(), Fault>)
    {
        match arg {
            Arg8::Reg(r) => {
                self.regs.write8(r, data);
                Ok(())
            },
            Arg8::Ind(ia) => {
                let addr = get_address(self, &ia);
                self.bus.write_u8(addr, data);
                Ok(())
            },
            Arg8::Imm(_) => Err(Fault::InvalidOperand),
        }
    }

    fn read_arg16(&self, arg: Arg16) -> (v: u16)
    {
        match arg {
            Arg16::Reg(r) => self.regs.read16(r),
            Arg16::Ind(ia) => {
                let addr = get_address(self, &ia);
                self.bus.read_u16(addr)
            },
            Arg16::Imm(v) => v,
        }
    }

    fn write_arg16(&mut self, arg: Arg16, data: u16) -> (res: Result<(), Fault>)
    {
        match arg {
            Arg16::Reg(r) => {
                self.regs.write16(r, data);
                Ok(())
            },
            Arg16::Ind(ia) => {
                let addr = get_address(self, &ia);
                self.bus.write_u16(addr, data);
                Ok(())
            },
            Arg16::Imm(_) => Err(Fault::InvalidOperand),
        }
    }

    fn ld(&mut self, o: Arg8, i: Arg8) -> (res: Result<(), Fault>)
    {
        let value = self.read_arg8(i);
        self.write_arg8(o, value)
    }

    fn ldd(&mut self, o: Arg8, i: Arg8) -> (res: Result<(), Fault>)
    {
        let value = self.read_arg8(i);
        match self.write_arg8(o, value) {
            Ok(()) => {},
            Err(f) => {
                return Err(f);
            },
        }
        let hl = self.regs.read16(Reg16::HL);
        let hl2 = wrapping_dec16(hl);
        self.regs.write16(Reg16::HL, hl2);
        Ok(())
    }

    fn ldi(&mut self, o: Arg8, i: Arg8) -> (res: Result<(), Fault>)
    {
        let value = self.read_arg8(i);
        match self.write_arg8(o, value) {
            Ok(()) => {},
            Err(f) => {
                return Err(f);
            },
        }
        let hl = self.regs.read16(Reg16::HL);
        let hl2 = wrapping_inc16(hl);
        self.regs.write16(Reg16::HL, hl2);
        Ok(())
    }

    fn ldh(&mut self, o: Arg8, i: Arg8) -> (res: Result<(), Fault>)
    {
        let value = self.read_arg8(i);
        self.write_arg8(o, value)
    }

    fn ld16(&mut self, o: Arg16, i: Arg16) -> (res: Result<(), Fault>)
    {
        let value = self.read_arg16(i);
        self.write_arg16(o, value)
    }

    fn ld16_hlsp(&mut self, offset: i8)
    {
        let sp = self.regs.sp;
        let u = to_unsigned8(offset);
        let target = add_signed16(sp, offset);
        let hflag = (sp % 16) + ((u % 16) as u16) >= 16;
        let cflag = (sp % 256) + (u as u16) >= 256;
        self.regs.write16(Reg16::HL, target);
        self.regs.set_flags(false, false, hflag, cflag);
    }

    fn push(&mut self, i: Arg16)
    {
        let content = self.read_arg16(i);
        let sp2 = wrapping_sub2_16(self.regs.sp);
        self.regs.sp = sp2;
        self.bus.write_u16(sp2, content);
    }

    fn pop(&mut self, o: Arg16) -> (res: Result<(), Fault>)
    {
        let value = self.bus.read_u16(self.regs.sp);
        match self.write_arg16(o, value) {
            Ok(()) => {},
            Err(f) => {
                return Err(f);
            },
        }
        let sp = self.regs.sp;
        self.regs.sp = wrapping_add2_16(sp);
        Ok(())
    }

    fn add(&mut self, i: Arg8)
    {
        let a = self.regs.a;
        let v = self.read_arg8(i);
        let sum: u16 = a as u16 + v as u16;
        let r = (sum % 256) as u8;
        self.regs.a = r;
        self.regs.set_flags(r == 0, false, (a % 16) + (v % 16) >= 16, sum >= 256);
    }

    fn adc(&mut self, i: Arg8)
    {
        let a = self.regs.a;
        let cin = self.regs.get_flag(Flag::C);
        let v = self.read_arg8(i);
        let cinv: u16 = if cin {
            1
        } else {
            0
        };
        let sum: u16 = a as u16 + v as u16 + cinv;
        let r = (sum % 256) as u8;
        self.regs.a = r;
        self.regs.set_flags(
            r == 0,
            false,
            ((a % 16) as u16) + ((v % 16) as u16) + cinv >= 16,
            sum >= 256,
        );
    }

    fn sub(&mut self, i: Arg8)
    {
        let a = self.regs.a;
        let v = self.read_arg8(i);
        let d: u16 = 256 + a as u16 - v as u16;
        let r = (d % 256) as u8;
        self.regs.a = r;
        self.regs.set_flags(r == 0, true, (a % 16) < (v % 16), (a as u16) < (v as u16));
    }

    fn sbc(&mut self, i: Arg8)
    {
        let a = self.regs.a;
        let bin = self.regs.get_flag(Flag::C);
        let v = self.read_arg8(i);
        let binv: u16 = if bin {
            1
        } else {
            0
        };
        let d: u16 = 256 + a as u16 - v as u16 - binv;
        let r = (d % 256) as u8;
        self.regs.a = r;
        self.regs.set_flags(
            r == 0,
            true,
            ((a % 16) as u16) < ((v % 16) as u16) + binv,
            (a as u16) < (v as u16) + binv,
        );
    }

    fn and(&mut self, i: Arg8)
    {
        let v = self.read_arg8(i);
        let r = self.regs.a & v;
        self.regs.a = r;
        self.regs.set_flags(r == 0, false, true, false);
    }

    fn or(&mut self, i: Arg8)
    {
        let v = self.read_arg8(i);
        let r = self.regs.a | v;
        self.regs.a = r;
        self.regs.set_flags(r == 0, false, false, false);
    }

    fn xor(&mut self, i: Arg8)
    {
        let v = self.read_arg8(i);
        let r = self.regs.a ^ v;
        self.regs.a = r;
        self.regs.set_flags(r == 0, false, false, false);
    }

    fn cp(&mut self, i: Arg8)
    {
        let a = self.regs.a;
        let v = self.read_arg8(i);
        let d: u16 = 256 + a as u16 - v as u16;
        let r = (d % 256) as u8;
        self.regs.set_flags(r == 0, true, (a % 16) < (v % 16), (a as u16) < (v as u16));
    }

    fn inc(&mut self, io: Arg8) -> (res: Result<(), Fault>)
    {
        let x = self.read_arg8(io);
        let carry = self.regs.get_flag(Flag::C);
        let r = if x == 255 {
            0
        } else {
            x + 1
        };
        match self.write_arg8(io, r) {
            Ok(()) => {},
            Err(f) => {
                return Err(f);
            },
        }
        self.regs.set_flags(r == 0, false, x % 16 == 15, carry);
        Ok(())
    }

    fn dec(&mut self, io: Arg8) -> (res: Result<(), Fault>)
    {
        let x = self.read_arg8(io);
        let carry = self.regs.get_flag(Flag::C);
        let r = if x == 0 {
            255
        } else {
            x - 1
        };
        match self.write_arg8(io, r) {
            Ok(()) => {},
            Err(f) => {
                return Err(f);
            },
        }
        self.regs.set_flags(r == 0, true, x % 16 == 0, carry);
        Ok(())
    }

    fn add16(&mut self, i: Arg16)
    {
        let hl = self.regs.read16(Reg16::HL);
        let v = self.read_arg16(i);
        let z = self.regs.get_flag(Flag::Z);
        let n = self.regs.get_flag(Flag::N);
        let sum: u32 = hl as u32 + v as u32;
        let r = (sum % 65536) as u16;
        self.regs.write16(Reg16::HL, r);
        self.regs.set_flags(z, n, (hl % 4096) + (v % 4096) >= 4096, sum >= 65536);
    }

    fn add16_sp(&mut self, offset: i8)
    {
        let sp = self.regs.sp;
        let u = to_unsigned8(offset);
        let target = add_signed16(sp, offset);
        let hflag = (sp % 16) + ((u % 16) as u16) >= 16;
        let cflag = (sp % 256) + (u as u16) >= 256;
        self.regs.sp = target;
        self.regs.set_flags(false, false, hflag, cflag);
    }

    fn inc16(&mut self, io: Arg16) -> (res: Result<(), Fault>)
    {
        let v = self.read_arg16(io);
        let r = wrapping_inc16(v);
        self.write_arg16(io, r)
    }

    fn dec16(&mut self, io: Arg16) -> (res: Result<(), Fault>)
    {
        let v = self.read_arg16(io);
        let r = wrapping_dec16(v);
        self.write_arg16(io, r)
    }

    fn nop(&mut self)
    {
    }

    fn daa(&mut self)
    {
        let a = self.regs.a;
        let n = self.regs.get_flag(Flag::N);
        let h = self.regs.get_flag(Flag::H);
        let c = self.regs.get_flag(Flag::C);
        if !n {
            let hi_adjust = c || a > 0x99;
            let a1: u16 = if hi_adjust {
                (a as u16 + 0x60) % 256
            } else {
                a as u16
            };
            let lo_adjust = h || a % 16 > 9;
            let a2: u8 = (if lo_adjust {
                (a1 + 0x06) % 256
            } else {
                a1
            }) as u8;
            self.regs.a = a2;
            self.regs.set_flags(a2 == 0, n, false, hi_adjust);
        } else {
            let a1: u16 = if c {
                (a as u16 + 256 - 0x60) % 256
            } else {
                a as u16
            };
            let a2: u8 = (if h {
                (a1 + 256 - 0x06) % 256
            } else {
                a1
            }) as u8;
            self.regs.a = a2;
            self.regs.set_flags(a2 == 0, n, false, c);
        }
    }

    fn cpl(&mut self)
    {
        let z = self.regs.get_flag(Flag::Z);
        let c = self.regs.get_flag(Flag::C);
        self.regs.a = !self.regs.a;
        self.regs.set_flags(z, true, true, c);
    }

    fn ccf(&mut self)
    {
        let z = self.regs.get_flag(Flag::Z);
        let c = self.regs.get_flag(Flag::C);
        self.regs.set_flags(z, false, false, !c);
    }

    fn scf(&mut self)
    {
        let z = self.regs.get_flag(Flag::Z);
        self.regs.set_flags(z, false, false, true);
    }

    fn halt(&mut self)
    {
        self.mode = RunState::Halted;
    }

    fn stop(&mut self)
    {
        self.mode = RunState::Stopped;
    }

    fn ei(&mut self)
    {
        self.ime = true;
    }

    fn di(&mut self)
    {
        self.ime = false;
    }

    fn rlc(&mut self, io: Arg8) -> (res: Result<(), Fault>)
    {
        let x = self.read_arg8(io);
        let cflag = x >= 128;
        let r = (((x as u16) * 2) % 256) as u8 + x / 128;
        match self.write_arg8(io, r) {
            Ok(()) => {},
            Err(f) => {
                return Err(f);
            },
        }
        self.regs.set_flags(r == 0, false, false, cflag);
        Ok(())
    }

    fn rl(&mut self, io: Arg8) -> (res: Result<(), Fault>)
    {
        let cin = self.regs.get_flag(Flag::C);
        let x = self.read_arg8(io);
        let cflag = x >= 128;
        let r = (((x as u16) * 2) % 256) as u8 + (if cin {
            1
        } else {
            0
        });
        match self.write_arg8(io, r) {
            Ok(()) => {},
            Err(f) => {
                return Err(f);
            },
        }
        self.regs.set_flags(r == 0, false, false, cflag);
        Ok(())
    }

    fn rrc(&mut self, io: Arg8) -> (res: Result<(), Fault>)
    {
        let x = self.read_arg8(io);
        let cflag = x % 2 == 1;
        let r = x / 2 + (x % 2) * 128;
        match self.write_arg8(io, r) {
            Ok(()) => {},
            Err(f) => {
                return Err(f);
            },
        }
        self.regs.set_flags(r == 0, false, false, cflag);
        Ok(())
    }

    fn rr(&mut self, io: Arg8) -> (res: Result<(), Fault>)
    {
        let cin = self.regs.get_flag(Flag::C);
        let x = self.read_arg8(io);
        let cflag = x % 2 == 1;
        let r = x / 2 + (if cin {
            128
        } else {
            0
        });
        match self.write_arg8(io, r) {
            Ok(()) => {},
            Err(f) => {
                return Err(f);
            },
        }
        self.regs.set_flags(r == 0, false, false, cflag);
        Ok(())
    }

    fn sla(&mut self, io: Arg8) -> (res: Result<(), Fault>)
    {
        let x = self.read_arg8(io);
        let cflag = x >= 128;
        let r = (((x as u16) * 2) % 256) as u8;
        match self.write_arg8(io, r) {
            Ok(()) => {},
            Err(f) => {
                return Err(f);
            },
        }
        self.regs.set_flags(r == 0, false, false, cflag);
        Ok(())
    }

    fn sra(&mut self, io: Arg8) -> (res: Result<(), Fault>)
    {
        let x = self.read_arg8(io);
        let cflag = x % 2 == 1;
        let r = x / 2 + (x / 128) * 128;
        match self.write_arg8(io, r) {
            Ok(()) => {},
            Err(f) => {
                return Err(f);
            },
        }
        self.regs.set_flags(r == 0, false, false, cflag);
        Ok(())
    }

    fn swap(&mut self, io: Arg8) -> (res: Result<(), Fault>)
    {
        let x = self.read_arg8(io);
        let r = (x % 16) * 16 + x / 16;
        match self.write_arg8(io, r) {
            Ok(()) => {},
            Err(f) => {
                return Err(f);
            },
        }
        self.regs.set_flags(r == 0, false, false, false);
        Ok(())
    }

    fn srl(&mut self, io: Arg8) -> (res: Result<(), Fault>)
    {
        let x = self.read_arg8(io);
        let cflag = x % 2 == 1;
        let r = x / 2;
        match self.write_arg8(io, r) {
            Ok(()) => {},
            Err(f) => {
                return Err(f);
            },
        }
        self.regs.set_flags(r == 0, false, false, cflag);
        Ok(())
    }

    fn bit(&mut self, bit_id: u8, i: Arg8)
    {
        let x = self.read_arg8(i);
        let z = !test_bit(x, bit_id);
        let c = self.regs.get_flag(Flag::C);
        self.regs.set_flags(z, false, true, c);
    }

    fn set(&mut self, bit_id: u8, io: Arg8) -> (res: Result<(), Fault>)
    {
        let x = self.read_arg8(io);
        let r = with_bit(x, bit_id, true);
        self.write_arg8(io, r)
    }

    fn res(&mut self, bit_id: u8, io: Arg8) -> (r: Result<(), Fault>)
    {
        let x = self.read_arg8(io);
        let v = with_bit(x, bit_id, false);
        self.write_arg8(io, v)
    }

    fn jp(&mut self, cond: Cond, dest: Arg16)
    {
        let taken = self.check_cond(cond);
        if taken {
            let target = self.read_arg16(dest);
            self.regs.pc = target;
        }
    }

    fn jr(&mut self, cond: Cond, offset: i8)
    {
        let taken = self.check_cond(cond);
        if taken {
            self.regs.pc = add_signed16(self.regs.pc, offset);
        }
    }

    fn call(&mut self, cond: Cond, dest: Arg16)
    {
        let taken = self.check_cond(cond);
        if taken {
            let target = self.read_arg16(dest);
            let ret_addr = self.regs.pc;
            let sp2 = wrapping_sub2_16(self.regs.sp);
            self.regs.sp = sp2;
            self.bus.write_u16(sp2, ret_addr);
            self.regs.pc = target;
        }
    }

    fn rst(&mut self, offset: u8)
    {
        let ret_addr = self.regs.pc;
        let sp2 = wrapping_sub2_16(self.regs.sp);
        self.regs.sp = sp2;
        self.bus.write_u16(sp2, ret_addr);
        self.regs.pc = offset as u16;
    }

    fn ret(&mut self, cond: Cond)
    {
        let taken = self.check_cond(cond);
        if taken {
            let target = self.bus.read_u16(self.regs.sp);
            self.regs.sp = wrapping_add2_16(self.regs.sp);
            self.regs.pc = target;
        }
    }

    fn reti(&mut self)
    {
        let target = self.bus.read_u16(self.regs.sp);
        self.regs.sp = wrapping_add2_16(self.regs.sp);
        self.regs.pc = target;
        self.ime = true;
    }

    fn dispatch(&mut self, instr: Instruction) -> (res: Result<(), Fault>)
    {
        match instr {
            Instruction::LD(o, i) => self.ld(o, i),
            Instruction::LDD(o, i) => self.ldd(o, i),
            Instruction::LDI(o, i) => self.ldi(o, i),
            Instruction::LDH(o, i) => self.ldh(o, i),
            Instruction::LD16(o, i) => self.ld16(o, i),
            Instruction::LDHL16(v) => {
                self.ld16_hlsp(v);
                Ok(())
            },
            Instruction::PUSH(i) => {
                self.push(i);
                Ok(())
            },
            Instruction::POP(o) => self.pop(o),
            Instruction::ADD(i) => {
                self.add(i);
                Ok(())
            },
            Instruction::ADC(i) => {
                self.adc(i);
                Ok(())
            },
            Instruction::SUB(i) => {
                self.sub(i);
                Ok(())
            },
            Instruction::SBC(i) => {
                self.sbc(i);
                Ok(())
            },
            Instruction::AND(i) => {
                self.and(i);
                Ok(())
            },
            Instruction::OR(i) => {
                self.or(i);
                Ok(())
            },
            Instruction::XOR(i) => {
                self.xor(i);
                Ok(())
            },
            Instruction::CP(i) => {
                self.cp(i);
                Ok(())
            },
            Instruction::INC(io) => self.inc(io),
            Instruction::DEC(io) => self.dec(io),
            Instruction::ADD16(i) => {
                self.add16(i);
                Ok(())
            },
            Instruction::ADD16SP(v) => {
                self.add16_sp(v);
                Ok(())
            },
            Instruction::INC16(io) => self.inc16(io),
            Instruction::DEC16(io) => self.dec16(io),
            Instruction::NOP => {
                self.nop();
                Ok(())
            },
            Instruction::DAA => {
                self.daa();
                Ok(())
            },
            Instruction::CPL => {
                self.cpl();
                Ok(())
            },
            Instruction::CCF => {
                self.ccf();
                Ok(())
            },
            Instruction::SCF => {
                self.scf();
                Ok(())
            },
            Instruction::HALT => {
                self.halt();
                Ok(())
            },
            Instruction::STOP => {
                self.stop();
                Ok(())
            },
            Instruction::EI => {
                self.ei();
                Ok(())
            },
            Instruction::DI => {
                self.di();
                Ok(())
            },
            Instruction::RLC(io) => self.rlc(io),
            Instruction::RL(io) => self.rl(io),
            Instruction::RRC(io) => self.rrc(io),
            Instruction::RR(io) => self.rr(io),
            Instruction::SLA(io) => self.sla(io),
            Instruction::SRA(io) => self.sra(io),
            Instruction::SWAP(io) => self.swap(io),
            Instruction::SRL(io) => self.srl(io),
            Instruction::BIT(b, i) => {
                self.bit(b, i);
                Ok(())
            },
            Instruction::SET(b, io) => self.set(b, io),
            Instruction::RES(b, io) => self.res(b, io),
            Instruction::JP(c, d) => {
                self.jp(c, d);
                Ok(())
            },
            Instruction::JR(c, v) => {
                self.jr(c, v);
                Ok(())
            },
            Instruction::CALL(c, d) => {
                self.call(c, d);
                Ok(())
            },
            Instruction::RST(v) => {
                self.rst(v);
                Ok(())
            },
            Instruction::RET(c) => {
                self.ret(c);
                Ok(())
            },
            Instruction::RETI => {
                self.reti();
                Ok(())
            },
        }
    }
}

impl Cpu {
    /// Whether the guarding flag predicate currently holds.
    pub fn check_cond(&self, c: Cond) -> (b: bool)
        requires
            self.wf(),
        ensures
            b == spec_cond_holds(self.regs, c),
    {
        match c {
            Cond::Always => true,
            Cond::Z => self.regs.get_flag(Flag::Z),
            Cond::NZ => !self.regs.get_flag(Flag::Z),
            Cond::C => self.regs.get_flag(Flag::C),
            Cond::NC => !self.regs.get_flag(Flag::C),
        }
    }












































    /// JP (HL): the unconditional register-indirect jump.
    pub fn jp_hl(&mut self)
        requires
            old(self).wf(),
        ensures
            final(self).wf(),
            spec_instr_effect(
                *old(self),
                *final(self),
                Instruction::JP(Cond::Always, Arg16::Reg(Reg16::HL)),
                Ok::<(), Fault>(()),
            ),
    {
        self.jp(Cond::Always, Arg16::Reg(Reg16::HL));
    }





}


/// What one fetch/decode cycle does from a machine state: the decoded
/// instruction (or the decode fault of an undefined opcode) and the PC
/// after exactly the consumed bytes.
pub open spec fn spec_fetch(pre: Cpu) -> (Result<Instruction, Fault>, u16) {
    let pc0 = pre.regs.pc;
    let b0 = pre.bus.byte_at(pc0);
    let pc1 = wrap_add16(pc0, 1);
    match spec_decode_op(b0) {
        Err(f) => (Err(f), pc1),
        Ok(c) => match c {
            Cont::Complete(i) => (Ok(i), pc1),
            Cont::NeedCb => (Ok(spec_cb_instr(pre.bus.byte_at(pc1))), wrap_add16(pc1, 1)),
            Cont::NeedByte(p) => (Ok(spec_finish8(p, pre.bus.byte_at(pc1))), wrap_add16(pc1, 1)),
            Cont::NeedLo(p) => ({
                let lo = pre.bus.byte_at(pc1);
                let pc2 = wrap_add16(pc1, 1);
                let hi = pre.bus.byte_at(pc2);
                (Ok(spec_finish16(p, lo, hi)), wrap_add16(pc2, 1))
            }),
            _ => (Err(Fault::Decode(b0)), pc1),
        },
    }
}

impl Cpu {
    /// Assembles one full instruction: fetches the opcode byte and however
    /// many trailing bytes the opcode needs, resuming the decode state
    /// machine with each byte. An undefined opcode is a decode fault, not
    /// a silent NOP.
    pub fn fetch_instr(&mut self) -> (res: Result<Instruction, Fault>)
        requires
            old(self).wf(),
        ensures
            final(self).wf(),
            res == spec_fetch(*old(self)).0,
            final(self).regs == old(self).regs.with16(Reg16::PC, spec_fetch(*old(self)).1),
            final(self).bus == old(self).bus,
            spec_same_ctrl(*old(self), *final(self)),
            res matches Ok(i) ==> spec_instr_wf(i),
    {
        let b0 = self.fetch_word();
        proof {
            lemma_decode_op_shape(b0);
        }
        let st = match decode_step(Cont::NeedOpcode, b0) {
            Ok(s) => s,
            Err(f) => {
                return Err(f);
            },
        };
        match st {
            Cont::Complete(i) => {
                proof {
                    lemma_decode_wf(b0, 0, Pend8::AddSp, Pend16::StoreSp, 0, 0);
                }
                Ok(i)
            },
            Cont::NeedCb => {
                let b1 = self.fetch_word();
                proof {
                    lemma_decode_wf(b0, b1, Pend8::AddSp, Pend16::StoreSp, 0, 0);
                }
                Ok(cb_instr(b1))
            },
            Cont::NeedByte(p) => {
                let b1 = self.fetch_word();
                proof {
                    lemma_decode_wf(b0, b1, p, Pend16::StoreSp, 0, 0);
                }
                Ok(finish8(p, b1))
            },
            Cont::NeedLo(p) => {
                let lo = self.fetch_word();
                let hi = self.fetch_word();
                proof {
                    lemma_decode_wf(b0, 0, Pend8::AddSp, p, lo, hi);
                }
                Ok(finish16(p, lo, hi))
            },
            Cont::NeedOpcode => {
                proof {
                    assert(false);
                }
                Err(Fault::Decode(b0))
            },
            Cont::NeedHi(_, _) => {
                proof {
                    assert(false);
                }
                Err(Fault::Decode(b0))
            },
        }
    }


    /// Performs exactly one fetch/decode/dispatch cycle and reports
    /// whether the machine should keep running. A machine already stopped
    /// reports so; a suspended core performs nothing until woken; a decode
    /// or invalid-operand fault stops the machine and is surfaced, with no
    /// partially applied instruction effect.
    pub fn tick(&mut self) -> (res: Result<bool, Fault>)
        requires
            old(self).wf(),
        ensures
            final(self).wf(),
            !old(self).running ==> *final(self) == *old(self) && res == Ok::<bool, Fault>(false),
            old(self).running && old(self).mode != RunState::Running ==> *final(self) == *old(self)
                && res == Ok::<bool, Fault>(true),
            old(self).running && old(self).mode == RunState::Running ==> ({
                let ir = spec_fetch(*old(self)).0;
                let pc2 = spec_fetch(*old(self)).1;
                let mid = old(self).with_regs(old(self).regs.with16(Reg16::PC, pc2));
                match ir {
                    Err(f) => res == Err::<bool, Fault>(f) && *final(self) == mid.stopped(),
                    Ok(i) => match res {
                        Ok(b) => b == true && spec_instr_effect(
                            mid,
                            *final(self),
                            i,
                            Ok::<(), Fault>(()),
                        ),
                        Err(f) => spec_instr_effect(mid, mid, i, Err::<(), Fault>(f))
                            && *final(self) == mid.stopped(),
                    },
                }
            }),
    {
        if !self.running {
            return Ok(false);
        }
        match self.mode {
            RunState::Running => {},
            _ => {
                return Ok(true);
            },
        }
        let instr = match self.fetch_instr() {
            Ok(i) => i,
            Err(f) => {
                self.running = false;
                return Err(f);
            },
        };
        match self.dispatch(instr) {
            Ok(()) => Ok(true),
            Err(f) => {
                self.running = false;
                Err(f)
            },
        }
    }

    /// Delivers the external wake signal: a suspended core resumes
    /// fetching; a running core is unaffected. This is the entry point for
    /// the interrupt-controller collaborator.
    pub fn wake(&mut self)
        requires
            old(self).wf(),
        ensures
            final(self).wf(),
            final(self).regs == old(self).regs,
            final(self).bus == old(self).bus,
            final(self).running == old(self).running,
            final(self).ime == old(self).ime,
            final(self).mode == RunState::Running,
    {
        self.mode = RunState::Running;
    }

    /// A read-only diagnostic dump of all registers and flags for the
    /// outer logging layers; no side effects.
    pub fn dump_state(&self) -> (s: CpuState)
        requires
            self.wf(),
        ensures
            s.a == self.regs.a,
            s.f == self.regs.f,
            s.b == self.regs.b,
            s.c == self.regs.c,
            s.d == self.regs.d,
            s.e == self.regs.e,
            s.h == self.regs.h,
            s.l == self.regs.l,
            s.sp == self.regs.sp,
            s.pc == self.regs.pc,
            s.zf == self.regs.flag(Flag::Z),
            s.nf == self.regs.flag(Flag::N),
            s.hf == self.regs.flag(Flag::H),
            s.cf == self.regs.flag(Flag::C),
            s.running == self.running,
    {
        CpuState {
            a: self.regs.a,
            f: self.regs.f,
            b: self.regs.b,
            c: self.regs.c,
            d: self.regs.d,
            e: self.regs.e,
            h: self.regs.h,
            l: self.regs.l,
            sp: self.regs.sp,
            pc: self.regs.pc,
            zf: self.regs.get_flag(Flag::Z),
            nf: self.regs.get_flag(Flag::N),
            hf: self.regs.get_flag(Flag::H),
            cf: self.regs.get_flag(Flag::C),
            running: self.running,
        }
    }
}

} // verus!
