use vstd::prelude::*;

verus! {

/// One of the eight 8-bit registers.
#[derive(Clone, Copy, Debug, PartialEq, Eq, Structural)]
pub enum Reg8 {
    A,
    B,
    C,
    D,
    E,
    F,
    H,
    L,
}

/// A 16-bit register: one of the four pairs, the stack pointer or the
/// program counter.
#[derive(Clone, Copy, Debug, PartialEq, Eq, Structural)]
pub enum Reg16 {
    AF,
    BC,
    DE,
    HL,
    SP,
    PC,
}

/// One of the four flag bits held in the high nibble of register F:
/// zero, subtract, half-carry and carry.
#[derive(Clone, Copy, Debug, PartialEq, Eq, Structural)]
pub enum Flag {
    Z,
    N,
    H,
    C,
}

/// The register file.
///
/// Registers B/C, D/E, H/L and A/F are also addressable as the 16-bit pairs
/// BC, DE, HL and AF, formed as `high * 256 + low`. The low nibble of F is
/// architecturally always zero; every write that reaches F masks it, and
/// [`Registers::wf`] records the invariant.
#[derive(Clone, Copy, Debug, PartialEq, Eq, Structural)]
pub struct Registers {
    pub a: u8,
    pub f: u8,
    pub b: u8,
    pub c: u8,
    pub d: u8,
    pub e: u8,
    pub h: u8,
    pub l: u8,
    pub sp: u16,
    pub pc: u16,
}

/// The weight of a flag's bit inside register F (Z = bit 7, N = bit 6,
/// H = bit 5, C = bit 4).
pub open spec fn flag_mask(fl: Flag) -> u8 {
    match fl {
        Flag::Z => 128,
        Flag::N => 64,
        Flag::H => 32,
        Flag::C => 16,
    }
}

/// Whether the given flag's bit is set inside an F value.
pub open spec fn flag_set_in(f: u8, fl: Flag) -> bool {
    (f / flag_mask(fl)) % 2 == 1
}

/// The F value that holds exactly the four given flag bits, with the low
/// nibble zero.
pub open spec fn flags_to_f(z: bool, n: bool, h: bool, c: bool) -> u8 {
    ((if z {
        128int
    } else {
        0int
    }) + (if n {
        64int
    } else {
        0int
    }) + (if h {
        32int
    } else {
        0int
    }) + (if c {
        16int
    } else {
        0int
    })) as u8
}

/// Packing four flag bits into an F value and reading them back returns the
/// same four bits, and the packed value has a zero low nibble.
pub proof fn lemma_flags_to_f_bits(z: bool, n: bool, h: bool, c: bool)
    ensures
        flag_set_in(flags_to_f(z, n, h, c), Flag::Z) == z,
        flag_set_in(flags_to_f(z, n, h, c), Flag::N) == n,
        flag_set_in(flags_to_f(z, n, h, c), Flag::H) == h,
        flag_set_in(flags_to_f(z, n, h, c), Flag::C) == c,
        flags_to_f(z, n, h, c) % 16 == 0,
{
    if z {
        if n {
            if h {
                if c {
                    assert(flags_to_f(z, n, h, c) == 240);
                    assert((240u8 / 128u8) % 2 == 1 && (240u8 / 64u8) % 2 == 1 && (240u8 / 32u8) % 2 == 1 && (240u8 / 16u8) % 2 == 1 && 240u8 % 16 == 0);
                } else {
                    assert(flags_to_f(z, n, h, c) == 224);
                    assert((224u8 / 128u8) % 2 == 1 && (224u8 / 64u8) % 2 == 1 && (224u8 / 32u8) % 2 == 1 && (224u8 / 16u8) % 2 == 0 && 224u8 % 16 == 0);
                }
            } else {
                if c {
                    assert(flags_to_f(z, n, h, c) == 208);
                    assert((208u8 / 128u8) % 2 == 1 && (208u8 / 64u8) % 2 == 1 && (208u8 / 32u8) % 2 == 0 && (208u8 / 16u8) % 2 == 1 && 208u8 % 16 == 0);
                } else {
                    assert(flags_to_f(z, n, h, c) == 192);
                    assert((192u8 / 128u8) % 2 == 1 && (192u8 / 64u8) % 2 == 1 && (192u8 / 32u8) % 2 == 0 && (192u8 / 16u8) % 2 == 0 && 192u8 % 16 == 0);
                }
            }
        } else {
            if h {
                if c {
                    assert(flags_to_f(z, n, h, c) == 176);
                    assert((176u8 / 128u8) % 2 == 1 && (176u8 / 64u8) % 2 == 0 && (176u8 / 32u8) % 2 == 1 && (176u8 / 16u8) % 2 == 1 && 176u8 % 16 == 0);
                } else {
                    assert(flags_to_f(z, n, h, c) == 160);
                    assert((160u8 / 128u8) % 2 == 1 && (160u8 / 64u8) % 2 == 0 && (160u8 / 32u8) % 2 == 1 && (160u8 / 16u8) % 2 == 0 && 160u8 % 16 == 0);
                }
            } else {
                if c {
                    assert(flags_to_f(z, n, h, c) == 144);
                    assert((144u8 / 128u8) % 2 == 1 && (144u8 / 64u8) % 2 == 0 && (144u8 / 32u8) % 2 == 0 && (144u8 / 16u8) % 2 == 1 && 144u8 % 16 == 0);
                } else {
                    assert(flags_to_f(z, n, h, c) == 128);
                    assert((128u8 / 128u8) % 2 == 1 && (128u8 / 64u8) % 2 == 0 && (128u8 / 32u8) % 2 == 0 && (128u8 / 16u8) % 2 == 0 && 128u8 % 16 == 0);
                }
            }
        }
    } else {
        if n {
            if h {
                if c {
                    assert(flags_to_f(z, n, h, c) == 112);
                    assert((112u8 / 128u8) % 2 == 0 && (112u8 / 64u8) % 2 == 1 && (112u8 / 32u8) % 2 == 1 && (112u8 / 16u8) % 2 == 1 && 112u8 % 16 == 0);
                } else {
                    assert(flags_to_f(z, n, h, c) == 96);
                    assert((96u8 / 128u8) % 2 == 0 && (96u8 / 64u8) % 2 == 1 && (96u8 / 32u8) % 2 == 1 && (96u8 / 16u8) % 2 == 0 && 96u8 % 16 == 0);
                }
            } else {
                if c {
                    assert(flags_to_f(z, n, h, c) == 80);
                    assert((80u8 / 128u8) % 2 == 0 && (80u8 / 64u8) % 2 == 1 && (80u8 / 32u8) % 2 == 0 && (80u8 / 16u8) % 2 == 1 && 80u8 % 16 == 0);
                } else {
                    assert(flags_to_f(z, n, h, c) == 64);
                    assert((64u8 / 128u8) % 2 == 0 && (64u8 / 64u8) % 2 == 1 && (64u8 / 32u8) % 2 == 0 && (64u8 / 16u8) % 2 == 0 && 64u8 % 16 == 0);
                }
            }
        } else {
            if h {
                if c {
                    assert(flags_to_f(z, n, h, c) == 48);
                    assert((48u8 / 128u8) % 2 == 0 && (48u8 / 64u8) % 2 == 0 && (48u8 / 32u8) % 2 == 1 && (48u8 / 16u8) % 2 == 1 && 48u8 % 16 == 0);
                } else {
                    assert(flags_to_f(z, n, h, c) == 32);
                    assert((32u8 / 128u8) % 2 == 0 && (32u8 / 64u8) % 2 == 0 && (32u8 / 32u8) % 2 == 1 && (32u8 / 16u8) % 2 == 0 && 32u8 % 16 == 0);
                }
            } else {
                if c {
                    assert(flags_to_f(z, n, h, c) == 16);
                    assert((16u8 / 128u8) % 2 == 0 && (16u8 / 64u8) % 2 == 0 && (16u8 / 32u8) % 2 == 0 && (16u8 / 16u8) % 2 == 1 && 16u8 % 16 == 0);
                } else {
                    assert(flags_to_f(z, n, h, c) == 0);
                    assert((0u8 / 128u8) % 2 == 0 && (0u8 / 64u8) % 2 == 0 && (0u8 / 32u8) % 2 == 0 && (0u8 / 16u8) % 2 == 0 && 0u8 % 16 == 0);
                }
            }
        }
    }
}

impl Registers {
    /// The register file's invariant: the low nibble of F is zero.
    pub open spec fn wf(self) -> bool {
        self.f % 16 == 0
    }

    /// The value of an 8-bit register.
    pub open spec fn spec_read8(self, r: Reg8) -> u8 {
        match r {
            Reg8::A => self.a,
            Reg8::B => self.b,
            Reg8::C => self.c,
            Reg8::D => self.d,
            Reg8::E => self.e,
            Reg8::F => self.f,
            Reg8::H => self.h,
            Reg8::L => self.l,
        }
    }

    /// The value of a 16-bit register, pairs concatenated as `high * 256 + low`.
    pub open spec fn spec_read16(self, rr: Reg16) -> u16 {
        match rr {
            Reg16::AF => (self.a * 256 + self.f) as u16,
            Reg16::BC => (self.b * 256 + self.c) as u16,
            Reg16::DE => (self.d * 256 + self.e) as u16,
            Reg16::HL => (self.h * 256 + self.l) as u16,
            Reg16::SP => self.sp,
            Reg16::PC => self.pc,
        }
    }

    /// Whether a flag bit is set.
    pub open spec fn flag(self, fl: Flag) -> bool {
        flag_set_in(self.f, fl)
    }

    /// The register file after writing an 8-bit register. A write to F masks
    /// its low nibble to zero.
    pub open spec fn with8(self, r: Reg8, v: u8) -> Registers {
        match r {
            Reg8::A => Registers { a: v, ..self },
            Reg8::B => Registers { b: v, ..self },
            Reg8::C => Registers { c: v, ..self },
            Reg8::D => Registers { d: v, ..self },
            Reg8::E => Registers { e: v, ..self },
            Reg8::F => Registers { f: ((v / 16) * 16) as u8, ..self },
            Reg8::H => Registers { h: v, ..self },
            Reg8::L => Registers { l: v, ..self },
        }
    }

    /// The register file after writing a 16-bit register: both halves of a
    /// pair are stored, and the F half of AF keeps its low nibble zero.
    pub open spec fn with16(self, rr: Reg16, v: u16) -> Registers {
        match rr {
            Reg16::AF => Registers {
                a: (v / 256) as u8,
                f: (((v % 256) / 16) * 16) as u8,
                ..self
            },
            Reg16::BC => Registers { b: (v / 256) as u8, c: (v % 256) as u8, ..self },
            Reg16::DE => Registers { d: (v / 256) as u8, e: (v % 256) as u8, ..self },
            Reg16::HL => Registers { h: (v / 256) as u8, l: (v % 256) as u8, ..self },
            Reg16::SP => Registers { sp: v, ..self },
            Reg16::PC => Registers { pc: v, ..self },
        }
    }

    /// The register file after replacing all four flag bits at once.
    pub open spec fn with_flags(self, z: bool, n: bool, h: bool, c: bool) -> Registers {
        Registers { f: flags_to_f(z, n, h, c), ..self }
    }

    /// The register file after writing one flag bit, the other three kept.
    pub open spec fn spec_update_flag(self, fl: Flag, on: bool) -> Registers {
        match fl {
            Flag::Z => self.with_flags(on, self.flag(Flag::N), self.flag(Flag::H), self.flag(Flag::C)),
            Flag::N => self.with_flags(self.flag(Flag::Z), on, self.flag(Flag::H), self.flag(Flag::C)),
            Flag::H => self.with_flags(self.flag(Flag::Z), self.flag(Flag::N), on, self.flag(Flag::C)),
            Flag::C => self.with_flags(self.flag(Flag::Z), self.flag(Flag::N), self.flag(Flag::H), on),
        }
    }

    /// The architecturally defined power-on register values.
    pub open spec fn power_on() -> Registers {
        Registers {
            a: 0x01,
            f: 0xB0,
            b: 0x00,
            c: 0x13,
            d: 0x00,
            e: 0xD8,
            h: 0x01,
            l: 0x4D,
            sp: 0xFFFE,
            pc: 0x0100,
        }
    }

    /// A register file holding the power-on values.
    pub fn new() -> (r: Registers)
        ensures
            r == Registers::power_on(),
            r.wf(),
    {
        Registers {
            a: 0x01,
            f: 0xB0,
            b: 0x00,
            c: 0x13,
            d: 0x00,
            e: 0xD8,
            h: 0x01,
            l: 0x4D,
            sp: 0xFFFE,
            pc: 0x0100,
        }
    }

    /// Reads an 8-bit register.
    pub fn read8(&self, r: Reg8) -> (v: u8)
        ensures
            v == self.spec_read8(r),
    {
        match r {
            Reg8::A => self.a,
            Reg8::B => self.b,
            Reg8::C => self.c,
            Reg8::D => self.d,
            Reg8::E => self.e,
            Reg8::F => self.f,
            Reg8::H => self.h,
            Reg8::L => self.l,
        }
    }

    /// Writes an 8-bit register; a write to F masks its low nibble.
    pub fn write8(&mut self, r: Reg8, v: u8)
        ensures
            *final(self) == old(self).with8(r, v),
    {
        match r {
            Reg8::A => self.a = v,
            Reg8::B => self.b = v,
            Reg8::C => self.c = v,
            Reg8::D => self.d = v,
            Reg8::E => self.e = v,
            Reg8::F => self.f = (v / 16) * 16,
            Reg8::H => self.h = v,
            Reg8::L => self.l = v,
        }
    }

    /// Reads a 16-bit register, pairs concatenated as `high * 256 + low`.
    pub fn read16(&self, rr: Reg16) -> (v: u16)
        ensures
            v == self.spec_read16(rr),
    {
        match rr {
            Reg16::AF => (self.a as u16) * 256 + (self.f as u16),
            Reg16::BC => (self.b as u16) * 256 + (self.c as u16),
            Reg16::DE => (self.d as u16) * 256 + (self.e as u16),
            Reg16::HL => (self.h as u16) * 256 + (self.l as u16),
            Reg16::SP => self.sp,
            Reg16::PC => self.pc,
        }
    }

    /// Writes a 16-bit register, splitting a pair into both halves.
    pub fn write16(&mut self, rr: Reg16, v: u16)
        ensures
            *final(self) == old(self).with16(rr, v),
    {
        let hi = (v / 256) as u8;
        let lo = (v % 256) as u8;
        match rr {
            Reg16::AF => {
                self.a = hi;
                self.f = (lo / 16) * 16;
            },
            Reg16::BC => {
                self.b = hi;
                self.c = lo;
            },
            Reg16::DE => {
                self.d = hi;
                self.e = lo;
            },
            Reg16::HL => {
                self.h = hi;
                self.l = lo;
            },
            Reg16::SP => self.sp = v,
            Reg16::PC => self.pc = v,
        }
    }

    /// Reads one flag bit of F.
    pub fn get_flag(&self, fl: Flag) -> (b: bool)
        ensures
            b == self.flag(fl),
    {
        let m: u8 = match fl {
            Flag::Z => 128,
            Flag::N => 64,
            Flag::H => 32,
            Flag::C => 16,
        };
        (self.f / m) % 2 == 1
    }

    /// Replaces all four flag bits at once; the low nibble of F becomes zero.
    pub fn set_flags(&mut self, z: bool, n: bool, h: bool, c: bool)
        ensures
            *final(self) == old(self).with_flags(z, n, h, c),
    {
        let mut f: u8 = 0;
        if z {
            f = f + 128;
        }
        if n {
            f = f + 64;
        }
        if h {
            f = f + 32;
        }
        if c {
            f = f + 16;
        }
        self.f = f;
    }

    /// Writes one flag bit, keeping the other three; the low nibble of F
    /// becomes zero.
    pub fn update_flag(&mut self, fl: Flag, on: bool)
        ensures
            *final(self) == old(self).spec_update_flag(fl, on),
    {
        let z = match fl {
            Flag::Z => on,
            _ => self.get_flag(Flag::Z),
        };
        let n = match fl {
            Flag::N => on,
            _ => self.get_flag(Flag::N),
        };
        let h = match fl {
            Flag::H => on,
            _ => self.get_flag(Flag::H),
        };
        let c = match fl {
            Flag::C => on,
            _ => self.get_flag(Flag::C),
        };
        self.set_flags(z, n, h, c);
    }

    /// Sets one flag bit.
    pub fn set_flag(&mut self, fl: Flag)
        ensures
            *final(self) == old(self).spec_update_flag(fl, true),
    {
        self.update_flag(fl, true);
    }

    /// Clears one flag bit.
    pub fn reset_flag(&mut self, fl: Flag)
        ensures
            *final(self) == old(self).spec_update_flag(fl, false),
    {
        self.update_flag(fl, false);
    }
}

} // verus!
