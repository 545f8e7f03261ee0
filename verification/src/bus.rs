use vstd::pervasive::VecAdditionalExecFns;
use vstd::prelude::*;

use crate::alu::wrap_add16;
use crate::alu::wrapping_inc16;
use crate::cartridge::Mbc;
use crate::cartridge::ROM;

verus! {

/// Saturating increment for the dropped-write diagnostic counter.
pub open spec fn spec_sat_inc(x: u64) -> u64 {
    if x == u64::MAX {
        x
    } else {
        (x + 1) as u64
    }
}

/// What one 8-bit bus write does: a write at or above 0x8000 changes
/// exactly that RAM byte; a write below 0x8000 is offered to the cartridge
/// store, dropped by a flat ROM, and counted as a diagnostic. No other
/// state moves.
pub open spec fn spec_bus_wrote8(pre: Bus, post: Bus, addr: u16, v: u8) -> bool {
    &&& post.mbc == pre.mbc
    &&& forall|x: u16|
        post.byte_at(x) == (if x == addr && addr >= 0x8000 {
            v
        } else {
            pre.byte_at(x)
        })
    &&& post.dropped_writes == (if addr < 0x8000 {
        spec_sat_inc(pre.dropped_writes)
    } else {
        pre.dropped_writes
    })
}

/// What one 16-bit little-endian bus write does: the low byte lands at
/// `addr`, the high byte at the wrapped successor address, each half
/// subject to the 8-bit write rules (so a half aimed at the cartridge
/// window is dropped and counted).
pub open spec fn spec_bus_wrote16(pre: Bus, post: Bus, addr: u16, v: u16) -> bool {
    let a2 = wrap_add16(addr, 1);
    let lo = (v % 256) as u8;
    let hi = (v / 256) as u8;
    let d1 = if addr < 0x8000 {
        spec_sat_inc(pre.dropped_writes)
    } else {
        pre.dropped_writes
    };
    &&& post.mbc == pre.mbc
    &&& forall|x: u16|
        post.byte_at(x) == (if x == a2 && a2 >= 0x8000 {
            hi
        } else if x == addr && addr >= 0x8000 {
            lo
        } else {
            pre.byte_at(x)
        })
    &&& post.dropped_writes == (if a2 < 0x8000 {
        spec_sat_inc(d1)
    } else {
        d1
    })
}

/// The address bus: the single authority over memory side effects. It owns
/// the general-purpose RAM half of the address space and exactly one
/// cartridge backing store for the other half; every 16-bit address maps to
/// exactly one of the two.
pub struct Bus {
    pub ram: Vec<u8>,
    pub mbc: Mbc,
    /// How many writes were dropped by read-only storage, as a diagnostic
    /// for the outer layers; saturating.
    pub dropped_writes: u64,
}

impl Bus {
    pub open spec fn wf(self) -> bool {
        &&& self.ram@.len() == 0x8000
        &&& self.mbc.wf()
    }

    /// The byte visible at an address: cartridge storage below 0x8000,
    /// general RAM from 0x8000 up.
    pub open spec fn byte_at(self, addr: u16) -> u8 {
        if addr < 0x8000 {
            self.mbc.byte_at(addr)
        } else {
            self.ram@[addr - 0x8000]
        }
    }

    /// The 16-bit little-endian value at an address: low byte at `addr`,
    /// high byte at the wrapped successor address.
    pub open spec fn word_at(self, addr: u16) -> u16 {
        (self.byte_at(addr) + 256 * self.byte_at(wrap_add16(addr, 1))) as u16
    }

    /// A bus over the given cartridge store, with RAM zeroed.
    pub fn new(mbc: Mbc) -> (b: Bus)
        requires
            mbc.wf(),
        ensures
            b.wf(),
            b.mbc == mbc,
            b.dropped_writes == 0,
            forall|a: u16| a >= 0x8000 ==> b.byte_at(a) == 0,
    {
        let mut ram: Vec<u8> = Vec::new();
        while ram.len() < 0x8000
            invariant
                ram@.len() <= 0x8000,
                forall|i: int| 0 <= i < ram@.len() ==> ram@[i] == 0,
            decreases 0x8000 - ram@.len(),
        {
            ram.push(0);
        }
        Bus { ram, mbc, dropped_writes: 0 }
    }

    /// A bus whose cartridge window is an all-zero flat ROM and whose RAM
    /// is zeroed.
    pub fn new_blank() -> (b: Bus)
        ensures
            b.wf(),
            b.dropped_writes == 0,
            forall|a: u16| b.byte_at(a) == 0,
    {
        let mut data: Vec<u8> = Vec::new();
        while data.len() < 0x8000
            invariant
                data@.len() <= 0x8000,
                forall|i: int| 0 <= i < data@.len() ==> data@[i] == 0,
            decreases 0x8000 - data@.len(),
        {
            data.push(0);
        }
        Bus::new(Mbc::PlainRom(ROM { data }))
    }

    /// Reads the byte at an address.
    pub fn read_u8(&self, addr: u16) -> (v: u8)
        requires
            self.wf(),
        ensures
            v == self.byte_at(addr),
    {
        if addr < 0x8000 {
            self.mbc.read_u8(addr)
        } else {
            self.ram[(addr - 0x8000) as usize]
        }
    }

    /// Writes the byte at an address. A write aimed at the cartridge window
    /// is offered to the backing store; a read-only store drops it, the
    /// drop is counted, and no fault is raised.
    pub fn write_u8(&mut self, addr: u16, v: u8)
        requires
            old(self).wf(),
        ensures
            final(self).wf(),
            spec_bus_wrote8(*old(self), *final(self), addr, v),
    {
        if addr < 0x8000 {
            let accepted = self.mbc.write_u8(addr, v);
            if !accepted {
                if self.dropped_writes < u64::MAX {
                    self.dropped_writes = self.dropped_writes + 1;
                }
            }
        } else {
            self.ram.set((addr - 0x8000) as usize, v);
        }
    }

    /// Reads the 16-bit little-endian value at an address.
    pub fn read_u16(&self, addr: u16) -> (v: u16)
        requires
            self.wf(),
        ensures
            v == self.word_at(addr),
    {
        let lo = self.read_u8(addr);
        let hi = self.read_u8(wrapping_inc16(addr));
        (hi as u16) * 256 + (lo as u16)
    }

    /// Writes the 16-bit little-endian value at an address, each half
    /// subject to the 8-bit write rules.
    pub fn write_u16(&mut self, addr: u16, v: u16)
        requires
            old(self).wf(),
        ensures
            final(self).wf(),
            spec_bus_wrote16(*old(self), *final(self), addr, v),
    {
        self.write_u8(addr, (v % 256) as u8);
        self.write_u8(wrapping_inc16(addr), (v / 256) as u8);
    }
}

} // verus!
