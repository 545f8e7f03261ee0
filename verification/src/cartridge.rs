use vstd::prelude::*;

use crate::fault::Fault;

verus! {

/// A flat read-only cartridge image filling the whole fixed cartridge
/// window of 0x8000 bytes. Writes to it are rejected (dropped by the bus
/// with a diagnostic), never a hard failure.
pub struct ROM {
    pub data: Vec<u8>,
}

impl ROM {
    /// The backing buffer exactly fills the cartridge window.
    pub open spec fn wf(self) -> bool {
        self.data@.len() == 0x8000
    }

    /// The byte stored at a cartridge-window address.
    pub open spec fn byte_at(self, addr: u16) -> u8 {
        self.data@[addr as int]
    }

    /// Builds a flat ROM from a raw cartridge buffer. A buffer whose length
    /// differs from the fixed window size is a construction fault; nothing
    /// is partially constructed.
    pub fn new(data: &[u8]) -> (res: Result<ROM, Fault>)
        ensures
            match res {
                Ok(rom) => data@.len() == 0x8000 && rom.wf() && rom.data@ == data@,
                Err(f) => f == Fault::Construction && data@.len() != 0x8000,
            },
    {
        if data.len() != 0x8000 {
            return Err(Fault::Construction);
        }
        let mut buf: Vec<u8> = Vec::new();
        let mut i: usize = 0;
        while i < data.len()
            invariant
                i <= data@.len(),
                data@.len() == 0x8000,
                buf@ == data@.subrange(0, i as int),
            decreases data@.len() - i,
        {
            buf.push(*vstd::slice::slice_index_get(data, i));
            i = i + 1;
        }
        assert(buf@ =~= data@);
        Ok(ROM { data: buf })
    }
}

/// The cartridge backing stores the address bus can delegate to, one
/// variant per memory-bank-controller kind. Adding a bank-switching
/// controller adds a variant here without changing the bus.
pub enum Mbc {
    PlainRom(ROM),
}

impl Mbc {
    pub open spec fn wf(self) -> bool {
        match self {
            Mbc::PlainRom(rom) => rom.wf(),
        }
    }

    /// The byte the controller exposes at a cartridge-window address.
    pub open spec fn byte_at(self, addr: u16) -> u8 {
        match self {
            Mbc::PlainRom(rom) => rom.byte_at(addr),
        }
    }

    /// Reads one byte of cartridge storage.
    pub fn read_u8(&self, addr: u16) -> (v: u8)
        requires
            self.wf(),
            addr < 0x8000,
        ensures
            v == self.byte_at(addr),
    {
        match self {
            Mbc::PlainRom(rom) => rom.data[addr as usize],
        }
    }

    /// Offers one byte to cartridge storage; returns whether the store
    /// accepted it. A flat ROM rejects every write and keeps its contents.
    pub fn write_u8(&mut self, addr: u16, v: u8) -> (accepted: bool)
        requires
            old(self).wf(),
            addr < 0x8000,
        ensures
            *final(self) == *old(self),
            accepted == false,
    {
        match self {
            Mbc::PlainRom(_) => false,
        }
    }
}

} // verus!
