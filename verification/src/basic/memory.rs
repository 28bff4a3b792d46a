use vstd::prelude::*;

use crate::emulator::mbc::Mbc;
use crate::emulator::memory::ReadMemory as ByteRead;

verus! {

/// Reads at addresses given as `usize`.
pub trait ReadMemory {
    spec fn can_read_u8(&self, address: usize) -> bool;

    spec fn read_u8_spec(&self, address: usize) -> u8;

    spec fn can_read_u16(&self, address: usize) -> bool;

    spec fn read_u16_spec(&self, address: usize) -> u16;

    fn read_memory_u8(&self, address: usize) -> (r: u8)
        requires
            self.can_read_u8(address),
        ensures
            r == self.read_u8_spec(address),
    ;

    fn read_memory_u16(&self, address: usize) -> (r: u16)
        requires
            self.can_read_u16(address),
        ensures
            r == self.read_u16_spec(address),
    ;
}

/// Writes at addresses given as `usize`.
pub trait WriteMemory {
    spec fn can_write_u8(&self, address: usize) -> bool;

    spec fn can_write_u16(&self, address: usize) -> bool;

    fn write_memory_u8(&mut self, address: usize, value: u8)
        requires
            old(self).can_write_u8(address),
    ;

    fn write_memory_u16(&mut self, address: usize, value: u16)
        requires
            old(self).can_write_u16(address),
    ;
}

/// Something that can be read and written.
pub trait ReadWriteMemory: ReadMemory + WriteMemory {

}

impl<T: ReadMemory + WriteMemory> ReadWriteMemory for T {

}

/// An address space that only maps the cartridge.
pub struct Memory {
    pub mbc: Mbc,
}

impl Memory {
    pub fn new(mbc: Mbc) -> (r: Self)
        ensures
            r.mbc == mbc,
    {
        Self { mbc: mbc }
    }
}

impl ReadMemory for Memory {
    /// Only the cartridge bytes that its controller answers can be read.
    open spec fn can_read_u8(&self, address: usize) -> bool {
        (address <= 0x7FFF || (0xA000 <= address <= 0xBFFF)) && self.mbc.can_read(address as u16)
    }

    open spec fn read_u8_spec(&self, address: usize) -> u8 {
        self.mbc.read_spec(address as u16)
    }

    /// Word reads are not provided.
    open spec fn can_read_u16(&self, address: usize) -> bool {
        false
    }

    open spec fn read_u16_spec(&self, address: usize) -> u16 {
        0
    }

    fn read_memory_u8(&self, address: usize) -> (r: u8) {
        self.mbc.read_memory(address as u16)
    }

    fn read_memory_u16(&self, address: usize) -> (r: u16) {
        0
    }
}

impl WriteMemory for Memory {
    /// Writes are not provided.
    open spec fn can_write_u8(&self, address: usize) -> bool {
        false
    }

    open spec fn can_write_u16(&self, address: usize) -> bool {
        false
    }

    fn write_memory_u8(&mut self, address: usize, value: u8) {
    }

    fn write_memory_u16(&mut self, address: usize, value: u16) {
    }
}

} // verus!
