use vstd::prelude::*;

use crate::emulator::memory::{ReadMemory, WriteMemory};

verus! {

/// A cartridge without a memory bank controller: the ROM is mapped directly.
pub struct RomOnly {
    pub rom_data: Vec<u8>,
}

impl RomOnly {
    pub fn new(rom_data: Vec<u8>) -> (r: Self)
        ensures
            r.rom_data@ == rom_data@,
    {
        Self { rom_data }
    }
}

impl ReadMemory for RomOnly {
    /// Only ROM bytes that the image holds can be read; external RAM is not provided.
    open spec fn can_read(&self, address: u16) -> bool {
        address <= 0x7FFF && address < self.rom_data@.len()
    }

    open spec fn read_spec(&self, address: u16) -> u8 {
        self.rom_data@[address as int]
    }

    fn read_memory(&self, address: u16) -> (r: u8) {
        self.rom_data[address as usize]
    }
}

impl WriteMemory for RomOnly {
    /// The cartridge accepts no write.
    open spec fn can_write(&self, address: u16) -> bool {
        false
    }

    open spec fn written(&self, after: Self, address: u16, value: u8) -> bool {
        after.rom_data@ == self.rom_data@
    }

    fn write_memory(&mut self, address: u16, value: u8) {
    }
}

} // verus!
