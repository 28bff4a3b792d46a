pub mod romonly;

use vstd::prelude::*;

use crate::emulator::mbc::romonly::RomOnly;
use crate::emulator::memory::{ReadMemory, WriteMemory};
use crate::emulator::rom::{Rom, cartridge_type_of, supported_cartridge};

verus! {

/// The kinds of memory bank controller that cartridges carry.
#[derive(Debug, Clone, Copy, PartialEq, Eq, Structural)]
pub enum MbcType {
    RomOnly,
    MBC1,
    MBC2,
    MBC3,
    MBC4,
    MBC5,
    MBC6,
    MBC7,
    MMM01,
    M161,
    HuC1,
    HuC3,
}

pub const MBC_ROM_START: u16 = 0x0000;

pub const MBC_ROM_BANK_0_END: u16 = 0x3FFF;

pub const MBC_ROM_BANK_N_START: u16 = 0x4000;

pub const MBC_ROM_END: u16 = 0x7FFF;

pub const MBC_EXTERNAL_RAM_START: u16 = 0xA000;

pub const MBC_EXTERNAL_RAM_END: u16 = 0xBFFF;

/// The memory bank controller of the inserted cartridge.
pub enum Mbc {
    RomOnly(RomOnly),
}

impl ReadMemory for Mbc {
    open spec fn can_read(&self, address: u16) -> bool {
        match self {
            Mbc::RomOnly(rom_only) => rom_only.can_read(address),
        }
    }

    open spec fn read_spec(&self, address: u16) -> u8 {
        match self {
            Mbc::RomOnly(rom_only) => rom_only.read_spec(address),
        }
    }

    fn read_memory(&self, address: u16) -> (r: u8) {
        match self {
            Mbc::RomOnly(rom_only) => rom_only.read_memory(address),
        }
    }
}

impl WriteMemory for Mbc {
    open spec fn can_write(&self, address: u16) -> bool {
        match self {
            Mbc::RomOnly(rom_only) => rom_only.can_write(address),
        }
    }

    open spec fn written(&self, after: Self, address: u16, value: u8) -> bool {
        match (self, after) {
            (Mbc::RomOnly(a), Mbc::RomOnly(b)) => a.written(b, address, value),
        }
    }

    fn write_memory(&mut self, address: u16, value: u8) {
        match self {
            Mbc::RomOnly(rom_only) => rom_only.write_memory(address, value),
        }
    }
}

impl Mbc {
    /// Whether a read of `address` is answered.
    pub fn is_readable(&self, address: u16) -> (r: bool)
        ensures
            r == self.can_read(address),
    {
        match self {
            Mbc::RomOnly(rom_only) => address <= 0x7FFF && (address as usize) < rom_only.rom_data.len(),
        }
    }
}

/// The controller for the cartridge of `rom`; only cartridges without a controller are
/// supported.
pub fn create_mbc(rom: &Rom) -> (r: Mbc)
    requires
        rom.data@.len() > 0x147,
        supported_cartridge(rom.data@[0x147]),
        cartridge_type_of(rom.data@[0x147]).mbc_type == MbcType::RomOnly,
    ensures
        r matches Mbc::RomOnly(x) && x.rom_data@ == rom.data@,
{
    let cartridge_type = rom.cartridge_type();
    match cartridge_type.mbc_type {
        MbcType::RomOnly => Mbc::RomOnly(RomOnly::new(rom.data.clone())),
        _ => Mbc::RomOnly(RomOnly::new(Vec::new())),
    }
}

} // verus!
