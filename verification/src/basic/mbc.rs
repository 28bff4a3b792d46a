use vstd::prelude::*;

use crate::emulator::mbc::romonly::RomOnly;
use crate::emulator::mbc::{Mbc, MbcType};
use crate::emulator::rom::Rom;
use crate::emulator::loadable;

verus! {

/// The kinds of memory bank controller.
pub type MBCType = MbcType;

/// The controller for the cartridge of `rom`; only cartridges without a controller are
/// supported.
pub fn create_mbc(rom: Rom) -> (r: Mbc)
    requires
        loadable(rom),
    ensures
        r matches Mbc::RomOnly(x) && x.rom_data@ == rom.data@,
{
    let cartridge_type = rom.cartridge_type();
    match cartridge_type.mbc_type {
        MbcType::RomOnly => Mbc::RomOnly(RomOnly::new(rom.data)),
        _ => {
            assert(false);
            Mbc::RomOnly(RomOnly::new(Vec::new()))
        },
    }
}

} // verus!
