use ohboy::emulator::cpu::interrupt::{EnableFlags, RequestFlags};
use ohboy::emulator::joypad::Joypad as PlainJoypad;
use ohboy::emulator::mbc::{create_mbc, Mbc, MbcType};
use ohboy::emulator::memory::joypad::{Joypad, JoypadFlags};
use ohboy::emulator::memory::SerialControlFlags;
use ohboy::emulator::rom::{CartridgeType, Rom};
use ohboy::flags::Flags;

#[test]
fn joypad_starts_with_nothing_selected_or_pressed() {
    assert_eq!(Joypad::new().get_memory(), 0xCF);
    assert_eq!(PlainJoypad::new().get_memory(), 0xCF);
}

#[test]
fn joypad_write_keeps_the_upper_nibble_and_refreshes_the_lines() {
    let mut joypad = Joypad::new();
    joypad.set_memory(0x10);
    assert_eq!(joypad.get_memory(), 0x1F);
    joypad.set_memory(0x20);
    assert_eq!(joypad.get_memory(), 0x2F);
    joypad.set_memory(0x30);
    assert_eq!(joypad.get_memory(), 0x3F);
    joypad.set_memory(0xC5);
    assert_eq!(joypad.get_memory(), 0xC0);
    joypad.set_memory(0xFA);
    assert_eq!(joypad.get_memory(), 0xFF);
    // A refresh of a refreshed register changes nothing.
    joypad.update_flags();
    assert_eq!(joypad.get_memory(), 0xFF);
}

#[test]
fn plain_joypad_clears_the_input_lines_when_no_select_line_is_set() {
    let mut joypad = PlainJoypad::new();
    joypad.set_memory(0x10);
    assert_eq!(joypad.get_memory(), 0x1F);
    joypad.set_memory(0x2A);
    assert_eq!(joypad.get_memory(), 0x2F);
    joypad.set_memory(0xC5);
    assert_eq!(joypad.get_memory(), 0xC0);
    joypad.update_flags();
    assert_eq!(joypad.get_memory(), 0xC0);
    joypad.set_memory(0x05);
    assert_eq!(joypad.get_memory(), 0x00);
}

#[test]
fn flag_sets() {
    assert_eq!(JoypadFlags::from_bits_truncate(0xFF).bits(), 0x3F);
    assert_eq!(RequestFlags::from_bits_truncate(0xFF).bits(), 0x1F);
    assert_eq!(EnableFlags::from_bits_truncate(0xE1).bits(), 0x01);
    assert_eq!(SerialControlFlags::from_bits_truncate(0xFF).bits(), 0x81);
    let mut f = RequestFlags::empty();
    assert_eq!(f.bits(), 0);
    f.insert(RequestFlags::VBLANK | RequestFlags::JOYPAD);
    assert!(f.contains(RequestFlags::JOYPAD));
    assert!(!f.contains(RequestFlags::TIMER));
    f.remove(RequestFlags::VBLANK);
    assert_eq!(f.bits(), 0x10);
    f.set(RequestFlags::LCD, true);
    f.set(RequestFlags::JOYPAD, false);
    assert_eq!(f.bits(), 0x02);
    assert_eq!(RequestFlags::from_bits_retain(0xE1).bits(), 0xE1);
}

fn header_rom(cartridge_type: u8, rom_size: u8, ram_size: u8) -> Rom {
    let mut data = vec![0u8; 0x8000];
    data[0x134..0x13A].copy_from_slice(b"TETRIS");
    data[0x147] = cartridge_type;
    data[0x148] = rom_size;
    data[0x149] = ram_size;
    Rom::new(data)
}

#[test]
fn rom_header_title() {
    let rom = header_rom(0, 0, 0);
    assert_eq!(rom.title(), "TETRIS\0\0\0\0\0\0\0\0\0\0");
    assert_eq!(rom.title().len(), 16);
}

#[test]
fn rom_header_sizes() {
    assert_eq!(header_rom(0, 0, 0).rom_size(), 32);
    assert_eq!(header_rom(0, 1, 0).rom_size(), 64);
    assert_eq!(header_rom(0, 8, 0).rom_size(), 8192);
    assert_eq!(header_rom(0, 0, 0).ram_size(), 0);
    assert_eq!(header_rom(0, 0, 1).ram_size(), 0);
    assert_eq!(header_rom(0, 0, 2).ram_size(), 8);
    assert_eq!(header_rom(0, 0, 3).ram_size(), 32);
    assert_eq!(header_rom(0, 0, 4).ram_size(), 128);
    assert_eq!(header_rom(0, 0, 5).ram_size(), 64);
}

#[test]
fn rom_header_cartridge_types() {
    let plain = CartridgeType {
        mbc_type: MbcType::RomOnly,
        ram: false,
        battery: false,
        timer: false,
        rumble: false,
        sensor: false,
        pocket_camera: false,
        bandai_tama5: false,
    };
    assert_eq!(header_rom(0x00, 0, 0).cartridge_type(), plain);
    assert_eq!(
        header_rom(0x13, 0, 0).cartridge_type(),
        CartridgeType { mbc_type: MbcType::MBC3, ram: true, battery: true, ..plain }
    );
    assert_eq!(
        CartridgeType::from_byte(0x0F),
        CartridgeType { mbc_type: MbcType::MBC3, timer: true, battery: true, ..plain }
    );
    assert_eq!(
        CartridgeType::from_byte(0x09),
        CartridgeType { ram: true, battery: true, ..plain }
    );
    assert_eq!(
        CartridgeType::from_byte(0x1E),
        CartridgeType { mbc_type: MbcType::MBC5, rumble: true, ram: true, battery: true, ..plain }
    );
    assert_eq!(
        CartridgeType::from_byte(0x22),
        CartridgeType {
            mbc_type: MbcType::MBC7,
            sensor: true,
            rumble: true,
            ram: true,
            battery: true,
            ..plain
        }
    );
    assert_eq!(CartridgeType::from_byte(0x20).mbc_type, MbcType::MBC6);
    assert_eq!(CartridgeType::from_byte(0x05).mbc_type, MbcType::MBC2);
    assert_eq!(CartridgeType::from_byte(0x0B).mbc_type, MbcType::MMM01);
}

#[test]
fn rom_only_cartridge_gets_a_plain_controller() {
    let rom = header_rom(0x00, 0, 0);
    let Mbc::RomOnly(rom_only) = create_mbc(&rom);
    assert_eq!(rom_only.rom_data, rom.data);
    let copy = rom.clone();
    assert_eq!(copy.data, rom.data);
}
