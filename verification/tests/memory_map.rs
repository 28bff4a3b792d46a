use ohboy::emulator::mbc::{create_mbc, Mbc};
use ohboy::emulator::memory::{
    is_mapped, is_writable, HRam, Memory, Oam, ReadMemory, WRam, WriteMemory,
};
use ohboy::emulator::rom::Rom;

fn memory_with_rom(len: usize) -> Memory {
    let mut data = vec![0u8; len];
    for (i, b) in data.iter_mut().enumerate() {
        *b = (i % 251) as u8;
    }
    data[0x147] = 0x00;
    Memory::new(create_mbc(&Rom::new(data)))
}

#[test]
fn io_registers_start_with_the_boot_values() {
    let memory = memory_with_rom(0x8000);
    assert_eq!(memory.read_memory(0xFF0F), 0xE1);
    assert_eq!(memory.read_memory(0xFF01), 0x00);
    assert_eq!(memory.read_memory(0xFF02), 0x7E);
    assert_eq!(memory.read_memory(0xFF40), 0x91);
    assert_eq!(memory.read_memory(0xFF41), 0x85);
    assert_eq!(memory.read_memory(0xFF42), 0x00);
    assert_eq!(memory.read_memory(0xFF43), 0x00);
    assert_eq!(memory.read_memory(0xFF44), 0x00);
    assert_eq!(memory.read_memory(0xFF47), 0xFC);
    assert_eq!(memory.read_memory(0xFF48), 0x00);
    assert_eq!(memory.read_memory(0xFF49), 0x00);
    assert_eq!(memory.read_memory(0xFFFF), 0x00);
    assert_eq!(memory.read_memory(0xC000), 0x00);
    assert_eq!(memory.read_memory(0x8000), 0x00);
    assert_eq!(memory.read_memory(0xFE00), 0x00);
    assert_eq!(memory.read_memory(0xFF80), 0x00);
}

#[test]
fn unusable_and_audio_areas_read_zero() {
    let memory = memory_with_rom(0x8000);
    assert_eq!(memory.read_memory(0xFEA0), 0);
    assert_eq!(memory.read_memory(0xFEFF), 0);
    assert_eq!(memory.read_memory(0xFF7F), 0);
    assert_eq!(memory.read_memory(0xFF10), 0);
    assert_eq!(memory.read_memory(0xFF26), 0);
}

#[test]
fn cartridge_reads_go_to_the_rom() {
    let memory = memory_with_rom(0x8000);
    assert_eq!(memory.read_memory(0x0000), 0);
    assert_eq!(memory.read_memory(0x0100), (0x100 % 251) as u8);
    assert_eq!(memory.read_memory(0x7FFF), (0x7FFF % 251) as u8);
    assert!(memory.is_readable(0x7FFF));
    assert!(!memory.is_readable(0xA000));
}

#[test]
fn short_rom_answers_only_its_bytes() {
    let memory = memory_with_rom(0x4000);
    assert!(memory.is_readable(0x3FFF));
    assert!(!memory.is_readable(0x4000));
    assert!(!memory.is_readable(0xFF45));
    assert!(memory.is_readable(0xFF44));
}

#[test]
fn flag_registers_keep_their_named_bits() {
    let mut memory = memory_with_rom(0x8000);
    memory.write_memory(0xFF0F, 0xFF);
    assert_eq!(memory.read_memory(0xFF0F), 0x1F);
    memory.write_memory(0xFFFF, 0xFF);
    assert_eq!(memory.read_memory(0xFFFF), 0x1F);
    memory.write_memory(0xFF02, 0xFF);
    assert_eq!(memory.read_memory(0xFF02), 0x81);
    memory.write_memory(0xFF41, 0xFF);
    assert_eq!(memory.read_memory(0xFF41), 0x7F);
    memory.write_memory(0xFF40, 0xFF);
    assert_eq!(memory.read_memory(0xFF40), 0xFF);
}

#[test]
fn plain_registers_read_back_what_was_written() {
    let mut memory = memory_with_rom(0x8000);
    for (address, value) in [
        (0xFF01u16, 0x12u8),
        (0xFF42, 0x34),
        (0xFF43, 0x56),
        (0xFF47, 0x78),
        (0xFF48, 0x9A),
        (0xFF49, 0xBC),
    ] {
        memory.write_memory(address, value);
        assert_eq!(memory.read_memory(address), value);
    }
    // The other registers are untouched.
    assert_eq!(memory.read_memory(0xFF40), 0x91);
    assert_eq!(memory.read_memory(0xFF0F), 0xE1);
}

#[test]
fn ignored_writes_change_nothing() {
    let mut memory = memory_with_rom(0x8000);
    memory.write_memory(0xFF10, 0x55);
    assert_eq!(memory.read_memory(0xFF10), 0);
    memory.write_memory(0xFEA0, 0x55);
    assert_eq!(memory.read_memory(0xFEA0), 0);
    memory.write_memory(0xFF7F, 0x55);
    assert_eq!(memory.read_memory(0xFF7F), 0);
}

#[test]
fn ram_areas_read_back_what_was_written() {
    let mut memory = memory_with_rom(0x8000);
    for address in [0x8000u16, 0x9FFF, 0xC000, 0xDFFF, 0xFE00, 0xFE9F, 0xFF80, 0xFFFE] {
        memory.write_memory(address, 0xA5);
        assert_eq!(memory.read_memory(address), 0xA5);
    }
    assert_eq!(memory.read_memory(0xC001), 0);
    assert_eq!(memory.read_memory(0xFF81), 0);
    assert_eq!(memory.wram.byte_at(0), 0xA5);
    assert_eq!(memory.hram.byte_at(0x7E), 0xA5);
}

#[test]
fn writability_of_addresses() {
    assert!(is_writable(0x8000));
    assert!(is_writable(0xC123));
    assert!(is_writable(0xFEA0));
    assert!(is_writable(0xFF80));
    assert!(is_writable(0xFFFF));
    assert!(!is_writable(0x0000));
    assert!(!is_writable(0x7FFF));
    assert!(!is_writable(0xA000));
    assert!(!is_writable(0xE000));
    assert!(!is_writable(0xFF44));
    assert!(!is_writable(0xFF45));
    assert!(is_mapped(0xFF44));
    assert!(!is_mapped(0xFF45));
    assert!(!is_mapped(0xFF00));
}

#[test]
fn memory_regions() {
    let mut wram = WRam::new();
    assert_eq!(WRam::address_to_idx(0xC010), 0x10);
    wram.write_memory(0xC010, 7);
    wram.write_memory(0xC011, 8);
    assert_eq!(wram.read_memory(0xC010), 7);
    assert_eq!(wram.copy_range(0x0F, 0x13), vec![0, 7, 8, 0]);
    let oam = Oam::new();
    assert_eq!(oam.read_memory(0xFE9F), 0);
    let mut hram = HRam::new();
    hram.write_memory(0xFFFE, 3);
    assert_eq!(hram.byte_at(126), 3);
    assert_eq!(HRam::address_to_idx(0xFF80), 0);
}

#[test]
fn controller_reads() {
    let mut data = vec![0u8; 0x200];
    data[0x150] = 0x77;
    let mbc = create_mbc(&Rom::new(data));
    assert!(mbc.is_readable(0x150));
    assert!(!mbc.is_readable(0x200));
    assert!(!mbc.is_readable(0xA000));
    assert_eq!(mbc.read_memory(0x150), 0x77);
    let Mbc::RomOnly(rom_only) = &mbc;
    assert_eq!(rom_only.rom_data.len(), 0x200);
}
