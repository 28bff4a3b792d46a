use ohboy::emulator::memory::vram::{byte_pair_to_idxs, Tile, VRam, TILE_COUNT};
use ohboy::emulator::memory::{ReadMemory, WriteMemory};
use ohboy::emulator::ppu::{LCDStatusFlags, Ppu, PpuMode};
use ohboy::emulator::memory::Memory;
use ohboy::emulator::mbc::create_mbc;
use ohboy::emulator::rom::Rom;
use ohboy::emulator::dma::Dma;
use ohboy::emulator::{MachineCycle, TimeCycle};
use ohboy::flags::Flags;
use ohboy::ui::{idx_to_rgb, tile_rgb_data};

#[test]
fn byte_pair_decodes_to_color_indexes() {
    assert_eq!(byte_pair_to_idxs(&[0x3C, 0x7E]), [0, 2, 3, 3, 3, 3, 2, 0]);
    assert_eq!(byte_pair_to_idxs(&[0xFF, 0x00]), [1; 8]);
    assert_eq!(byte_pair_to_idxs(&[0x00, 0xFF]), [2; 8]);
    assert_eq!(byte_pair_to_idxs(&[0x80, 0x01]), [1, 0, 0, 0, 0, 0, 0, 2]);
}

#[test]
fn new_video_ram_has_blank_tiles() {
    let vram = VRam::new();
    assert_eq!(vram.tiles.len(), TILE_COUNT);
    assert!(vram.dirty_tiles);
    for tile in &vram.tiles {
        assert_eq!(tile.color_indexes, vec![0u8; 64]);
    }
    assert_eq!(vram.read_memory(0x8000), 0);
    assert_eq!(vram.read_memory(0x9FFF), 0);
}

#[test]
fn tile_bytes_update_their_tile() {
    let mut vram = VRam::new();
    vram.dirty_tiles = false;
    // Row 1 of tile 2.
    vram.write_memory(0x8022, 0x3C);
    assert!(vram.dirty_tiles);
    vram.write_memory(0x8023, 0x7E);
    assert_eq!(vram.read_memory(0x8022), 0x3C);
    assert_eq!(vram.read_memory(0x8023), 0x7E);
    let tile = &vram.tiles[2].color_indexes;
    assert_eq!(&tile[8..16], &[0, 2, 3, 3, 3, 3, 2, 0]);
    assert_eq!(&tile[0..8], &[0u8; 8]);
    assert_eq!(&tile[16..64], &[0u8; 48][..]);
    assert_eq!(vram.tiles[1].color_indexes, vec![0u8; 64]);
    assert_eq!(vram.tiles[3].color_indexes, vec![0u8; 64]);
    // Only the high byte of the pair written so far: bits from the low byte are 0.
    vram.write_memory(0x8000 + 16 * 383 + 15, 0xFF);
    assert_eq!(&vram.tiles[383].color_indexes[56..64], &[2u8; 8]);
}

#[test]
fn map_bytes_leave_the_tiles_alone() {
    let mut vram = VRam::new();
    vram.dirty_tiles = false;
    vram.write_memory(0x9800, 0xFF);
    assert!(!vram.dirty_tiles);
    assert_eq!(vram.read_memory(0x9800), 0xFF);
    for tile in &vram.tiles {
        assert_eq!(tile.color_indexes, vec![0u8; 64]);
    }
}

#[test]
fn tiles_follow_writes_through_the_memory_map() {
    let mut data = vec![0u8; 0x8000];
    data[0x147] = 0;
    let mut memory = Memory::new(create_mbc(&Rom::new(data)));
    memory.write_memory(0x8010, 0xFF);
    memory.write_memory(0x8011, 0xFF);
    assert_eq!(&memory.vram.tiles[1].color_indexes[0..8], &[3u8; 8]);
}

#[test]
fn tile_constructor_keeps_the_indexes() {
    let tile = Tile::new(vec![1, 2, 3]);
    assert_eq!(tile.color_indexes, vec![1, 2, 3]);
}

#[test]
fn color_indexes_map_to_gray_levels() {
    assert_eq!(idx_to_rgb(0), [255, 255, 255]);
    assert_eq!(idx_to_rgb(1), [170, 170, 170]);
    assert_eq!(idx_to_rgb(2), [85, 85, 85]);
    assert_eq!(idx_to_rgb(3), [0, 0, 0]);
}

#[test]
fn tile_rgb_data_expands_each_pixel() {
    let rgb = tile_rgb_data(&vec![3, 0, 2]);
    assert_eq!(rgb, vec![0, 0, 0, 255, 255, 255, 85, 85, 85]);
    assert_eq!(tile_rgb_data(&vec![]), Vec::<u8>::new());
    let vram = VRam::new();
    assert_eq!(tile_rgb_data(&vram.tiles[0].color_indexes), vec![255u8; 192]);
}

fn memory() -> Memory {
    let mut data = vec![0u8; 0x8000];
    data[0x147] = 0;
    Memory::new(create_mbc(&Rom::new(data)))
}

#[test]
fn line_counter_advances_at_the_end_of_each_scanline() {
    let mut memory = memory();
    let mut ppu = Ppu::new();
    assert_eq!(ppu.total_dots, 0);
    assert!(ppu.framebuffer.is_empty());
    assert!(!ppu.step(&mut memory, TimeCycle(455)));
    assert_eq!(memory.read_memory(0xFF44), 0);
    ppu.step(&mut memory, TimeCycle(1));
    assert_eq!(memory.read_memory(0xFF44), 1);
    assert_eq!(ppu.total_dots, 456);
    ppu.step(&mut memory, TimeCycle(456 * 143));
    assert_eq!(memory.read_memory(0xFF44), 144);
}

#[test]
fn line_counter_wraps_after_153_lines() {
    let mut memory = memory();
    let mut ppu = Ppu::new();
    ppu.step(&mut memory, TimeCycle(456 * 152));
    assert_eq!(memory.lcd_y.get(), 152);
    ppu.step(&mut memory, TimeCycle(456));
    assert_eq!(memory.lcd_y.get(), 0);
    assert_eq!(ppu.total_dots, 456 * 153);
    // Nothing else in memory changed.
    assert_eq!(memory.read_memory(0xFF40), 0x91);
}

#[test]
fn ppu_mode_numbers() {
    assert_eq!(u8::from(PpuMode::Mode0), 0);
    assert_eq!(u8::from(PpuMode::Mode1), 1);
    assert_eq!(u8::from(PpuMode::Mode2), 2);
    assert_eq!(u8::from(PpuMode::Mode3), 3);
    let mut status = LCDStatusFlags::from_bits_retain(0x45);
    status.set_ppu_mode(PpuMode::Mode3);
    assert_eq!(status.bits(), 0x47);
    status.set_ppu_mode(PpuMode::Mode0);
    assert_eq!(status.bits(), 0x44);
}

#[test]
fn time_cycles_are_four_dots_per_machine_cycle() {
    assert_eq!(TimeCycle::from(MachineCycle(3)).0, 12);
    assert_eq!(TimeCycle::from(MachineCycle(0)).0, 0);
}

#[test]
fn dma_changes_nothing() {
    let dma = Dma::new();
    assert!(dma.cycles_left.is_none());
    let mut memory = memory();
    Dma::step(&mut memory, TimeCycle(100));
    assert_eq!(memory.read_memory(0xFF44), 0);
}
