pub mod joypad;
pub mod vram;

use vstd::prelude::*;

use crate::emulator::cpu::interrupt::{EnableFlags, RequestFlags};
use crate::emulator::mbc::Mbc;
use crate::emulator::memory::vram::VRam;
use crate::emulator::ppu::{LCDControlFlags, LCDStatusFlags};
use crate::emulator::register::Register;
use crate::flags::Flags;

verus! {

/// Something that answers reads of single bytes at 16-bit addresses.
pub trait ReadMemory {
    /// Whether a read of `address` is answered (and does not fail).
    spec fn can_read(&self, address: u16) -> bool;

    /// The byte that a read of `address` gives.
    spec fn read_spec(&self, address: u16) -> u8;

    fn read_memory(&self, address: u16) -> (r: u8)
        requires
            self.can_read(address),
        ensures
            r == self.read_spec(address),
    ;
}

/// Something that accepts writes of single bytes at 16-bit addresses.
pub trait WriteMemory: Sized {
    /// Whether a write to `address` is accepted (and does not fail).
    spec fn can_write(&self, address: u16) -> bool;

    /// Whether `after` is what a write of `value` to `address` leaves of `self`.
    spec fn written(&self, after: Self, address: u16, value: u8) -> bool;

    fn write_memory(&mut self, address: u16, value: u8)
        requires
            old(self).can_write(address),
        ensures
            old(self).written(*final(self), address, value),
    ;
}

/// Something that can be read and written.
pub trait ReadWriteMemory: ReadMemory + WriteMemory {

}

impl<T: ReadMemory + WriteMemory> ReadWriteMemory for T {

}

/// A block of `N` bytes of RAM answering the addresses `START..=END`.
#[derive(Debug)]
pub struct MemoryRegion<const N: usize, const START: u16, const END: u16> {
    data: Vec<u8>,
}

impl<const N: usize, const START: u16, const END: u16> MemoryRegion<N, START, END> {
    /// The bytes of the region, the first answering `START`.
    pub closed spec fn bytes(&self) -> Seq<u8> {
        self.data@
    }

    /// The region holds one byte per address of `START..=END`.
    pub open spec fn wf(&self) -> bool {
        &&& self.bytes().len() == N
        &&& START <= END
        &&& N == END - START + 1
    }

    /// A region of zero bytes.
    pub fn new() -> (r: Self)
        requires
            START <= END,
            N == END - START + 1,
        ensures
            r.wf(),
            forall|i: int| 0 <= i < N ==> #[trigger] r.bytes()[i] == 0,
    {
        let data = vec![0u8; N];
        MemoryRegion { data }
    }

    /// The index of `address` in the region.
    pub fn address_to_idx(address: u16) -> (r: usize)
        requires
            START <= address <= END,
        ensures
            r == address - START,
    {
        (address - START) as usize
    }

    /// Copies the bytes at `start..end` of the region.
    pub fn copy_range(&self, start: usize, end: usize) -> (r: Vec<u8>)
        requires
            start <= end <= self.bytes().len(),
        ensures
            r@ == self.bytes().subrange(start as int, end as int),
    {
        let mut out: Vec<u8> = Vec::new();
        let mut i = start;
        while i < end
            invariant
                start <= i <= end <= self.bytes().len(),
                out@ == self.bytes().subrange(start as int, i as int),
            decreases end - i,
        {
            out.push(self.data[i]);
            i = i + 1;
        }
        out
    }

    /// The byte at index `idx` of the region.
    pub fn byte_at(&self, idx: usize) -> (r: u8)
        requires
            idx < self.bytes().len(),
        ensures
            r == self.bytes()[idx as int],
    {
        self.data[idx]
    }
}

impl<const N: usize, const START: u16, const END: u16> ReadMemory for MemoryRegion<N, START, END> {
    open spec fn can_read(&self, address: u16) -> bool {
        self.wf() && START <= address <= END
    }

    open spec fn read_spec(&self, address: u16) -> u8 {
        self.bytes()[address - START]
    }

    fn read_memory(&self, address: u16) -> (r: u8) {
        self.data[Self::address_to_idx(address)]
    }
}

impl<const N: usize, const START: u16, const END: u16> WriteMemory for MemoryRegion<N, START, END> {
    open spec fn can_write(&self, address: u16) -> bool {
        self.wf() && START <= address <= END
    }

    open spec fn written(&self, after: Self, address: u16, value: u8) -> bool {
        after.wf() && after.bytes() == self.bytes().update(address - START, value)
    }

    fn write_memory(&mut self, address: u16, value: u8) {
        let idx = Self::address_to_idx(address);
        self.data.set(idx, value);
    }
}

/// The serial transfer control register (`SC`).
#[derive(Default, Clone, Copy)]
pub struct SerialControlFlags {
    bits: u8,
}

impl SerialControlFlags {
    pub const TRANSFER_ENABLE: u8 = 0x80;
    pub const CLOCK_SELECT: u8 = 0x01;
}

impl Flags for SerialControlFlags {
    open spec fn spec_all() -> u8 {
        0x81
    }

    closed spec fn spec_bits(&self) -> u8 {
        self.bits
    }

    fn all_bits() -> (r: u8) {
        0x81
    }

    fn bits(&self) -> (r: u8) {
        self.bits
    }

    fn from_bits_retain(bits: u8) -> (r: Self) {
        SerialControlFlags { bits }
    }

    fn set_bits(&mut self, bits: u8) {
        self.bits = bits;
    }
}


/// Work RAM.
pub type WRam = MemoryRegion<8192, 0xC000, 0xDFFF>;

/// Object attribute memory.
pub type Oam = MemoryRegion<160, 0xFE00, 0xFE9F>;

/// High RAM.
pub type HRam = MemoryRegion<127, 0xFF80, 0xFFFE>;

pub const UNUSABLE_START_ADDRESS: u16 = 0xFE00;

pub const UNUSABLE_END_ADDRESS: u16 = 0xFEFF;

pub const REQUESTED_INTERRUPTS_ADDRESS: u16 = 0xFF0F;

pub const AUDIO_START_ADDRESS: u16 = 0xFF10;

pub const AUDIO_END_ADDRESS: u16 = 0xFF26;

pub const SERIAL_TRANSFER_DATA_ADDRESS: u16 = 0xFF01;

pub const SERIAL_TRANSFER_CONTROL_ADDRESS: u16 = 0xFF02;

pub const LCD_CONTROL_ADDRESS: u16 = 0xFF40;

pub const LCD_STATUS_ADDRESS: u16 = 0xFF41;

pub const LCD_Y_ADDRESS: u16 = 0xFF44;

pub const SCREEN_Y_ADDRESS: u16 = 0xFF42;

pub const SCREEN_X_ADDRESS: u16 = 0xFF43;

pub const BG_PALETTE_ADDRESS: u16 = 0xFF47;

pub const OBJ_PALETTE_0_ADDRESS: u16 = 0xFF48;

pub const OBJ_PALETTE_1_ADDRESS: u16 = 0xFF49;

pub const ENABLED_INTERRUPTS_ADDRESS: u16 = 0xFFFF;

/// Whether `a` lies in the cartridge's part of the address space (ROM or external RAM).
pub open spec fn in_cartridge(a: u16) -> bool {
    a <= 0x7FFF || (0xA000 <= a <= 0xBFFF)
}

/// Whether `a` is one of the addresses outside the cartridge that the memory map answers.
pub open spec fn mapped(a: u16) -> bool {
    ||| 0x8000 <= a <= 0x9FFF
    ||| 0xC000 <= a <= 0xDFFF
    ||| 0xFE00 <= a <= 0xFEFF
    ||| a == 0xFF7F
    ||| a == 0xFF0F
    ||| 0xFF10 <= a <= 0xFF26
    ||| a == 0xFF01
    ||| a == 0xFF02
    ||| a == 0xFF40
    ||| a == 0xFF41
    ||| a == 0xFF44
    ||| a == 0xFF42
    ||| a == 0xFF43
    ||| a == 0xFF47
    ||| a == 0xFF48
    ||| a == 0xFF49
    ||| 0xFF80 <= a <= 0xFFFE
    ||| a == 0xFFFF
}

/// Whether writes to `a` are dropped: the unusable area, `0xFF7F` and the audio registers.
pub open spec fn write_ignored(a: u16) -> bool {
    (0xFEA0 <= a <= 0xFEFF) || a == 0xFF7F || (0xFF10 <= a <= 0xFF26)
}

/// Whether a write to `a` is accepted: every mapped address outside the cartridge except `LY`.
pub open spec fn writable(a: u16) -> bool {
    !in_cartridge(a) && mapped(a) && a != 0xFF44
}

/// Whether a write to `a` is accepted.
pub fn is_writable(a: u16) -> (r: bool)
    ensures
        r == writable(a),
{
    !(a <= 0x7FFF || (0xA000 <= a && a <= 0xBFFF)) && is_mapped(a) && a != LCD_Y_ADDRESS
}

/// Whether `a` is one of the addresses outside the cartridge that the memory map answers.
pub fn is_mapped(a: u16) -> (r: bool)
    ensures
        r == mapped(a),
{
    (0x8000 <= a && a <= 0x9FFF) || (0xC000 <= a && a <= 0xDFFF) || (UNUSABLE_START_ADDRESS <= a
        && a <= UNUSABLE_END_ADDRESS) || a == 0xFF7F || a == REQUESTED_INTERRUPTS_ADDRESS || (
    AUDIO_START_ADDRESS <= a && a <= AUDIO_END_ADDRESS) || a == SERIAL_TRANSFER_DATA_ADDRESS || a
        == SERIAL_TRANSFER_CONTROL_ADDRESS || a == LCD_CONTROL_ADDRESS || a == LCD_STATUS_ADDRESS
        || a == LCD_Y_ADDRESS || a == SCREEN_Y_ADDRESS || a == SCREEN_X_ADDRESS || a
        == BG_PALETTE_ADDRESS || a == OBJ_PALETTE_0_ADDRESS || a == OBJ_PALETTE_1_ADDRESS || (0xFF80
        <= a && a <= 0xFFFE) || a == ENABLED_INTERRUPTS_ADDRESS
}

/// The byte that reads back from `a` after `v` was written there: flag registers keep
/// only the bits that they name.
pub open spec fn stored(a: u16, v: u8) -> u8 {
    if a == 0xFF0F || a == 0xFFFF {
        v & 0x1F
    } else if a == 0xFF02 {
        v & 0x81
    } else if a == 0xFF41 {
        v & 0x7F
    } else {
        v
    }
}

/// Whether `a` is plain RAM: a write there is kept whole and reads back unchanged.
pub open spec fn plain_ram(a: u16) -> bool {
    &&& writable(a)
    &&& !write_ignored(a)
    &&& a != 0xFF0F
    &&& a != 0xFF02
    &&& a != 0xFF41
    &&& a != 0xFFFF
}

/// The memory contents after `v` was written to the writable address `a`.
pub open spec fn store(m: Map<u16, u8>, a: u16, v: u8) -> Map<u16, u8> {
    if write_ignored(a) {
        m
    } else {
        m.insert(a, stored(a, v))
    }
}

/// What an address outside the cartridge reads at power-up: the I/O register values that
/// the DMG boot program leaves, and zero everywhere else.
pub open spec fn power_up_byte(a: u16) -> u8 {
    if a == 0xFF0F {
        0xE1
    } else if a == 0xFF02 {
        0x7E
    } else if a == 0xFF40 {
        0x91
    } else if a == 0xFF41 {
        0x85
    } else if a == 0xFF47 {
        0xFC
    } else {
        0
    }
}

/// The address space as the CPU sees it.
pub struct Memory {
    /// Provides the ROM banks of the cartridge.
    pub mbc: Mbc,
    pub vram: VRam,
    pub wram: WRam,
    pub oam: Oam,
    pub requested_interrupts: Register<RequestFlags>,
    pub serial_transfer_data: Register<u8>,
    pub serial_transfer_control: Register<SerialControlFlags>,
    pub lcd_control: Register<LCDControlFlags>,
    pub lcd_status: Register<LCDStatusFlags>,
    pub lcd_y: Register<u8>,
    pub screen_y: Register<u8>,
    pub screen_x: Register<u8>,
    pub bg_palette: Register<u8>,
    pub obj_palette0: Register<u8>,
    pub obj_palette1: Register<u8>,
    pub hram: HRam,
    pub enabled_interrupts: Register<EnableFlags>,
}

impl Memory {
    pub open spec fn wf(&self) -> bool {
        &&& self.vram.wf()
        &&& self.wram.wf()
        &&& self.oam.wf()
        &&& self.hram.wf()
    }

    /// Whether a read of `a` is answered.
    pub open spec fn readable(&self, a: u16) -> bool {
        if in_cartridge(a) {
            self.mbc.can_read(a)
        } else {
            mapped(a)
        }
    }

    /// The byte that a read of `a` gives.
    pub open spec fn peek(&self, a: u16) -> u8 {
        if in_cartridge(a) {
            self.mbc.read_spec(a)
        } else if 0x8000 <= a <= 0x9FFF {
            self.vram.read_spec(a)
        } else if 0xC000 <= a <= 0xDFFF {
            self.wram.read_spec(a)
        } else if 0xFE00 <= a <= 0xFE9F {
            self.oam.read_spec(a)
        } else if a == 0xFF0F {
            self.requested_interrupts@.spec_bits()
        } else if a == 0xFF01 {
            self.serial_transfer_data@
        } else if a == 0xFF02 {
            self.serial_transfer_control@.spec_bits()
        } else if a == 0xFF40 {
            self.lcd_control@.spec_bits()
        } else if a == 0xFF41 {
            self.lcd_status@.spec_bits()
        } else if a == 0xFF44 {
            self.lcd_y@
        } else if a == 0xFF42 {
            self.screen_y@
        } else if a == 0xFF43 {
            self.screen_x@
        } else if a == 0xFF47 {
            self.bg_palette@
        } else if a == 0xFF48 {
            self.obj_palette0@
        } else if a == 0xFF49 {
            self.obj_palette1@
        } else if 0xFF80 <= a <= 0xFFFE {
            self.hram.read_spec(a)
        } else if a == 0xFFFF {
            self.enabled_interrupts@.spec_bits()
        } else {
            0
        }
    }
}

impl View for Memory {
    type V = Map<u16, u8>;

    /// The byte at each readable address.
    open spec fn view(&self) -> Map<u16, u8> {
        Map::new(|a: u16| self.readable(a), |a: u16| self.peek(a))
    }
}

impl Memory {
    /// The memory map around the cartridge controller `mbc`, I/O registers holding the
    /// values that the DMG boot program leaves.
    pub fn new(mbc: Mbc) -> (r: Self)
        ensures
            r.wf(),
            r.mbc == mbc,
            r.vram.dirty_tiles,
            forall|a: u16| #![trigger r.peek(a)] !in_cartridge(a) ==> r.peek(a) == power_up_byte(a),
    {
        let r = Self {
            mbc: mbc,
            vram: VRam::new(),
            wram: WRam::new(),
            oam: Oam::new(),
            requested_interrupts: Register::from_bits_retain(0xE1),
            serial_transfer_data: Register::new(0),
            serial_transfer_control: Register::from_bits_retain(0x7E),
            lcd_control: Register::from_bits_retain(0x91),
            lcd_status: Register::from_bits_retain(0x85),
            lcd_y: Register::new(0),
            screen_y: Register::new(0),
            screen_x: Register::new(0),
            bg_palette: Register::new(0xFC),
            obj_palette0: Register::new(0),
            obj_palette1: Register::new(0),
            hram: HRam::new(),
            enabled_interrupts: Register::from_bits_retain(0),
        };
        r
    }
}

impl Memory {
    /// Whether a read of `a` is answered.
    pub fn is_readable(&self, a: u16) -> (r: bool)
        ensures
            r == self.readable(a),
            r == self@.dom().contains(a),
    {
        if a <= 0x7FFF || (0xA000 <= a && a <= 0xBFFF) {
            self.mbc.is_readable(a)
        } else {
            is_mapped(a)
        }
    }
}

impl ReadMemory for Memory {
    open spec fn can_read(&self, address: u16) -> bool {
        self.wf() && self.readable(address)
    }

    open spec fn read_spec(&self, address: u16) -> u8 {
        self.peek(address)
    }

    fn read_memory(&self, address: u16) -> (r: u8) {
        if address <= 0x7FFF || (0xA000 <= address && address <= 0xBFFF) {
            self.mbc.read_memory(address)
        } else if 0x8000 <= address && address <= 0x9FFF {
            self.vram.read_memory(address)
        } else if 0xC000 <= address && address <= 0xDFFF {
            self.wram.read_memory(address)
        } else if 0xFE00 <= address && address <= 0xFE9F {
            self.oam.read_memory(address)
        } else if UNUSABLE_START_ADDRESS <= address && address <= UNUSABLE_END_ADDRESS {
            0
        } else if address == 0xFF7F {
            0
        } else if address == REQUESTED_INTERRUPTS_ADDRESS {
            self.requested_interrupts.get().bits()
        } else if AUDIO_START_ADDRESS <= address && address <= AUDIO_END_ADDRESS {
            0
        } else if address == SERIAL_TRANSFER_DATA_ADDRESS {
            self.serial_transfer_data.get()
        } else if address == SERIAL_TRANSFER_CONTROL_ADDRESS {
            self.serial_transfer_control.get().bits()
        } else if address == LCD_CONTROL_ADDRESS {
            self.lcd_control.get().bits()
        } else if address == LCD_STATUS_ADDRESS {
            self.lcd_status.get().bits()
        } else if address == LCD_Y_ADDRESS {
            self.lcd_y.get()
        } else if address == SCREEN_Y_ADDRESS {
            self.screen_y.get()
        } else if address == SCREEN_X_ADDRESS {
            self.screen_x.get()
        } else if address == BG_PALETTE_ADDRESS {
            self.bg_palette.get()
        } else if address == OBJ_PALETTE_0_ADDRESS {
            self.obj_palette0.get()
        } else if address == OBJ_PALETTE_1_ADDRESS {
            self.obj_palette1.get()
        } else if 0xFF80 <= address && address <= 0xFFFE {
            self.hram.read_memory(address)
        } else {
            self.enabled_interrupts.get().bits()
        }
    }
}

impl WriteMemory for Memory {
    open spec fn can_write(&self, address: u16) -> bool {
        self.wf() && writable(address)
    }

    /// The byte lands at `address` (masked for flag registers, dropped where writes
    /// are ignored), the controller stays, nothing else that reads back changes, and a
    /// write to tile data marks the tiles dirty.
    open spec fn written(&self, after: Self, address: u16, value: u8) -> bool {
        &&& after.wf()
        &&& after.mbc == self.mbc
        &&& after@ == store(self@, address, value)
        &&& after.vram.dirty_tiles == (self.vram.dirty_tiles || 0x8000 <= address <= 0x97FF)
    }

    #[verifier::rlimit(60)]
    fn write_memory(&mut self, address: u16, value: u8) {
        let ghost before = *self;
        if 0x8000 <= address && address <= 0x9FFF {
            self.vram.write_memory(address, value);
        } else if 0xC000 <= address && address <= 0xDFFF {
            self.wram.write_memory(address, value);
        } else if 0xFE00 <= address && address <= 0xFE9F {
            self.oam.write_memory(address, value);
        } else if UNUSABLE_START_ADDRESS <= address && address <= UNUSABLE_END_ADDRESS {
        } else if address == 0xFF7F {
        } else if address == REQUESTED_INTERRUPTS_ADDRESS {
            self.requested_interrupts.set(RequestFlags::from_bits_truncate(value));
        } else if AUDIO_START_ADDRESS <= address && address <= AUDIO_END_ADDRESS {
        } else if address == SERIAL_TRANSFER_DATA_ADDRESS {
            self.serial_transfer_data.set(value);
        } else if address == SERIAL_TRANSFER_CONTROL_ADDRESS {
            self.serial_transfer_control.set(SerialControlFlags::from_bits_truncate(value));
        } else if address == LCD_CONTROL_ADDRESS {
            self.lcd_control.set(LCDControlFlags::from_bits_truncate(value));
        } else if address == LCD_STATUS_ADDRESS {
            self.lcd_status.set(LCDStatusFlags::from_bits_truncate(value));
        } else if address == SCREEN_Y_ADDRESS {
            self.screen_y.set(value);
        } else if address == SCREEN_X_ADDRESS {
            self.screen_x.set(value);
        } else if address == BG_PALETTE_ADDRESS {
            self.bg_palette.set(value);
        } else if address == OBJ_PALETTE_0_ADDRESS {
            self.obj_palette0.set(value);
        } else if address == OBJ_PALETTE_1_ADDRESS {
            self.obj_palette1.set(value);
        } else if 0xFF80 <= address && address <= 0xFFFE {
            self.hram.write_memory(address, value);
        } else {
            self.enabled_interrupts.set(EnableFlags::from_bits_truncate(value));
        }
        proof {
            assert(value & 0xFF == value) by (bit_vector);
            assert(self.mbc == before.mbc);
            assert(address != 0xFF44 ==> self.lcd_y == before.lcd_y);
            assert(address != 0xFF42 ==> self.screen_y == before.screen_y);
            assert(address != 0xFF0F ==> self.requested_interrupts == before.requested_interrupts);
            let expected = store(before@, address, value);
            assert forall|k: u16| #[trigger] self.readable(k) == before.readable(k) by {}
            assert forall|k: u16| self.readable(k) implies #[trigger] self.peek(k) == (if k == address
                && !write_ignored(address) {
                stored(address, value)
            } else {
                before.peek(k)
            }) by {
                if 0x8000 <= address <= 0x9FFF {
                    assert(self.vram.bytes() == before.vram.bytes().update(address - 0x8000, value));
                } else if 0xC000 <= address <= 0xDFFF {
                    assert(self.wram.bytes() == before.wram.bytes().update(address - 0xC000, value));
                } else if 0xFE00 <= address <= 0xFE9F {
                    assert(self.oam.bytes() == before.oam.bytes().update(address - 0xFE00, value));
                } else if 0xFF80 <= address <= 0xFFFE {
                    assert(self.hram.bytes() == before.hram.bytes().update(address - 0xFF80, value));
                } else {
                    assert(self.vram == before.vram);
                    assert(self.wram == before.wram);
                    assert(self.oam == before.oam);
                    assert(self.hram == before.hram);
                }
                if k == address {
                    assert(self.peek(k) == (if !write_ignored(address) { stored(address, value) } else { before.peek(k) }));
                } else {
                    assert(self.peek(k) == before.peek(k));
                }
            }
            assert(self@ =~= expected);
        }
    }
}

/// Changing only the line counter changes only what `LY` reads.
pub proof fn lemma_lcd_y_view(before: Memory, after: Memory)
    requires
        after == (Memory { lcd_y: after.lcd_y, ..before }),
    ensures
        after@ == before@.insert(0xFF44, after.lcd_y@),
        after.wf() == before.wf(),
{
    assert(after@ =~= before@.insert(0xFF44, after.lcd_y@));
}

/// A read after a write gives what the write left there: the byte itself, the bits that a
/// flag register names, or the old byte where writes are dropped; every other address
/// reads as before.
pub proof fn lemma_read_after_write(before: Memory, after: Memory, address: u16, value: u8, other: u16)
    requires
        before.can_write(address),
        before.written(after, address, value),
    ensures
        after.can_read(address),
        after.read_spec(address) == (if write_ignored(address) {
            before.read_spec(address)
        } else {
            stored(address, value)
        }),
        other != address ==> after.can_read(other) == before.can_read(other),
        other != address && before.can_read(other) ==> after.read_spec(other) == before.read_spec(
            other,
        ),
{
    assert(before@.dom().contains(address));
    assert(after@.dom().contains(address));
    assert(after@[address] == after.peek(address));
    assert(after@.dom().contains(other) == before@.dom().contains(other));
    if before.readable(other) && other != address {
        assert(after@[other] == after.peek(other));
        assert(before@[other] == before.peek(other));
    }
}

/// A read of a RAM block after a write gives the written byte at its address and the old
/// byte everywhere else.
pub proof fn lemma_region_read_after_write<const N: usize, const START: u16, const END: u16>(
    before: MemoryRegion<N, START, END>,
    after: MemoryRegion<N, START, END>,
    address: u16,
    value: u8,
    other: u16,
)
    requires
        before.can_write(address),
        before.written(after, address, value),
    ensures
        after.can_read(address),
        after.read_spec(address) == value,
        before.can_read(other) ==> after.can_read(other),
        before.can_read(other) && other != address ==> after.read_spec(other) == before.read_spec(
            other,
        ),
{
}

} // verus!
