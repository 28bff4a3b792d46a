use vstd::prelude::*;

use crate::emulator::memory::Memory;
use crate::emulator::TimeCycle;
use crate::flags::Flags;

verus! {

/// The LCD control register (`LCDC`).
#[derive(Copy, Clone, Debug)]
pub struct LCDControlFlags {
    bits: u8,
}

#[allow(non_upper_case_globals)]
impl LCDControlFlags {
    pub const LCDAndPPUEnable: u8 = 0x80;
    pub const WindowTileMapArea: u8 = 0x40;
    pub const WindowEnable: u8 = 0x20;
    pub const BGAndWindowTileArea: u8 = 0x10;
    pub const BGTileMapArea: u8 = 0x08;
    pub const OBJSize: u8 = 0x04;
    pub const OBJEnable: u8 = 0x02;
    pub const BGAndWindowEnablePriority: u8 = 0x01;
}

impl Flags for LCDControlFlags {
    open spec fn spec_all() -> u8 {
        0xFF
    }

    closed spec fn spec_bits(&self) -> u8 {
        self.bits
    }

    fn all_bits() -> (r: u8) {
        0xFF
    }

    fn bits(&self) -> (r: u8) {
        self.bits
    }

    fn from_bits_retain(bits: u8) -> (r: Self) {
        LCDControlFlags { bits }
    }

    fn set_bits(&mut self, bits: u8) {
        self.bits = bits;
    }
}

/// The LCD status register (`STAT`).
#[derive(Copy, Clone, Debug)]
pub struct LCDStatusFlags {
    bits: u8,
}

#[allow(non_upper_case_globals)]
impl LCDStatusFlags {
    pub const LYCIntSelect: u8 = 0x40;
    pub const Mode2IntSelect: u8 = 0x20;
    pub const Mode1IntSelect: u8 = 0x10;
    pub const Mode0IntSelect: u8 = 0x08;
    pub const LYCEqLY: u8 = 0x04;
    pub const PPUMode: u8 = 0x03;
}

impl Flags for LCDStatusFlags {
    open spec fn spec_all() -> u8 {
        0x7F
    }

    closed spec fn spec_bits(&self) -> u8 {
        self.bits
    }

    fn all_bits() -> (r: u8) {
        0x7F
    }

    fn bits(&self) -> (r: u8) {
        self.bits
    }

    fn from_bits_retain(bits: u8) -> (r: Self) {
        LCDStatusFlags { bits }
    }

    fn set_bits(&mut self, bits: u8) {
        self.bits = bits;
    }
}

/// The mode that the PPU is in, as `STAT` reports it in its two low bits.
#[derive(Copy, Clone, Debug, PartialEq, Eq, Structural)]
pub enum PpuMode {
    Mode2,
    Mode3,
    Mode0,
    Mode1,
}

/// The number that `STAT` holds for a mode.
pub open spec fn mode_number(mode: PpuMode) -> u8 {
    match mode {
        PpuMode::Mode2 => 2,
        PpuMode::Mode3 => 3,
        PpuMode::Mode0 => 0,
        PpuMode::Mode1 => 1,
    }
}

impl From<PpuMode> for u8 {
    /// The number that `STAT` holds for the mode.
    fn from(value: PpuMode) -> (r: u8) {
        match value {
            PpuMode::Mode2 => 2,
            PpuMode::Mode3 => 3,
            PpuMode::Mode0 => 0,
            PpuMode::Mode1 => 1,
        }
    }
}

impl vstd::std_specs::convert::FromSpecImpl<PpuMode> for u8 {
    open spec fn obeys_from_spec() -> bool {
        true
    }

    open spec fn from_spec(v: PpuMode) -> u8 {
        mode_number(v)
    }
}

impl LCDStatusFlags {
    /// Replaces the two mode bits with `mode` and keeps the other bits.
    pub fn set_ppu_mode(&mut self, mode: PpuMode)
        ensures
            final(self).spec_bits() == (old(self).spec_bits() & !0x03u8) | mode_number(mode),
    {
        self.remove(Self::PPUMode);
        let n = u8::from(mode);
        let m = Self::from_bits_truncate(n);
        assert(n & 0x7F == n) by (bit_vector)
            requires
                n < 4,
        ;
        self.insert(m.bits());
    }
}

pub const FRAMEBUFFER_WIDTH: usize = 160;

pub const FRAMEBUFFER_HEIGHT: usize = 144;

/// Dots (clock cycles) per scanline.
pub const SCANLINE_LENGTH: usize = 456;

/// The position within its scanline, counted from 1, of the dot after `dots` dots.
pub open spec fn scanline_position(dots: int) -> int {
    dots % 456 + 1
}

/// The line counter after the dot at `dots`: it advances at the end of a scanline and
/// wraps to 0 on reaching 153.
pub open spec fn ly_step(ly: u8, dots: int) -> u8 {
    let advanced = if scanline_position(dots) == 456 {
        (ly + 1) as u8
    } else {
        ly
    };
    if advanced == 153 {
        0
    } else {
        advanced
    }
}

/// The line counter after `n` dots starting from dot `dots`.
pub open spec fn ly_after(ly: u8, dots: int, n: nat) -> u8
    decreases n,
{
    if n == 0 {
        ly
    } else {
        ly_step(ly_after(ly, dots, (n - 1) as nat), dots + n - 1)
    }
}

/// Whether the line counter never has to advance past 255 during `n` dots.
pub open spec fn ly_stays_in_range(ly: u8, dots: int, n: nat) -> bool {
    forall|i: nat|
        i < n ==> !(#[trigger] ly_after(ly, dots, i) == 255 && scanline_position(dots + i) == 456)
}

/// The picture processing unit.
pub struct Ppu {
    pub framebuffer: Vec<u8>,
    pub total_dots: usize,
}

impl Ppu {
    pub fn new() -> (r: Self)
        ensures
            r.framebuffer@.len() == 0,
            r.total_dots == 0,
    {
        Self {
            framebuffer: Vec::with_capacity(FRAMEBUFFER_WIDTH * FRAMEBUFFER_HEIGHT),
            total_dots: 0,
        }
    }

    /// Runs the PPU for `steps` dots: the line counter `LY` advances at the end of each
    /// scanline and wraps to 0 on reaching 153. Reports whether a frame is ready, which
    /// it never is yet.
    pub fn step(&mut self, memory: &mut Memory, steps: TimeCycle) -> (r: bool)
        requires
            old(self).total_dots + steps.0 <= usize::MAX,
            ly_stays_in_range(old(memory).lcd_y@, old(self).total_dots as int, steps.0 as nat),
        ensures
            !r,
            final(self).total_dots == old(self).total_dots + steps.0,
            final(self).framebuffer@ == old(self).framebuffer@,
            final(memory).lcd_y@ == ly_after(
                old(memory).lcd_y@,
                old(self).total_dots as int,
                steps.0 as nat,
            ),
            *final(memory) == (Memory { lcd_y: final(memory).lcd_y, ..*old(memory) }),
            old(memory).lcd_y@ < 153 ==> final(memory).lcd_y@ == (old(memory).lcd_y@ + ((old(
                self,
            ).total_dots + steps.0) / 456 - old(self).total_dots / 456)) % 153,
    {
        proof {
            if memory.lcd_y@ < 153 {
                lemma_ly_closed_form(memory.lcd_y@, self.total_dots as nat, steps.0 as nat);
            }
        }
        let ghost start_dots = self.total_dots as int;
        let ghost start_ly = memory.lcd_y@;
        let mut i: usize = 0;
        while i < steps.0
            invariant
                i <= steps.0,
                start_dots == old(self).total_dots,
                start_ly == old(memory).lcd_y@,
                self.total_dots == start_dots + i,
                start_dots + steps.0 <= usize::MAX,
                self.framebuffer@ == old(self).framebuffer@,
                memory.lcd_y@ == ly_after(start_ly, start_dots, i as nat),
                *memory == (Memory { lcd_y: memory.lcd_y, ..*old(memory) }),
                ly_stays_in_range(start_ly, start_dots, steps.0 as nat),
            decreases steps.0 - i,
        {
            let position = self.scanline_dots();
            proof {
                assert(!(ly_after(start_ly, start_dots, i as nat) == 255 && scanline_position(
                    start_dots + i,
                ) == 456));
            }
            let ly = &mut memory.lcd_y;
            if position == 0 {
                // Mode 2 begins: sprites would be collected here.
            } else if position == 80 {
                // Mode 3 begins.
            } else if position == 252 {
                // Mode 0 begins.
            } else if position == SCANLINE_LENGTH {
                let cur = ly.get();
                ly.set(cur + 1);
            }
            if ly.get() as usize == FRAMEBUFFER_HEIGHT {
                // The frame is complete: vertical blank begins.
            } else if ly.get() == 153 {
                ly.set(0);
            }
            self.total_dots = self.total_dots + 1;
            i = i + 1;
        }
        false
    }

    /// The position within the current scanline, counted from 1, of the next dot.
    fn scanline_dots(&mut self) -> (r: usize)
        ensures
            r == scanline_position(old(self).total_dots as int),
            *final(self) == *old(self),
    {
        self.total_dots % SCANLINE_LENGTH + 1
    }
}

/// From a line below 153 the line counter never has to advance past 255.
pub proof fn lemma_ly_stays_in_range(ly: u8, dots: int, n: nat)
    requires
        ly < 153,
    ensures
        ly_stays_in_range(ly, dots, n),
        ly_after(ly, dots, n) < 153,
    decreases n,
{
    if n > 0 {
        lemma_ly_stays_in_range(ly, dots, (n - 1) as nat);
        assert forall|i: nat| i < n implies !(#[trigger] ly_after(ly, dots, i) == 255
            && scanline_position(dots + i) == 456) by {
            lemma_ly_below(ly, dots, i);
        }
    }
}

/// From a line below 153 the line counter stays below 153.
pub proof fn lemma_ly_below(ly: u8, dots: int, n: nat)
    requires
        ly < 153,
    ensures
        ly_after(ly, dots, n) < 153,
    decreases n,
{
    if n > 0 {
        lemma_ly_below(ly, dots, (n - 1) as nat);
    }
}

/// After the mode is set, the two low bits of `STAT` hold its number and the other bits
/// are as they were.
pub proof fn lemma_mode_bits(bits: u8, mode: PpuMode)
    ensures
        ((bits & !0x03u8) | mode_number(mode)) & 0x03 == mode_number(mode),
        ((bits & !0x03u8) | mode_number(mode)) & !0x03u8 == bits & !0x03u8,
{
    let n = mode_number(mode);
    assert(((bits & !0x03u8) | n) & 0x03 == n && ((bits & !0x03u8) | n) & !0x03u8 == bits
        & !0x03u8) by (bit_vector)
        requires
            n < 4,
    ;
}

/// The line counter counts the scanline ends passed, modulo 153: from a line below 153 at
/// dot `dots`, after `n` dots it has advanced once for every multiple of 456 dots crossed.
pub proof fn lemma_ly_closed_form(ly: u8, dots: nat, n: nat)
    requires
        ly < 153,
    ensures
        ly_after(ly, dots as int, n) == (ly + ((dots + n) / 456 - dots / 456)) % 153,
    decreases n,
{
    if n > 0 {
        let m = (n - 1) as nat;
        lemma_ly_closed_form(ly, dots, m);
        let d = dots + m;
        let k = d / 456 - dots / 456;
        assert(k >= 0) by {
            vstd::arithmetic::div_mod::lemma_div_is_ordered(dots as int, d as int, 456);
        }
        let prev = ly_after(ly, dots as int, m);
        assert(prev == (ly + k) % 153);
        assert(prev < 153);
        if d % 456 == 455 {
            assert((d + 1) / 456 == d / 456 + 1) by {
                vstd::arithmetic::div_mod::lemma_fundamental_div_mod(d as int, 456);
                vstd::arithmetic::div_mod::lemma_fundamental_div_mod((d + 1) as int, 456);
            }
            assert(scanline_position(d as int) == 456);
            assert((ly + k + 1) % 153 == ((ly + k) % 153 + 1) % 153) by {
                vstd::arithmetic::div_mod::lemma_add_mod_noop((ly + k) as int, 1, 153);
                vstd::arithmetic::div_mod::lemma_mod_twice(1, 153);
            }
        } else {
            assert((d + 1) / 456 == d / 456) by {
                vstd::arithmetic::div_mod::lemma_fundamental_div_mod(d as int, 456);
                vstd::arithmetic::div_mod::lemma_fundamental_div_mod((d + 1) as int, 456);
            }
            assert(scanline_position(d as int) != 456);
        }
    }
}

} // verus!
