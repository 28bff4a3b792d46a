use vstd::prelude::*;

use crate::emulator::memory::joypad::{JoypadFlags, lemma_with_inputs};
use crate::flags::{Flags, with_flag};

verus! {

/// The four input lines of `bits` set from the pad (`!down`, `!up`, `!left`, `!right`,
/// bit 3 first).
pub open spec fn with_dpad_lines(bits: u8, down: bool, up: bool, left: bool, right: bool) -> u8 {
    with_flag(with_flag(with_flag(with_flag(bits, 0x08, !down), 0x04, !up), 0x02, !left), 0x01, !right)
}

/// The joypad register with its input lines refreshed: from the pad whenever either select
/// line is set, and otherwise cleared. The upper nibble is kept either way.
pub open spec fn refreshed_lines(bits: u8, down: bool, up: bool, left: bool, right: bool) -> u8 {
    if bits & 0x10 == 0x10 || bits & 0x20 == 0x20 {
        with_dpad_lines(bits, down, up, left, right)
    } else {
        bits & 0xF0
    }
}

/// A joypad keeping one flag per key.
pub struct Joypad {
    flags: JoypadFlags,
    start_pressed: bool,
    select_pressed: bool,
    b_pressed: bool,
    a_pressed: bool,
    down_pressed: bool,
    up_pressed: bool,
    left_pressed: bool,
    right_pressed: bool,
}

impl Joypad {
    /// The byte that the joypad register holds.
    pub closed spec fn register(&self) -> u8 {
        self.flags.spec_bits()
    }

    /// Which pad directions are pressed: down, up, left, right.
    pub closed spec fn pad(&self) -> (bool, bool, bool, bool) {
        (self.down_pressed, self.up_pressed, self.left_pressed, self.right_pressed)
    }

    /// Which buttons are pressed: start, select, B, A.
    pub closed spec fn keys(&self) -> (bool, bool, bool, bool) {
        (self.start_pressed, self.select_pressed, self.b_pressed, self.a_pressed)
    }

    /// A joypad with nothing pressed, its register holding `0xCF`.
    pub fn new() -> (r: Self)
        ensures
            r.register() == 0xCF,
            r.pad() == (false, false, false, false),
            r.keys() == (false, false, false, false),
    {
        Self {
            flags: JoypadFlags::from_bits_retain(0xCF),
            start_pressed: false,
            select_pressed: false,
            b_pressed: false,
            a_pressed: false,
            down_pressed: false,
            up_pressed: false,
            left_pressed: false,
            right_pressed: false,
        }
    }

    /// What a read of the joypad register gives.
    pub fn get_memory(&self) -> (r: u8)
        ensures
            r == self.register(),
    {
        self.flags.bits()
    }

    /// A write to the joypad register: only the upper nibble is taken, then the input lines
    /// are refreshed.
    pub fn set_memory(&mut self, value: u8)
        ensures
            final(self).register() == refreshed_lines(
                value & 0xF0,
                old(self).pad().0,
                old(self).pad().1,
                old(self).pad().2,
                old(self).pad().3,
            ),
            final(self).pad() == old(self).pad(),
            final(self).keys() == old(self).keys(),
    {
        self.flags = JoypadFlags::from_bits_retain(value & 0xF0);
        self.update_flags();
    }

    /// Refreshes the input lines from the pad whenever a select line is set.
    pub fn update_flags(&mut self)
        ensures
            final(self).register() == refreshed_lines(
                old(self).register(),
                old(self).pad().0,
                old(self).pad().1,
                old(self).pad().2,
                old(self).pad().3,
            ),
            final(self).pad() == old(self).pad(),
            final(self).keys() == old(self).keys(),
    {
        if self.flags.contains(JoypadFlags::SELECT_DPAD) {
            self.flags.set(JoypadFlags::BUTTONS_START_DPAD_DOWN, !self.down_pressed);
            self.flags.set(JoypadFlags::BUTTONS_SELECT_DPAD_UP, !self.up_pressed);
            self.flags.set(JoypadFlags::BUTTONS_B_DPAD_LEFT, !self.left_pressed);
            self.flags.set(JoypadFlags::BUTTONS_A_DPAD_RIGHT, !self.right_pressed);
        } else if self.flags.contains(JoypadFlags::SELECT_BUTTONS) {
            self.flags.set(JoypadFlags::BUTTONS_START_DPAD_DOWN, !self.down_pressed);
            self.flags.set(JoypadFlags::BUTTONS_SELECT_DPAD_UP, !self.up_pressed);
            self.flags.set(JoypadFlags::BUTTONS_B_DPAD_LEFT, !self.left_pressed);
            self.flags.set(JoypadFlags::BUTTONS_A_DPAD_RIGHT, !self.right_pressed);
        } else {
            // Only the lower nibble is recomputed; the upper nibble stays as written.
            let bits = self.flags.bits() & 0xF0;
            self.flags = JoypadFlags::from_bits_retain(bits);
        }
    }
}

/// A refresh keeps the upper nibble (the select lines among it), and refreshing again
/// changes nothing.
pub proof fn lemma_refresh_lines_stable(bits: u8, down: bool, up: bool, left: bool, right: bool)
    ensures
        refreshed_lines(bits, down, up, left, right) & 0xF0 == bits & 0xF0,
        refreshed_lines(refreshed_lines(bits, down, up, left, right), down, up, left, right)
            == refreshed_lines(bits, down, up, left, right),
{
    let r = refreshed_lines(bits, down, up, left, right);
    if bits & 0x10 == 0x10 || bits & 0x20 == 0x20 {
        lemma_with_inputs(bits, !down, !up, !left, !right);
        lemma_with_inputs(r, !down, !up, !left, !right);
        assert(bits & 0xF0 == r & 0xF0 ==> (bits & 0x30 == r & 0x30 && (bits & 0x10 == 0x10) == (r
            & 0x10 == 0x10) && (bits & 0x20 == 0x20) == (r & 0x20 == 0x20))) by (bit_vector);
        let r2 = refreshed_lines(r, down, up, left, right);
        assert(r2 & 0xF0 == r & 0xF0 && (r2 & 0x08 == 0x08) == (r & 0x08 == 0x08) && (r2 & 0x04
            == 0x04) == (r & 0x04 == 0x04) && (r2 & 0x02 == 0x02) == (r & 0x02 == 0x02) && (r2
            & 0x01 == 0x01) == (r & 0x01 == 0x01) ==> r2 == r) by (bit_vector);
    } else {
        assert(!(bits & 0x10 == 0x10 || bits & 0x20 == 0x20) ==> ((bits & 0xF0) & 0xF0 == bits
            & 0xF0 && !((bits & 0xF0) & 0x10 == 0x10 || (bits & 0xF0) & 0x20 == 0x20))) by (
        bit_vector);
    }
}

/// After a refresh with either select line set, input lines 3 to 0 read low exactly while
/// down, up, left and right are pressed; with neither, all four read low.
pub proof fn lemma_refresh_lines_follow_pad(bits: u8, down: bool, up: bool, left: bool, right: bool)
    ensures
        ({
            let r = refreshed_lines(bits, down, up, left, right);
            &&& bits & 0x10 == 0x10 || bits & 0x20 == 0x20 ==> {
                &&& (r & 0x08 != 0x08) == down
                &&& (r & 0x04 != 0x04) == up
                &&& (r & 0x02 != 0x02) == left
                &&& (r & 0x01 != 0x01) == right
            }
            &&& !(bits & 0x10 == 0x10 || bits & 0x20 == 0x20) ==> {
                &&& r & 0x08 != 0x08
                &&& r & 0x04 != 0x04
                &&& r & 0x02 != 0x02
                &&& r & 0x01 != 0x01
            }
        }),
{
    lemma_with_inputs(bits, !down, !up, !left, !right);
    let cleared = bits & 0xF0;
    assert(cleared & 0x08 != 0x08 && cleared & 0x04 != 0x04 && cleared & 0x02 != 0x02 && cleared
        & 0x01 != 0x01) by (bit_vector)
        requires
            cleared == bits & 0xF0,
    ;
}

} // verus!
