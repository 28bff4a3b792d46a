use vstd::prelude::*;

use crate::flags::{Flags, with_flag};

verus! {

/// The joypad register (`P1`): two select lines and four input lines, 0 meaning pressed.
#[derive(Copy, Clone, Debug)]
pub struct JoypadFlags {
    bits: u8,
}

impl JoypadFlags {
    pub const SELECT_BUTTONS: u8 = 0x20;
    pub const SELECT_DPAD: u8 = 0x10;
    pub const BUTTONS_START_DPAD_DOWN: u8 = 0x08;
    pub const BUTTONS_SELECT_DPAD_UP: u8 = 0x04;
    pub const BUTTONS_B_DPAD_LEFT: u8 = 0x02;
    pub const BUTTONS_A_DPAD_RIGHT: u8 = 0x01;
}

impl Flags for JoypadFlags {
    open spec fn spec_all() -> u8 {
        0x3F
    }

    closed spec fn spec_bits(&self) -> u8 {
        self.bits
    }

    fn all_bits() -> (r: u8) {
        0x3F
    }

    fn bits(&self) -> (r: u8) {
        self.bits
    }

    fn from_bits_retain(bits: u8) -> (r: Self) {
        JoypadFlags { bits }
    }

    fn set_bits(&mut self, bits: u8) {
        self.bits = bits;
    }
}

/// Which action buttons are pressed.
#[derive(Copy, Clone, Default, Debug, PartialEq, Eq, Structural)]
pub struct ButtonState {
    pub start: bool,
    pub select: bool,
    pub b: bool,
    pub a: bool,
}

/// Which directions of the pad are pressed.
#[derive(Copy, Clone, Default, Debug, PartialEq, Eq, Structural)]
pub struct DpadState {
    pub down: bool,
    pub up: bool,
    pub left: bool,
    pub right: bool,
}

/// `bits` with its four input lines set to `b3`, `b2`, `b1`, `b0` (bit 3 first).
pub open spec fn with_inputs(bits: u8, b3: bool, b2: bool, b1: bool, b0: bool) -> u8 {
    with_flag(with_flag(with_flag(with_flag(bits, 0x08, b3), 0x04, b2), 0x02, b1), 0x01, b0)
}

/// The joypad register with the input lines refreshed from what is pressed: the pad when
/// its select line is set, else the buttons when theirs is, else all lines low. A set line
/// means the key is not pressed.
pub open spec fn refreshed(bits: u8, buttons: ButtonState, dpad: DpadState) -> u8 {
    if bits & 0x10 == 0x10 {
        with_inputs(bits, !dpad.down, !dpad.up, !dpad.left, !dpad.right)
    } else if bits & 0x20 == 0x20 {
        with_inputs(bits, !buttons.start, !buttons.select, !buttons.b, !buttons.a)
    } else {
        with_inputs(bits, false, false, false, false)
    }
}

/// The joypad as the program sees it through its register.
#[derive(Debug)]
pub struct Joypad {
    flags: JoypadFlags,
    buttons: ButtonState,
    dpad: DpadState,
}

impl Joypad {
    /// The byte that the joypad register holds.
    pub closed spec fn register(&self) -> u8 {
        self.flags.spec_bits()
    }

    pub closed spec fn buttons(&self) -> ButtonState {
        self.buttons
    }

    pub closed spec fn dpad(&self) -> DpadState {
        self.dpad
    }

    /// A joypad with nothing pressed, its register holding `0xCF`.
    pub fn new() -> (r: Self)
        ensures
            r.register() == 0xCF,
            r.buttons() == (ButtonState { start: false, select: false, b: false, a: false }),
            r.dpad() == (DpadState { down: false, up: false, left: false, right: false }),
    {
        Self {
            flags: JoypadFlags::from_bits_retain(0xCF),
            buttons: ButtonState { start: false, select: false, b: false, a: false },
            dpad: DpadState { down: false, up: false, left: false, right: false },
        }
    }

    /// What a read of the joypad register gives.
    pub fn get_memory(&self) -> (r: u8)
        ensures
            r == self.register(),
    {
        self.flags.bits()
    }

    /// A write to the joypad register: only the upper nibble is taken, the input lines are
    /// refreshed from what is pressed.
    pub fn set_memory(&mut self, value: u8)
        ensures
            final(self).register() == refreshed(value & 0xF0, old(self).buttons(), old(self).dpad()),
            final(self).buttons() == old(self).buttons(),
            final(self).dpad() == old(self).dpad(),
    {
        self.flags = JoypadFlags::from_bits_retain(value & 0xF0);
        self.update_flags();
    }

    /// Refreshes the input lines from what is pressed.
    pub fn update_flags(&mut self)
        ensures
            final(self).register() == refreshed(old(self).register(), old(self).buttons(), old(self).dpad()),
            final(self).buttons() == old(self).buttons(),
            final(self).dpad() == old(self).dpad(),
    {
        // A pressed key reads as 0.
        let (b3, b2, b1, b0) = if self.flags.contains(JoypadFlags::SELECT_DPAD) {
            (!self.dpad.down, !self.dpad.up, !self.dpad.left, !self.dpad.right)
        } else if self.flags.contains(JoypadFlags::SELECT_BUTTONS) {
            (!self.buttons.start, !self.buttons.select, !self.buttons.b, !self.buttons.a)
        } else {
            (false, false, false, false)
        };
        self.flags.set(JoypadFlags::BUTTONS_START_DPAD_DOWN, b3);
        self.flags.set(JoypadFlags::BUTTONS_SELECT_DPAD_UP, b2);
        self.flags.set(JoypadFlags::BUTTONS_B_DPAD_LEFT, b1);
        self.flags.set(JoypadFlags::BUTTONS_A_DPAD_RIGHT, b0);
    }
}

/// Setting the input lines leaves the upper nibble alone and sets the lower one from the
/// four lines.
pub proof fn lemma_with_inputs(bits: u8, b3: bool, b2: bool, b1: bool, b0: bool)
    ensures
        with_inputs(bits, b3, b2, b1, b0) & 0xF0 == bits & 0xF0,
        (with_inputs(bits, b3, b2, b1, b0) & 0x08 == 0x08) == b3,
        (with_inputs(bits, b3, b2, b1, b0) & 0x04 == 0x04) == b2,
        (with_inputs(bits, b3, b2, b1, b0) & 0x02 == 0x02) == b1,
        (with_inputs(bits, b3, b2, b1, b0) & 0x01 == 0x01) == b0,
{
    let x3 = with_flag(bits, 0x08, b3);
    let x2 = with_flag(x3, 0x04, b2);
    let x1 = with_flag(x2, 0x02, b1);
    let x0 = with_flag(x1, 0x01, b0);
    assert(x0 & 0xF0 == bits & 0xF0 && (x0 & 0x08 == 0x08) == b3 && (x0 & 0x04 == 0x04) == b2
        && (x0 & 0x02 == 0x02) == b1 && (x0 & 0x01 == 0x01) == b0) by (bit_vector)
        requires
            x3 == (if b3 { bits | 0x08 } else { bits & !0x08u8 }),
            x2 == (if b2 { x3 | 0x04 } else { x3 & !0x04u8 }),
            x1 == (if b1 { x2 | 0x02 } else { x2 & !0x02u8 }),
            x0 == (if b0 { x1 | 0x01 } else { x1 & !0x01u8 }),
    ;
}

/// A refresh keeps the select lines and the upper bits of the register, and refreshing
/// again changes nothing.
pub proof fn lemma_refresh_stable(bits: u8, buttons: ButtonState, dpad: DpadState)
    ensures
        refreshed(bits, buttons, dpad) & 0xF0 == bits & 0xF0,
        refreshed(refreshed(bits, buttons, dpad), buttons, dpad) == refreshed(bits, buttons, dpad),
{
    let r = refreshed(bits, buttons, dpad);
    assert(bits & 0xF0 == r & 0xF0 ==> ((bits & 0x10 == 0x10) == (r & 0x10 == 0x10) && (bits
        & 0x20 == 0x20) == (r & 0x20 == 0x20))) by (bit_vector);
    if bits & 0x10 == 0x10 {
        lemma_with_inputs(bits, !dpad.down, !dpad.up, !dpad.left, !dpad.right);
        lemma_with_inputs(r, !dpad.down, !dpad.up, !dpad.left, !dpad.right);
    } else if bits & 0x20 == 0x20 {
        lemma_with_inputs(bits, !buttons.start, !buttons.select, !buttons.b, !buttons.a);
        lemma_with_inputs(r, !buttons.start, !buttons.select, !buttons.b, !buttons.a);
    } else {
        lemma_with_inputs(bits, false, false, false, false);
        lemma_with_inputs(r, false, false, false, false);
    }
    let r2 = refreshed(r, buttons, dpad);
    assert(r2 & 0xF0 == r & 0xF0 && (r2 & 0x08 == 0x08) == (r & 0x08 == 0x08) && (r2 & 0x04
        == 0x04) == (r & 0x04 == 0x04) && (r2 & 0x02 == 0x02) == (r & 0x02 == 0x02) && (r2 & 0x01
        == 0x01) == (r & 0x01 == 0x01) ==> r2 == r) by (bit_vector);
}

/// After a refresh each input line reads low exactly while its key is pressed: with the pad
/// selected (bit 4) lines 3 to 0 are down, up, left and right; with only the buttons selected
/// (bit 5) they are start, select, B and A; with neither, all four lines read low.
pub proof fn lemma_refresh_lines(bits: u8, buttons: ButtonState, dpad: DpadState)
    ensures
        ({
            let r = refreshed(bits, buttons, dpad);
            &&& bits & 0x10 == 0x10 ==> {
                &&& (r & 0x08 != 0x08) == dpad.down
                &&& (r & 0x04 != 0x04) == dpad.up
                &&& (r & 0x02 != 0x02) == dpad.left
                &&& (r & 0x01 != 0x01) == dpad.right
            }
            &&& bits & 0x10 != 0x10 && bits & 0x20 == 0x20 ==> {
                &&& (r & 0x08 != 0x08) == buttons.start
                &&& (r & 0x04 != 0x04) == buttons.select
                &&& (r & 0x02 != 0x02) == buttons.b
                &&& (r & 0x01 != 0x01) == buttons.a
            }
            &&& bits & 0x10 != 0x10 && bits & 0x20 != 0x20 ==> {
                &&& r & 0x08 != 0x08
                &&& r & 0x04 != 0x04
                &&& r & 0x02 != 0x02
                &&& r & 0x01 != 0x01
            }
        }),
{
    lemma_with_inputs(bits, !dpad.down, !dpad.up, !dpad.left, !dpad.right);
    lemma_with_inputs(bits, !buttons.start, !buttons.select, !buttons.b, !buttons.a);
    lemma_with_inputs(bits, false, false, false, false);
}

} // verus!
