use vstd::prelude::*;

use crate::flags::Flags;

verus! {

/// The interrupts that have been requested (register `IF`).
#[derive(Copy, Clone, Debug)]
pub struct RequestFlags {
    bits: u8,
}

impl RequestFlags {
    pub const JOYPAD: u8 = 0x10;
    pub const SERIAL: u8 = 0x08;
    pub const TIMER: u8 = 0x04;
    pub const LCD: u8 = 0x02;
    pub const VBLANK: u8 = 0x01;
}

impl Flags for RequestFlags {
    open spec fn spec_all() -> u8 {
        0x1F
    }

    closed spec fn spec_bits(&self) -> u8 {
        self.bits
    }

    fn all_bits() -> (r: u8) {
        0x1F
    }

    fn bits(&self) -> (r: u8) {
        self.bits
    }

    fn from_bits_retain(bits: u8) -> (r: Self) {
        RequestFlags { bits }
    }

    fn set_bits(&mut self, bits: u8) {
        self.bits = bits;
    }
}

/// The interrupts that are enabled (register `IE`).
#[derive(Copy, Clone, Debug)]
pub struct EnableFlags {
    bits: u8,
}

impl EnableFlags {
    pub const JOYPAD: u8 = 0x10;
    pub const SERIAL: u8 = 0x08;
    pub const TIMER: u8 = 0x04;
    pub const LCD: u8 = 0x02;
    pub const VBLANK: u8 = 0x01;
}

impl Flags for EnableFlags {
    open spec fn spec_all() -> u8 {
        0x1F
    }

    closed spec fn spec_bits(&self) -> u8 {
        self.bits
    }

    fn all_bits() -> (r: u8) {
        0x1F
    }

    fn bits(&self) -> (r: u8) {
        self.bits
    }

    fn from_bits_retain(bits: u8) -> (r: Self) {
        EnableFlags { bits }
    }

    fn set_bits(&mut self, bits: u8) {
        self.bits = bits;
    }
}

} // verus!
