use vstd::prelude::*;

use crate::emulator::cpu::register::{
    CpuFlags, RegisterFile, hi, join, lemma_join_bits, lemma_split_bits, lo,
};
use crate::emulator::register::Register;
use crate::flags::Flags;

verus! {

/// The CPU registers held as plain values.
pub struct Registers {
    pc: u16,
    sp: u16,
    a: u8,
    f: CpuFlags,
    b: u8,
    c: u8,
    d: u8,
    e: u8,
    h: u8,
    l: u8,
}

impl View for Registers {
    type V = RegisterFile;

    closed spec fn view(&self) -> RegisterFile {
        RegisterFile {
            pc: self.pc,
            sp: self.sp,
            a: self.a,
            f: self.f.spec_bits(),
            b: self.b,
            c: self.c,
            d: self.d,
            e: self.e,
            h: self.h,
            l: self.l,
        }
    }
}

/// The byte that `get_8_bit` reads for the 3-bit index `idx`: `B`, `C`, `D`, `E`, `H`, `L`,
/// then `A` for both 6 and 7.
pub open spec fn byte_at(regs: RegisterFile, idx: usize) -> Option<u8> {
    if idx == 0 {
        Some(regs.b)
    } else if idx == 1 {
        Some(regs.c)
    } else if idx == 2 {
        Some(regs.d)
    } else if idx == 3 {
        Some(regs.e)
    } else if idx == 4 {
        Some(regs.h)
    } else if idx == 5 {
        Some(regs.l)
    } else if idx == 6 || idx == 7 {
        Some(regs.a)
    } else {
        None
    }
}

impl Registers {
    /// The register values that the DMG boot program leaves.
    pub fn new() -> (r: Self)
        ensures
            r@ == (RegisterFile {
                pc: 0x0100,
                sp: 0xFFFE,
                a: 0x01,
                f: 0xB0,
                b: 0x00,
                c: 0x13,
                d: 0x00,
                e: 0xD8,
                h: 0x01,
                l: 0x4D,
            }),
    {
        assert(0x80u8 | 0x20u8 | 0x10u8 == 0xB0u8) by (bit_vector);
        Self {
            pc: 0x0100,
            sp: 0xFFFE,
            a: 0x01,
            f: CpuFlags::from_bits_retain(CpuFlags::ZERO | CpuFlags::HALF_CARRY | CpuFlags::CARRY),
            b: 0x00,
            c: 0x13,
            d: 0x00,
            e: 0xD8,
            h: 0x01,
            l: 0x4D,
        }
    }

    pub fn pc(&self) -> (r: u16)
        ensures
            r == self@.pc,
    {
        self.pc
    }

    pub fn sp(&self) -> (r: u16)
        ensures
            r == self@.sp,
    {
        self.sp
    }

    pub fn a(&self) -> (r: u8)
        ensures
            r == self@.a,
    {
        self.a
    }

    pub fn f(&self) -> (r: &CpuFlags)
        ensures
            r.spec_bits() == self@.f,
    {
        &self.f
    }

    pub fn af(&self) -> (r: u16)
        ensures
            r == join(self@.a, self@.f),
    {
        proof {
            lemma_join_bits(self.a, self.f.spec_bits());
        }
        ((self.a as u16) << 8) | self.f.bits() as u16
    }

    pub fn b(&self) -> (r: u8)
        ensures
            r == self@.b,
    {
        self.b
    }

    pub fn c(&self) -> (r: u8)
        ensures
            r == self@.c,
    {
        self.c
    }

    pub fn bc(&self) -> (r: u16)
        ensures
            r == join(self@.b, self@.c),
    {
        proof {
            lemma_join_bits(self.b, self.c);
        }
        ((self.b as u16) << 8) | self.c as u16
    }

    pub fn d(&self) -> (r: u8)
        ensures
            r == self@.d,
    {
        self.d
    }

    pub fn e(&self) -> (r: u8)
        ensures
            r == self@.e,
    {
        self.e
    }

    pub fn de(&self) -> (r: u16)
        ensures
            r == join(self@.d, self@.e),
    {
        proof {
            lemma_join_bits(self.d, self.e);
        }
        ((self.d as u16) << 8) | self.e as u16
    }

    pub fn h(&self) -> (r: u8)
        ensures
            r == self@.h,
    {
        self.h
    }

    pub fn l(&self) -> (r: u8)
        ensures
            r == self@.l,
    {
        self.l
    }

    pub fn hl(&self) -> (r: u16)
        ensures
            r == join(self@.h, self@.l),
    {
        proof {
            lemma_join_bits(self.h, self.l);
        }
        ((self.h as u16) << 8) | self.l as u16
    }

    pub fn set_pc(&mut self, pc: u16)
        ensures
            final(self)@ == (RegisterFile { pc, ..old(self)@ }),
    {
        self.pc = pc;
    }

    pub fn set_sp(&mut self, sp: u16)
        ensures
            final(self)@ == (RegisterFile { sp, ..old(self)@ }),
    {
        self.sp = sp;
    }

    pub fn set_a(&mut self, a: u8)
        ensures
            final(self)@ == (RegisterFile { a, ..old(self)@ }),
    {
        self.a = a;
    }

    /// Stores the flags as they are, unnamed bits included.
    pub fn set_f(&mut self, f: CpuFlags)
        ensures
            final(self)@ == (RegisterFile { f: f.spec_bits(), ..old(self)@ }),
    {
        self.f = f;
    }

    pub fn set_b(&mut self, b: u8)
        ensures
            final(self)@ == (RegisterFile { b, ..old(self)@ }),
    {
        self.b = b;
    }

    pub fn set_c(&mut self, c: u8)
        ensures
            final(self)@ == (RegisterFile { c, ..old(self)@ }),
    {
        self.c = c;
    }

    pub fn set_d(&mut self, d: u8)
        ensures
            final(self)@ == (RegisterFile { d, ..old(self)@ }),
    {
        self.d = d;
    }

    pub fn set_e(&mut self, e: u8)
        ensures
            final(self)@ == (RegisterFile { e, ..old(self)@ }),
    {
        self.e = e;
    }

    pub fn set_h(&mut self, h: u8)
        ensures
            final(self)@ == (RegisterFile { h, ..old(self)@ }),
    {
        self.h = h;
    }

    pub fn set_l(&mut self, l: u8)
        ensures
            final(self)@ == (RegisterFile { l, ..old(self)@ }),
    {
        self.l = l;
    }

    /// The byte that a 3-bit register index selects; index 6 reads `A` as 7 does.
    pub fn get_8_bit(&self, idx: usize) -> (r: Option<u8>)
        ensures
            r == byte_at(self@, idx),
    {
        if idx == 7 {
            Some(self.a())
        } else if idx < 7 {
            let bytes = [self.b(), self.c(), self.d(), self.e(), self.h(), self.l(), self.a()];
            Some(bytes[idx])
        } else {
            None
        }
    }

    /// Writes nothing.
    pub fn set(&mut self)
        ensures
            final(self)@ == old(self)@,
    {
    }
}

/// Two byte registers read as one word, the first being the high byte.
pub trait RegisterPairRead {
    spec fn spec_high(&self) -> u8;

    spec fn spec_low(&self) -> u8;

    fn high(&self) -> (r: u8)
        ensures
            r == self.spec_high(),
    ;

    fn low(&self) -> (r: u8)
        ensures
            r == self.spec_low(),
    ;

    fn get(&self) -> (r: u16)
        ensures
            r == join(self.spec_high(), self.spec_low()),
    {
        let h = self.high();
        let l = self.low();
        proof {
            lemma_join_bits(h, l);
        }
        ((h as u16) << 8) | l as u16
    }
}

/// Two byte registers written as one word.
pub trait RegisterPairWrite<'a>: RegisterPairRead {
    fn set_high(&mut self, value: u8)
        ensures
            final(self).spec_high() == value,
            final(self).spec_low() == old(self).spec_low(),
    ;

    fn set_low(&mut self, value: u8)
        ensures
            final(self).spec_low() == value,
            final(self).spec_high() == old(self).spec_high(),
    ;

    /// Writes the high byte of `value` to the high register and its low byte to the low one.
    fn set(&mut self, value: u16)
        ensures
            join(final(self).spec_high(), final(self).spec_low()) == value,
    {
        proof {
            lemma_split_bits(value);
        }
        self.set_high((value >> 8) as u8);
        self.set_low(value as u8);
    }

    /// Writes `f` applied to the current word.
    fn update<F: Fn(u16) -> u16>(&mut self, f: F)
        requires
            f.requires((join(old(self).spec_high(), old(self).spec_low()),)),
        ensures
            f.ensures(
                (join(old(self).spec_high(), old(self).spec_low()),),
                join(final(self).spec_high(), final(self).spec_low()),
            ),
    {
        let v = self.get();
        let r = f(v);
        self.set(r);
    }
}

/// Two byte registers owned as one word.
pub struct RegisterPair {
    high: Register<u8>,
    low: Register<u8>,
}

impl RegisterPair {
    pub fn new(high: Register<u8>, low: Register<u8>) -> (r: Self)
        ensures
            r.spec_high() == high@,
            r.spec_low() == low@,
    {
        Self { high, low }
    }
}

impl RegisterPairRead for RegisterPair {
    closed spec fn spec_high(&self) -> u8 {
        self.high@
    }

    closed spec fn spec_low(&self) -> u8 {
        self.low@
    }

    fn high(&self) -> (r: u8) {
        self.high.get()
    }

    fn low(&self) -> (r: u8) {
        self.low.get()
    }
}

/// Exclusive access to two byte registers as one word.
pub struct RegisterPairMut<'a> {
    pub high: &'a mut Register<u8>,
    pub low: &'a mut Register<u8>,
}

impl<'a> RegisterPairMut<'a> {
    pub fn new(high: &'a mut Register<u8>, low: &'a mut Register<u8>) -> (r: Self)
        ensures
            r.spec_high() == old(high)@,
            r.spec_low() == old(low)@,
            *final(high) == *final(r.high),
            *final(low) == *final(r.low),
    {
        Self { high, low }
    }
}

impl RegisterPairRead for RegisterPairMut<'_> {
    open spec fn spec_high(&self) -> u8 {
        (*self.high)@
    }

    open spec fn spec_low(&self) -> u8 {
        (*self.low)@
    }

    fn high(&self) -> (r: u8) {
        self.high.get()
    }

    fn low(&self) -> (r: u8) {
        self.low.get()
    }
}

impl RegisterPairWrite<'_> for RegisterPairMut<'_> {
    fn set_high(&mut self, value: u8)
        ensures
            *final(final(self).high) == *final(old(self).high),
            *final(final(self).low) == *final(old(self).low),
    {
        self.high.set(value);
    }

    fn set_low(&mut self, value: u8)
        ensures
            *final(final(self).high) == *final(old(self).high),
            *final(final(self).low) == *final(old(self).low),
    {
        self.low.set(value);
    }

    fn set(&mut self, value: u16)
        ensures
            *final(final(self).high) == *final(old(self).high),
            *final(final(self).low) == *final(old(self).low),
    {
        proof {
            lemma_split_bits(value);
        }
        self.set_high((value >> 8) as u8);
        self.set_low(value as u8);
    }

    fn update<F: Fn(u16) -> u16>(&mut self, f: F)
        ensures
            *final(final(self).high) == *final(old(self).high),
            *final(final(self).low) == *final(old(self).low),
    {
        let v = self.get();
        let r = f(v);
        self.set(r);
    }
}

} // verus!
