use vstd::prelude::*;

use crate::emulator::cpu::register::{
    CpuFlags, Registers, ShortRegisterName, WordRegisterName, hi, join, lemma_join_bits,
    lemma_split_bits, lo,
};
use crate::emulator::register::{
    ByteRegisterRead, ByteRegisterWrite, Register, WordRegisterRead, WordRegisterWrite,
};

verus! {

/// The 8-bit register that the 3-bit index `idx` names, `(HL)` at index 6 naming none.
pub open spec fn short_register_at(idx: usize) -> Option<ShortRegisterName> {
    if idx == 0 {
        Some(ShortRegisterName::B)
    } else if idx == 1 {
        Some(ShortRegisterName::C)
    } else if idx == 2 {
        Some(ShortRegisterName::D)
    } else if idx == 3 {
        Some(ShortRegisterName::E)
    } else if idx == 4 {
        Some(ShortRegisterName::H)
    } else if idx == 5 {
        Some(ShortRegisterName::L)
    } else if idx == 7 {
        Some(ShortRegisterName::A)
    } else {
        None
    }
}

/// The register pair that the 2-bit index `idx` names.
pub open spec fn word_register_at(idx: usize) -> Option<WordRegisterName> {
    if idx == 0 {
        Some(WordRegisterName::BC)
    } else if idx == 1 {
        Some(WordRegisterName::DE)
    } else if idx == 2 {
        Some(WordRegisterName::HL)
    } else if idx == 3 {
        Some(WordRegisterName::AF)
    } else {
        None
    }
}

impl ShortRegisterName {
    /// The 8-bit register that a 3-bit operand index names.
    pub fn from_3_bit_index(idx: usize) -> (r: Option<Self>)
        ensures
            r == short_register_at(idx),
    {
        if idx == 7 {
            Some(Self::A)
        } else if idx < 6 {
            let names = [Self::B, Self::C, Self::D, Self::E, Self::H, Self::L];
            Some(names[idx])
        } else {
            None
        }
    }
}

impl WordRegisterName {
    /// The register pair that a 2-bit operand index names.
    pub fn from_2_bit_index(idx: usize) -> (r: Option<Self>)
        ensures
            r == word_register_at(idx),
    {
        if idx < 4 {
            let names = [Self::BC, Self::DE, Self::HL, Self::AF];
            Some(names[idx])
        } else {
            None
        }
    }
}

impl Registers {
    pub fn pc(&self) -> (r: &Register<u16>)
        ensures
            *r == self.pc,
    {
        &self.pc
    }

    pub fn pc_mut(&mut self) -> (r: &mut Register<u16>)
        ensures
            *r == old(self).pc,
            *final(self) == (Registers { pc: *final(r), ..*old(self) }),
    {
        &mut self.pc
    }

    pub fn sp(&self) -> (r: &Register<u16>)
        ensures
            *r == self.sp,
    {
        &self.sp
    }

    pub fn sp_mut(&mut self) -> (r: &mut Register<u16>)
        ensures
            *r == old(self).sp,
            *final(self) == (Registers { sp: *final(r), ..*old(self) }),
    {
        &mut self.sp
    }

    pub fn a(&self) -> (r: &Register<u8>)
        ensures
            *r == self.a,
    {
        &self.a
    }

    pub fn a_mut(&mut self) -> (r: &mut Register<u8>)
        ensures
            *r == old(self).a,
            *final(self) == (Registers { a: *final(r), ..*old(self) }),
    {
        &mut self.a
    }

    pub fn f(&self) -> (r: &Register<CpuFlags>)
        ensures
            *r == self.f,
    {
        &self.f
    }

    pub fn f_mut(&mut self) -> (r: &mut Register<CpuFlags>)
        ensures
            *r == old(self).f,
            *final(self) == (Registers { f: *final(r), ..*old(self) }),
    {
        &mut self.f
    }

    pub fn b(&self) -> (r: &Register<u8>)
        ensures
            *r == self.b,
    {
        &self.b
    }

    pub fn b_mut(&mut self) -> (r: &mut Register<u8>)
        ensures
            *r == old(self).b,
            *final(self) == (Registers { b: *final(r), ..*old(self) }),
    {
        &mut self.b
    }

    pub fn c(&self) -> (r: &Register<u8>)
        ensures
            *r == self.c,
    {
        &self.c
    }

    pub fn c_mut(&mut self) -> (r: &mut Register<u8>)
        ensures
            *r == old(self).c,
            *final(self) == (Registers { c: *final(r), ..*old(self) }),
    {
        &mut self.c
    }

    pub fn d(&self) -> (r: &Register<u8>)
        ensures
            *r == self.d,
    {
        &self.d
    }

    pub fn d_mut(&mut self) -> (r: &mut Register<u8>)
        ensures
            *r == old(self).d,
            *final(self) == (Registers { d: *final(r), ..*old(self) }),
    {
        &mut self.d
    }

    pub fn e(&self) -> (r: &Register<u8>)
        ensures
            *r == self.e,
    {
        &self.e
    }

    pub fn e_mut(&mut self) -> (r: &mut Register<u8>)
        ensures
            *r == old(self).e,
            *final(self) == (Registers { e: *final(r), ..*old(self) }),
    {
        &mut self.e
    }

    pub fn h(&self) -> (r: &Register<u8>)
        ensures
            *r == self.h,
    {
        &self.h
    }

    pub fn h_mut(&mut self) -> (r: &mut Register<u8>)
        ensures
            *r == old(self).h,
            *final(self) == (Registers { h: *final(r), ..*old(self) }),
    {
        &mut self.h
    }

    pub fn l(&self) -> (r: &Register<u8>)
        ensures
            *r == self.l,
    {
        &self.l
    }

    pub fn l_mut(&mut self) -> (r: &mut Register<u8>)
        ensures
            *r == old(self).l,
            *final(self) == (Registers { l: *final(r), ..*old(self) }),
    {
        &mut self.l
    }
}

/// Two 8-bit registers read as one 16-bit word, the first being the high byte.
pub trait WordRegisterPairRead {
    spec fn spec_high(&self) -> u8;

    spec fn spec_low(&self) -> u8;

    fn high(&self) -> (r: u8)
        ensures
            r == self.spec_high(),
    ;

    fn low(&self) -> (r: u8)
        ensures
            r == self.spec_low(),
    ;

    fn get(&self) -> (r: u16)
        ensures
            r == join(self.spec_high(), self.spec_low()),
    {
        let h = self.high();
        let l = self.low();
        proof {
            lemma_join_bits(h, l);
        }
        ((h as u16) << 8) | l as u16
    }
}

/// Two 8-bit registers written as one 16-bit word.
pub trait WordRegisterPairWrite<'a>: WordRegisterPairRead {
    /// What the high register reads back after `value` was written.
    spec fn spec_stored_high(value: u8) -> u8;

    /// What the low register reads back after `value` was written.
    spec fn spec_stored_low(value: u8) -> u8;

    fn set_high(&mut self, value: u8)
        ensures
            final(self).spec_high() == Self::spec_stored_high(value),
            final(self).spec_low() == old(self).spec_low(),
    ;

    fn set_low(&mut self, value: u8)
        ensures
            final(self).spec_low() == Self::spec_stored_low(value),
            final(self).spec_high() == old(self).spec_high(),
    ;

    /// Writes the high byte of `value` to the high register, then its low byte to the low one.
    fn set(&mut self, value: u16)
        ensures
            final(self).spec_high() == Self::spec_stored_high(hi(value)),
            final(self).spec_low() == Self::spec_stored_low(lo(value)),
    {
        proof {
            lemma_split_bits(value);
        }
        self.set_high((value >> 8) as u8);
        self.set_low(value as u8);
    }

    /// Writes `f` applied to the current word.
    fn update<F: Fn(u16) -> u16>(&mut self, f: F)
        requires
            f.requires((join(old(self).spec_high(), old(self).spec_low()),)),
        ensures
            exists|r: u16|
                #![auto]
                f.ensures((join(old(self).spec_high(), old(self).spec_low()),), r)
                    && final(self).spec_high() == Self::spec_stored_high(hi(r))
                    && final(self).spec_low() == Self::spec_stored_low(lo(r)),
    {
        let v = self.get();
        let r = f(v);
        self.set(r);
    }
}

/// Shared access to two 8-bit registers as one word.
pub struct WordRegisterPair<'a, H: ByteRegisterRead, L: ByteRegisterRead> {
    high: &'a H,
    low: &'a L,
}

impl<'a, H: ByteRegisterRead, L: ByteRegisterRead> WordRegisterPair<'a, H, L> {
    pub fn new(high: &'a H, low: &'a L) -> (r: Self)
        ensures
            r.spec_high() == high.spec_u8(),
            r.spec_low() == low.spec_u8(),
    {
        Self { high, low }
    }
}

impl<'a, H: ByteRegisterRead, L: ByteRegisterRead> WordRegisterPairRead for WordRegisterPair<'a, H, L> {
    closed spec fn spec_high(&self) -> u8 {
        self.high.spec_u8()
    }

    closed spec fn spec_low(&self) -> u8 {
        self.low.spec_u8()
    }

    fn high(&self) -> (r: u8) {
        self.high.get_u8()
    }

    fn low(&self) -> (r: u8) {
        self.low.get_u8()
    }
}

impl<'a, H: ByteRegisterRead, L: ByteRegisterRead> WordRegisterRead for WordRegisterPair<'a, H, L> {
    closed spec fn spec_u16(&self) -> u16 {
        join(self.spec_high(), self.spec_low())
    }

    fn get_u16(&self) -> (r: u16) {
        self.get()
    }
}

/// Exclusive access to two 8-bit registers as one word.
pub struct WordRegisterPairMut<'a, H: ByteRegisterWrite, L: ByteRegisterWrite> {
    pub high: &'a mut H,
    pub low: &'a mut L,
}

impl<'a, H: ByteRegisterWrite, L: ByteRegisterWrite> WordRegisterPairMut<'a, H, L> {
    pub fn new(high: &'a mut H, low: &'a mut L) -> (r: Self)
        ensures
            r.spec_high() == old(high).spec_u8(),
            r.spec_low() == old(low).spec_u8(),
            *final(high) == *final(r.high),
            *final(low) == *final(r.low),
    {
        Self { high, low }
    }
}

impl<'a, H: ByteRegisterWrite, L: ByteRegisterWrite> WordRegisterPairRead for WordRegisterPairMut<'a, H, L> {
    open spec fn spec_high(&self) -> u8 {
        (*self.high).spec_u8()
    }

    open spec fn spec_low(&self) -> u8 {
        (*self.low).spec_u8()
    }

    fn high(&self) -> (r: u8) {
        self.high.get_u8()
    }

    fn low(&self) -> (r: u8) {
        self.low.get_u8()
    }
}

impl<'a, H: ByteRegisterWrite, L: ByteRegisterWrite> WordRegisterPairWrite<'a> for WordRegisterPairMut<'a, H, L> {
    open spec fn spec_stored_high(value: u8) -> u8 {
        H::spec_stored(value)
    }

    open spec fn spec_stored_low(value: u8) -> u8 {
        L::spec_stored(value)
    }

    fn set_high(&mut self, value: u8)
        ensures
            *final(final(self).high) == *final(old(self).high),
            *final(final(self).low) == *final(old(self).low),
    {
        self.high.set_u8(value);
    }

    fn set_low(&mut self, value: u8)
        ensures
            *final(final(self).high) == *final(old(self).high),
            *final(final(self).low) == *final(old(self).low),
    {
        self.low.set_u8(value);
    }

    fn set(&mut self, value: u16)
        ensures
            *final(final(self).high) == *final(old(self).high),
            *final(final(self).low) == *final(old(self).low),
    {
        proof {
            lemma_split_bits(value);
        }
        self.set_high((value >> 8) as u8);
        self.set_low(value as u8);
    }

    fn update<F: Fn(u16) -> u16>(&mut self, f: F)
        ensures
            *final(final(self).high) == *final(old(self).high),
            *final(final(self).low) == *final(old(self).low),
    {
        let v = self.get();
        let r = f(v);
        self.set(r);
    }
}

impl<'a, H: ByteRegisterWrite, L: ByteRegisterWrite> WordRegisterRead for WordRegisterPairMut<'a, H, L> {
    closed spec fn spec_u16(&self) -> u16 {
        join(self.spec_high(), self.spec_low())
    }

    fn get_u16(&self) -> (r: u16) {
        self.get()
    }
}

impl<'a, H: ByteRegisterWrite, L: ByteRegisterWrite> WordRegisterWrite for WordRegisterPairMut<'a, H, L> {
    open spec fn spec_stored16(value: u16) -> u16 {
        join(H::spec_stored(hi(value)), L::spec_stored(lo(value)))
    }

    fn set_u16(&mut self, value: u16)
        ensures
            final(self).spec_high() == H::spec_stored(hi(value)),
            final(self).spec_low() == L::spec_stored(lo(value)),
            *final(final(self).high) == *final(old(self).high),
            *final(final(self).low) == *final(old(self).low),
    {
        self.set(value);
    }

    fn update_u16<F: Fn(u16) -> u16>(&mut self, f: F) -> (r: u16)
        ensures
            final(self).spec_high() == H::spec_stored(hi(r)),
            final(self).spec_low() == L::spec_stored(lo(r)),
            *final(final(self).high) == *final(old(self).high),
            *final(final(self).low) == *final(old(self).low),
    {
        let result = f(self.get_u16());
        self.set_u16(result);
        result
    }
}

/// Shared access to a 16-bit register.
pub struct WordRegisterSingle<'a, T: WordRegisterRead>(pub &'a T);

impl<'a, T: WordRegisterRead> WordRegisterRead for WordRegisterSingle<'a, T> {
    closed spec fn spec_u16(&self) -> u16 {
        self.0.spec_u16()
    }

    fn get_u16(&self) -> (r: u16) {
        self.0.get_u16()
    }
}

/// Exclusive access to a 16-bit register.
pub struct WordRegisterSingleMut<'a, T: WordRegisterWrite>(pub &'a mut T);

impl<'a, T: WordRegisterWrite> WordRegisterRead for WordRegisterSingleMut<'a, T> {
    closed spec fn spec_u16(&self) -> u16 {
        (*self.0).spec_u16()
    }

    fn get_u16(&self) -> (r: u16) {
        self.0.get_u16()
    }
}

impl<'a, T: WordRegisterWrite> WordRegisterWrite for WordRegisterSingleMut<'a, T> {
    open spec fn spec_stored16(value: u16) -> u16 {
        T::spec_stored16(value)
    }

    fn set_u16(&mut self, value: u16) {
        self.0.set_u16(value);
    }
}

} // verus!
