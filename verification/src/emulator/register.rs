use vstd::prelude::*;

use crate::flags::Flags;

verus! {

/// A hardware register holding one value of type `T`.
#[derive(Copy, Debug)]
pub struct Register<T: Copy>(T);

impl<T: Copy> Clone for Register<T> {
    fn clone(&self) -> (r: Self)
        ensures
            r == *self,
    {
        *self
    }
}

impl<T: Copy> View for Register<T> {
    type V = T;

    closed spec fn view(&self) -> T {
        self.0
    }
}

impl<T: Copy> Register<T> {
    pub fn new(value: T) -> (r: Self)
        ensures
            r@ == value,
    {
        Register(value)
    }

    pub fn get(&self) -> (r: T)
        ensures
            r == self@,
    {
        self.0
    }

    pub fn set(&mut self, value: T)
        ensures
            final(self)@ == value,
    {
        self.0 = value
    }

    /// Replaces the value with `f` applied to it and returns the new value.
    pub fn update<F: Fn(T) -> T>(&mut self, f: F) -> (r: T)
        requires
            f.requires((old(self)@,)),
        ensures
            f.ensures((old(self)@,), r),
            final(self)@ == r,
    {
        let result = f(self.get());
        self.set(result);
        result
    }
}

impl<T: Copy + Flags> Register<T> {
    /// A register holding exactly `bits`, named flags or not.
    pub fn from_bits_retain(bits: u8) -> (r: Self)
        ensures
            r@.spec_bits() == bits,
    {
        Register(T::from_bits_retain(bits))
    }

    /// Stores exactly `bits`, named flags or not.
    pub fn set_retain(&mut self, bits: u8)
        ensures
            final(self)@.spec_bits() == bits,
    {
        self.0 = T::from_bits_retain(bits);
    }
}

/// A register that can be read as one byte.
pub trait ByteRegisterRead {
    spec fn spec_u8(&self) -> u8;

    fn get_u8(&self) -> (r: u8)
        ensures
            r == self.spec_u8(),
    ;
}

/// A register that can be written as one byte.
pub trait ByteRegisterWrite: ByteRegisterRead {
    /// The byte that the register reads back after `value` was written.
    spec fn spec_stored(value: u8) -> u8;

    fn set_u8(&mut self, value: u8)
        ensures
            final(self).spec_u8() == Self::spec_stored(value),
    ;

    /// Writes `f` applied to the current byte and returns what `f` gave.
    fn update_u8<F: Fn(u8) -> u8>(&mut self, f: F) -> (r: u8)
        requires
            f.requires((old(self).spec_u8(),)),
        ensures
            f.ensures((old(self).spec_u8(),), r),
            final(self).spec_u8() == Self::spec_stored(r),
    {
        let result = f(self.get_u8());
        self.set_u8(result);
        result
    }
}

impl ByteRegisterRead for Register<u8> {
    open spec fn spec_u8(&self) -> u8 {
        self@
    }

    fn get_u8(&self) -> (r: u8) {
        self.get()
    }
}

impl ByteRegisterWrite for Register<u8> {
    open spec fn spec_stored(value: u8) -> u8 {
        value
    }

    fn set_u8(&mut self, value: u8) {
        self.set(value);
    }
}

/// A register that can be read as one 16-bit word.
pub trait WordRegisterRead {
    spec fn spec_u16(&self) -> u16;

    fn get_u16(&self) -> (r: u16)
        ensures
            r == self.spec_u16(),
    ;
}

/// A register that can be written as one 16-bit word.
pub trait WordRegisterWrite: WordRegisterRead {
    /// The word that the register reads back after `value` was written.
    spec fn spec_stored16(value: u16) -> u16;

    fn set_u16(&mut self, value: u16)
        ensures
            final(self).spec_u16() == Self::spec_stored16(value),
    ;

    /// Writes `f` applied to the current word and returns what `f` gave.
    fn update_u16<F: Fn(u16) -> u16>(&mut self, f: F) -> (r: u16)
        requires
            f.requires((old(self).spec_u16(),)),
        ensures
            f.ensures((old(self).spec_u16(),), r),
            final(self).spec_u16() == Self::spec_stored16(r),
    {
        let result = f(self.get_u16());
        self.set_u16(result);
        result
    }
}

impl WordRegisterRead for Register<u16> {
    open spec fn spec_u16(&self) -> u16 {
        self@
    }

    fn get_u16(&self) -> (r: u16) {
        self.get()
    }
}

impl WordRegisterWrite for Register<u16> {
    open spec fn spec_stored16(value: u16) -> u16 {
        value
    }

    fn set_u16(&mut self, value: u16) {
        self.set(value);
    }
}

} // verus!
