use vstd::prelude::*;

verus! {

/// A set of named single-bit flags packed into one byte.
///
/// Each implementing type names the bits that it defines (`spec_all`); a value
/// may still hold other bits when it was built with `from_bits_retain`, exactly
/// as a hardware register keeps bits that no flag names.
pub trait Flags: Sized + Copy {
    /// The union of every bit that the type names.
    spec fn spec_all() -> u8;

    /// The raw bits that the value holds.
    spec fn spec_bits(&self) -> u8;

    fn all_bits() -> (r: u8)
        ensures
            r == Self::spec_all(),
    ;

    fn bits(&self) -> (r: u8)
        ensures
            r == self.spec_bits(),
    ;

    /// Builds a value that holds exactly `bits`, named or not.
    fn from_bits_retain(bits: u8) -> (r: Self)
        ensures
            r.spec_bits() == bits,
    ;

    /// Replaces the raw bits of the value.
    fn set_bits(&mut self, bits: u8)
        ensures
            final(self).spec_bits() == bits,
    ;

    /// Builds a value that holds the named bits of `bits` and drops the others.
    fn from_bits_truncate(bits: u8) -> (r: Self)
        ensures
            r.spec_bits() == bits & Self::spec_all(),
    {
        let all = Self::all_bits();
        Self::from_bits_retain(bits & all)
    }

    /// The value with no bit set.
    fn empty() -> (r: Self)
        ensures
            r.spec_bits() == 0,
    {
        Self::from_bits_retain(0)
    }

    /// Whether every bit of `other` is set in the value.
    fn contains(&self, other: u8) -> (r: bool)
        ensures
            r == (self.spec_bits() & other == other),
    {
        self.bits() & other == other
    }

    /// Sets every bit of `other`.
    fn insert(&mut self, other: u8)
        ensures
            final(self).spec_bits() == old(self).spec_bits() | other,
    {
        let b = self.bits();
        self.set_bits(b | other);
    }

    /// Clears every bit of `other`.
    fn remove(&mut self, other: u8)
        ensures
            final(self).spec_bits() == old(self).spec_bits() & !other,
    {
        let b = self.bits();
        self.set_bits(b & !other);
    }

    /// Sets the bits of `other` when `value` holds, and clears them otherwise.
    fn set(&mut self, other: u8, value: bool)
        ensures
            final(self).spec_bits() == with_flag(old(self).spec_bits(), other, value),
    {
        if value {
            self.insert(other);
        } else {
            self.remove(other);
        }
    }
}

/// The byte `bits` with the bits of `mask` set when `on` holds and cleared otherwise.
pub open spec fn with_flag(bits: u8, mask: u8, on: bool) -> u8 {
    if on {
        bits | mask
    } else {
        bits & !mask
    }
}

/// Setting the bits of `mask` leaves them all set, clearing them leaves them all clear, and
/// every other bit stays as it was.
pub proof fn lemma_with_flag(bits: u8, mask: u8, on: bool)
    ensures
        with_flag(bits, mask, on) & mask == (if on {
            mask
        } else {
            0
        }),
        with_flag(bits, mask, on) & !mask == bits & !mask,
{
    assert((bits | mask) & mask == mask && (bits | mask) & !mask == bits & !mask) by (bit_vector);
    assert((bits & !mask) & mask == 0 && (bits & !mask) & !mask == bits & !mask) by (bit_vector);
}

} // verus!
