use vstd::prelude::*;

use crate::emulator::register::{
    ByteRegisterRead, ByteRegisterWrite, Register, WordRegisterRead, WordRegisterWrite,
};
use crate::flags::Flags;

verus! {

/// The flag register `F`: only its upper nibble is named.
#[derive(Clone, Copy, Debug)]
pub struct CpuFlags {
    bits: u8,
}

impl CpuFlags {
    /// Z: set when the result of an operation is zero.
    pub const ZERO: u8 = 0x80;
    /// N: set when the previous operation was a subtraction.
    pub const SUB: u8 = 0x40;
    /// H: set when the lower nibble of the result carried.
    pub const HALF_CARRY: u8 = 0x20;
    /// C: set when the result carried out of the top bit.
    pub const CARRY: u8 = 0x10;
}

impl Flags for CpuFlags {
    open spec fn spec_all() -> u8 {
        0xF0
    }

    closed spec fn spec_bits(&self) -> u8 {
        self.bits
    }

    fn all_bits() -> (r: u8) {
        0xF0
    }

    fn bits(&self) -> (r: u8) {
        self.bits
    }

    fn from_bits_retain(bits: u8) -> (r: Self) {
        CpuFlags { bits }
    }

    fn set_bits(&mut self, bits: u8) {
        self.bits = bits;
    }
}

/// The name of an 8-bit register.
#[derive(Copy, Clone, Debug, PartialEq, Eq, Structural)]
pub enum ShortRegisterName {
    A,
    F,
    B,
    C,
    D,
    E,
    H,
    L,
}

/// The name of a 16-bit register or register pair.
#[derive(Copy, Clone, Debug, PartialEq, Eq, Structural)]
pub enum WordRegisterName {
    BC,
    DE,
    HL,
    AF,
    PC,
    SP,
}

/// The high byte of a 16-bit word.
pub open spec fn hi(v: u16) -> u8 {
    (v / 256) as u8
}

/// The low byte of a 16-bit word.
pub open spec fn lo(v: u16) -> u8 {
    (v % 256) as u8
}

/// The word whose high byte is `h` and whose low byte is `l`.
pub open spec fn join(h: u8, l: u8) -> u16 {
    (h * 256 + l) as u16
}

/// Joining two bytes with a shift and an or gives `join`.
pub proof fn lemma_join_bits(h: u8, l: u8)
    ensures
        ((h as u16) << 8u16) | (l as u16) == join(h, l),
{
    assert(((h as u16) << 8u16) | (l as u16) == (h as u16) * 256 + (l as u16)) by (bit_vector);
}

/// Splitting a word with a shift and a truncation gives `hi` and `lo`.
pub proof fn lemma_split_bits(v: u16)
    ensures
        (v >> 8u16) as u8 == hi(v),
        v as u8 == lo(v),
        join(hi(v), lo(v)) == v,
{
    assert((v >> 8u16) as u8 == v / 256) by (bit_vector);
    assert(v as u8 == v % 256) by (bit_vector);
}

/// The values of all CPU registers.
#[derive(Copy, Clone, Debug, PartialEq, Eq, Structural)]
pub struct RegisterFile {
    pub pc: u16,
    pub sp: u16,
    pub a: u8,
    pub f: u8,
    pub b: u8,
    pub c: u8,
    pub d: u8,
    pub e: u8,
    pub h: u8,
    pub l: u8,
}

impl RegisterFile {
    /// The byte that register `r` holds.
    pub open spec fn short(self, r: ShortRegisterName) -> u8 {
        match r {
            ShortRegisterName::A => self.a,
            ShortRegisterName::F => self.f,
            ShortRegisterName::B => self.b,
            ShortRegisterName::C => self.c,
            ShortRegisterName::D => self.d,
            ShortRegisterName::E => self.e,
            ShortRegisterName::H => self.h,
            ShortRegisterName::L => self.l,
        }
    }

    /// The registers after `v` was written to register `r`; `F` keeps only its named bits.
    pub open spec fn with_short(self, r: ShortRegisterName, v: u8) -> RegisterFile {
        match r {
            ShortRegisterName::A => RegisterFile { a: v, ..self },
            ShortRegisterName::F => RegisterFile { f: v & 0xF0, ..self },
            ShortRegisterName::B => RegisterFile { b: v, ..self },
            ShortRegisterName::C => RegisterFile { c: v, ..self },
            ShortRegisterName::D => RegisterFile { d: v, ..self },
            ShortRegisterName::E => RegisterFile { e: v, ..self },
            ShortRegisterName::H => RegisterFile { h: v, ..self },
            ShortRegisterName::L => RegisterFile { l: v, ..self },
        }
    }

    /// The word that register (pair) `r` holds, the first register of a pair being the high byte.
    pub open spec fn word(self, r: WordRegisterName) -> u16 {
        match r {
            WordRegisterName::BC => join(self.b, self.c),
            WordRegisterName::DE => join(self.d, self.e),
            WordRegisterName::HL => join(self.h, self.l),
            WordRegisterName::AF => join(self.a, self.f),
            WordRegisterName::PC => self.pc,
            WordRegisterName::SP => self.sp,
        }
    }

    /// The registers after `v` was written to register (pair) `r`.
    pub open spec fn with_word(self, r: WordRegisterName, v: u16) -> RegisterFile {
        match r {
            WordRegisterName::BC => RegisterFile { b: hi(v), c: lo(v), ..self },
            WordRegisterName::DE => RegisterFile { d: hi(v), e: lo(v), ..self },
            WordRegisterName::HL => RegisterFile { h: hi(v), l: lo(v), ..self },
            WordRegisterName::AF => RegisterFile { a: hi(v), f: lo(v) & 0xF0, ..self },
            WordRegisterName::PC => RegisterFile { pc: v, ..self },
            WordRegisterName::SP => RegisterFile { sp: v, ..self },
        }
    }
}

/// The register set of the CPU.
pub struct Registers {
    pub pc: Register<u16>,
    pub sp: Register<u16>,
    pub a: Register<u8>,
    pub f: Register<CpuFlags>,
    pub b: Register<u8>,
    pub c: Register<u8>,
    pub d: Register<u8>,
    pub e: Register<u8>,
    pub h: Register<u8>,
    pub l: Register<u8>,
}

impl View for Registers {
    type V = RegisterFile;

    open spec fn view(&self) -> RegisterFile {
        RegisterFile {
            pc: self.pc@,
            sp: self.sp@,
            a: self.a@,
            f: self.f@.spec_bits(),
            b: self.b@,
            c: self.c@,
            d: self.d@,
            e: self.e@,
            h: self.h@,
            l: self.l@,
        }
    }
}

impl ByteRegisterRead for Register<CpuFlags> {
    open spec fn spec_u8(&self) -> u8 {
        self@.spec_bits()
    }

    fn get_u8(&self) -> (r: u8) {
        self.get().bits()
    }
}

impl ByteRegisterWrite for Register<CpuFlags> {
    open spec fn spec_stored(value: u8) -> u8 {
        value & 0xF0
    }

    fn set_u8(&mut self, value: u8) {
        self.set(CpuFlags::from_bits_truncate(value));
    }
}

/// A shared view of one 8-bit register.
pub enum ShortRegisterRef<'a> {
    Plain(&'a Register<u8>),
    Flags(&'a Register<CpuFlags>),
}

impl<'a> ByteRegisterRead for ShortRegisterRef<'a> {
    open spec fn spec_u8(&self) -> u8 {
        match *self {
            ShortRegisterRef::Plain(r) => r@,
            ShortRegisterRef::Flags(r) => r@.spec_bits(),
        }
    }

    fn get_u8(&self) -> (r: u8) {
        match self {
            ShortRegisterRef::Plain(r) => r.get_u8(),
            ShortRegisterRef::Flags(r) => r.get_u8(),
        }
    }
}

/// Exclusive access to one 8-bit register.
pub enum ShortRegisterRefMut<'a> {
    Plain(&'a mut Register<u8>),
    Flags(&'a mut Register<CpuFlags>),
}

impl<'a> ShortRegisterRefMut<'a> {
    /// The byte that the register holds now.
    pub open spec fn cur(&self) -> u8 {
        match self {
            ShortRegisterRefMut::Plain(r) => (**r)@,
            ShortRegisterRefMut::Flags(r) => (**r)@.spec_bits(),
        }
    }

    pub fn get_u8(&self) -> (r: u8)
        ensures
            r == self.cur(),
    {
        match self {
            ShortRegisterRefMut::Plain(r) => r.get_u8(),
            ShortRegisterRefMut::Flags(r) => r.get_u8(),
        }
    }

    /// Writes `value`; the flag register keeps only its named bits.
    pub fn set_u8(self, value: u8)
        ensures
            self matches ShortRegisterRefMut::Plain(r) ==> final(r)@ == value,
            self matches ShortRegisterRefMut::Flags(r) ==> final(r)@.spec_bits() == value & 0xF0,
    {
        match self {
            ShortRegisterRefMut::Plain(r) => r.set_u8(value),
            ShortRegisterRefMut::Flags(r) => r.set_u8(value),
        }
    }

    /// Writes `f` applied to the current byte and returns what `f` gave.
    pub fn update_u8<F: Fn(u8) -> u8>(self, f: F) -> (r: u8)
        requires
            f.requires((self.cur(),)),
        ensures
            f.ensures((self.cur(),), r),
            self matches ShortRegisterRefMut::Plain(x) ==> final(x)@ == r,
            self matches ShortRegisterRefMut::Flags(x) ==> final(x)@.spec_bits() == r & 0xF0,
    {
        let result = f(self.get_u8());
        self.set_u8(result);
        result
    }
}

/// A shared view of a 16-bit register or register pair.
pub enum WordRegisterRef<'a> {
    Pair { high: ShortRegisterRef<'a>, low: ShortRegisterRef<'a> },
    Single(&'a Register<u16>),
}

impl<'a> WordRegisterRead for WordRegisterRef<'a> {
    open spec fn spec_u16(&self) -> u16 {
        match *self {
            WordRegisterRef::Pair { high, low } => join(high.spec_u8(), low.spec_u8()),
            WordRegisterRef::Single(r) => r@,
        }
    }

    fn get_u16(&self) -> (r: u16) {
        match self {
            WordRegisterRef::Pair { high, low } => {
                let h = high.get_u8();
                let l = low.get_u8();
                proof {
                    lemma_join_bits(h, l);
                }
                (h as u16) << 8 | l as u16
            },
            WordRegisterRef::Single(r) => r.get_u16(),
        }
    }
}

/// Exclusive access to a 16-bit register or register pair.
pub enum WordRegisterRefMut<'a> {
    Pair { high: ShortRegisterRefMut<'a>, low: ShortRegisterRefMut<'a> },
    Single(&'a mut Register<u16>),
}

impl<'a> WordRegisterRefMut<'a> {
    /// The word that the register (pair) holds now.
    pub open spec fn cur(&self) -> u16 {
        match self {
            WordRegisterRefMut::Pair { high, low } => join(high.cur(), low.cur()),
            WordRegisterRefMut::Single(r) => (**r)@,
        }
    }

    pub fn get_u16(&self) -> (r: u16)
        ensures
            r == self.cur(),
    {
        match self {
            WordRegisterRefMut::Pair { high, low } => {
                let h = high.get_u8();
                let l = low.get_u8();
                proof {
                    lemma_join_bits(h, l);
                }
                (h as u16) << 8 | l as u16
            },
            WordRegisterRefMut::Single(r) => r.get_u16(),
        }
    }

    /// Writes `value`: a pair takes its high byte first and its low byte second.
    pub fn set_u16(self, value: u16)
        ensures
            self matches WordRegisterRefMut::Pair {
                high: ShortRegisterRefMut::Plain(h),
                low: ShortRegisterRefMut::Plain(l),
            } ==> final(h)@ == hi(value) && final(l)@ == lo(value),
            self matches WordRegisterRefMut::Pair {
                high: ShortRegisterRefMut::Plain(h),
                low: ShortRegisterRefMut::Flags(l),
            } ==> final(h)@ == hi(value) && final(l)@.spec_bits() == lo(value) & 0xF0,
            self matches WordRegisterRefMut::Single(r) ==> final(r)@ == value,
    {
        proof {
            lemma_split_bits(value);
        }
        match self {
            WordRegisterRefMut::Pair { high, low } => {
                high.set_u8((value >> 8) as u8);
                low.set_u8(value as u8);
            },
            WordRegisterRefMut::Single(r) => {
                r.set_u16(value);
            },
        }
    }
}


impl<'a> WordRegisterRefMut<'a> {
    /// Writes `f` applied to the current word and returns what `f` gave.
    pub fn update_u16<F: Fn(u16) -> u16>(self, f: F) -> (r: u16)
        requires
            f.requires((self.cur(),)),
        ensures
            f.ensures((self.cur(),), r),
            self matches WordRegisterRefMut::Pair {
                high: ShortRegisterRefMut::Plain(h),
                low: ShortRegisterRefMut::Plain(l),
            } ==> final(h)@ == hi(r) && final(l)@ == lo(r),
            self matches WordRegisterRefMut::Pair {
                high: ShortRegisterRefMut::Plain(h),
                low: ShortRegisterRefMut::Flags(l),
            } ==> final(h)@ == hi(r) && final(l)@.spec_bits() == lo(r) & 0xF0,
            self matches WordRegisterRefMut::Single(x) ==> final(x)@ == r,
    {
        let result = f(self.get_u16());
        self.set_u16(result);
        result
    }
}

impl Registers {
    /// The register values of the DMG after its boot program has run.
    pub fn new() -> (r: Self)
        ensures
            r@ == (RegisterFile {
                pc: 0x0100,
                sp: 0xFFFE,
                a: 0x01,
                f: 0xB0,
                b: 0x00,
                c: 0x13,
                d: 0x00,
                e: 0xD8,
                h: 0x01,
                l: 0x4D,
            }),
    {
        assert(0x80u8 | 0x20u8 | 0x10u8 == 0xB0u8) by (bit_vector);
        let flags = CpuFlags::from_bits_retain(CpuFlags::ZERO | CpuFlags::HALF_CARRY | CpuFlags::CARRY);
        Self {
            pc: Register::new(0x0100),
            sp: Register::new(0xFFFE),
            a: Register::new(0x01),
            f: Register::new(flags),
            b: Register::new(0x00),
            c: Register::new(0x13),
            d: Register::new(0x00),
            e: Register::new(0xD8),
            h: Register::new(0x01),
            l: Register::new(0x4D),
        }
    }

    /// Shared access to the 8-bit register `r`.
    pub fn get_short_register(&self, r: ShortRegisterName) -> (ret: ShortRegisterRef<'_>)
        ensures
            ret.spec_u8() == self@.short(r),
    {
        match r {
            ShortRegisterName::A => ShortRegisterRef::Plain(&self.a),
            ShortRegisterName::F => ShortRegisterRef::Flags(&self.f),
            ShortRegisterName::B => ShortRegisterRef::Plain(&self.b),
            ShortRegisterName::C => ShortRegisterRef::Plain(&self.c),
            ShortRegisterName::D => ShortRegisterRef::Plain(&self.d),
            ShortRegisterName::E => ShortRegisterRef::Plain(&self.e),
            ShortRegisterName::H => ShortRegisterRef::Plain(&self.h),
            ShortRegisterName::L => ShortRegisterRef::Plain(&self.l),
        }
    }

    /// Exclusive access to the 8-bit register `r`; what is written through it lands in `r`.
    pub fn get_short_register_mut(&mut self, r: ShortRegisterName) -> (ret: ShortRegisterRefMut<'_>)
        ensures
            ret.cur() == old(self)@.short(r),
            r == ShortRegisterName::A ==> (ret matches ShortRegisterRefMut::Plain(x)
                && *final(self) == (Registers { a: *final(x), ..*old(self) })),
            r == ShortRegisterName::F ==> (ret matches ShortRegisterRefMut::Flags(x)
                && *final(self) == (Registers { f: *final(x), ..*old(self) })),
            r == ShortRegisterName::B ==> (ret matches ShortRegisterRefMut::Plain(x)
                && *final(self) == (Registers { b: *final(x), ..*old(self) })),
            r == ShortRegisterName::C ==> (ret matches ShortRegisterRefMut::Plain(x)
                && *final(self) == (Registers { c: *final(x), ..*old(self) })),
            r == ShortRegisterName::D ==> (ret matches ShortRegisterRefMut::Plain(x)
                && *final(self) == (Registers { d: *final(x), ..*old(self) })),
            r == ShortRegisterName::E ==> (ret matches ShortRegisterRefMut::Plain(x)
                && *final(self) == (Registers { e: *final(x), ..*old(self) })),
            r == ShortRegisterName::H ==> (ret matches ShortRegisterRefMut::Plain(x)
                && *final(self) == (Registers { h: *final(x), ..*old(self) })),
            r == ShortRegisterName::L ==> (ret matches ShortRegisterRefMut::Plain(x)
                && *final(self) == (Registers { l: *final(x), ..*old(self) })),
    {
        match r {
            ShortRegisterName::A => ShortRegisterRefMut::Plain(&mut self.a),
            ShortRegisterName::F => ShortRegisterRefMut::Flags(&mut self.f),
            ShortRegisterName::B => ShortRegisterRefMut::Plain(&mut self.b),
            ShortRegisterName::C => ShortRegisterRefMut::Plain(&mut self.c),
            ShortRegisterName::D => ShortRegisterRefMut::Plain(&mut self.d),
            ShortRegisterName::E => ShortRegisterRefMut::Plain(&mut self.e),
            ShortRegisterName::H => ShortRegisterRefMut::Plain(&mut self.h),
            ShortRegisterName::L => ShortRegisterRefMut::Plain(&mut self.l),
        }
    }

    /// Shared access to the 16-bit register or register pair `r`.
    pub fn get_word_register(&self, r: WordRegisterName) -> (ret: WordRegisterRef<'_>)
        ensures
            ret.spec_u16() == self@.word(r),
    {
        match r {
            WordRegisterName::BC => self.bc(),
            WordRegisterName::DE => self.de(),
            WordRegisterName::HL => self.hl(),
            WordRegisterName::AF => self.af(),
            WordRegisterName::PC => WordRegisterRef::Single(&self.pc),
            WordRegisterName::SP => WordRegisterRef::Single(&self.sp),
        }
    }

    pub fn bc(&self) -> (ret: WordRegisterRef<'_>)
        ensures
            ret.spec_u16() == self@.word(WordRegisterName::BC),
    {
        WordRegisterRef::Pair { high: ShortRegisterRef::Plain(&self.b), low: ShortRegisterRef::Plain(&self.c) }
    }

    pub fn de(&self) -> (ret: WordRegisterRef<'_>)
        ensures
            ret.spec_u16() == self@.word(WordRegisterName::DE),
    {
        WordRegisterRef::Pair { high: ShortRegisterRef::Plain(&self.d), low: ShortRegisterRef::Plain(&self.e) }
    }

    pub fn hl(&self) -> (ret: WordRegisterRef<'_>)
        ensures
            ret.spec_u16() == self@.word(WordRegisterName::HL),
    {
        WordRegisterRef::Pair { high: ShortRegisterRef::Plain(&self.h), low: ShortRegisterRef::Plain(&self.l) }
    }

    pub fn af(&self) -> (ret: WordRegisterRef<'_>)
        ensures
            ret.spec_u16() == self@.word(WordRegisterName::AF),
    {
        WordRegisterRef::Pair { high: ShortRegisterRef::Plain(&self.a), low: ShortRegisterRef::Flags(&self.f) }
    }

    /// Exclusive access to the 16-bit register or register pair `r`.
    pub fn get_word_register_mut(&mut self, r: WordRegisterName) -> (ret: WordRegisterRefMut<'_>)
        ensures
            ret.cur() == old(self)@.word(r),
            r == WordRegisterName::BC ==> (ret matches WordRegisterRefMut::Pair {
                high: ShortRegisterRefMut::Plain(x), low: ShortRegisterRefMut::Plain(y) }
                && *final(self) == (Registers { b: *final(x), c: *final(y), ..*old(self) })),
            r == WordRegisterName::DE ==> (ret matches WordRegisterRefMut::Pair {
                high: ShortRegisterRefMut::Plain(x), low: ShortRegisterRefMut::Plain(y) }
                && *final(self) == (Registers { d: *final(x), e: *final(y), ..*old(self) })),
            r == WordRegisterName::HL ==> (ret matches WordRegisterRefMut::Pair {
                high: ShortRegisterRefMut::Plain(x), low: ShortRegisterRefMut::Plain(y) }
                && *final(self) == (Registers { h: *final(x), l: *final(y), ..*old(self) })),
            r == WordRegisterName::AF ==> (ret matches WordRegisterRefMut::Pair {
                high: ShortRegisterRefMut::Plain(x), low: ShortRegisterRefMut::Flags(y) }
                && *final(self) == (Registers { a: *final(x), f: *final(y), ..*old(self) })),
            r == WordRegisterName::PC ==> (ret matches WordRegisterRefMut::Single(x)
                && *final(self) == (Registers { pc: *final(x), ..*old(self) })),
            r == WordRegisterName::SP ==> (ret matches WordRegisterRefMut::Single(x)
                && *final(self) == (Registers { sp: *final(x), ..*old(self) })),
    {
        match r {
            WordRegisterName::BC => self.bc_mut(),
            WordRegisterName::DE => self.de_mut(),
            WordRegisterName::HL => self.hl_mut(),
            WordRegisterName::AF => self.af_mut(),
            WordRegisterName::PC => WordRegisterRefMut::Single(&mut self.pc),
            WordRegisterName::SP => WordRegisterRefMut::Single(&mut self.sp),
        }
    }

    pub fn bc_mut(&mut self) -> (ret: WordRegisterRefMut<'_>)
        ensures
            ret.cur() == old(self)@.word(WordRegisterName::BC),
            ret matches WordRegisterRefMut::Pair {
                high: ShortRegisterRefMut::Plain(x), low: ShortRegisterRefMut::Plain(y) }
                && *final(self) == (Registers { b: *final(x), c: *final(y), ..*old(self) }),
    {
        WordRegisterRefMut::Pair {
            high: ShortRegisterRefMut::Plain(&mut self.b),
            low: ShortRegisterRefMut::Plain(&mut self.c),
        }
    }

    pub fn de_mut(&mut self) -> (ret: WordRegisterRefMut<'_>)
        ensures
            ret.cur() == old(self)@.word(WordRegisterName::DE),
            ret matches WordRegisterRefMut::Pair {
                high: ShortRegisterRefMut::Plain(x), low: ShortRegisterRefMut::Plain(y) }
                && *final(self) == (Registers { d: *final(x), e: *final(y), ..*old(self) }),
    {
        WordRegisterRefMut::Pair {
            high: ShortRegisterRefMut::Plain(&mut self.d),
            low: ShortRegisterRefMut::Plain(&mut self.e),
        }
    }

    pub fn hl_mut(&mut self) -> (ret: WordRegisterRefMut<'_>)
        ensures
            ret.cur() == old(self)@.word(WordRegisterName::HL),
            ret matches WordRegisterRefMut::Pair {
                high: ShortRegisterRefMut::Plain(x), low: ShortRegisterRefMut::Plain(y) }
                && *final(self) == (Registers { h: *final(x), l: *final(y), ..*old(self) }),
    {
        WordRegisterRefMut::Pair {
            high: ShortRegisterRefMut::Plain(&mut self.h),
            low: ShortRegisterRefMut::Plain(&mut self.l),
        }
    }

    pub fn af_mut(&mut self) -> (ret: WordRegisterRefMut<'_>)
        ensures
            ret.cur() == old(self)@.word(WordRegisterName::AF),
            ret matches WordRegisterRefMut::Pair {
                high: ShortRegisterRefMut::Plain(x), low: ShortRegisterRefMut::Flags(y) }
                && *final(self) == (Registers { a: *final(x), f: *final(y), ..*old(self) }),
    {
        WordRegisterRefMut::Pair {
            high: ShortRegisterRefMut::Plain(&mut self.a),
            low: ShortRegisterRefMut::Flags(&mut self.f),
        }
    }
}

/// Whether the 8-bit register `s` is one half of the register (pair) `r`.
pub open spec fn part_of(s: ShortRegisterName, r: WordRegisterName) -> bool {
    match r {
        WordRegisterName::BC => s == ShortRegisterName::B || s == ShortRegisterName::C,
        WordRegisterName::DE => s == ShortRegisterName::D || s == ShortRegisterName::E,
        WordRegisterName::HL => s == ShortRegisterName::H || s == ShortRegisterName::L,
        WordRegisterName::AF => s == ShortRegisterName::A || s == ShortRegisterName::F,
        _ => false,
    }
}

/// Reading an 8-bit register gives back what was written to it, the flag register
/// keeping only its upper four bits, and no other register changes.
pub proof fn lemma_short_write_read(regs: RegisterFile, r: ShortRegisterName, v: u8)
    ensures
        regs.with_short(r, v).short(r) == (if r == ShortRegisterName::F { v & 0xF0 } else { v }),
        forall|o: ShortRegisterName| o != r ==> #[trigger] regs.with_short(r, v).short(o) == regs.short(o),
        regs.with_short(r, v).pc == regs.pc,
        regs.with_short(r, v).sp == regs.sp,
{
}

/// Reading a 16-bit register (pair) gives back what was written to it, `AF` keeping
/// only the upper four bits of `F`, and no register outside it changes.
pub proof fn lemma_word_write_read(regs: RegisterFile, r: WordRegisterName, v: u16)
    ensures
        regs.with_word(r, v).word(r) == (if r == WordRegisterName::AF { v & 0xFFF0 } else { v }),
        forall|o: ShortRegisterName| !part_of(o, r) ==> #[trigger] regs.with_word(r, v).short(o) == regs.short(o),
        r != WordRegisterName::PC ==> regs.with_word(r, v).pc == regs.pc,
        r != WordRegisterName::SP ==> regs.with_word(r, v).sp == regs.sp,
{
    lemma_split_bits(v);
    if r == WordRegisterName::AF {
        let l: u8 = lo(v);
        assert((l & 0xF0u8) as u16 == (l as u16) & 0xF0u16) by (bit_vector);
        assert(v & 0xFFF0u16 == (v / 256u16) * 256u16 + ((v % 256u16) & 0xF0u16)) by (bit_vector);
        assert((l & 0xF0u8) <= l) by (bit_vector);
    }
}

/// A register pair reads as its high register followed by its low register, and
/// writing the pair writes the high and low bytes of the word to them.
pub proof fn lemma_pair_halves(regs: RegisterFile, v: u16)
    ensures
        regs.word(WordRegisterName::BC) == join(regs.b, regs.c),
        regs.with_word(WordRegisterName::BC, v) == regs.with_short(ShortRegisterName::B, hi(v)).with_short(
            ShortRegisterName::C,
            lo(v),
        ),
        regs.with_word(WordRegisterName::DE, v) == regs.with_short(ShortRegisterName::D, hi(v)).with_short(
            ShortRegisterName::E,
            lo(v),
        ),
        regs.with_word(WordRegisterName::HL, v) == regs.with_short(ShortRegisterName::H, hi(v)).with_short(
            ShortRegisterName::L,
            lo(v),
        ),
        regs.with_word(WordRegisterName::AF, v) == regs.with_short(ShortRegisterName::A, hi(v)).with_short(
            ShortRegisterName::F,
            lo(v),
        ),
{
}

} // verus!
