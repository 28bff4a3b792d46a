use vstd::prelude::*;

use crate::emulator::cpu::register::{ShortRegisterName, WordRegisterName};
use crate::emulator::cpu::CpuError;

verus! {

/// An index that does not fit the operand field it was taken from.
#[derive(Debug)]
pub(crate) struct OperandTooWide;

/// A 3-bit operand: an 8-bit register or the byte that `HL` points at.
#[derive(Copy, Clone, Debug, PartialEq, Eq, Structural)]
pub enum Operand3 {
    Register(ShortRegisterName),
    IndirectHL,
}

/// The operand that the 3-bit index `idx` (below 8) names.
pub open spec fn operand3_at(idx: u8) -> Operand3 {
    if idx == 0 {
        Operand3::Register(ShortRegisterName::B)
    } else if idx == 1 {
        Operand3::Register(ShortRegisterName::C)
    } else if idx == 2 {
        Operand3::Register(ShortRegisterName::D)
    } else if idx == 3 {
        Operand3::Register(ShortRegisterName::E)
    } else if idx == 4 {
        Operand3::Register(ShortRegisterName::H)
    } else if idx == 5 {
        Operand3::Register(ShortRegisterName::L)
    } else if idx == 6 {
        Operand3::IndirectHL
    } else {
        Operand3::Register(ShortRegisterName::A)
    }
}

impl Operand3 {
    pub(crate) fn new(idx: u8) -> (r: Result<Self, OperandTooWide>)
        ensures
            idx < 8 ==> r == Ok::<Operand3, OperandTooWide>(operand3_at(idx)),
            idx >= 8 ==> r is Err,
    {
        match idx {
            0 => Ok(Self::Register(ShortRegisterName::B)),
            1 => Ok(Self::Register(ShortRegisterName::C)),
            2 => Ok(Self::Register(ShortRegisterName::D)),
            3 => Ok(Self::Register(ShortRegisterName::E)),
            4 => Ok(Self::Register(ShortRegisterName::H)),
            5 => Ok(Self::Register(ShortRegisterName::L)),
            6 => Ok(Self::IndirectHL),
            7 => Ok(Self::Register(ShortRegisterName::A)),
            _ => Err(OperandTooWide),
        }
    }
}

/// A 2-bit operand naming a 16-bit register (pair).
#[derive(Copy, Clone, Debug, PartialEq, Eq, Structural)]
pub struct Operand2 {
    pub register: WordRegisterName,
}

/// What index 3 of a 2-bit register operand names.
pub(crate) enum LastOperand2 {
    SP,
    AF,
}

impl LastOperand2 {
    fn register(self) -> (r: WordRegisterName)
        ensures
            r == (match self {
                LastOperand2::SP => WordRegisterName::SP,
                LastOperand2::AF => WordRegisterName::AF,
            }),
    {
        match self {
            LastOperand2::SP => WordRegisterName::SP,
            LastOperand2::AF => WordRegisterName::AF,
        }
    }
}

/// The register that the 2-bit index `idx` (below 4) names, index 3 being `SP`
/// or, where `af` holds, `AF`.
pub open spec fn operand2_at(idx: u8, af: bool) -> Operand2 {
    Operand2 {
        register: if idx == 0 {
            WordRegisterName::BC
        } else if idx == 1 {
            WordRegisterName::DE
        } else if idx == 2 {
            WordRegisterName::HL
        } else if af {
            WordRegisterName::AF
        } else {
            WordRegisterName::SP
        },
    }
}

impl Operand2 {
    pub(crate) fn new(idx: u8, last: LastOperand2) -> (r: Result<Self, OperandTooWide>)
        ensures
            idx < 4 ==> r == Ok::<Operand2, OperandTooWide>(operand2_at(idx, last is AF)),
            idx >= 4 ==> r is Err,
    {
        match idx {
            0 => Ok(Self { register: WordRegisterName::BC }),
            1 => Ok(Self { register: WordRegisterName::DE }),
            2 => Ok(Self { register: WordRegisterName::HL }),
            3 => Ok(Self { register: last.register() }),
            _ => Err(OperandTooWide),
        }
    }
}

/// The condition of a conditional jump, read from the flag register.
#[derive(Copy, Clone, Debug, PartialEq, Eq, Structural)]
pub enum ConditionalOperand {
    NZ,
    Z,
    NC,
    C,
}

/// The condition that the 2-bit index `idx` (below 4) names.
pub open spec fn condition_at(idx: u8) -> ConditionalOperand {
    if idx == 0 {
        ConditionalOperand::NZ
    } else if idx == 1 {
        ConditionalOperand::Z
    } else if idx == 2 {
        ConditionalOperand::NC
    } else {
        ConditionalOperand::C
    }
}

impl ConditionalOperand {
    pub(crate) fn new(idx: u8) -> (r: Result<Self, OperandTooWide>)
        ensures
            idx < 4 ==> r == Ok::<ConditionalOperand, OperandTooWide>(condition_at(idx)),
            idx >= 4 ==> r is Err,
    {
        match idx {
            0 => Ok(Self::NZ),
            1 => Ok(Self::Z),
            2 => Ok(Self::NC),
            3 => Ok(Self::C),
            _ => Err(OperandTooWide),
        }
    }
}

/// A memory operand addressed by a register pair; `HLInc` and `HLDec` step `HL` after use.
#[derive(Debug, Copy, Clone, PartialEq, Eq, Structural)]
pub enum IndirectOperand {
    BC,
    DE,
    HLInc,
    HLDec,
}

/// The indirect operand that the 2-bit index `idx` (below 4) names.
pub open spec fn indirect_at(idx: u8) -> IndirectOperand {
    if idx == 0 {
        IndirectOperand::BC
    } else if idx == 1 {
        IndirectOperand::DE
    } else if idx == 2 {
        IndirectOperand::HLInc
    } else {
        IndirectOperand::HLDec
    }
}

/// The register pair that holds the address of an indirect operand.
pub open spec fn indirect_register(op: IndirectOperand) -> WordRegisterName {
    match op {
        IndirectOperand::BC => WordRegisterName::BC,
        IndirectOperand::DE => WordRegisterName::DE,
        IndirectOperand::HLInc => WordRegisterName::HL,
        IndirectOperand::HLDec => WordRegisterName::HL,
    }
}

impl IndirectOperand {
    pub(crate) fn new(idx: u8) -> (r: Result<Self, OperandTooWide>)
        ensures
            idx < 4 ==> r == Ok::<IndirectOperand, OperandTooWide>(indirect_at(idx)),
            idx >= 4 ==> r is Err,
    {
        match idx {
            0 => Ok(Self::BC),
            1 => Ok(Self::DE),
            2 => Ok(Self::HLInc),
            3 => Ok(Self::HLDec),
            _ => Err(OperandTooWide),
        }
    }

    /// The register pair that holds the address.
    pub fn register(&self) -> (r: WordRegisterName)
        ensures
            r == indirect_register(*self),
    {
        match self {
            IndirectOperand::BC => WordRegisterName::BC,
            IndirectOperand::DE => WordRegisterName::DE,
            IndirectOperand::HLInc | IndirectOperand::HLDec => WordRegisterName::HL,
        }
    }
}

/// An instruction as its opcode names it, before its immediate operands are read.
#[allow(inconsistent_fields)]
#[derive(Clone, Copy, Debug, PartialEq, Eq, Structural)]
pub enum RawInstruction {
    Nop,
    EnableInterrupts,
    DisableInterrupts,
    Halt,
    CallFunction,
    ReturnFunction,
    PopStackToRegister { operand: Operand2 },
    PushRegisterToStack { operand: Operand2 },
    JumpImmediate,
    JumpHL,
    JumpRelativeConditional { operand: ConditionalOperand },
    XorRegister { operand: Operand3 },
    IncRegister8 { operand: Operand3 },
    IncRegister16 { operand: Operand2 },
    DecRegister8 { operand: Operand3 },
    DecRegister16 { operand: Operand2 },
    LoadRegisterToRegister { left_operand: Operand3, right_operand: Operand3 },
    LoadAccumulatorToIndirect { operand: IndirectOperand },
    LoadIndirectToAccumulator { operand: IndirectOperand },
    LoadImmediateToRegister8 { operand: Operand3 },
    LoadImmediateToRegister16 { operand: Operand2 },
    LoadAccumulatorToHighMemory,
    LoadHighMemoryToAccumulator,
    LoadAccumulatorToIndirectC,
    LoadAccumulatorToMemory,
    CompareImmediate,
    AddRegister { operand: Operand3 },
    BitwiseAndImmediate,
    BitwiseOrRegister { operand: Operand3 },
    BitwiseAndRegister { operand: Operand3 },
    ComplementAccumulator,
    Restart { address: u8 },
    AddRegisterToHL { operand: Operand2 },
    CBPrefix,
}

/// An executed instruction together with the immediate operands it read.
#[allow(inconsistent_fields)]
#[derive(Clone, Copy, Debug, PartialEq, Eq, Structural)]
pub enum Instruction {
    Nop,
    EnableInterrupts,
    DisableInterrupts,
    Halt,
    CallFunction { address: u16 },
    ReturnFunction,
    PopStackToRegister { operand: Operand2 },
    PushRegisterToStack { operand: Operand2 },
    JumpImmediate { address: u16 },
    JumpHL,
    JumpRelativeConditional { operand: ConditionalOperand, relative: i8 },
    XorRegister { operand: Operand3 },
    IncRegister8 { operand: Operand3 },
    IncRegister16 { operand: Operand2 },
    DecRegister8 { operand: Operand3 },
    DecRegister16 { operand: Operand2 },
    LoadRegisterToRegister { left_operand: Operand3, right_operand: Operand3 },
    LoadAccumulatorToIndirect { operand: IndirectOperand },
    LoadIndirectToAccumulator { operand: IndirectOperand },
    LoadImmediateToRegister8 { operand: Operand3, immediate: u8 },
    LoadImmediateToRegister16 { operand: Operand2, immediate: u16 },
    LoadAccumulatorToHighMemory { immediate: u8 },
    LoadHighMemoryToAccumulator { immediate: u8 },
    LoadAccumulatorToIndirectC,
    LoadAccumulatorToMemory { immediate: u16 },
    CompareImmediate { immediate: u8 },
    AddRegister { operand: Operand3 },
    BitwiseAndImmediate { immediate: u8 },
    BitwiseOrRegister { operand: Operand3 },
    BitwiseAndRegister { operand: Operand3 },
    ComplementAccumulator,
    Restart { address: u8 },
    AddRegisterToHL { operand: Operand2 },
    CBPrefix,
}

/// A CB-prefixed instruction as its opcode names it.
#[derive(Clone, Copy, Debug, PartialEq, Eq, Structural)]
pub enum RawCBInstruction {
    SwapNibbles { operand: Operand3 },
}

/// An executed CB-prefixed instruction.
#[derive(Clone, Copy, Debug, PartialEq, Eq, Structural)]
pub enum CBInstruction {
    SwapNibbles { operand: Operand3 },
}

/// Any executed instruction.
#[derive(Clone, Copy, Debug, PartialEq, Eq, Structural)]
pub enum AnyInstruction {
    Instruction(Instruction),
    CBInstruction(CBInstruction),
}

/// Whether the bits of `pattern` that `mask` selects are set alike in `opcode`.
pub open spec fn fits(opcode: u8, mask: u8, pattern: u8) -> bool {
    opcode & mask == pattern
}

/// The instruction that `opcode` names; the opcode patterns are tried in order
/// and the first that fits decides.
pub open spec fn decode(opcode: u8) -> Result<RawInstruction, CpuError> {
    if opcode == 0x00 {
        Ok(RawInstruction::Nop)
    } else if opcode == 0xFB {
        Ok(RawInstruction::EnableInterrupts)
    } else if opcode == 0xF3 {
        Ok(RawInstruction::DisableInterrupts)
    } else if opcode == 0xCD {
        Ok(RawInstruction::CallFunction)
    } else if opcode == 0xC9 {
        Ok(RawInstruction::ReturnFunction)
    } else if fits(opcode, 0xCF, 0xC1) {
        Ok(RawInstruction::PopStackToRegister { operand: operand2_at((opcode >> 4) & 3, true) })
    } else if fits(opcode, 0xCF, 0xC5) {
        Ok(RawInstruction::PushRegisterToStack { operand: operand2_at((opcode >> 4) & 3, true) })
    } else if opcode == 0xC3 {
        Ok(RawInstruction::JumpImmediate)
    } else if opcode == 0xE9 {
        Ok(RawInstruction::JumpHL)
    } else if fits(opcode, 0xF3, 0x20) {
        Ok(RawInstruction::JumpRelativeConditional { operand: condition_at((opcode >> 2) & 3) })
    } else if fits(opcode, 0xF8, 0xA8) {
        Ok(RawInstruction::XorRegister { operand: operand3_at(opcode & 7) })
    } else if fits(opcode, 0xC7, 0x04) {
        Ok(RawInstruction::IncRegister8 { operand: operand3_at((opcode >> 3) & 7) })
    } else if fits(opcode, 0xCF, 0x03) {
        Ok(RawInstruction::IncRegister16 { operand: operand2_at((opcode >> 4) & 3, false) })
    } else if fits(opcode, 0xC7, 0x05) {
        Ok(RawInstruction::DecRegister8 { operand: operand3_at((opcode >> 3) & 7) })
    } else if fits(opcode, 0xCF, 0x0B) {
        Ok(RawInstruction::DecRegister16 { operand: operand2_at((opcode >> 4) & 3, false) })
    } else if fits(opcode, 0xC0, 0x40) {
        if (opcode >> 3) & 7 == 6 && opcode & 7 == 6 {
            Ok(RawInstruction::Halt)
        } else {
            Ok(
                RawInstruction::LoadRegisterToRegister {
                    left_operand: operand3_at((opcode >> 3) & 7),
                    right_operand: operand3_at(opcode & 7),
                },
            )
        }
    } else if fits(opcode, 0xCF, 0x02) {
        Ok(RawInstruction::LoadAccumulatorToIndirect { operand: indirect_at((opcode >> 4) & 3) })
    } else if fits(opcode, 0xCF, 0x0A) {
        Ok(RawInstruction::LoadIndirectToAccumulator { operand: indirect_at((opcode >> 4) & 3) })
    } else if fits(opcode, 0xC7, 0x06) {
        Ok(RawInstruction::LoadImmediateToRegister8 { operand: operand3_at((opcode >> 3) & 7) })
    } else if fits(opcode, 0xCF, 0x01) {
        Ok(
            RawInstruction::LoadImmediateToRegister16 {
                operand: operand2_at((opcode >> 4) & 3, false),
            },
        )
    } else if opcode == 0xE0 {
        Ok(RawInstruction::LoadAccumulatorToHighMemory)
    } else if opcode == 0xE2 {
        Ok(RawInstruction::LoadAccumulatorToIndirectC)
    } else if opcode == 0xEA {
        Ok(RawInstruction::LoadAccumulatorToMemory)
    } else if opcode == 0xF0 {
        Ok(RawInstruction::LoadHighMemoryToAccumulator)
    } else if opcode == 0xFE {
        Ok(RawInstruction::CompareImmediate)
    } else if fits(opcode, 0xF8, 0x80) {
        Ok(RawInstruction::AddRegister { operand: operand3_at(opcode & 7) })
    } else if opcode == 0xE6 {
        Ok(RawInstruction::BitwiseAndImmediate)
    } else if fits(opcode, 0xF8, 0xB0) {
        Ok(RawInstruction::BitwiseOrRegister { operand: operand3_at(opcode & 7) })
    } else if fits(opcode, 0xF8, 0xA0) {
        Ok(RawInstruction::BitwiseAndRegister { operand: operand3_at(opcode & 7) })
    } else if opcode == 0x2F {
        Ok(RawInstruction::ComplementAccumulator)
    } else if fits(opcode, 0xC7, 0xC7) {
        Ok(RawInstruction::Restart { address: (((opcode >> 3) & 7) * 8) as u8 })
    } else if fits(opcode, 0xCF, 0x09) {
        Ok(RawInstruction::AddRegisterToHL { operand: operand2_at((opcode >> 4) & 3, false) })
    } else if opcode == 0xCB {
        Ok(RawInstruction::CBPrefix)
    } else {
        Err(CpuError::InvalidInstruction { opcode })
    }
}

/// The CB-prefixed instruction that `opcode` names.
pub open spec fn decode_cb(opcode: u8) -> Result<RawCBInstruction, CpuError> {
    if fits(opcode, 0xF8, 0x30) {
        Ok(RawCBInstruction::SwapNibbles { operand: operand3_at(opcode & 7) })
    } else {
        Err(CpuError::InvalidCBInstruction { opcode })
    }
}

/// Whether the bits of `pattern` that `mask` selects are set alike in `opcode`.
fn common_bits(opcode: u8, mask: u8, pattern: u8) -> (r: bool)
    ensures
        r == fits(opcode, mask, pattern),
{
    opcode & mask == pattern
}

/// The 3-bit field at bits 5..3.
fn field_3_at_3(opcode: u8) -> (r: u8)
    ensures
        r == (opcode >> 3) & 7,
        r < 8,
{
    assert((opcode >> 3) & 7 < 8) by (bit_vector);
    (opcode >> 3) & 7
}

/// The 3-bit field at bits 2..0.
fn field_3_at_0(opcode: u8) -> (r: u8)
    ensures
        r == opcode & 7,
        r < 8,
{
    assert(opcode & 7 < 8) by (bit_vector);
    opcode & 7
}

/// The 2-bit field at bits 5..4.
fn field_2_at_4(opcode: u8) -> (r: u8)
    ensures
        r == (opcode >> 4) & 3,
        r < 4,
{
    assert((opcode >> 4) & 3 < 4) by (bit_vector);
    (opcode >> 4) & 3
}

/// The 2-bit field at bits 3..2.
fn field_2_at_2(opcode: u8) -> (r: u8)
    ensures
        r == (opcode >> 2) & 3,
        r < 4,
{
    assert((opcode >> 2) & 3 < 4) by (bit_vector);
    (opcode >> 2) & 3
}

pub(crate) fn op3(idx: u8) -> (r: Operand3)
    requires
        idx < 8,
    ensures
        r == operand3_at(idx),
{
    match Operand3::new(idx) {
        Ok(o) => o,
        Err(_) => Operand3::IndirectHL,
    }
}

pub(crate) fn op2(idx: u8, last: LastOperand2) -> (r: Operand2)
    requires
        idx < 4,
    ensures
        r == operand2_at(idx, last is AF),
{
    match Operand2::new(idx, last) {
        Ok(o) => o,
        Err(_) => Operand2 { register: WordRegisterName::BC },
    }
}

impl RawInstruction {
    /// Decodes one opcode.
    pub fn new(opcode: u8) -> (r: Result<Self, CpuError>)
        ensures
            r == decode(opcode),
    {
        if opcode == 0x00 {
            Ok(Self::Nop)
        } else if opcode == 0xFB {
            Ok(Self::EnableInterrupts)
        } else if opcode == 0xF3 {
            Ok(Self::DisableInterrupts)
        } else if opcode == 0xCD {
            Ok(Self::CallFunction)
        } else if opcode == 0xC9 {
            Ok(Self::ReturnFunction)
        } else if common_bits(opcode, 0xCF, 0xC1) {
            Ok(Self::PopStackToRegister { operand: op2(field_2_at_4(opcode), LastOperand2::AF) })
        } else if common_bits(opcode, 0xCF, 0xC5) {
            Ok(Self::PushRegisterToStack { operand: op2(field_2_at_4(opcode), LastOperand2::AF) })
        } else if opcode == 0xC3 {
            Ok(Self::JumpImmediate)
        } else if opcode == 0xE9 {
            Ok(Self::JumpHL)
        } else if common_bits(opcode, 0xF3, 0x20) {
            let idx = field_2_at_2(opcode);
            let operand = match ConditionalOperand::new(idx) {
                Ok(o) => o,
                Err(_) => ConditionalOperand::NZ,
            };
            Ok(Self::JumpRelativeConditional { operand })
        } else if common_bits(opcode, 0xF8, 0xA8) {
            Ok(Self::XorRegister { operand: op3(field_3_at_0(opcode)) })
        } else if common_bits(opcode, 0xC7, 0x04) {
            Ok(Self::IncRegister8 { operand: op3(field_3_at_3(opcode)) })
        } else if common_bits(opcode, 0xCF, 0x03) {
            Ok(Self::IncRegister16 { operand: op2(field_2_at_4(opcode), LastOperand2::SP) })
        } else if common_bits(opcode, 0xC7, 0x05) {
            Ok(Self::DecRegister8 { operand: op3(field_3_at_3(opcode)) })
        } else if common_bits(opcode, 0xCF, 0x0B) {
            Ok(Self::DecRegister16 { operand: op2(field_2_at_4(opcode), LastOperand2::SP) })
        } else if common_bits(opcode, 0xC0, 0x40) {
            let left_operand = op3(field_3_at_3(opcode));
            let right_operand = op3(field_3_at_0(opcode));
            if left_operand == Operand3::IndirectHL && right_operand == Operand3::IndirectHL {
                Ok(Self::Halt)
            } else {
                Ok(Self::LoadRegisterToRegister { left_operand, right_operand })
            }
        } else if common_bits(opcode, 0xCF, 0x02) {
            let idx = field_2_at_4(opcode);
            let operand = match IndirectOperand::new(idx) {
                Ok(o) => o,
                Err(_) => IndirectOperand::BC,
            };
            Ok(Self::LoadAccumulatorToIndirect { operand })
        } else if common_bits(opcode, 0xCF, 0x0A) {
            let idx = field_2_at_4(opcode);
            let operand = match IndirectOperand::new(idx) {
                Ok(o) => o,
                Err(_) => IndirectOperand::BC,
            };
            Ok(Self::LoadIndirectToAccumulator { operand })
        } else if common_bits(opcode, 0xC7, 0x06) {
            Ok(Self::LoadImmediateToRegister8 { operand: op3(field_3_at_3(opcode)) })
        } else if common_bits(opcode, 0xCF, 0x01) {
            Ok(Self::LoadImmediateToRegister16 { operand: op2(field_2_at_4(opcode), LastOperand2::SP) })
        } else if opcode == 0xE0 {
            Ok(Self::LoadAccumulatorToHighMemory)
        } else if opcode == 0xE2 {
            Ok(Self::LoadAccumulatorToIndirectC)
        } else if opcode == 0xEA {
            Ok(Self::LoadAccumulatorToMemory)
        } else if opcode == 0xF0 {
            Ok(Self::LoadHighMemoryToAccumulator)
        } else if opcode == 0xFE {
            Ok(Self::CompareImmediate)
        } else if common_bits(opcode, 0xF8, 0x80) {
            Ok(Self::AddRegister { operand: op3(field_3_at_0(opcode)) })
        } else if opcode == 0xE6 {
            Ok(Self::BitwiseAndImmediate)
        } else if common_bits(opcode, 0xF8, 0xB0) {
            Ok(Self::BitwiseOrRegister { operand: op3(field_3_at_0(opcode)) })
        } else if common_bits(opcode, 0xF8, 0xA0) {
            Ok(Self::BitwiseAndRegister { operand: op3(field_3_at_0(opcode)) })
        } else if opcode == 0x2F {
            Ok(Self::ComplementAccumulator)
        } else if common_bits(opcode, 0xC7, 0xC7) {
            let address_8th = field_3_at_3(opcode);
            Ok(Self::Restart { address: address_8th * 8 })
        } else if common_bits(opcode, 0xCF, 0x09) {
            Ok(Self::AddRegisterToHL { operand: op2(field_2_at_4(opcode), LastOperand2::SP) })
        } else if opcode == 0xCB {
            Ok(Self::CBPrefix)
        } else {
            Err(CpuError::InvalidInstruction { opcode })
        }
    }
}

impl RawCBInstruction {
    /// Decodes the opcode that follows a CB prefix.
    pub fn new(opcode: u8) -> (r: Result<Self, CpuError>)
        ensures
            r == decode_cb(opcode),
    {
        if common_bits(opcode, 0xF8, 0x30) {
            Ok(Self::SwapNibbles { operand: op3(field_3_at_0(opcode)) })
        } else {
            Err(CpuError::InvalidCBInstruction { opcode })
        }
    }
}

impl From<CBInstruction> for AnyInstruction {
    fn from(v: CBInstruction) -> (r: Self) {
        Self::CBInstruction(v)
    }
}

impl vstd::std_specs::convert::FromSpecImpl<CBInstruction> for AnyInstruction {
    open spec fn obeys_from_spec() -> bool {
        true
    }

    open spec fn from_spec(v: CBInstruction) -> Self {
        AnyInstruction::CBInstruction(v)
    }
}

impl From<Instruction> for AnyInstruction {
    fn from(v: Instruction) -> (r: Self) {
        Self::Instruction(v)
    }
}

impl vstd::std_specs::convert::FromSpecImpl<Instruction> for AnyInstruction {
    open spec fn obeys_from_spec() -> bool {
        true
    }

    open spec fn from_spec(v: Instruction) -> Self {
        AnyInstruction::Instruction(v)
    }
}

} // verus!
