use vstd::prelude::*;

use crate::emulator::cpu::instructions::{
    AnyInstruction, CBInstruction, ConditionalOperand, IndirectOperand, Instruction, Operand2,
    Operand3,
};
use crate::emulator::cpu::register::{ShortRegisterName, WordRegisterName};
use crate::emulator::cpu::laws::lemma_byte_bits;
use crate::emulator::cpu::semantics::condition_holds;
use crate::emulator::cpu::CpuError;

verus! {

/// The assembler name of an 8-bit register.
pub open spec fn short_name_text(r: ShortRegisterName) -> Seq<char> {
    match r {
        ShortRegisterName::A => "a"@,
        ShortRegisterName::F => "f"@,
        ShortRegisterName::B => "b"@,
        ShortRegisterName::C => "c"@,
        ShortRegisterName::D => "d"@,
        ShortRegisterName::E => "e"@,
        ShortRegisterName::H => "h"@,
        ShortRegisterName::L => "l"@,
    }
}

/// The assembler name of a 16-bit register (pair).
pub open spec fn word_name_text(r: WordRegisterName) -> Seq<char> {
    match r {
        WordRegisterName::BC => "bc"@,
        WordRegisterName::DE => "de"@,
        WordRegisterName::HL => "hl"@,
        WordRegisterName::AF => "af"@,
        WordRegisterName::PC => "pc"@,
        WordRegisterName::SP => "sp"@,
    }
}

/// How an 8-bit operand is written.
pub open spec fn operand3_text(op: Operand3) -> Seq<char> {
    match op {
        Operand3::Register(r) => short_name_text(r),
        Operand3::IndirectHL => "[hl]"@,
    }
}

/// How a condition is written.
pub open spec fn condition_text(c: ConditionalOperand) -> Seq<char> {
    match c {
        ConditionalOperand::NZ => "nz"@,
        ConditionalOperand::Z => "z"@,
        ConditionalOperand::NC => "nc"@,
        ConditionalOperand::C => "c"@,
    }
}

/// How an indirect operand is written.
pub open spec fn indirect_text(op: IndirectOperand) -> Seq<char> {
    match op {
        IndirectOperand::BC => "[bc]"@,
        IndirectOperand::DE => "[de]"@,
        IndirectOperand::HLInc => "[hl+]"@,
        IndirectOperand::HLDec => "[hl-]"@,
    }
}

/// The lowercase hexadecimal digit for `d` (below 16).
pub open spec fn hex_digit_text(d: nat) -> Seq<char> {
    if d == 0 {
        "0"@
    } else if d == 1 {
        "1"@
    } else if d == 2 {
        "2"@
    } else if d == 3 {
        "3"@
    } else if d == 4 {
        "4"@
    } else if d == 5 {
        "5"@
    } else if d == 6 {
        "6"@
    } else if d == 7 {
        "7"@
    } else if d == 8 {
        "8"@
    } else if d == 9 {
        "9"@
    } else if d == 10 {
        "a"@
    } else if d == 11 {
        "b"@
    } else if d == 12 {
        "c"@
    } else if d == 13 {
        "d"@
    } else if d == 14 {
        "e"@
    } else {
        "f"@
    }
}

/// The lowercase hexadecimal digits of `v`, without leading zeros.
pub open spec fn hex_digits_text(v: nat) -> Seq<char>
    decreases v,
{
    if v < 16 {
        hex_digit_text(v)
    } else {
        hex_digits_text(v / 16) + hex_digit_text(v % 16)
    }
}

/// `v` written as `0x` and its lowercase hexadecimal digits.
pub open spec fn hex_text(v: nat) -> Seq<char> {
    "0x"@ + hex_digits_text(v)
}

/// The decimal digits of `v`, without leading zeros.
pub open spec fn decimal_digits_text(v: nat) -> Seq<char>
    decreases v,
{
    if v < 10 {
        hex_digit_text(v)
    } else {
        decimal_digits_text(v / 10) + hex_digit_text(v % 10)
    }
}

/// `v` in decimal, always with its sign.
pub open spec fn signed_text(v: i8) -> Seq<char> {
    if v < 0 {
        "-"@ + decimal_digits_text((0 - v) as nat)
    } else {
        "+"@ + decimal_digits_text(v as nat)
    }
}

/// How an executed instruction is written; the CB prefix on its own has no text.
pub open spec fn instruction_text(i: Instruction) -> Seq<char> {
    match i {
        Instruction::Nop => "nop"@,
        Instruction::Halt => "halt"@,
        Instruction::EnableInterrupts => "ei"@,
        Instruction::DisableInterrupts => "di"@,
        Instruction::CallFunction { address } => "call "@ + hex_text(address as nat),
        Instruction::PopStackToRegister { operand } => "pop "@ + word_name_text(operand.register),
        Instruction::PushRegisterToStack { operand } => "push "@ + word_name_text(operand.register),
        Instruction::ReturnFunction => "ret"@,
        Instruction::JumpImmediate { address } => "jp "@ + hex_text(address as nat),
        Instruction::JumpHL => "jp hl"@,
        Instruction::JumpRelativeConditional { operand, relative } => "jr "@ + condition_text(
            operand,
        ) + ", "@ + signed_text(relative),
        Instruction::XorRegister { operand } => "xor "@ + operand3_text(operand),
        Instruction::IncRegister8 { operand } => "inc "@ + operand3_text(operand),
        Instruction::IncRegister16 { operand } => "inc "@ + word_name_text(operand.register),
        Instruction::DecRegister8 { operand } => "dec "@ + operand3_text(operand),
        Instruction::DecRegister16 { operand } => "dec "@ + word_name_text(operand.register),
        Instruction::LoadRegisterToRegister { left_operand, right_operand } => "ld "@
            + operand3_text(left_operand) + ", "@ + operand3_text(right_operand),
        Instruction::LoadAccumulatorToIndirect { operand } => "ld "@ + indirect_text(operand)
            + ", a"@,
        Instruction::LoadIndirectToAccumulator { operand } => "ld a, "@ + indirect_text(operand),
        Instruction::LoadImmediateToRegister8 { operand, immediate } => "ld "@ + operand3_text(
            operand,
        ) + ", "@ + hex_text(immediate as nat),
        Instruction::LoadImmediateToRegister16 { operand, immediate } => "ld "@ + word_name_text(
            operand.register,
        ) + ", "@ + hex_text(immediate as nat),
        Instruction::LoadAccumulatorToHighMemory { immediate } => "ldh "@ + hex_text(
            immediate as nat,
        ) + ", a"@,
        Instruction::LoadAccumulatorToIndirectC => "ldh [c], a"@,
        Instruction::LoadHighMemoryToAccumulator { immediate } => "ldh a, "@ + hex_text(
            immediate as nat,
        ),
        Instruction::LoadAccumulatorToMemory { immediate } => "ld "@ + hex_text(immediate as nat)
            + ", a"@,
        Instruction::CompareImmediate { immediate } => "cp "@ + hex_text(immediate as nat),
        Instruction::AddRegister { operand } => "add "@ + operand3_text(operand),
        Instruction::BitwiseAndImmediate { immediate } => "and "@ + hex_text(immediate as nat),
        Instruction::BitwiseOrRegister { operand } => "or "@ + operand3_text(operand),
        Instruction::BitwiseAndRegister { operand } => "and "@ + operand3_text(operand),
        Instruction::ComplementAccumulator => "cpl"@,
        Instruction::AddRegisterToHL { operand } => "add hl, "@ + word_name_text(operand.register),
        Instruction::Restart { address } => "rst "@ + hex_text(address as nat),
        Instruction::CBPrefix => Seq::empty(),
    }
}

/// How an executed CB-prefixed instruction is written.
pub open spec fn cb_instruction_text(i: CBInstruction) -> Seq<char> {
    match i {
        CBInstruction::SwapNibbles { operand } => "swap "@ + operand3_text(operand),
    }
}

/// How any executed instruction is written.
pub open spec fn any_instruction_text(i: AnyInstruction) -> Seq<char> {
    match i {
        AnyInstruction::Instruction(i) => instruction_text(i),
        AnyInstruction::CBInstruction(i) => cb_instruction_text(i),
    }
}

/// The message of a decoding error.
pub open spec fn error_text(e: CpuError) -> Seq<char> {
    match e {
        CpuError::InvalidInstruction { opcode } => "unknown opcode: "@ + hex_text(opcode as nat),
        CpuError::InvalidCBInstruction { opcode } => "unknown cb-prefixed opcode: "@ + hex_text(
            opcode as nat,
        ),
    }
}

/// The digit for `d` as a string.
fn hex_digit(d: u16) -> (r: &'static str)
    requires
        d < 16,
    ensures
        r@ == hex_digit_text(d as nat),
{
    match d {
        0 => "0",
        1 => "1",
        2 => "2",
        3 => "3",
        4 => "4",
        5 => "5",
        6 => "6",
        7 => "7",
        8 => "8",
        9 => "9",
        10 => "a",
        11 => "b",
        12 => "c",
        13 => "d",
        14 => "e",
        _ => "f",
    }
}

/// Appends the hexadecimal digits of `v`.
fn push_hex_digits(s: &mut String, v: u16)
    ensures
        final(s)@ == old(s)@ + hex_digits_text(v as nat),
    decreases v,
{
    let ghost start = s@;
    if v >= 16 {
        push_hex_digits(s, v / 16);
    }
    s.append(hex_digit(v % 16));
    proof {
        if v >= 16 {
            assert(s@ =~= start + (hex_digits_text((v / 16) as nat) + hex_digit_text((v % 16) as nat)));
        } else {
            assert(s@ =~= start + hex_digit_text(v as nat));
        }
    }
}

/// Appends the decimal digits of `v`.
fn push_decimal_digits(s: &mut String, v: u16)
    ensures
        final(s)@ == old(s)@ + decimal_digits_text(v as nat),
    decreases v,
{
    let ghost start = s@;
    if v >= 10 {
        push_decimal_digits(s, v / 10);
    }
    s.append(hex_digit(v % 10));
    proof {
        if v >= 10 {
            assert(s@ =~= start + (decimal_digits_text((v / 10) as nat) + hex_digit_text(
                (v % 10) as nat,
            )));
        } else {
            assert(s@ =~= start + decimal_digits_text(v as nat));
        }
    }
}

/// `v` as `0x` followed by its lowercase hexadecimal digits.
pub fn hex_string(v: u16) -> (r: String)
    ensures
        r@ == hex_text(v as nat),
{
    let mut s = String::from_str("0x");
    push_hex_digits(&mut s, v);
    s
}

/// `v` in decimal with its sign.
pub fn signed_string(v: i8) -> (r: String)
    ensures
        r@ == signed_text(v),
{
    if v < 0 {
        let mut s = String::from_str("-");
        let magnitude = (0i16 - v as i16) as u16;
        push_decimal_digits(&mut s, magnitude);
        s
    } else {
        let mut s = String::from_str("+");
        push_decimal_digits(&mut s, v as u16);
        s
    }
}

/// `prefix` followed by `rest`.
fn joined(prefix: &str, rest: &str) -> (r: String)
    ensures
        r@ == prefix@ + rest@,
{
    let mut s = String::from_str(prefix);
    s.append(rest);
    s
}

/// `prefix`, `middle` and `last` one after the other.
fn joined3(prefix: &str, middle: &str, last: &str) -> (r: String)
    ensures
        r@ == prefix@ + middle@ + last@,
{
    let mut s = String::from_str(prefix);
    s.append(middle);
    s.append(last);
    s
}

/// `a`, `b`, `c` and `d` one after the other.
fn joined4(a: &str, b: &str, c: &str, d: &str) -> (r: String)
    ensures
        r@ == a@ + b@ + c@ + d@,
{
    let mut s = String::from_str(a);
    s.append(b);
    s.append(c);
    s.append(d);
    s
}

impl ShortRegisterName {
    /// The assembler name of the register.
    pub fn to_string(&self) -> (r: String)
        ensures
            r@ == short_name_text(*self),
    {
        String::from_str(
            match self {
                ShortRegisterName::A => "a",
                ShortRegisterName::F => "f",
                ShortRegisterName::B => "b",
                ShortRegisterName::C => "c",
                ShortRegisterName::D => "d",
                ShortRegisterName::E => "e",
                ShortRegisterName::H => "h",
                ShortRegisterName::L => "l",
            },
        )
    }
}

impl WordRegisterName {
    /// The assembler name of the register (pair).
    pub fn to_string(&self) -> (r: String)
        ensures
            r@ == word_name_text(*self),
    {
        String::from_str(
            match self {
                WordRegisterName::BC => "bc",
                WordRegisterName::DE => "de",
                WordRegisterName::HL => "hl",
                WordRegisterName::AF => "af",
                WordRegisterName::PC => "pc",
                WordRegisterName::SP => "sp",
            },
        )
    }
}

impl Operand3 {
    /// The operand as it is written.
    pub fn to_string(&self) -> (r: String)
        ensures
            r@ == operand3_text(*self),
    {
        match self {
            Operand3::Register(r) => r.to_string(),
            Operand3::IndirectHL => String::from_str("[hl]"),
        }
    }
}

impl Operand2 {
    /// The operand as it is written: the name of its register.
    pub fn to_string(&self) -> (r: String)
        ensures
            r@ == word_name_text(self.register),
    {
        self.register.to_string()
    }
}

impl ConditionalOperand {
    /// The condition as it is written.
    pub fn to_string(&self) -> (r: String)
        ensures
            r@ == condition_text(*self),
    {
        String::from_str(
            match self {
                ConditionalOperand::NZ => "nz",
                ConditionalOperand::Z => "z",
                ConditionalOperand::NC => "nc",
                ConditionalOperand::C => "c",
            },
        )
    }
}

impl IndirectOperand {
    /// The operand as it is written.
    pub fn to_string(&self) -> (r: String)
        ensures
            r@ == indirect_text(*self),
    {
        String::from_str(
            match self {
                IndirectOperand::BC => "[bc]",
                IndirectOperand::DE => "[de]",
                IndirectOperand::HLInc => "[hl+]",
                IndirectOperand::HLDec => "[hl-]",
            },
        )
    }
}

impl Instruction {
    /// The instruction in assembler notation. The CB prefix on its own is never reported as
    /// executed and has no text.
    pub fn to_string(&self) -> (r: String)
        requires
            *self != Instruction::CBPrefix,
        ensures
            r@ == instruction_text(*self),
    {
        match *self {
            Instruction::Nop => String::from_str("nop"),
            Instruction::Halt => String::from_str("halt"),
            Instruction::EnableInterrupts => String::from_str("ei"),
            Instruction::DisableInterrupts => String::from_str("di"),
            Instruction::CallFunction { address } => joined("call ", hex_string(address).as_str()),
            Instruction::PopStackToRegister { operand } => joined(
                "pop ",
                operand.to_string().as_str(),
            ),
            Instruction::PushRegisterToStack { operand } => joined(
                "push ",
                operand.to_string().as_str(),
            ),
            Instruction::ReturnFunction => String::from_str("ret"),
            Instruction::JumpImmediate { address } => joined("jp ", hex_string(address).as_str()),
            Instruction::JumpHL => String::from_str("jp hl"),
            Instruction::JumpRelativeConditional { operand, relative } => joined4(
                "jr ",
                operand.to_string().as_str(),
                ", ",
                signed_string(relative).as_str(),
            ),
            Instruction::XorRegister { operand } => joined("xor ", operand.to_string().as_str()),
            Instruction::IncRegister8 { operand } => joined("inc ", operand.to_string().as_str()),
            Instruction::IncRegister16 { operand } => joined("inc ", operand.to_string().as_str()),
            Instruction::DecRegister8 { operand } => joined("dec ", operand.to_string().as_str()),
            Instruction::DecRegister16 { operand } => joined("dec ", operand.to_string().as_str()),
            Instruction::LoadRegisterToRegister { left_operand, right_operand } => joined4(
                "ld ",
                left_operand.to_string().as_str(),
                ", ",
                right_operand.to_string().as_str(),
            ),
            Instruction::LoadAccumulatorToIndirect { operand } => joined3(
                "ld ",
                operand.to_string().as_str(),
                ", a",
            ),
            Instruction::LoadIndirectToAccumulator { operand } => joined(
                "ld a, ",
                operand.to_string().as_str(),
            ),
            Instruction::LoadImmediateToRegister8 { operand, immediate } => joined4(
                "ld ",
                operand.to_string().as_str(),
                ", ",
                hex_string(immediate as u16).as_str(),
            ),
            Instruction::LoadImmediateToRegister16 { operand, immediate } => joined4(
                "ld ",
                operand.to_string().as_str(),
                ", ",
                hex_string(immediate).as_str(),
            ),
            Instruction::LoadAccumulatorToHighMemory { immediate } => joined3(
                "ldh ",
                hex_string(immediate as u16).as_str(),
                ", a",
            ),
            Instruction::LoadAccumulatorToIndirectC => String::from_str("ldh [c], a"),
            Instruction::LoadHighMemoryToAccumulator { immediate } => joined(
                "ldh a, ",
                hex_string(immediate as u16).as_str(),
            ),
            Instruction::LoadAccumulatorToMemory { immediate } => joined3(
                "ld ",
                hex_string(immediate).as_str(),
                ", a",
            ),
            Instruction::CompareImmediate { immediate } => joined(
                "cp ",
                hex_string(immediate as u16).as_str(),
            ),
            Instruction::AddRegister { operand } => joined("add ", operand.to_string().as_str()),
            Instruction::BitwiseAndImmediate { immediate } => joined(
                "and ",
                hex_string(immediate as u16).as_str(),
            ),
            Instruction::BitwiseOrRegister { operand } => joined(
                "or ",
                operand.to_string().as_str(),
            ),
            Instruction::BitwiseAndRegister { operand } => joined(
                "and ",
                operand.to_string().as_str(),
            ),
            Instruction::ComplementAccumulator => String::from_str("cpl"),
            Instruction::AddRegisterToHL { operand } => joined(
                "add hl, ",
                operand.to_string().as_str(),
            ),
            Instruction::Restart { address } => joined(
                "rst ",
                hex_string(address as u16).as_str(),
            ),
            Instruction::CBPrefix => String::new(),
        }
    }
}

impl CBInstruction {
    /// The instruction in assembler notation.
    pub fn to_string(&self) -> (r: String)
        ensures
            r@ == cb_instruction_text(*self),
    {
        match self {
            CBInstruction::SwapNibbles { operand } => joined("swap ", operand.to_string().as_str()),
        }
    }
}

impl AnyInstruction {
    /// The instruction in assembler notation.
    pub fn to_string(&self) -> (r: String)
        requires
            *self != AnyInstruction::Instruction(Instruction::CBPrefix),
        ensures
            r@ == any_instruction_text(*self),
    {
        match self {
            AnyInstruction::Instruction(i) => i.to_string(),
            AnyInstruction::CBInstruction(i) => i.to_string(),
        }
    }
}

impl CpuError {
    /// The message that the error reports.
    pub fn to_string(&self) -> (r: String)
        ensures
            r@ == error_text(*self),
    {
        match self {
            CpuError::InvalidInstruction { opcode } => joined(
                "unknown opcode: ",
                hex_string(*opcode as u16).as_str(),
            ),
            CpuError::InvalidCBInstruction { opcode } => joined(
                "unknown cb-prefixed opcode: ",
                hex_string(*opcode as u16).as_str(),
            ),
        }
    }
}

/// A condition is written as the letter of the flag that it tests (`z` for the zero flag,
/// `c` for the carry flag), with `n` before it where it holds when that flag is clear.
pub proof fn lemma_condition_text_names_its_test(c: ConditionalOperand, f: u8)
    ensures
        ({
            let t = condition_text(c);
            let letter = t.last();
            let mask: u8 = if letter == 'z' { 0x80 } else { 0x10 };
            &&& letter == 'z' || letter == 'c'
            &&& t.len() == 1 || (t.len() == 2 && t[0] == 'n')
            &&& condition_holds(f, c) == (if t.len() == 2 { f & mask == 0 } else { f & mask != 0 })
        }),
{
    reveal_strlit("nz");
    reveal_strlit("z");
    reveal_strlit("nc");
    reveal_strlit("c");
    lemma_byte_bits(f);
}

/// The eight 8-bit registers have eight different one-letter names, and each register pair
/// is written as the names of its two registers, the high one first.
pub proof fn lemma_register_names()
    ensures
        forall|r: ShortRegisterName| #[trigger] short_name_text(r).len() == 1,
        forall|r: ShortRegisterName, o: ShortRegisterName|
            r != o ==> #[trigger] short_name_text(r) != #[trigger] short_name_text(o),
        word_name_text(WordRegisterName::BC) == short_name_text(ShortRegisterName::B) + short_name_text(ShortRegisterName::C),
        word_name_text(WordRegisterName::DE) == short_name_text(ShortRegisterName::D) + short_name_text(ShortRegisterName::E),
        word_name_text(WordRegisterName::HL) == short_name_text(ShortRegisterName::H) + short_name_text(ShortRegisterName::L),
        word_name_text(WordRegisterName::AF) == short_name_text(ShortRegisterName::A) + short_name_text(ShortRegisterName::F),
{
    reveal_strlit("a");
    reveal_strlit("f");
    reveal_strlit("b");
    reveal_strlit("c");
    reveal_strlit("d");
    reveal_strlit("e");
    reveal_strlit("h");
    reveal_strlit("l");
    reveal_strlit("bc");
    reveal_strlit("de");
    reveal_strlit("hl");
    reveal_strlit("af");
    assert forall|r: ShortRegisterName, o: ShortRegisterName| r != o implies #[trigger] short_name_text(r)
        != #[trigger] short_name_text(o) by {
        assert(short_name_text(r)[0] != short_name_text(o)[0]);
    }
    assert(word_name_text(WordRegisterName::BC) =~= short_name_text(ShortRegisterName::B) + short_name_text(ShortRegisterName::C));
    assert(word_name_text(WordRegisterName::DE) =~= short_name_text(ShortRegisterName::D) + short_name_text(ShortRegisterName::E));
    assert(word_name_text(WordRegisterName::HL) =~= short_name_text(ShortRegisterName::H) + short_name_text(ShortRegisterName::L));
    assert(word_name_text(WordRegisterName::AF) =~= short_name_text(ShortRegisterName::A) + short_name_text(ShortRegisterName::F));
}

/// The value of a lowercase hexadecimal or decimal digit, and -1 for any other character.
pub open spec fn digit_value(c: char) -> int {
    if '0' <= c <= '9' {
        c as int - '0' as int
    } else if 'a' <= c <= 'f' {
        c as int - 'a' as int + 10
    } else {
        -1
    }
}

/// The number that the digits `s` write in base `base`, the most significant first.
pub open spec fn digits_value(s: Seq<char>, base: int) -> int
    decreases s.len(),
{
    if s.len() == 0 {
        0
    } else {
        digits_value(s.drop_last(), base) * base + digit_value(s.last())
    }
}

/// Whether every character of `s` is a digit below `base`, and the first is not a zero
/// unless `s` is the single digit zero.
pub open spec fn plain_digits(s: Seq<char>, base: int) -> bool {
    &&& s.len() > 0
    &&& forall|i: int| 0 <= i < s.len() ==> 0 <= #[trigger] digit_value(s[i]) < base
    &&& s.len() > 1 ==> s[0] != '0'
}

/// The digit written for `d` is one character whose value is `d`.
pub proof fn lemma_digit_text(d: nat)
    requires
        d < 16,
    ensures
        hex_digit_text(d).len() == 1,
        digit_value(hex_digit_text(d)[0]) == d,
{
    reveal_strlit("0");
    reveal_strlit("1");
    reveal_strlit("2");
    reveal_strlit("3");
    reveal_strlit("4");
    reveal_strlit("5");
    reveal_strlit("6");
    reveal_strlit("7");
    reveal_strlit("8");
    reveal_strlit("9");
    reveal_strlit("a");
    reveal_strlit("b");
    reveal_strlit("c");
    reveal_strlit("d");
    reveal_strlit("e");
    reveal_strlit("f");
}

/// A single digit reads as its value.
proof fn lemma_one_digit(s: Seq<char>, base: int)
    requires
        s.len() == 1,
    ensures
        digits_value(s, base) == digit_value(s[0]),
{
    assert(s.drop_last() =~= Seq::<char>::empty());
    assert(digits_value(s.drop_last(), base) == 0);
}

/// Digits followed by one more digit read as `base` times the first digits plus the last.
proof fn lemma_append_digit(head: Seq<char>, last: Seq<char>, base: int)
    requires
        last.len() == 1,
    ensures
        digits_value(head + last, base) == digits_value(head, base) * base + digit_value(last[0]),
{
    let t = head + last;
    assert(t.drop_last() =~= head);
    assert(t.last() == last[0]);
}

/// Read back in base 16, the hexadecimal digits of `v` give `v`; they have no leading zero.
pub proof fn lemma_hex_digits_read_back(v: nat)
    ensures
        plain_digits(hex_digits_text(v), 16),
        digits_value(hex_digits_text(v), 16) == v,
    decreases v,
{
    if v < 16 {
        lemma_digit_text(v);
        lemma_one_digit(hex_digit_text(v), 16);
    } else {
        lemma_hex_digits_read_back(v / 16);
        lemma_digit_text(v % 16);
        let head = hex_digits_text(v / 16);
        let last = hex_digit_text(v % 16);
        let t = head + last;
        lemma_append_digit(head, last, 16);
        assert forall|i: int| 0 <= i < t.len() implies 0 <= #[trigger] digit_value(t[i]) < 16 by {
            if i < head.len() {
                assert(t[i] == head[i]);
            } else {
                assert(t[i] == last[0]);
            }
        }
        assert(t[0] == head[0]);
        if head.len() == 1 {
            lemma_one_digit(head, 16);
        }
    }
}

/// Read back in base 10, the decimal digits of `v` give `v`; they have no leading zero.
pub proof fn lemma_decimal_digits_read_back(v: nat)
    ensures
        plain_digits(decimal_digits_text(v), 10),
        digits_value(decimal_digits_text(v), 10) == v,
    decreases v,
{
    if v < 10 {
        lemma_digit_text(v);
        lemma_one_digit(hex_digit_text(v), 10);
    } else {
        lemma_decimal_digits_read_back(v / 10);
        lemma_digit_text(v % 10);
        let head = decimal_digits_text(v / 10);
        let last = hex_digit_text(v % 10);
        let t = head + last;
        lemma_append_digit(head, last, 10);
        assert forall|i: int| 0 <= i < t.len() implies 0 <= #[trigger] digit_value(t[i]) < 10 by {
            if i < head.len() {
                assert(t[i] == head[i]);
            } else {
                assert(t[i] == last[0]);
            }
        }
        assert(t[0] == head[0]);
        if head.len() == 1 {
            lemma_one_digit(head, 10);
        }
    }
}

} // verus!
