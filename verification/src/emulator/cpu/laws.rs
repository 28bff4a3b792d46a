use vstd::prelude::*;

use crate::emulator::cpu::alu::{
    add16, add8, bit11_carry, nibble_borrow, nibble_carry, sub16, sub8,
};
use crate::emulator::cpu::instructions::{
    decode, decode_cb, AnyInstruction, CBInstruction, ConditionalOperand, IndirectOperand,
    Instruction, Operand2, Operand3, RawCBInstruction, RawInstruction,
};
use crate::emulator::cpu::register::{
    lemma_split_bits, RegisterFile, ShortRegisterName, WordRegisterName,
};
use crate::emulator::cpu::semantics::{
    advance, cycle_spec, cycles3, execute_cb_spec, execute_spec, imm8, load3, store3_mem,
    store3_regs, with_a, with_f, with_regs, CpuState,
};
use crate::emulator::cpu::CpuError;
use crate::emulator::memory::store;
use crate::flags::with_flag;

verus! {

/// Whether bit `b` of `x` is set.
pub open spec fn bit_set(x: u8, b: u8) -> bool {
    x & b == b
}

/// Setting or clearing one flag bit of `F` gives that bit the new value and leaves the other
/// flag bits and the lower nibble alone.
pub proof fn lemma_flag_step(x: u8, mask: u8, on: bool)
    by (bit_vector)
    requires
        mask == 0x80 || mask == 0x40 || mask == 0x20 || mask == 0x10,
    ensures
        with_flag(x, mask, on) & 0x0F == x & 0x0F,
        bit_set(with_flag(x, mask, on), 0x80) == (if mask == 0x80 { on } else { bit_set(x, 0x80) }),
        bit_set(with_flag(x, mask, on), 0x40) == (if mask == 0x40 { on } else { bit_set(x, 0x40) }),
        bit_set(with_flag(x, mask, on), 0x20) == (if mask == 0x20 { on } else { bit_set(x, 0x20) }),
        bit_set(with_flag(x, mask, on), 0x10) == (if mask == 0x10 { on } else { bit_set(x, 0x10) }),
{
}

/// The flag bytes that start from nothing: the empty byte has no flag bit and an empty lower
/// nibble, the zero flag alone is `0x80`, and the half-carry flag with or without the zero
/// flag is `0xA0` or `0x20`.
pub proof fn lemma_flags_empty()
    by (bit_vector)
    ensures
        0u8 & 0x0F == 0,
        !bit_set(0, 0x80),
        !bit_set(0, 0x40),
        !bit_set(0, 0x20),
        !bit_set(0, 0x10),
        with_flag(0, 0x80, true) == 0x80,
        with_flag(0, 0x80, false) == 0,
        with_flag(0, 0x80, true) | 0x20 == 0xA0,
        with_flag(0, 0x80, false) | 0x20 == 0x20,
{
}

/// Each bit of a byte is either set or clear, and the complement of a byte is 255 minus it.
pub proof fn lemma_byte_bits(x: u8)
    by (bit_vector)
    ensures
        x & 0x80 == 0x80 || x & 0x80 == 0,
        x & 0x10 == 0x10 || x & 0x10 == 0,
        !x == 255 - x,
{
}

/// `ADD A, r` puts the sum of `A` and the operand, modulo 256, into `A`. It sets the zero
/// flag exactly when that sum is 0, clears the subtract flag, sets the half-carry flag
/// exactly when the lower nibbles add up to more than 15 and the carry flag exactly when
/// the operands add up to more than 255; the lower four bits of `F` are cleared. Nothing
/// else changes, and it takes 1 machine cycle on a register, 2 on `[HL]`.
pub proof fn lemma_add_register(s: CpuState, m: Map<u16, u8>, operand: Operand3)
    ensures
        ({
            let (t, m2, cycles, i) = execute_spec(s, m, RawInstruction::AddRegister { operand });
            let a = s.regs.a as int;
            let v = load3(s, m, operand) as int;
            &&& t.regs.a == (a + v) % 256
            &&& bit_set(t.regs.f, 0x80) == ((a + v) % 256 == 0)
            &&& !bit_set(t.regs.f, 0x40)
            &&& bit_set(t.regs.f, 0x20) == (a % 16 + v % 16 > 15)
            &&& bit_set(t.regs.f, 0x10) == (a + v > 255)
            &&& t.regs.f & 0x0F == 0
            &&& t == (CpuState { regs: RegisterFile { a: t.regs.a, f: t.regs.f, ..s.regs }, ..s })
            &&& m2 == m
            &&& cycles == (if operand == Operand3::IndirectHL { 2usize } else { 1usize })
            &&& i == Instruction::AddRegister { operand }
        }),
{
    let a = s.regs.a;
    let v = load3(s, m, operand);
    let result = add8(v, a);
    let z = result == 0;
    let h = nibble_carry(v, a);
    let c = v + a > 255;
    let f0 = with_flag(0, 0x80, z);
    let f1 = with_flag(f0, 0x20, h);
    let f2 = with_flag(f1, 0x10, c);
    assert(execute_spec(s, m, RawInstruction::AddRegister { operand }) == (
        with_f(with_a(s, result), f2),
        m,
        cycles3(operand, 1, 2),
        Instruction::AddRegister { operand },
    )) by {
        reveal(execute_spec);
    }
    lemma_flags_empty();
    lemma_flag_step(0, 0x80, z);
    lemma_flag_step(f0, 0x20, h);
    lemma_flag_step(f1, 0x10, c);
    assert(result == (a + v) % 256);
}

/// `JR cc, e` tests the condition on `F` (`NZ`: bit 7 clear, `Z`: bit 7 set, `NC`: bit 4
/// clear, `C`: bit 4 set). Where it holds, the program counter goes to the address after the
/// instruction plus the signed offset `e` (the byte at the program counter), modulo 65536,
/// in 3 machine cycles; otherwise to the address after the instruction, in 2. Nothing else
/// changes. `s` is the state after the opcode was read.
pub proof fn lemma_jump_relative(s: CpuState, m: Map<u16, u8>, operand: ConditionalOperand)
    ensures
        ({
            let (t, m2, cycles, i) = execute_spec(
                s,
                m,
                RawInstruction::JumpRelativeConditional { operand },
            );
            let f = s.regs.f;
            let taken = match operand {
                ConditionalOperand::NZ => f & 0x80 == 0,
                ConditionalOperand::Z => f & 0x80 != 0,
                ConditionalOperand::NC => f & 0x10 == 0,
                ConditionalOperand::C => f & 0x10 != 0,
            };
            let e = m[s.regs.pc] as i8;
            let next = (s.regs.pc + 1) % 65536;
            &&& t.regs.pc == (if taken { (next + e + 65536) % 65536 } else { next })
            &&& cycles == (if taken { 3usize } else { 2usize })
            &&& t == (CpuState { regs: RegisterFile { pc: t.regs.pc, ..s.regs }, ..s })
            &&& m2 == m
            &&& i == Instruction::JumpRelativeConditional { operand, relative: e }
        }),
{
    reveal(execute_spec);
    let f = s.regs.f;
    lemma_byte_bits(f);
}

/// Whether `t` holds the registers and interrupt switches of `s`, but for `F` and the 8-bit
/// operand `operand` where that is a register.
pub open spec fn keeps_all_but(s: CpuState, t: CpuState, operand: Operand3) -> bool {
    &&& forall|o: ShortRegisterName|
        o != ShortRegisterName::F && operand != Operand3::Register(o) ==> #[trigger] t.regs.short(o)
            == s.regs.short(o)
    &&& t.regs.pc == s.regs.pc
    &&& t.regs.sp == s.regs.sp
    &&& t.ime == s.ime
    &&& t.pending_ime == s.pending_ime
}

/// Whether `result` was written to the 8-bit operand `operand`: into its register, or into
/// memory at `HL`, with the memory otherwise as in `m`.
pub open spec fn wrote_operand(s: CpuState, m: Map<u16, u8>, t: CpuState, m2: Map<u16, u8>, operand: Operand3, result: int) -> bool {
    match operand {
        Operand3::Register(r) => t.regs.short(r) == result && m2 == m,
        Operand3::IndirectHL => m2 == store(m, s.regs.word(WordRegisterName::HL), result as u8),
    }
}

/// `INC r` adds 1 to the operand, modulo 256. It sets the zero flag exactly when the result
/// is 0, clears the subtract flag, sets the half-carry flag exactly when the lower nibble was
/// 15, and keeps the carry flag and the lower four bits of `F`. It takes 1 machine cycle on a
/// register, 3 on `[HL]`.
pub proof fn lemma_inc_register(s: CpuState, m: Map<u16, u8>, operand: Operand3)
    requires
        operand != Operand3::Register(ShortRegisterName::F),
    ensures
        ({
            let (t, m2, cycles, i) = execute_spec(s, m, RawInstruction::IncRegister8 { operand });
            let v = load3(s, m, operand) as int;
            &&& wrote_operand(s, m, t, m2, operand, (v + 1) % 256)
            &&& bit_set(t.regs.f, 0x80) == ((v + 1) % 256 == 0)
            &&& !bit_set(t.regs.f, 0x40)
            &&& bit_set(t.regs.f, 0x20) == (v % 16 == 15)
            &&& bit_set(t.regs.f, 0x10) == bit_set(s.regs.f, 0x10)
            &&& t.regs.f & 0x0F == s.regs.f & 0x0F
            &&& keeps_all_but(s, t, operand)
            &&& cycles == (if operand == Operand3::IndirectHL { 3usize } else { 1usize })
            &&& i == Instruction::IncRegister8 { operand }
        }),
{
    let v = load3(s, m, operand);
    let result = add8(v, 1);
    let s1 = store3_regs(s, operand, result);
    let f0 = with_flag(s.regs.f, 0x40, false);
    let f1 = with_flag(f0, 0x80, result == 0);
    let f2 = with_flag(f1, 0x20, nibble_carry(v, 1));
    assert(s1.regs.f == s.regs.f);
    assert(execute_spec(s, m, RawInstruction::IncRegister8 { operand }) == (
        with_f(s1, f2),
        store3_mem(s, m, operand, result),
        cycles3(operand, 1, 3),
        Instruction::IncRegister8 { operand },
    )) by {
        reveal(execute_spec);
    }
    lemma_flag_step(s.regs.f, 0x40, false);
    lemma_flag_step(f0, 0x80, result == 0);
    lemma_flag_step(f1, 0x20, nibble_carry(v, 1));
}

/// `DEC r` subtracts 1 from the operand, modulo 256. It sets the zero flag exactly when the
/// result is 0, sets the subtract flag, sets the half-carry flag exactly when the lower nibble
/// was 0, and keeps the carry flag and the lower four bits of `F`. It takes 1 machine cycle.
pub proof fn lemma_dec_register(s: CpuState, m: Map<u16, u8>, operand: Operand3)
    requires
        operand != Operand3::Register(ShortRegisterName::F),
    ensures
        ({
            let (t, m2, cycles, i) = execute_spec(s, m, RawInstruction::DecRegister8 { operand });
            let v = load3(s, m, operand) as int;
            &&& wrote_operand(s, m, t, m2, operand, (v + 255) % 256)
            &&& bit_set(t.regs.f, 0x80) == (v == 1)
            &&& bit_set(t.regs.f, 0x40)
            &&& bit_set(t.regs.f, 0x20) == (v % 16 == 0)
            &&& bit_set(t.regs.f, 0x10) == bit_set(s.regs.f, 0x10)
            &&& t.regs.f & 0x0F == s.regs.f & 0x0F
            &&& keeps_all_but(s, t, operand)
            &&& cycles == 1
            &&& i == Instruction::DecRegister8 { operand }
        }),
{
    let v = load3(s, m, operand);
    let result = sub8(v, 1);
    let s1 = store3_regs(s, operand, result);
    let f0 = with_flag(s.regs.f, 0x40, true);
    let f1 = with_flag(f0, 0x80, result == 0);
    let f2 = with_flag(f1, 0x20, nibble_borrow(v, 1));
    assert(s1.regs.f == s.regs.f);
    assert(execute_spec(s, m, RawInstruction::DecRegister8 { operand }) == (
        with_f(s1, f2),
        store3_mem(s, m, operand, result),
        1usize,
        Instruction::DecRegister8 { operand },
    )) by {
        reveal(execute_spec);
    }
    lemma_flag_step(s.regs.f, 0x40, true);
    lemma_flag_step(f0, 0x80, result == 0);
    lemma_flag_step(f1, 0x20, nibble_borrow(v, 1));
}

/// `CP n` compares `A` with the byte `n` at the program counter: `A` stays, the zero flag is
/// set exactly when they are equal, the subtract flag is set, the half-carry flag exactly when
/// the lower nibble of `A` is below that of `n`, and the carry flag exactly when `A` is below
/// `n`; the lower four bits of `F` stay. The program counter moves past `n`, in 2 machine
/// cycles.
pub proof fn lemma_compare_immediate(s: CpuState, m: Map<u16, u8>)
    ensures
        ({
            let (t, m2, cycles, i) = execute_spec(s, m, RawInstruction::CompareImmediate);
            let a = s.regs.a as int;
            let n = m[s.regs.pc] as int;
            &&& bit_set(t.regs.f, 0x80) == (a == n)
            &&& bit_set(t.regs.f, 0x40)
            &&& bit_set(t.regs.f, 0x20) == (a % 16 < n % 16)
            &&& bit_set(t.regs.f, 0x10) == (a < n)
            &&& t.regs.f & 0x0F == s.regs.f & 0x0F
            &&& t == (CpuState {
                regs: RegisterFile { pc: ((s.regs.pc + 1) % 65536) as u16, f: t.regs.f, ..s.regs },
                ..s
            })
            &&& m2 == m
            &&& cycles == 2
            &&& i == Instruction::CompareImmediate { immediate: n as u8 }
        }),
{
    let a = s.regs.a;
    let n = imm8(s, m);
    let result = sub8(a, n);
    let f0 = with_flag(s.regs.f, 0x40, true);
    let f1 = with_flag(f0, 0x80, result == 0);
    let f2 = with_flag(f1, 0x20, nibble_borrow(a, n));
    let f3 = with_flag(f2, 0x10, a < n);
    assert(execute_spec(s, m, RawInstruction::CompareImmediate) == (
        with_f(advance(s, 1), f3),
        m,
        2usize,
        Instruction::CompareImmediate { immediate: n },
    )) by {
        reveal(execute_spec);
    }
    lemma_flag_step(s.regs.f, 0x40, true);
    lemma_flag_step(f0, 0x80, result == 0);
    lemma_flag_step(f1, 0x20, nibble_borrow(a, n));
    lemma_flag_step(f2, 0x10, a < n);
}

/// `AND n` puts `A` and the byte `n` at the program counter into `A`; `F` then holds the
/// zero flag exactly when the result is 0, and the half-carry flag, and nothing else. The
/// program counter moves past `n`, in 2 machine cycles.
pub proof fn lemma_and_immediate(s: CpuState, m: Map<u16, u8>)
    ensures
        ({
            let (t, m2, cycles, i) = execute_spec(s, m, RawInstruction::BitwiseAndImmediate);
            let n = m[s.regs.pc];
            &&& t.regs.a == s.regs.a & n
            &&& t.regs.f == (if s.regs.a & n == 0 { 0xA0u8 } else { 0x20u8 })
            &&& t == (CpuState {
                regs: RegisterFile {
                    pc: ((s.regs.pc + 1) % 65536) as u16,
                    a: t.regs.a,
                    f: t.regs.f,
                    ..s.regs
                },
                ..s
            })
            &&& m2 == m
            &&& cycles == 2
            &&& i == Instruction::BitwiseAndImmediate { immediate: n }
        }),
{
    reveal(execute_spec);
    lemma_flags_empty();
}

/// `AND r` puts `A` and the operand into `A`; `F` then holds the zero flag exactly when the
/// result is 0, and the half-carry flag, and nothing else. It takes 1 machine cycle.
pub proof fn lemma_and_register(s: CpuState, m: Map<u16, u8>, operand: Operand3)
    ensures
        ({
            let (t, m2, cycles, i) = execute_spec(s, m, RawInstruction::BitwiseAndRegister { operand });
            let v = load3(s, m, operand);
            &&& t.regs.a == s.regs.a & v
            &&& t.regs.f == (if s.regs.a & v == 0 { 0xA0u8 } else { 0x20u8 })
            &&& t == (CpuState { regs: RegisterFile { a: t.regs.a, f: t.regs.f, ..s.regs }, ..s })
            &&& m2 == m
            &&& cycles == 1
            &&& i == Instruction::BitwiseAndRegister { operand }
        }),
{
    reveal(execute_spec);
    lemma_flags_empty();
}

/// `OR r` puts `A` or the operand into `A`; `F` then holds the zero flag exactly when the
/// result is 0, and nothing else. It takes 1 machine cycle.
pub proof fn lemma_or_register(s: CpuState, m: Map<u16, u8>, operand: Operand3)
    ensures
        ({
            let (t, m2, cycles, i) = execute_spec(s, m, RawInstruction::BitwiseOrRegister { operand });
            let v = load3(s, m, operand);
            &&& t.regs.a == s.regs.a | v
            &&& t.regs.f == (if s.regs.a | v == 0 { 0x80u8 } else { 0u8 })
            &&& t == (CpuState { regs: RegisterFile { a: t.regs.a, f: t.regs.f, ..s.regs }, ..s })
            &&& m2 == m
            &&& cycles == 1
            &&& i == Instruction::BitwiseOrRegister { operand }
        }),
{
    reveal(execute_spec);
    lemma_flags_empty();
}

/// `XOR r` puts `A` xor the operand into `A`. Where the result is 0, `F` holds the zero flag
/// alone; otherwise `F` stays. It takes 2 machine cycles on a register, 3 on `[HL]`.
pub proof fn lemma_xor_register(s: CpuState, m: Map<u16, u8>, operand: Operand3)
    ensures
        ({
            let (t, m2, cycles, i) = execute_spec(s, m, RawInstruction::XorRegister { operand });
            let v = load3(s, m, operand);
            &&& t.regs.a == s.regs.a ^ v
            &&& t.regs.f == (if s.regs.a ^ v == 0 { 0x80u8 } else { s.regs.f })
            &&& t == (CpuState { regs: RegisterFile { a: t.regs.a, f: t.regs.f, ..s.regs }, ..s })
            &&& m2 == m
            &&& cycles == (if operand == Operand3::IndirectHL { 3usize } else { 2usize })
            &&& i == Instruction::XorRegister { operand }
        }),
{
    reveal(execute_spec);
}

/// `CPL` puts the complement of `A` (255 minus `A`) into `A` and sets the subtract and
/// half-carry flags; the other bits of `F` stay. It takes 1 machine cycle.
pub proof fn lemma_complement(s: CpuState, m: Map<u16, u8>)
    ensures
        ({
            let (t, m2, cycles, i) = execute_spec(s, m, RawInstruction::ComplementAccumulator);
            &&& t.regs.a == 255 - s.regs.a
            &&& bit_set(t.regs.f, 0x80) == bit_set(s.regs.f, 0x80)
            &&& bit_set(t.regs.f, 0x40)
            &&& bit_set(t.regs.f, 0x20)
            &&& bit_set(t.regs.f, 0x10) == bit_set(s.regs.f, 0x10)
            &&& t.regs.f & 0x0F == s.regs.f & 0x0F
            &&& t == (CpuState { regs: RegisterFile { a: t.regs.a, f: t.regs.f, ..s.regs }, ..s })
            &&& m2 == m
            &&& cycles == 1
            &&& i == Instruction::ComplementAccumulator
        }),
{
    let a = s.regs.a;
    let f0 = with_flag(s.regs.f, 0x40, true);
    let f1 = with_flag(f0, 0x20, true);
    assert(execute_spec(s, m, RawInstruction::ComplementAccumulator) == (
        with_f(with_a(s, !a), f1),
        m,
        1usize,
        Instruction::ComplementAccumulator,
    )) by {
        reveal(execute_spec);
    }
    lemma_byte_bits(a);
    lemma_flag_step(s.regs.f, 0x40, true);
    lemma_flag_step(f0, 0x20, true);
}

/// `ADD HL, rr` puts the sum of `HL` and the pair, modulo 65536, into `HL`. It keeps the zero
/// flag, clears the subtract flag, sets the half-carry flag exactly when the lower 12 bits
/// add up to more than 4095 and the carry flag exactly when the sum is more than 65535; the
/// lower four bits of `F` stay. It takes 2 machine cycles.
pub proof fn lemma_add_to_hl(s: CpuState, m: Map<u16, u8>, operand: Operand2)
    ensures
        ({
            let (t, m2, cycles, i) = execute_spec(s, m, RawInstruction::AddRegisterToHL { operand });
            let hl = s.regs.h * 256 + s.regs.l;
            let v = s.regs.word(operand.register) as int;
            &&& t.regs.h * 256 + t.regs.l == (hl + v) % 65536
            &&& bit_set(t.regs.f, 0x80) == bit_set(s.regs.f, 0x80)
            &&& !bit_set(t.regs.f, 0x40)
            &&& bit_set(t.regs.f, 0x20) == (hl % 4096 + v % 4096 > 4095)
            &&& bit_set(t.regs.f, 0x10) == (hl + v > 65535)
            &&& t.regs.f & 0x0F == s.regs.f & 0x0F
            &&& t == (CpuState {
                regs: RegisterFile { h: t.regs.h, l: t.regs.l, f: t.regs.f, ..s.regs },
                ..s
            })
            &&& m2 == m
            &&& cycles == 2
            &&& i == Instruction::AddRegisterToHL { operand }
        }),
{
    let hl = s.regs.word(WordRegisterName::HL);
    let v = s.regs.word(operand.register);
    let result = add16(hl, v);
    let s1 = with_regs(s, s.regs.with_word(WordRegisterName::HL, result));
    let f0 = with_flag(s1.regs.f, 0x20, bit11_carry(hl, v));
    let f1 = with_flag(f0, 0x10, hl + v > 65535);
    let f2 = with_flag(f1, 0x40, false);
    assert(execute_spec(s, m, RawInstruction::AddRegisterToHL { operand }) == (
        with_f(s1, f2),
        m,
        2usize,
        Instruction::AddRegisterToHL { operand },
    )) by {
        reveal(execute_spec);
    }
    lemma_flag_step(s.regs.f, 0x20, bit11_carry(hl, v));
    lemma_flag_step(f0, 0x10, hl + v > 65535);
    lemma_flag_step(f1, 0x40, false);
    lemma_split_bits(result);
}

/// `SWAP r` exchanges the nibbles of the operand; `F` then holds the zero flag exactly when
/// the result is 0, and nothing else. It takes 2 machine cycles. `s` is the state after the
/// second opcode was read.
pub proof fn lemma_swap(s: CpuState, m: Map<u16, u8>, operand: Operand3)
    requires
        operand != Operand3::Register(ShortRegisterName::F),
    ensures
        ({
            let (t, m2, cycles, i) = execute_cb_spec(s, m, RawCBInstruction::SwapNibbles { operand });
            let v = load3(s, m, operand) as int;
            &&& wrote_operand(s, m, t, m2, operand, (v % 16) * 16 + v / 16)
            &&& t.regs.f == (if v == 0 { 0x80u8 } else { 0u8 })
            &&& keeps_all_but(s, t, operand)
            &&& cycles == 2
            &&& i == CBInstruction::SwapNibbles { operand }
        }),
{
    lemma_flags_empty();
}

/// `INC rr` and `DEC rr` add 1 to, or take 1 from, the pair, modulo 65536, and change
/// nothing else; each takes 2 machine cycles.
pub proof fn lemma_word_inc_dec(s: CpuState, m: Map<u16, u8>, operand: Operand2)
    ensures
        ({
            let r = operand.register;
            let w = s.regs.word(r) as int;
            let (t, m2, cycles, i) = execute_spec(s, m, RawInstruction::IncRegister16 { operand });
            &&& t.regs == s.regs.with_word(r, ((w + 1) % 65536) as u16)
            &&& t.ime == s.ime && t.pending_ime == s.pending_ime
            &&& m2 == m
            &&& cycles == 2
            &&& i == Instruction::IncRegister16 { operand }
        }),
        ({
            let r = operand.register;
            let w = s.regs.word(r) as int;
            let (t, m2, cycles, i) = execute_spec(s, m, RawInstruction::DecRegister16 { operand });
            &&& t.regs == s.regs.with_word(r, ((w + 65535) % 65536) as u16)
            &&& t.ime == s.ime && t.pending_ime == s.pending_ime
            &&& m2 == m
            &&& cycles == 2
            &&& i == Instruction::DecRegister16 { operand }
        }),
{
    reveal(execute_spec);
}

/// The stack pointer moved down by `n`, modulo 65536.
pub open spec fn below(sp: u16, n: int) -> int {
    (sp + 65536 - n) % 65536
}

/// The memory after the word `w` was pushed with the stack pointer at `sp`: its high byte
/// at `sp - 1`, then its low byte at `sp - 2`.
pub open spec fn pushed(m: Map<u16, u8>, sp: u16, w: int) -> Map<u16, u8> {
    store(store(m, below(sp, 1) as u16, (w / 256) as u8), below(sp, 2) as u16, (w % 256) as u8)
}

/// The little-endian word at `a` and `a + 1`.
pub open spec fn word_at(m: Map<u16, u8>, a: u16) -> int {
    m[((a + 1) % 65536) as u16] * 256 + m[a]
}

/// `CALL nn` pushes the address after the instruction and jumps to `nn`, the word at the
/// program counter; the stack pointer goes down by 2. It takes 6 machine cycles.
pub proof fn lemma_call(s: CpuState, m: Map<u16, u8>)
    ensures
        ({
            let (t, m2, cycles, i) = execute_spec(s, m, RawInstruction::CallFunction);
            let target = word_at(m, s.regs.pc);
            &&& t == (CpuState {
                regs: RegisterFile { pc: target as u16, sp: below(s.regs.sp, 2) as u16, ..s.regs },
                ..s
            })
            &&& m2 == pushed(m, s.regs.sp, (s.regs.pc + 2) % 65536)
            &&& cycles == 6
            &&& i == Instruction::CallFunction { address: target as u16 }
        }),
{
    reveal(execute_spec);
    lemma_split_bits(add16(s.regs.pc, 2));
}

/// `RET` jumps to the word on top of the stack and moves the stack pointer up by 2. It takes
/// 4 machine cycles.
pub proof fn lemma_return(s: CpuState, m: Map<u16, u8>)
    ensures
        ({
            let (t, m2, cycles, i) = execute_spec(s, m, RawInstruction::ReturnFunction);
            &&& t == (CpuState {
                regs: RegisterFile {
                    pc: word_at(m, s.regs.sp) as u16,
                    sp: ((s.regs.sp + 2) % 65536) as u16,
                    ..s.regs
                },
                ..s
            })
            &&& m2 == m
            &&& cycles == 4
            &&& i == Instruction::ReturnFunction
        }),
{
    reveal(execute_spec);
}

/// `RST n` pushes the program counter and jumps to `n`. It takes 4 machine cycles.
pub proof fn lemma_restart(s: CpuState, m: Map<u16, u8>, address: u8)
    ensures
        ({
            let (t, m2, cycles, i) = execute_spec(s, m, RawInstruction::Restart { address });
            &&& t == (CpuState {
                regs: RegisterFile { pc: address as u16, sp: below(s.regs.sp, 2) as u16, ..s.regs },
                ..s
            })
            &&& m2 == pushed(m, s.regs.sp, s.regs.pc as int)
            &&& cycles == 4
            &&& i == Instruction::Restart { address }
        }),
{
    reveal(execute_spec);
    lemma_split_bits(s.regs.pc);
}

/// `PUSH rr` pushes the pair and moves the stack pointer down by 2. It takes 4 machine cycles.
pub proof fn lemma_push(s: CpuState, m: Map<u16, u8>, operand: Operand2)
    ensures
        ({
            let (t, m2, cycles, i) = execute_spec(s, m, RawInstruction::PushRegisterToStack { operand });
            &&& t == (CpuState { regs: RegisterFile { sp: below(s.regs.sp, 2) as u16, ..s.regs }, ..s })
            &&& m2 == pushed(m, s.regs.sp, s.regs.word(operand.register) as int)
            &&& cycles == 4
            &&& i == Instruction::PushRegisterToStack { operand }
        }),
{
    reveal(execute_spec);
    lemma_split_bits(s.regs.word(operand.register));
}

/// `POP rr` loads the word on top of the stack into the pair and moves the stack pointer up
/// by 2. It takes 3 machine cycles.
pub proof fn lemma_pop(s: CpuState, m: Map<u16, u8>, operand: Operand2)
    requires
        operand.register != WordRegisterName::SP,
    ensures
        ({
            let (t, m2, cycles, i) = execute_spec(s, m, RawInstruction::PopStackToRegister { operand });
            &&& t == (CpuState {
                regs: RegisterFile { sp: ((s.regs.sp + 2) % 65536) as u16, ..s.regs }.with_word(
                    operand.register,
                    word_at(m, s.regs.sp) as u16,
                ),
                ..s
            })
            &&& m2 == m
            &&& cycles == 3
            &&& i == Instruction::PopStackToRegister { operand }
        }),
{
    reveal(execute_spec);
}

/// `JP nn` jumps to the word at the program counter in 4 machine cycles, and `JP HL` to
/// `HL` in 1; nothing else changes.
pub proof fn lemma_jumps(s: CpuState, m: Map<u16, u8>)
    ensures
        ({
            let (t, m2, cycles, i) = execute_spec(s, m, RawInstruction::JumpImmediate);
            let target = word_at(m, s.regs.pc);
            &&& t == (CpuState { regs: RegisterFile { pc: target as u16, ..s.regs }, ..s })
            &&& m2 == m
            &&& cycles == 4
            &&& i == Instruction::JumpImmediate { address: target as u16 }
        }),
        ({
            let (t, m2, cycles, i) = execute_spec(s, m, RawInstruction::JumpHL);
            &&& t == (CpuState {
                regs: RegisterFile { pc: (s.regs.h * 256 + s.regs.l) as u16, ..s.regs },
                ..s
            })
            &&& m2 == m
            &&& cycles == 1
            &&& i == Instruction::JumpHL
        }),
{
    reveal(execute_spec);
}

/// `NOP` changes nothing, `EI` leaves an enable of interrupts pending, and `DI` switches
/// interrupts off and drops a pending enable; each takes 1 machine cycle.
pub proof fn lemma_no_operands(s: CpuState, m: Map<u16, u8>)
    ensures
        execute_spec(s, m, RawInstruction::Nop) == (s, m, 1usize, Instruction::Nop),
        execute_spec(s, m, RawInstruction::EnableInterrupts) == (
            CpuState { pending_ime: true, ..s },
            m,
            1usize,
            Instruction::EnableInterrupts,
        ),
        execute_spec(s, m, RawInstruction::DisableInterrupts) == (
            CpuState { ime: false, pending_ime: false, ..s },
            m,
            1usize,
            Instruction::DisableInterrupts,
        ),
{
    reveal(execute_spec);
}

/// `LD r, r'` copies the right operand into the left one, in 2 machine cycles where either is
/// `[HL]` and in 1 otherwise.
pub proof fn lemma_load_register(s: CpuState, m: Map<u16, u8>, left_operand: Operand3, right_operand: Operand3)
    requires
        left_operand != Operand3::Register(ShortRegisterName::F),
    ensures
        ({
            let (t, m2, cycles, i) = execute_spec(
                s,
                m,
                RawInstruction::LoadRegisterToRegister { left_operand, right_operand },
            );
            &&& wrote_operand(s, m, t, m2, left_operand, load3(s, m, right_operand) as int)
            &&& keeps_all_but(s, t, left_operand)
            &&& t.regs.f == s.regs.f
            &&& cycles == (if left_operand == Operand3::IndirectHL || right_operand
                == Operand3::IndirectHL { 2usize } else { 1usize })
            &&& i == Instruction::LoadRegisterToRegister { left_operand, right_operand }
        }),
{
    reveal(execute_spec);
}

/// The address that an indirect operand names.
pub open spec fn address_of(regs: RegisterFile, operand: IndirectOperand) -> int {
    match operand {
        IndirectOperand::BC => regs.b * 256 + regs.c,
        IndirectOperand::DE => regs.d * 256 + regs.e,
        _ => regs.h * 256 + regs.l,
    }
}

/// Whether `t` has the registers of `s` with `HL` stepped as the indirect operand asks:
/// up by one for `HL+`, down by one for `HL-`, modulo 65536.
pub open spec fn stepped(s: RegisterFile, t: RegisterFile, operand: IndirectOperand) -> bool {
    let hl = s.h * 256 + s.l;
    match operand {
        IndirectOperand::HLInc => t.h * 256 + t.l == (hl + 1) % 65536 && t == (RegisterFile {
            h: t.h,
            l: t.l,
            ..s
        }),
        IndirectOperand::HLDec => t.h * 256 + t.l == (hl + 65535) % 65536 && t == (RegisterFile {
            h: t.h,
            l: t.l,
            ..s
        }),
        _ => t == s,
    }
}

/// `LD (rr), A` stores `A` at the address in the pair, and `LD A, (rr)` loads `A` from it;
/// `HL+` and `HL-` then step `HL`. Each takes 2 machine cycles.
pub proof fn lemma_load_indirect(s: CpuState, m: Map<u16, u8>, operand: IndirectOperand)
    ensures
        ({
            let (t, m2, cycles, i) = execute_spec(s, m, RawInstruction::LoadAccumulatorToIndirect { operand });
            let a = address_of(s.regs, operand);
            &&& m2 == store(m, a as u16, s.regs.a)
            &&& stepped(s.regs, t.regs, operand)
            &&& t.ime == s.ime && t.pending_ime == s.pending_ime
            &&& cycles == 2
            &&& i == Instruction::LoadAccumulatorToIndirect { operand }
        }),
        ({
            let (t, m2, cycles, i) = execute_spec(s, m, RawInstruction::LoadIndirectToAccumulator { operand });
            let a = address_of(s.regs, operand);
            &&& t.regs.a == m[a as u16]
            &&& stepped(s.regs, RegisterFile { a: s.regs.a, ..t.regs }, operand)
            &&& t.ime == s.ime && t.pending_ime == s.pending_ime
            &&& m2 == m
            &&& cycles == 2
            &&& i == Instruction::LoadIndirectToAccumulator { operand }
        }),
{
    reveal(execute_spec);
    let hl = s.regs.word(WordRegisterName::HL);
    lemma_split_bits(add16(hl, 1));
    lemma_split_bits(sub16(hl, 1));
}

/// `LD r, n` loads the byte at the program counter into the operand and moves past it;
/// `LD rr, nn` loads the word there into the pair and moves past it. They take 2 and 3
/// machine cycles.
pub proof fn lemma_load_immediate(s: CpuState, m: Map<u16, u8>, operand: Operand3, pair: Operand2)
    requires
        operand != Operand3::Register(ShortRegisterName::F),
        pair.register != WordRegisterName::PC,
    ensures
        ({
            let (t, m2, cycles, i) = execute_spec(s, m, RawInstruction::LoadImmediateToRegister8 { operand });
            let n = m[s.regs.pc];
            &&& wrote_operand(
                CpuState { regs: RegisterFile { pc: ((s.regs.pc + 1) % 65536) as u16, ..s.regs }, ..s },
                m,
                t,
                m2,
                operand,
                n as int,
            )
            &&& t.regs.pc == (s.regs.pc + 1) % 65536
            &&& forall|o: ShortRegisterName|
                o != ShortRegisterName::F && operand != Operand3::Register(o) ==> #[trigger] t.regs.short(o)
                    == s.regs.short(o)
            &&& t.regs.f == s.regs.f && t.regs.sp == s.regs.sp
            &&& t.ime == s.ime && t.pending_ime == s.pending_ime
            &&& cycles == 2
            &&& i == Instruction::LoadImmediateToRegister8 { operand, immediate: n }
        }),
        ({
            let (t, m2, cycles, i) = execute_spec(s, m, RawInstruction::LoadImmediateToRegister16 { operand: pair });
            let n = word_at(m, s.regs.pc);
            &&& t.regs == RegisterFile { pc: ((s.regs.pc + 2) % 65536) as u16, ..s.regs }.with_word(
                pair.register,
                n as u16,
            )
            &&& t.ime == s.ime && t.pending_ime == s.pending_ime
            &&& m2 == m
            &&& cycles == 3
            &&& i == Instruction::LoadImmediateToRegister16 { operand: pair, immediate: n as u16 }
        }),
{
    reveal(execute_spec);
}

/// `LDH (n), A` stores `A` at `0xFF00 + n`, `LDH A, (n)` loads `A` from there, `LD (C), A`
/// stores `A` at `0xFF00 + C`, and `LD (nn), A` stores `A` at the word `nn`; `n` and `nn`
/// are read at the program counter, which moves past them.
pub proof fn lemma_load_addressed(s: CpuState, m: Map<u16, u8>)
    ensures
        ({
            let (t, m2, cycles, i) = execute_spec(s, m, RawInstruction::LoadAccumulatorToHighMemory);
            let n = m[s.regs.pc];
            &&& t == (CpuState { regs: RegisterFile { pc: ((s.regs.pc + 1) % 65536) as u16, ..s.regs }, ..s })
            &&& m2 == store(m, (0xFF00 + n) as u16, s.regs.a)
            &&& cycles == 3
            &&& i == Instruction::LoadAccumulatorToHighMemory { immediate: n }
        }),
        ({
            let (t, m2, cycles, i) = execute_spec(s, m, RawInstruction::LoadHighMemoryToAccumulator);
            let n = m[s.regs.pc];
            &&& t == (CpuState {
                regs: RegisterFile {
                    pc: ((s.regs.pc + 1) % 65536) as u16,
                    a: m[(0xFF00 + n) as u16],
                    ..s.regs
                },
                ..s
            })
            &&& m2 == m
            &&& cycles == 3
            &&& i == Instruction::LoadHighMemoryToAccumulator { immediate: n }
        }),
        ({
            let (t, m2, cycles, i) = execute_spec(s, m, RawInstruction::LoadAccumulatorToIndirectC);
            &&& t == s
            &&& m2 == store(m, (0xFF00 + s.regs.c) as u16, s.regs.a)
            &&& cycles == 2
            &&& i == Instruction::LoadAccumulatorToIndirectC
        }),
        ({
            let (t, m2, cycles, i) = execute_spec(s, m, RawInstruction::LoadAccumulatorToMemory);
            let nn = word_at(m, s.regs.pc);
            &&& t == (CpuState { regs: RegisterFile { pc: ((s.regs.pc + 2) % 65536) as u16, ..s.regs }, ..s })
            &&& m2 == store(m, nn as u16, s.regs.a)
            &&& cycles == 4
            &&& i == Instruction::LoadAccumulatorToMemory { immediate: nn as u16 }
        }),
{
    reveal(execute_spec);
}

/// A cycle that meets the CB prefix followed by `SWAP r` reads both opcodes, so the program
/// counter moves by 2, and reports the swap and its 2 machine cycles, not the prefix.
pub proof fn lemma_cycle_prefixed_swap(s: CpuState, m: Map<u16, u8>, operand: Operand3)
    requires
        decode(m[s.regs.pc]) == Ok::<RawInstruction, CpuError>(RawInstruction::CBPrefix),
        decode_cb(m[((s.regs.pc + 1) % 65536) as u16]) == Ok::<RawCBInstruction, CpuError>(
            RawCBInstruction::SwapNibbles { operand },
        ),
        operand != Operand3::Register(ShortRegisterName::F),
    ensures
        cycle_spec(s, m).2 == Ok::<(usize, AnyInstruction), CpuError>(
            (2usize, AnyInstruction::CBInstruction(CBInstruction::SwapNibbles { operand })),
        ),
        cycle_spec(s, m).0.regs.pc == (s.regs.pc + 2) % 65536,
{
    let s1 = advance(s, 1);
    assert(execute_spec(s1, m, RawInstruction::CBPrefix) == (s1, m, 0usize, Instruction::CBPrefix)) by {
        reveal(execute_spec);
    }
    lemma_swap(advance(s1, 1), m, operand);
}

} // verus!
