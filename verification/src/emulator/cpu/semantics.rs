use vstd::prelude::*;

use crate::emulator::cpu::alu::{
    add16, add16_signed, add8, bit11_carry, lemma_swap_involution, nibble_borrow, nibble_carry,
    sub16, sub8, swapped,
};
use crate::emulator::cpu::instructions::{
    decode, decode_cb, indirect_register, AnyInstruction, CBInstruction, ConditionalOperand,
    IndirectOperand, Instruction, Operand2, Operand3, RawCBInstruction, RawInstruction,
};
use crate::emulator::cpu::register::{
    hi, join, lemma_split_bits, lemma_word_write_read, lo, part_of, RegisterFile, ShortRegisterName,
    WordRegisterName,
};
use crate::emulator::cpu::CpuError;
use crate::emulator::memory::{plain_ram, store, writable};
use crate::flags::with_flag;

verus! {

/// The state of the CPU: its registers and its interrupt switches.
#[derive(Copy, Clone, Debug, PartialEq, Eq, Structural)]
pub struct CpuState {
    pub regs: RegisterFile,
    /// Whether interrupts are served.
    pub ime: bool,
    /// Whether an enable of interrupts is pending.
    pub pending_ime: bool,
}

/// The state with the registers replaced by `regs`.
pub open spec fn with_regs(s: CpuState, regs: RegisterFile) -> CpuState {
    CpuState { regs, ..s }
}

/// The state with the program counter advanced by `n`.
pub open spec fn advance(s: CpuState, n: u16) -> CpuState {
    with_regs(s, RegisterFile { pc: add16(s.regs.pc, n), ..s.regs })
}

/// Whether `a` can be read.
pub open spec fn can_load(m: Map<u16, u8>, a: u16) -> bool {
    m.dom().contains(a)
}

/// The byte that the program counter points at.
pub open spec fn imm8(s: CpuState, m: Map<u16, u8>) -> u8 {
    m[s.regs.pc]
}

/// The little-endian word at the program counter.
pub open spec fn imm16(s: CpuState, m: Map<u16, u8>) -> u16 {
    join(m[add16(s.regs.pc, 1)], m[s.regs.pc])
}

/// Whether the byte at the program counter can be read.
pub open spec fn imm8_ok(s: CpuState, m: Map<u16, u8>) -> bool {
    can_load(m, s.regs.pc)
}

/// Whether the word at the program counter can be read.
pub open spec fn imm16_ok(s: CpuState, m: Map<u16, u8>) -> bool {
    can_load(m, s.regs.pc) && can_load(m, add16(s.regs.pc, 1))
}

/// The value of an 8-bit operand.
pub open spec fn load3(s: CpuState, m: Map<u16, u8>, op: Operand3) -> u8 {
    match op {
        Operand3::Register(r) => s.regs.short(r),
        Operand3::IndirectHL => m[s.regs.word(WordRegisterName::HL)],
    }
}

/// Whether an 8-bit operand can be read.
pub open spec fn load3_ok(s: CpuState, m: Map<u16, u8>, op: Operand3) -> bool {
    match op {
        Operand3::Register(_) => true,
        Operand3::IndirectHL => can_load(m, s.regs.word(WordRegisterName::HL)),
    }
}

/// The registers after `v` was written to an 8-bit operand.
pub open spec fn store3_regs(s: CpuState, op: Operand3, v: u8) -> CpuState {
    match op {
        Operand3::Register(r) => with_regs(s, s.regs.with_short(r, v)),
        Operand3::IndirectHL => s,
    }
}

/// The memory after `v` was written to an 8-bit operand.
pub open spec fn store3_mem(s: CpuState, m: Map<u16, u8>, op: Operand3, v: u8) -> Map<u16, u8> {
    match op {
        Operand3::Register(_) => m,
        Operand3::IndirectHL => store(m, s.regs.word(WordRegisterName::HL), v),
    }
}

/// Whether an 8-bit operand can be written.
pub open spec fn store3_ok(s: CpuState, op: Operand3) -> bool {
    match op {
        Operand3::Register(_) => true,
        Operand3::IndirectHL => writable(s.regs.word(WordRegisterName::HL)),
    }
}

/// The registers after `v` was pushed: the high byte goes to `SP - 1`, the low byte to `SP - 2`.
pub open spec fn push_regs(s: CpuState) -> CpuState {
    with_regs(s, RegisterFile { sp: sub16(s.regs.sp, 2), ..s.regs })
}

/// The memory after `v` was pushed.
pub open spec fn push_mem(s: CpuState, m: Map<u16, u8>, v: u16) -> Map<u16, u8> {
    store(store(m, sub16(s.regs.sp, 1), hi(v)), sub16(s.regs.sp, 2), lo(v))
}

/// Whether a push can write both stack bytes.
pub open spec fn push_ok(s: CpuState) -> bool {
    writable(sub16(s.regs.sp, 1)) && writable(sub16(s.regs.sp, 2))
}

/// The word on top of the stack: the low byte at `SP`, the high byte at `SP + 1`.
pub open spec fn top(s: CpuState, m: Map<u16, u8>) -> u16 {
    join(m[add16(s.regs.sp, 1)], m[s.regs.sp])
}

/// The registers after a pop.
pub open spec fn pop_regs(s: CpuState) -> CpuState {
    with_regs(s, RegisterFile { sp: add16(s.regs.sp, 2), ..s.regs })
}

/// Whether a pop can read both stack bytes.
pub open spec fn pop_ok(s: CpuState, m: Map<u16, u8>) -> bool {
    can_load(m, s.regs.sp) && can_load(m, add16(s.regs.sp, 1))
}

/// Whether the flags `f` meet the condition `op`.
pub open spec fn condition_holds(f: u8, op: ConditionalOperand) -> bool {
    match op {
        ConditionalOperand::NZ => f & 0x80 != 0x80,
        ConditionalOperand::Z => f & 0x80 == 0x80,
        ConditionalOperand::NC => f & 0x10 != 0x10,
        ConditionalOperand::C => f & 0x10 == 0x10,
    }
}

/// The address of an indirect operand.
pub open spec fn indirect_address(s: CpuState, op: IndirectOperand) -> u16 {
    s.regs.word(indirect_register(op))
}

/// The registers after an indirect operand was used: `HL` steps for `HLInc` and `HLDec`.
pub open spec fn indirect_step(s: CpuState, op: IndirectOperand) -> CpuState {
    let hl = s.regs.word(WordRegisterName::HL);
    match op {
        IndirectOperand::HLInc => with_regs(s, s.regs.with_word(WordRegisterName::HL, add16(hl, 1))),
        IndirectOperand::HLDec => with_regs(s, s.regs.with_word(WordRegisterName::HL, sub16(hl, 1))),
        _ => s,
    }
}

/// The state with the flag register holding `f`.
pub open spec fn with_f(s: CpuState, f: u8) -> CpuState {
    with_regs(s, RegisterFile { f, ..s.regs })
}

/// The state with the accumulator holding `a`.
pub open spec fn with_a(s: CpuState, a: u8) -> CpuState {
    with_regs(s, RegisterFile { a, ..s.regs })
}

/// The state with the program counter holding `pc`.
pub open spec fn with_pc(s: CpuState, pc: u16) -> CpuState {
    with_regs(s, RegisterFile { pc, ..s.regs })
}

/// Cycles that an instruction on an 8-bit operand takes: `reg` for a register, `mem` for `[HL]`.
pub open spec fn cycles3(op: Operand3, reg: usize, mem: usize) -> usize {
    match op {
        Operand3::Register(_) => reg,
        Operand3::IndirectHL => mem,
    }
}

/// Whether `a` holds tile data in video RAM: a write there marks the tiles dirty.
pub open spec fn tile_byte(a: u16) -> bool {
    0x8000 <= a <= 0x97FF
}

/// Whether writing the 8-bit operand `op` writes tile data.
pub open spec fn operand_touches(s: CpuState, op: Operand3) -> bool {
    op == Operand3::IndirectHL && tile_byte(s.regs.word(WordRegisterName::HL))
}

/// Whether a push writes tile data.
pub open spec fn push_touches(s: CpuState) -> bool {
    tile_byte(sub16(s.regs.sp, 1)) || tile_byte(sub16(s.regs.sp, 2))
}

/// Whether the instruction writes tile data; `s` is the state after the opcode was read.
pub open spec fn touches_tiles(s: CpuState, m: Map<u16, u8>, raw: RawInstruction) -> bool {
    match raw {
        RawInstruction::CallFunction => push_touches(advance(s, 2)),
        RawInstruction::PushRegisterToStack { .. } => push_touches(s),
        RawInstruction::Restart { .. } => push_touches(s),
        RawInstruction::IncRegister8 { operand } => operand_touches(s, operand),
        RawInstruction::DecRegister8 { operand } => operand_touches(s, operand),
        RawInstruction::LoadRegisterToRegister { left_operand, .. } => operand_touches(
            s,
            left_operand,
        ),
        RawInstruction::LoadAccumulatorToIndirect { operand } => tile_byte(
            indirect_address(s, operand),
        ),
        RawInstruction::LoadImmediateToRegister8 { operand } => operand_touches(s, operand),
        RawInstruction::LoadAccumulatorToHighMemory => tile_byte((0xFF00 + imm8(s, m)) as u16),
        RawInstruction::LoadAccumulatorToIndirectC => tile_byte((0xFF00 + s.regs.c) as u16),
        RawInstruction::LoadAccumulatorToMemory => tile_byte(imm16(s, m)),
        _ => false,
    }
}

/// Whether the CB-prefixed instruction writes tile data.
pub open spec fn cb_touches_tiles(s: CpuState, raw: RawCBInstruction) -> bool {
    match raw {
        RawCBInstruction::SwapNibbles { operand } => operand_touches(s, operand),
    }
}

/// Whether one CPU cycle writes tile data.
pub open spec fn cycle_touches_tiles(s: CpuState, m: Map<u16, u8>) -> bool {
    let s1 = advance(s, 1);
    match decode(imm8(s, m)) {
        Err(_) => false,
        Ok(raw) => if raw == RawInstruction::CBPrefix {
            match decode_cb(imm8(s1, m)) {
                Err(_) => false,
                Ok(cb) => cb_touches_tiles(advance(s1, 1), cb),
            }
        } else {
            touches_tiles(s1, m, raw)
        },
    }
}

/// What an instruction does: the new state, the new memory, the machine cycles
/// it took, and the instruction with the immediates that it read. `s` is the state
/// after the opcode was read.
#[verifier::opaque]
pub open spec fn execute_spec(s: CpuState, m: Map<u16, u8>, raw: RawInstruction) -> (
    CpuState,
    Map<u16, u8>,
    usize,
    Instruction,
) {
    let regs = s.regs;
    let hl = regs.word(WordRegisterName::HL);
    match raw {
        RawInstruction::Nop => (s, m, 1, Instruction::Nop),
        RawInstruction::EnableInterrupts => (
            CpuState { pending_ime: true, ..s },
            m,
            1,
            Instruction::EnableInterrupts,
        ),
        RawInstruction::DisableInterrupts => (
            CpuState { ime: false, pending_ime: false, ..s },
            m,
            1,
            Instruction::DisableInterrupts,
        ),
        RawInstruction::Halt => (s, m, 0, Instruction::Halt),
        RawInstruction::CallFunction => {
            let address = imm16(s, m);
            let s1 = advance(s, 2);
            (
                with_pc(push_regs(s1), address),
                push_mem(s1, m, s1.regs.pc),
                6,
                Instruction::CallFunction { address },
            )
        },
        RawInstruction::ReturnFunction => (
            with_pc(pop_regs(s), top(s, m)),
            m,
            4,
            Instruction::ReturnFunction,
        ),
        RawInstruction::PopStackToRegister { operand } => {
            let s1 = pop_regs(s);
            (
                with_regs(s1, s1.regs.with_word(operand.register, top(s, m))),
                m,
                3,
                Instruction::PopStackToRegister { operand },
            )
        },
        RawInstruction::PushRegisterToStack { operand } => (
            push_regs(s),
            push_mem(s, m, regs.word(operand.register)),
            4,
            Instruction::PushRegisterToStack { operand },
        ),
        RawInstruction::JumpImmediate => {
            let address = imm16(s, m);
            (with_pc(s, address), m, 4, Instruction::JumpImmediate { address })
        },
        RawInstruction::JumpHL => (with_pc(s, hl), m, 1, Instruction::JumpHL),
        RawInstruction::JumpRelativeConditional { operand } => {
            let relative = imm8(s, m) as i8;
            let s1 = advance(s, 1);
            if condition_holds(regs.f, operand) {
                (
                    with_pc(s1, add16_signed(s1.regs.pc, relative)),
                    m,
                    3,
                    Instruction::JumpRelativeConditional { operand, relative },
                )
            } else {
                (s1, m, 2, Instruction::JumpRelativeConditional { operand, relative })
            }
        },
        RawInstruction::XorRegister { operand } => {
            let result = regs.a ^ load3(s, m, operand);
            let s1 = with_a(s, result);
            (
                if result == 0 {
                    with_f(s1, 0x80)
                } else {
                    s1
                },
                m,
                cycles3(operand, 2, 3),
                Instruction::XorRegister { operand },
            )
        },
        RawInstruction::IncRegister8 { operand } => {
            let v = load3(s, m, operand);
            let result = add8(v, 1);
            let s1 = store3_regs(s, operand, result);
            let f = with_flag(
                with_flag(s1.regs.f & !0x40u8, 0x80, result == 0),
                0x20,
                nibble_carry(v, 1),
            );
            (
                with_f(s1, f),
                store3_mem(s, m, operand, result),
                cycles3(operand, 1, 3),
                Instruction::IncRegister8 { operand },
            )
        },
        RawInstruction::IncRegister16 { operand } => (
            with_regs(s, regs.with_word(operand.register, add16(regs.word(operand.register), 1))),
            m,
            2,
            Instruction::IncRegister16 { operand },
        ),
        RawInstruction::DecRegister8 { operand } => {
            let v = load3(s, m, operand);
            let result = sub8(v, 1);
            let s1 = store3_regs(s, operand, result);
            let f = with_flag(
                with_flag(s1.regs.f | 0x40u8, 0x80, result == 0),
                0x20,
                nibble_borrow(v, 1),
            );
            (
                with_f(s1, f),
                store3_mem(s, m, operand, result),
                1,
                Instruction::DecRegister8 { operand },
            )
        },
        RawInstruction::DecRegister16 { operand } => (
            with_regs(s, regs.with_word(operand.register, sub16(regs.word(operand.register), 1))),
            m,
            2,
            Instruction::DecRegister16 { operand },
        ),
        RawInstruction::LoadRegisterToRegister { left_operand, right_operand } => {
            let v = load3(s, m, right_operand);
            (
                store3_regs(s, left_operand, v),
                store3_mem(s, m, left_operand, v),
                if left_operand == Operand3::IndirectHL || right_operand == Operand3::IndirectHL {
                    2
                } else {
                    1
                },
                Instruction::LoadRegisterToRegister { left_operand, right_operand },
            )
        },
        RawInstruction::LoadAccumulatorToIndirect { operand } => (
            indirect_step(s, operand),
            store(m, indirect_address(s, operand), regs.a),
            2,
            Instruction::LoadAccumulatorToIndirect { operand },
        ),
        RawInstruction::LoadIndirectToAccumulator { operand } => (
            with_a(indirect_step(s, operand), m[indirect_address(s, operand)]),
            m,
            2,
            Instruction::LoadIndirectToAccumulator { operand },
        ),
        RawInstruction::LoadImmediateToRegister8 { operand } => {
            let immediate = imm8(s, m);
            let s1 = advance(s, 1);
            (
                store3_regs(s1, operand, immediate),
                store3_mem(s1, m, operand, immediate),
                2,
                Instruction::LoadImmediateToRegister8 { operand, immediate },
            )
        },
        RawInstruction::LoadImmediateToRegister16 { operand } => {
            let immediate = imm16(s, m);
            let s1 = advance(s, 2);
            (
                with_regs(s1, s1.regs.with_word(operand.register, immediate)),
                m,
                3,
                Instruction::LoadImmediateToRegister16 { operand, immediate },
            )
        },
        RawInstruction::LoadAccumulatorToHighMemory => {
            let immediate = imm8(s, m);
            (
                advance(s, 1),
                store(m, (0xFF00 + immediate) as u16, regs.a),
                3,
                Instruction::LoadAccumulatorToHighMemory { immediate },
            )
        },
        RawInstruction::LoadHighMemoryToAccumulator => {
            let immediate = imm8(s, m);
            (
                with_a(advance(s, 1), m[(0xFF00 + immediate) as u16]),
                m,
                3,
                Instruction::LoadHighMemoryToAccumulator { immediate },
            )
        },
        RawInstruction::LoadAccumulatorToIndirectC => (
            s,
            store(m, (0xFF00 + regs.c) as u16, regs.a),
            2,
            Instruction::LoadAccumulatorToIndirectC,
        ),
        RawInstruction::LoadAccumulatorToMemory => {
            let immediate = imm16(s, m);
            (
                advance(s, 2),
                store(m, immediate, regs.a),
                4,
                Instruction::LoadAccumulatorToMemory { immediate },
            )
        },
        RawInstruction::CompareImmediate => {
            let immediate = imm8(s, m);
            let result = sub8(regs.a, immediate);
            let f = with_flag(
                with_flag(
                    with_flag(regs.f | 0x40u8, 0x80, result == 0),
                    0x20,
                    nibble_borrow(regs.a, immediate),
                ),
                0x10,
                regs.a < immediate,
            );
            (with_f(advance(s, 1), f), m, 2, Instruction::CompareImmediate { immediate })
        },
        RawInstruction::AddRegister { operand } => {
            let v = load3(s, m, operand);
            let result = add8(v, regs.a);
            let f = with_flag(
                with_flag(with_flag(0, 0x80, result == 0), 0x20, nibble_carry(v, regs.a)),
                0x10,
                v + regs.a > 255,
            );
            (
                with_f(with_a(s, result), f),
                m,
                cycles3(operand, 1, 2),
                Instruction::AddRegister { operand },
            )
        },
        RawInstruction::BitwiseAndImmediate => {
            let immediate = imm8(s, m);
            let result = regs.a & immediate;
            (
                with_f(with_a(advance(s, 1), result), with_flag(0, 0x80, result == 0) | 0x20u8),
                m,
                2,
                Instruction::BitwiseAndImmediate { immediate },
            )
        },
        RawInstruction::BitwiseOrRegister { operand } => {
            let result = regs.a | load3(s, m, operand);
            (
                with_f(with_a(s, result), with_flag(0, 0x80, result == 0)),
                m,
                1,
                Instruction::BitwiseOrRegister { operand },
            )
        },
        RawInstruction::BitwiseAndRegister { operand } => {
            let result = regs.a & load3(s, m, operand);
            (
                with_f(with_a(s, result), with_flag(0, 0x80, result == 0) | 0x20u8),
                m,
                1,
                Instruction::BitwiseAndRegister { operand },
            )
        },
        RawInstruction::ComplementAccumulator => (
            with_f(with_a(s, !regs.a), (regs.f | 0x40u8) | 0x20u8),
            m,
            1,
            Instruction::ComplementAccumulator,
        ),
        RawInstruction::AddRegisterToHL { operand } => {
            let v = regs.word(operand.register);
            let result = add16(hl, v);
            let s1 = with_regs(s, regs.with_word(WordRegisterName::HL, result));
            let f = with_flag(
                with_flag(s1.regs.f, 0x20, bit11_carry(hl, v)),
                0x10,
                hl + v > 65535,
            ) & !0x40u8;
            (with_f(s1, f), m, 2, Instruction::AddRegisterToHL { operand })
        },
        RawInstruction::Restart { address } => (
            with_pc(push_regs(s), address as u16),
            push_mem(s, m, regs.pc),
            4,
            Instruction::Restart { address },
        ),
        RawInstruction::CBPrefix => (s, m, 0, Instruction::CBPrefix),
    }
}

/// Whether running `raw` from `s`, `m` leaves `s2`, `m2` after `cycles` machine cycles
/// and reports `instruction`.
pub open spec fn executes(
    s: CpuState,
    m: Map<u16, u8>,
    raw: RawInstruction,
    s2: CpuState,
    m2: Map<u16, u8>,
    cycles: usize,
    instruction: Instruction,
) -> bool {
    execute_spec(s, m, raw) == (s2, m2, cycles, instruction)
}

/// Whether an instruction can run without reading or writing an address that fails.
/// `Halt` is not supported.
#[verifier::opaque]
pub open spec fn execute_ok(s: CpuState, m: Map<u16, u8>, raw: RawInstruction) -> bool {
    let regs = s.regs;
    match raw {
        RawInstruction::Halt => false,
        RawInstruction::CallFunction => imm16_ok(s, m) && push_ok(advance(s, 2)),
        RawInstruction::ReturnFunction => pop_ok(s, m),
        RawInstruction::PopStackToRegister { .. } => pop_ok(s, m),
        RawInstruction::PushRegisterToStack { .. } => push_ok(s),
        RawInstruction::JumpImmediate => imm16_ok(s, m),
        RawInstruction::JumpRelativeConditional { .. } => imm8_ok(s, m),
        RawInstruction::XorRegister { operand } => load3_ok(s, m, operand),
        RawInstruction::IncRegister8 { operand } => load3_ok(s, m, operand) && store3_ok(s, operand),
        RawInstruction::DecRegister8 { operand } => load3_ok(s, m, operand) && store3_ok(s, operand),
        RawInstruction::LoadRegisterToRegister { left_operand, right_operand } => load3_ok(
            s,
            m,
            right_operand,
        ) && store3_ok(s, left_operand),
        RawInstruction::LoadAccumulatorToIndirect { operand } => writable(
            indirect_address(s, operand),
        ),
        RawInstruction::LoadIndirectToAccumulator { operand } => can_load(
            m,
            indirect_address(s, operand),
        ),
        RawInstruction::LoadImmediateToRegister8 { operand } => imm8_ok(s, m) && store3_ok(
            s,
            operand,
        ),
        RawInstruction::LoadImmediateToRegister16 { .. } => imm16_ok(s, m),
        RawInstruction::LoadAccumulatorToHighMemory => imm8_ok(s, m) && writable(
            (0xFF00 + imm8(s, m)) as u16,
        ),
        RawInstruction::LoadHighMemoryToAccumulator => imm8_ok(s, m) && can_load(
            m,
            (0xFF00 + imm8(s, m)) as u16,
        ),
        RawInstruction::LoadAccumulatorToIndirectC => writable((0xFF00 + regs.c) as u16),
        RawInstruction::LoadAccumulatorToMemory => imm16_ok(s, m) && writable(imm16(s, m)),
        RawInstruction::CompareImmediate => imm8_ok(s, m),
        RawInstruction::AddRegister { operand } => load3_ok(s, m, operand),
        RawInstruction::BitwiseAndImmediate => imm8_ok(s, m),
        RawInstruction::BitwiseOrRegister { operand } => load3_ok(s, m, operand),
        RawInstruction::BitwiseAndRegister { operand } => load3_ok(s, m, operand),
        RawInstruction::Restart { .. } => push_ok(s),
        _ => true,
    }
}

/// The CB prefix alone changes nothing, and it is the only instruction that reports itself
/// as the prefix.
pub proof fn lemma_prefix_does_nothing(s: CpuState, m: Map<u16, u8>, decoded: Result<RawInstruction, CpuError>)
    ensures
        decoded matches Ok(raw) ==> (execute_spec(s, m, raw).3 == Instruction::CBPrefix <==> raw
            == RawInstruction::CBPrefix),
        execute_spec(s, m, RawInstruction::CBPrefix) == (s, m, 0usize, Instruction::CBPrefix),
{
    reveal(execute_spec);
}

/// What a CB-prefixed instruction does; `s` is the state after its opcode was read.
pub open spec fn execute_cb_spec(s: CpuState, m: Map<u16, u8>, raw: RawCBInstruction) -> (
    CpuState,
    Map<u16, u8>,
    usize,
    CBInstruction,
) {
    match raw {
        RawCBInstruction::SwapNibbles { operand } => {
            let result = swapped(load3(s, m, operand));
            (
                with_f(store3_regs(s, operand, result), with_flag(0, 0x80, result == 0)),
                store3_mem(s, m, operand, result),
                2,
                CBInstruction::SwapNibbles { operand },
            )
        },
    }
}

/// Whether a CB-prefixed instruction can run without failing.
pub open spec fn execute_cb_ok(s: CpuState, m: Map<u16, u8>, raw: RawCBInstruction) -> bool {
    match raw {
        RawCBInstruction::SwapNibbles { operand } => load3_ok(s, m, operand) && store3_ok(
            s,
            operand,
        ),
    }
}

/// One CPU cycle: read the opcode at the program counter, decode it and execute it,
/// reading a second opcode after a CB prefix. Gives the new state and memory and
/// either the machine cycles with the executed instruction or the decoding error.
pub open spec fn cycle_spec(s: CpuState, m: Map<u16, u8>) -> (
    CpuState,
    Map<u16, u8>,
    Result<(usize, AnyInstruction), CpuError>,
) {
    let s1 = advance(s, 1);
    match decode(imm8(s, m)) {
        Err(e) => (s1, m, Err(e)),
        Ok(raw) => {
            let (s2, m2, cycles, instruction) = execute_spec(s1, m, raw);
            if instruction == Instruction::CBPrefix {
                let s3 = advance(s2, 1);
                match decode_cb(imm8(s2, m2)) {
                    Err(e) => (s3, m2, Err(e)),
                    Ok(cb) => {
                        let (s4, m4, cb_cycles, cb_instruction) = execute_cb_spec(s3, m2, cb);
                        (s4, m4, Ok((cb_cycles, AnyInstruction::CBInstruction(cb_instruction))))
                    },
                }
            } else {
                (s2, m2, Ok((cycles, AnyInstruction::Instruction(instruction))))
            }
        },
    }
}

/// Whether one CPU cycle runs without reading or writing an address that fails and
/// without meeting an unsupported instruction.
pub open spec fn cycle_ok(s: CpuState, m: Map<u16, u8>) -> bool {
    let s1 = advance(s, 1);
    &&& imm8_ok(s, m)
    &&& match decode(imm8(s, m)) {
        Err(_) => true,
        Ok(raw) => {
            &&& execute_ok(s1, m, raw)
            &&& raw == RawInstruction::CBPrefix ==> {
                &&& imm8_ok(s1, m)
                &&& match decode_cb(imm8(s1, m)) {
                    Err(_) => true,
                    Ok(cb) => execute_cb_ok(advance(s1, 1), m, cb),
                }
            }
        },
    }
}

/// A store to a writable address leaves every address that is not writable alone.
pub proof fn lemma_store_keeps(m: Map<u16, u8>, b: u16, v: u8, a: u16)
    requires
        writable(b),
        !writable(a),
    ensures
        store(m, b, v).dom().contains(a) == m.dom().contains(a),
        m.dom().contains(a) ==> store(m, b, v)[a] == m[a],
{
}

/// An instruction that runs without failing leaves every address that is not writable alone.
#[verifier::spinoff_prover]
#[verifier::rlimit(100)]
pub proof fn lemma_execute_frame(s: CpuState, m: Map<u16, u8>, raw: RawInstruction, a: u16)
    requires
        execute_ok(s, m, raw),
        !writable(a),
    ensures
        execute_spec(s, m, raw).1.dom().contains(a) == m.dom().contains(a),
        m.dom().contains(a) ==> execute_spec(s, m, raw).1[a] == m[a],
{
    reveal(execute_spec);
    reveal(execute_ok);
    match raw {
        RawInstruction::CallFunction => {
            let s2 = advance(s, 2);
            lemma_push_frame(s2, m, s2.regs.pc, a);
        },
        RawInstruction::PushRegisterToStack { operand } => {
            lemma_push_frame(s, m, s.regs.word(operand.register), a);
        },
        RawInstruction::Restart { .. } => {
            lemma_push_frame(s, m, s.regs.pc, a);
        },
        _ => {},
    }
}

/// A push that runs without failing leaves every address that is not writable alone.
pub proof fn lemma_push_frame(s: CpuState, m: Map<u16, u8>, v: u16, a: u16)
    requires
        push_ok(s),
        !writable(a),
    ensures
        push_mem(s, m, v).dom().contains(a) == m.dom().contains(a),
        m.dom().contains(a) ==> push_mem(s, m, v)[a] == m[a],
{
    lemma_store_keeps(m, sub16(s.regs.sp, 1), hi(v), a);
    lemma_store_keeps(store(m, sub16(s.regs.sp, 1), hi(v)), sub16(s.regs.sp, 2), lo(v), a);
}

/// A cycle that runs without failing leaves every address that is not writable alone.
pub proof fn lemma_cycle_frame(s: CpuState, m: Map<u16, u8>, a: u16)
    requires
        cycle_ok(s, m),
        !writable(a),
    ensures
        cycle_spec(s, m).1.dom().contains(a) == m.dom().contains(a),
        m.dom().contains(a) ==> cycle_spec(s, m).1[a] == m[a],
{
    let s1 = advance(s, 1);
    match decode(imm8(s, m)) {
        Err(_) => {},
        Ok(raw) => {
            lemma_execute_frame(s1, m, raw, a);
            lemma_prefix_does_nothing(s1, m, Ok(raw));
        },
    }
}

/// No instruction takes more than 6 machine cycles.
pub proof fn lemma_cycle_bounds(s: CpuState, m: Map<u16, u8>)
    ensures
        cycle_spec(s, m).2 matches Ok((c, _)) ==> c <= 6,
{
    reveal(execute_spec);
}

/// Whether `m2` holds the same readable bytes as `m` at the two addresses on top of the stack
/// pointer `sp`.
pub open spec fn same_stack_top(m: Map<u16, u8>, m2: Map<u16, u8>, sp: u16) -> bool {
    &&& m.dom().contains(sp) && m2.dom().contains(sp) && m2[sp] == m[sp]
    &&& m.dom().contains(add16(sp, 1)) && m2.dom().contains(add16(sp, 1)) && m2[add16(sp, 1)]
        == m[add16(sp, 1)]
}

/// A pop after a push to plain RAM gives back the pushed word and the old stack pointer.
pub proof fn lemma_push_pop(s: CpuState, m: Map<u16, u8>, v: u16)
    requires
        plain_ram(sub16(s.regs.sp, 1)),
        plain_ram(sub16(s.regs.sp, 2)),
    ensures
        pop_ok(push_regs(s), push_mem(s, m, v)),
        top(push_regs(s), push_mem(s, m, v)) == v,
        pop_regs(push_regs(s)).regs.sp == s.regs.sp,
{
    lemma_split_bits(v);
    let sp = s.regs.sp;
    assert(add16(sub16(sp, 2), 1) == sub16(sp, 1));
    assert(add16(sub16(sp, 2), 2) == sp);
}

/// A return reached with the stack pointer and the top of the stack as a call left them
/// goes back to the instruction after the call, with the stack pointer from before the call.
/// `s` is the state after the call's opcode was read.
pub proof fn lemma_call_return(s: CpuState, m: Map<u16, u8>, t: CpuState, m3: Map<u16, u8>)
    requires
        plain_ram(sub16(s.regs.sp, 1)),
        plain_ram(sub16(s.regs.sp, 2)),
        t.regs.sp == execute_spec(s, m, RawInstruction::CallFunction).0.regs.sp,
        same_stack_top(execute_spec(s, m, RawInstruction::CallFunction).1, m3, t.regs.sp),
    ensures
        execute_spec(s, m, RawInstruction::CallFunction).0.regs.pc == imm16(s, m),
        pop_ok(t, m3),
        execute_spec(t, m3, RawInstruction::ReturnFunction).0.regs.pc == add16(s.regs.pc, 2),
        execute_spec(t, m3, RawInstruction::ReturnFunction).0.regs.sp == s.regs.sp,
{
    reveal(execute_spec);
    let s1 = advance(s, 2);
    assert(s1.regs.sp == s.regs.sp);
    lemma_push_pop(s1, m, s1.regs.pc);
}

/// A pop after a push to plain RAM loads the pushed register (pair) into the popped one
/// (`AF` keeping the upper four bits of `F` only) and restores the stack pointer.
pub proof fn lemma_push_then_pop(
    s: CpuState,
    m: Map<u16, u8>,
    pushed: Operand2,
    popped: Operand2,
    t: CpuState,
    m3: Map<u16, u8>,
)
    requires
        plain_ram(sub16(s.regs.sp, 1)),
        plain_ram(sub16(s.regs.sp, 2)),
        t.regs.sp == execute_spec(s, m, RawInstruction::PushRegisterToStack { operand: pushed }).0.regs.sp,
        same_stack_top(
            execute_spec(s, m, RawInstruction::PushRegisterToStack { operand: pushed }).1,
            m3,
            t.regs.sp,
        ),
        popped.register != WordRegisterName::PC,
        popped.register != WordRegisterName::SP,
    ensures
        pop_ok(t, m3),
        execute_spec(t, m3, RawInstruction::PopStackToRegister { operand: popped }).0.regs.word(
            popped.register,
        ) == (if popped.register == WordRegisterName::AF {
            s.regs.word(pushed.register) & 0xFFF0
        } else {
            s.regs.word(pushed.register)
        }),
        execute_spec(t, m3, RawInstruction::PopStackToRegister { operand: popped }).0.regs.sp
            == s.regs.sp,
{
    reveal(execute_spec);
    let v = s.regs.word(pushed.register);
    lemma_push_pop(s, m, v);
    let t1 = pop_regs(t);
    lemma_word_write_read(t1.regs, popped.register, v);
}

/// Incrementing an 8-bit register and then decrementing it gives back its value.
#[verifier::spinoff_prover]
#[verifier::rlimit(40)]
pub proof fn lemma_inc_dec(s: CpuState, m: Map<u16, u8>, r: ShortRegisterName)
    requires
        r != ShortRegisterName::F,
    ensures
        ({
            let (s2, m2, _, _) = execute_spec(
                s,
                m,
                RawInstruction::IncRegister8 { operand: Operand3::Register(r) },
            );
            execute_spec(s2, m2, RawInstruction::DecRegister8 { operand: Operand3::Register(r) }).0.regs.short(r)
                == s.regs.short(r)
        }),
{
    let op = Operand3::Register(r);
    let v = s.regs.short(r);
    let inc = RawInstruction::IncRegister8 { operand: op };
    let dec = RawInstruction::DecRegister8 { operand: op };
    let (s2, m2, _, _) = execute_spec(s, m, inc);
    assert(s2.regs.short(r) == add8(v, 1)) by {
        reveal(execute_spec);
    }
    assert(execute_spec(s2, m2, dec).0.regs.short(r) == sub8(add8(v, 1), 1)) by {
        reveal(execute_spec);
    }
    assert(sub8(add8(v, 1), 1) == v);
}

/// `XOR A` clears the accumulator and leaves the zero flag alone set.
pub proof fn lemma_xor_a_clears(s: CpuState, m: Map<u16, u8>)
    ensures
        execute_spec(s, m, RawInstruction::XorRegister { operand: Operand3::Register(ShortRegisterName::A) }).0.regs.a
            == 0,
        execute_spec(s, m, RawInstruction::XorRegister { operand: Operand3::Register(ShortRegisterName::A) }).0.regs.f
            == 0x80,
{
    reveal(execute_spec);
    let a = s.regs.a;
    assert(a ^ a == 0) by (bit_vector);
}

/// Swapping the nibbles of an 8-bit register twice gives back its value.
pub proof fn lemma_swap_twice(s: CpuState, m: Map<u16, u8>, r: ShortRegisterName)
    requires
        r != ShortRegisterName::F,
    ensures
        ({
            let raw = RawCBInstruction::SwapNibbles { operand: Operand3::Register(r) };
            let (s2, m2, _, _) = execute_cb_spec(s, m, raw);
            execute_cb_spec(s2, m2, raw).0.regs.short(r) == s.regs.short(r)
        }),
{
    lemma_swap_involution(s.regs.short(r));
}

/// A cycle never reports the CB prefix on its own: after the prefix it executes and reports
/// the prefixed instruction.
pub proof fn lemma_cycle_never_reports_prefix(s: CpuState, m: Map<u16, u8>)
    ensures
        cycle_spec(s, m).2 matches Ok((_, i)) ==> i != AnyInstruction::Instruction(
            Instruction::CBPrefix,
        ),
{
}

/// An opcode that does not decode is reported with its error; the cycle then has only read
/// it: the program counter moves past it and nothing else changes.
pub proof fn lemma_cycle_decode_error(s: CpuState, m: Map<u16, u8>)
    ensures
        decode(imm8(s, m)) matches Err(e) ==> cycle_spec(s, m) == (
            advance(s, 1),
            m,
            Err::<(usize, AnyInstruction), CpuError>(e),
        ),
{
}

/// A cycle that pops a register pair, after a cycle that pushed one to plain RAM and with
/// the stack pointer and the top of the stack as that push left them, loads the pushed
/// value into the popped pair (`AF` keeping the upper four bits of `F` only), restores the
/// stack pointer, changes no other register but the program counter, which moves past the
/// opcode, and writes nothing. The push takes 4 machine cycles, the pop 3.
pub proof fn lemma_cycle_push_then_pop(
    s: CpuState,
    m: Map<u16, u8>,
    pushed: Operand2,
    popped: Operand2,
    t: CpuState,
    m3: Map<u16, u8>,
)
    requires
        plain_ram(sub16(s.regs.sp, 1)),
        plain_ram(sub16(s.regs.sp, 2)),
        decode(imm8(s, m)) == Ok::<RawInstruction, CpuError>(RawInstruction::PushRegisterToStack { operand: pushed }),
        decode(imm8(t, m3)) == Ok::<RawInstruction, CpuError>(RawInstruction::PopStackToRegister { operand: popped }),
        t.regs.sp == cycle_spec(s, m).0.regs.sp,
        same_stack_top(cycle_spec(s, m).1, m3, t.regs.sp),
        popped.register != WordRegisterName::PC,
        popped.register != WordRegisterName::SP,
    ensures
        cycle_spec(s, m).2 == Ok::<(usize, AnyInstruction), CpuError>(
            (4usize, AnyInstruction::Instruction(Instruction::PushRegisterToStack { operand: pushed })),
        ),
        cycle_spec(t, m3).2 == Ok::<(usize, AnyInstruction), CpuError>(
            (3usize, AnyInstruction::Instruction(Instruction::PopStackToRegister { operand: popped })),
        ),
        cycle_spec(t, m3).0.regs.word(popped.register) == (if popped.register == WordRegisterName::AF {
            advance(s, 1).regs.word(pushed.register) & 0xFFF0
        } else {
            advance(s, 1).regs.word(pushed.register)
        }),
        cycle_spec(t, m3).0.regs.sp == s.regs.sp,
        cycle_spec(t, m3).0.regs.pc == add16(t.regs.pc, 1),
        forall|o: ShortRegisterName| !part_of(o, popped.register) ==> #[trigger] cycle_spec(t, m3).0.regs.short(o)
            == t.regs.short(o),
        cycle_spec(t, m3).1 == m3,
{
    reveal(execute_spec);
    let s1 = advance(s, 1);
    let t1 = advance(t, 1);
    lemma_push_then_pop(s1, m, pushed, popped, t1, m3);
    let p = pop_regs(t1);
    lemma_word_write_read(p.regs, popped.register, top(t1, m3));
}

} // verus!
