use ohboy::emulator::cpu::alu::{
    add_carry_16, add_carry_8, high_address, is_half_carry_16, is_half_carry_8, lower_nibble,
    reset_bit, sub_carry, swap_nibbles, u16_le, u16_lsb, u16_msb, upper_nibble,
};
use ohboy::emulator::cpu::register::{CpuFlags, Registers, ShortRegisterName, WordRegisterName};
use ohboy::emulator::register::{
    ByteRegisterRead, ByteRegisterWrite, Register, WordRegisterRead, WordRegisterWrite,
};
use ohboy::flags::Flags;

#[test]
fn short_registers_read_back_what_was_written() {
    let mut regs = Registers::new();
    for (name, value) in [
        (ShortRegisterName::A, 0x11u8),
        (ShortRegisterName::B, 0x22),
        (ShortRegisterName::C, 0x33),
        (ShortRegisterName::D, 0x44),
        (ShortRegisterName::E, 0x55),
        (ShortRegisterName::H, 0x66),
        (ShortRegisterName::L, 0x77),
    ] {
        regs.get_short_register_mut(name).set_u8(value);
        assert_eq!(regs.get_short_register(name).get_u8(), value);
    }
    assert_eq!(regs.get_word_register(WordRegisterName::BC).get_u16(), 0x2233);
    assert_eq!(regs.get_word_register(WordRegisterName::DE).get_u16(), 0x4455);
    assert_eq!(regs.get_word_register(WordRegisterName::HL).get_u16(), 0x6677);
    assert_eq!(regs.pc.get(), 0x0100);
    assert_eq!(regs.sp.get(), 0xFFFE);
}

#[test]
fn flag_register_keeps_its_upper_nibble() {
    let mut regs = Registers::new();
    regs.get_short_register_mut(ShortRegisterName::F).set_u8(0xAB);
    assert_eq!(regs.get_short_register(ShortRegisterName::F).get_u8(), 0xA0);
    assert_eq!(regs.f.get().bits(), 0xA0);
}

#[test]
fn word_registers_read_back_what_was_written() {
    let mut regs = Registers::new();
    for (name, value) in [
        (WordRegisterName::BC, 0x1234u16),
        (WordRegisterName::DE, 0x5678),
        (WordRegisterName::HL, 0x9ABC),
        (WordRegisterName::PC, 0xDEF0),
        (WordRegisterName::SP, 0x0FED),
    ] {
        regs.get_word_register_mut(name).set_u16(value);
        assert_eq!(regs.get_word_register(name).get_u16(), value);
    }
    regs.get_word_register_mut(WordRegisterName::AF).set_u16(0x1234);
    assert_eq!(regs.get_word_register(WordRegisterName::AF).get_u16(), 0x1230);
    assert_eq!(regs.a.get(), 0x12);
    assert_eq!(regs.b.get(), 0x12);
    assert_eq!(regs.c.get(), 0x34);
    assert_eq!(regs.h.get(), 0x9A);
    assert_eq!(regs.l.get(), 0xBC);
}

#[test]
fn updates_through_handles() {
    let mut regs = Registers::new();
    let r = regs.hl_mut().update_u16(|v| v.wrapping_add(0x0100));
    assert_eq!(r, 0x024D);
    assert_eq!(regs.hl().get_u16(), 0x024D);
    let r = regs.get_short_register_mut(ShortRegisterName::A).update_u8(|v| v + 1);
    assert_eq!(r, 2);
    assert_eq!(regs.a.get(), 2);
    regs.af_mut().set_u16(0xFFFF);
    assert_eq!(regs.af().get_u16(), 0xFFF0);
    regs.bc_mut().set_u16(0x0102);
    regs.de_mut().set_u16(0x0304);
    assert_eq!(regs.bc().get_u16(), 0x0102);
    assert_eq!(regs.de().get_u16(), 0x0304);
    assert_eq!(regs.get_word_register_mut(WordRegisterName::DE).get_u16(), 0x0304);
    assert_eq!(regs.get_short_register_mut(ShortRegisterName::E).get_u8(), 0x04);
}

#[test]
fn plain_registers() {
    let mut r: Register<u8> = Register::new(5);
    assert_eq!(r.get(), 5);
    assert_eq!(r.update(|v| v * 3), 15);
    assert_eq!(r.get(), 15);
    r.set(1);
    assert_eq!(r.get_u8(), 1);
    r.set_u8(9);
    assert_eq!(r.get(), 9);
    let mut w: Register<u16> = Register::new(0x1234);
    assert_eq!(w.get_u16(), 0x1234);
    w.set_u16(0xBEEF);
    assert_eq!(w.update_u16(|v| v ^ 0xFFFF), 0x4110);
    let mut flags: Register<CpuFlags> = Register::from_bits_retain(0x0F);
    assert_eq!(flags.get().bits(), 0x0F);
    flags.set_retain(0xFF);
    assert_eq!(flags.get().bits(), 0xFF);
    flags.set_u8(0xFF);
    assert_eq!(flags.get_u8(), 0xF0);
    let copy = flags.clone();
    assert_eq!(copy.get().bits(), 0xF0);
}

#[test]
fn cpu_flags() {
    assert_eq!(CpuFlags::from_bits_truncate(0xFF).bits(), 0xF0);
    assert_eq!(CpuFlags::all_bits(), 0xF0);
    let mut f = CpuFlags::empty();
    f.set(CpuFlags::ZERO, true);
    f.insert(CpuFlags::CARRY);
    assert_eq!(f.bits(), 0x90);
    assert!(f.contains(CpuFlags::ZERO | CpuFlags::CARRY));
    f.remove(CpuFlags::ZERO);
    assert_eq!(f.bits(), 0x10);
}

#[test]
fn byte_and_word_helpers() {
    assert_eq!(u16_le(0x34, 0x12), 0x1234);
    assert_eq!(u16_lsb(0xABCD), 0xCD);
    assert_eq!(u16_msb(0xABCD), 0xAB);
    assert_eq!(lower_nibble(0xA7), 0x07);
    assert_eq!(upper_nibble(0xA7), 0x0A);
    assert_eq!(swap_nibbles(0x12), 0x21);
    assert_eq!(swap_nibbles(swap_nibbles(0xC4)), 0xC4);
    assert_eq!(high_address(0x80), 0xFF80);
    assert_eq!(high_address(0x00), 0xFF00);
    assert_eq!(reset_bit(0xFF, 3), 0xF7);
    assert_eq!(reset_bit(0x08, 3), 0x00);
    assert_eq!(reset_bit(0x08, 2), 0x08);
}

#[test]
fn carries() {
    let r = add_carry_8(0x0F, 0x01);
    assert_eq!((r.result, r.carry, r.half_carry), (0x10, false, true));
    let r = add_carry_8(0xFF, 0x01);
    assert_eq!((r.result, r.carry, r.half_carry), (0x00, true, true));
    let r = add_carry_8(0x20, 0x30);
    assert_eq!((r.result, r.carry, r.half_carry), (0x50, false, false));
    let r = sub_carry(0x10, 0x01);
    assert_eq!((r.result, r.carry, r.half_carry), (0x0F, false, true));
    let r = sub_carry(0x00, 0x01);
    assert_eq!((r.result, r.carry, r.half_carry), (0xFF, true, true));
    let r = sub_carry(0x05, 0x05);
    assert_eq!((r.result, r.carry, r.half_carry), (0x00, false, false));
    let r = add_carry_16(0x0FFF, 0x0001);
    assert_eq!((r.result, r.carry, r.half_carry), (0x1000, false, true));
    let r = add_carry_16(0xFFFF, 0x0001);
    assert_eq!((r.result, r.carry, r.half_carry), (0x0000, true, true));
    assert!(is_half_carry_8(0x0F, 0x01, 0x10));
    assert!(!is_half_carry_8(0x01, 0x01, 0x02));
    assert!(is_half_carry_16(0x0FFF, 0x0001, 0x1000));
    assert!(!is_half_carry_16(0x0001, 0x0001, 0x0002));
}
