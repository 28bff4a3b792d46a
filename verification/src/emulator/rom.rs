use vstd::prelude::*;
use vstd::arithmetic::power2::pow2;
use vstd::string::StringSliceAdditionalSpecFns;
use vstd::utf8::valid_utf8;

use crate::emulator::mbc::MbcType;

verus! {

/// A cartridge image.
#[derive(Debug)]
pub struct Rom {
    pub data: Vec<u8>,
}

impl Clone for Rom {
    fn clone(&self) -> (r: Self)
        ensures
            r.data@ == self.data@,
    {
        Rom { data: self.data.clone() }
    }
}

/// Index of the first byte of the title in the cartridge header.
pub const TITLE_START: usize = 0x0134;

/// Index one past the last byte of the title.
pub const TITLE_END: usize = 0x0144;

pub const ROM_SIZE_IDX: usize = 0x0148;

pub const RAM_SIZE_IDX: usize = 0x0149;

pub const CARTRIDGE_TYPE_IDX: usize = 0x0147;

/// What a cartridge carries besides its ROM.
#[derive(Debug, Clone, Copy, PartialEq, Eq, Structural)]
pub struct CartridgeType {
    pub mbc_type: MbcType,
    pub ram: bool,
    pub battery: bool,
    pub timer: bool,
    pub rumble: bool,
    pub sensor: bool,
    pub pocket_camera: bool,
    pub bandai_tama5: bool,
}

/// The cartridge type bytes that are understood.
pub open spec fn supported_cartridge(b: u8) -> bool {
    b == 0x00 || b == 0x01 || b == 0x02 || b == 0x03 || b == 0x05 || b == 0x06 || b == 0x08 || b
        == 0x09 || b == 0x0B || b == 0x0C || b == 0x0D || (0x0F <= b <= 0x13) || (0x19 <= b
        <= 0x1E) || b == 0x20 || b == 0x22
}

/// Whether the cartridge type byte `b` is one that is understood.
pub fn is_supported_cartridge(b: u8) -> (r: bool)
    ensures
        r == supported_cartridge(b),
{
    b == 0x00 || b == 0x01 || b == 0x02 || b == 0x03 || b == 0x05 || b == 0x06 || b == 0x08 || b
        == 0x09 || b == 0x0B || b == 0x0C || b == 0x0D || (0x0F <= b && b <= 0x13) || (0x19 <= b
        && b <= 0x1E) || b == 0x20 || b == 0x22
}

/// The controller that cartridge type byte `b` names.
pub open spec fn mbc_of(b: u8) -> MbcType {
    if b == 0x00 || b == 0x08 || b == 0x09 {
        MbcType::RomOnly
    } else if 0x01 <= b <= 0x03 {
        MbcType::MBC1
    } else if b == 0x05 || b == 0x06 {
        MbcType::MBC2
    } else if 0x0B <= b <= 0x0D {
        MbcType::MMM01
    } else if 0x0F <= b <= 0x13 {
        MbcType::MBC3
    } else if 0x19 <= b <= 0x1E {
        MbcType::MBC5
    } else if b == 0x20 {
        MbcType::MBC6
    } else {
        MbcType::MBC7
    }
}

/// The cartridge that type byte `b` (one of the supported bytes) describes.
pub open spec fn cartridge_type_of(b: u8) -> CartridgeType {
    CartridgeType {
        mbc_type: mbc_of(b),
        ram: b == 0x02 || b == 0x03 || b == 0x08 || b == 0x09 || b == 0x0C || b == 0x0D || b
            == 0x10 || b == 0x12 || b == 0x13 || b == 0x1A || b == 0x1B || b == 0x1D || b == 0x1E
            || b == 0x22,
        battery: b == 0x03 || b == 0x06 || b == 0x09 || b == 0x0D || b == 0x0F || b == 0x10 || b
            == 0x13 || b == 0x1B || b == 0x1E || b == 0x22,
        timer: b == 0x0F || b == 0x10,
        rumble: b == 0x1C || b == 0x1D || b == 0x1E || b == 0x22,
        sensor: b == 0x22,
        pocket_camera: false,
        bandai_tama5: false,
    }
}

/// The external RAM in KiB that the RAM size byte `b` (at most 5) announces.
pub open spec fn ram_size_of(b: u8) -> usize {
    if b == 0x02 {
        8
    } else if b == 0x03 {
        32
    } else if b == 0x04 {
        128
    } else if b == 0x05 {
        64
    } else {
        0
    }
}

/// Decodes bytes as UTF-8.
///
/// Wraps `std::str::from_utf8`, whose documentation promises `Ok` exactly for valid
/// UTF-8 and then a string holding those very bytes; the contract states that.
#[verifier::external_body]
fn str_from_utf8(bytes: &[u8]) -> (r: Option<&str>)
    ensures
        r is Some <==> valid_utf8(bytes@),
        r matches Some(s) ==> s.spec_bytes() == bytes@,
{
    match std::str::from_utf8(bytes) {
        Ok(s) => Some(s),
        Err(_) => None,
    }
}

impl CartridgeType {
    /// The cartridge that the type byte `value` describes.
    pub fn from_byte(value: u8) -> (r: Self)
        requires
            supported_cartridge(value),
        ensures
            r == cartridge_type_of(value),
    {
        let plain = CartridgeType {
            mbc_type: MbcType::RomOnly,
            ram: false,
            battery: false,
            timer: false,
            rumble: false,
            sensor: false,
            pocket_camera: false,
            bandai_tama5: false,
        };
        match value {
            0x00 => Self { mbc_type: MbcType::RomOnly, ..plain },
            0x01 => Self { mbc_type: MbcType::MBC1, ..plain },
            0x02 => Self { mbc_type: MbcType::MBC1, ram: true, ..plain },
            0x03 => Self { mbc_type: MbcType::MBC1, ram: true, battery: true, ..plain },
            0x05 => Self { mbc_type: MbcType::MBC2, ..plain },
            0x06 => Self { mbc_type: MbcType::MBC2, battery: true, ..plain },
            0x08 => Self { mbc_type: MbcType::RomOnly, ram: true, ..plain },
            0x09 => Self { mbc_type: MbcType::RomOnly, ram: true, battery: true, ..plain },
            0x0B => Self { mbc_type: MbcType::MMM01, ..plain },
            0x0C => Self { mbc_type: MbcType::MMM01, ram: true, ..plain },
            0x0D => Self { mbc_type: MbcType::MMM01, ram: true, battery: true, ..plain },
            0x0F => Self { mbc_type: MbcType::MBC3, timer: true, battery: true, ..plain },
            0x10 => Self { mbc_type: MbcType::MBC3, timer: true, ram: true, battery: true, ..plain },
            0x11 => Self { mbc_type: MbcType::MBC3, ..plain },
            0x12 => Self { mbc_type: MbcType::MBC3, ram: true, ..plain },
            0x13 => Self { mbc_type: MbcType::MBC3, ram: true, battery: true, ..plain },
            0x19 => Self { mbc_type: MbcType::MBC5, ..plain },
            0x1A => Self { mbc_type: MbcType::MBC5, ram: true, ..plain },
            0x1B => Self { mbc_type: MbcType::MBC5, ram: true, battery: true, ..plain },
            0x1C => Self { mbc_type: MbcType::MBC5, rumble: true, ..plain },
            0x1D => Self { mbc_type: MbcType::MBC5, rumble: true, ram: true, ..plain },
            0x1E => Self { mbc_type: MbcType::MBC5, rumble: true, ram: true, battery: true, ..plain },
            0x20 => Self { mbc_type: MbcType::MBC6, ..plain },
            _ => Self {
                mbc_type: MbcType::MBC7,
                sensor: true,
                rumble: true,
                ram: true,
                battery: true,
                ..plain
            },
        }
    }
}

impl Rom {
    pub fn new(data: Vec<u8>) -> (r: Self)
        ensures
            r.data@ == data@,
    {
        Self { data }
    }

    /// The title stored in the header (bytes `0x134..=0x143`), which must be UTF-8.
    pub fn title(&self) -> (r: &str)
        requires
            self.data@.len() >= TITLE_END,
            valid_utf8(self.data@.subrange(TITLE_START as int, TITLE_END as int)),
        ensures
            r.spec_bytes() == self.data@.subrange(TITLE_START as int, TITLE_END as int),
    {
        let bytes = self.data.as_slice();
        let title_bytes = &bytes[TITLE_START..TITLE_END];
        match str_from_utf8(title_bytes) {
            Some(s) => s,
            None => "",
        }
    }

    /// The cartridge that the header describes.
    pub fn cartridge_type(&self) -> (r: CartridgeType)
        requires
            self.data@.len() > CARTRIDGE_TYPE_IDX,
            supported_cartridge(self.data@[CARTRIDGE_TYPE_IDX as int]),
        ensures
            r == cartridge_type_of(self.data@[CARTRIDGE_TYPE_IDX as int]),
    {
        CartridgeType::from_byte(self.data[CARTRIDGE_TYPE_IDX])
    }

    /// The ROM size in KiB: 32 KiB doubled as often as the size byte says.
    pub fn rom_size(&self) -> (r: usize)
        requires
            self.data@.len() > ROM_SIZE_IDX,
            self.data@[ROM_SIZE_IDX as int] + 5 < usize::BITS,
        ensures
            r == 32 * pow2(self.data@[ROM_SIZE_IDX as int] as nat),
    {
        let shift = self.data[ROM_SIZE_IDX] as usize;
        proof {
            vstd::bits::lemma_usize_pow2_no_overflow(shift as nat);
            vstd::arithmetic::power2::lemma_pow2_adds(shift as nat, 5);
            vstd::arithmetic::power2::lemma2_to64();
            vstd::bits::lemma_usize_pow2_no_overflow((shift + 5) as nat);
            vstd::bits::lemma_usize_shl_is_mul(1, shift);
        }
        32 * (1usize << shift)
    }

    /// The external RAM size in KiB that the header announces.
    pub fn ram_size(&self) -> (r: usize)
        requires
            self.data@.len() > RAM_SIZE_IDX,
            self.data@[RAM_SIZE_IDX as int] <= 5,
        ensures
            r == ram_size_of(self.data@[RAM_SIZE_IDX as int]),
    {
        match self.data[RAM_SIZE_IDX] {
            0x00 => 0,
            0x01 => 0,
            0x02 => 8,
            0x03 => 32,
            0x04 => 128,
            _ => 64,
        }
    }
}

/// The controller that a type byte names goes by families of bytes: ROM only for `0x00`,
/// `0x08` and `0x09`; MBC1 for `0x01` to `0x03`; MBC2 for `0x05` and `0x06`; MMM01 for
/// `0x0B` to `0x0D`; MBC3 for `0x0F` to `0x13`; MBC5 for `0x19` to `0x1E`; MBC6 for `0x20`;
/// MBC7 for `0x22`.
pub proof fn lemma_cartridge_mapper(b: u8)
    requires
        supported_cartridge(b),
    ensures
        (cartridge_type_of(b).mbc_type == MbcType::RomOnly) == (b == 0x00 || b == 0x08 || b == 0x09),
        (cartridge_type_of(b).mbc_type == MbcType::MBC1) == (0x01 <= b <= 0x03),
        (cartridge_type_of(b).mbc_type == MbcType::MBC2) == (b == 0x05 || b == 0x06),
        (cartridge_type_of(b).mbc_type == MbcType::MMM01) == (0x0B <= b <= 0x0D),
        (cartridge_type_of(b).mbc_type == MbcType::MBC3) == (0x0F <= b <= 0x13),
        (cartridge_type_of(b).mbc_type == MbcType::MBC5) == (0x19 <= b <= 0x1E),
        (cartridge_type_of(b).mbc_type == MbcType::MBC6) == (b == 0x20),
        (cartridge_type_of(b).mbc_type == MbcType::MBC7) == (b == 0x22),
{
}

/// Within a family of type bytes, the first carries nothing besides its controller, the next
/// adds RAM and the one after adds a battery to that; MBC3 with a timer comes as `0x0F`
/// (timer and battery) and `0x10` (with RAM as well); MBC5 with rumble repeats the pattern
/// from `0x1C`, and `0x22` carries a sensor, rumble, RAM and a battery.
pub proof fn lemma_cartridge_variants()
    ensures
        forall|b: u8|
            #![trigger cartridge_type_of(b)]
            b == 0x00 || b == 0x01 || b == 0x05 || b == 0x0B || b == 0x11 || b == 0x19 || b == 0x20
                ==> cartridge_type_of(b) == (CartridgeType {
                mbc_type: cartridge_type_of(b).mbc_type,
                ram: false,
                battery: false,
                timer: false,
                rumble: false,
                sensor: false,
                pocket_camera: false,
                bandai_tama5: false,
            }),
        forall|b: u8|
            #![trigger cartridge_type_of(b)]
            b == 0x01 || b == 0x0B || b == 0x11 || b == 0x19 || b == 0x1C ==> {
                &&& cartridge_type_of((b + 1) as u8) == (CartridgeType { ram: true, ..cartridge_type_of(b) })
                &&& cartridge_type_of((b + 2) as u8) == (CartridgeType {
                    battery: true,
                    ..cartridge_type_of((b + 1) as u8)
                })
            },
        cartridge_type_of(0x08) == (CartridgeType { ram: true, ..cartridge_type_of(0x00) }),
        cartridge_type_of(0x09) == (CartridgeType { battery: true, ..cartridge_type_of(0x08) }),
        cartridge_type_of(0x06) == (CartridgeType { battery: true, ..cartridge_type_of(0x05) }),
        cartridge_type_of(0x0F) == (CartridgeType { timer: true, battery: true, ..cartridge_type_of(0x11) }),
        cartridge_type_of(0x10) == (CartridgeType { ram: true, ..cartridge_type_of(0x0F) }),
        cartridge_type_of(0x1C) == (CartridgeType { rumble: true, ..cartridge_type_of(0x19) }),
        cartridge_type_of(0x22) == (CartridgeType {
            mbc_type: MbcType::MBC7,
            sensor: true,
            rumble: true,
            ram: true,
            battery: true,
            ..cartridge_type_of(0x00)
        }),
{
}

} // verus!
