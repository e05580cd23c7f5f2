//! Cartridge ROM images: header parsing, validation, and banked access.
//!
//! A ROM image is a byte buffer whose length is a positive multiple of the
//! 16 KiB bank size. The header at fixed offsets carries a 48-byte logo, a
//! 16-byte title, licensee and support flags, and size codes for the ROM
//! and RAM banks. Construction validates every rule in order and fails
//! with the first rule broken.

use vstd::prelude::*;

verus! {

/// Size in bytes of one ROM bank.
pub const BANK_SIZE: usize = 16384;

/// Everything that can be wrong with a ROM image at construction time.
#[derive(Clone, Copy, Debug, PartialEq, Eq, Structural)]
pub enum CartridgeError {
    /// The buffer is shorter than the 0x150 bytes a header needs.
    RomTooSmall,
    /// The buffer length is not a multiple of the bank size.
    MisalignedRomSize,
    /// The fixed 48-byte logo at 0x104 does not match.
    LogoMismatch,
    /// The new-licensee code bytes are not two ASCII digits.
    MalformedTitleBytes,
    /// The cartridge-type byte is not a known hardware configuration.
    UnrecognizedCartridgeType,
    /// The ROM-size code is not a known bank count.
    UnrecognizedRomSizeCode,
    /// The RAM-size code is not a known bank count.
    UnrecognizedRamSizeCode,
}

/// The known hardware configurations a cartridge-type byte can name.
#[derive(Clone, Copy, Debug, PartialEq, Eq, Structural)]
pub enum CartridgeType {
    RomOnly,
    Mbc1,
    Mbc1Ram,
    Mbc1RamBattery,
    Mbc2,
    Mbc2Battery,
    RomRam,
    RomRamBattery,
    Mmm01,
    Mmm01Ram,
    Mmm01RamBattery,
    Mbc3TimerBattery,
    Mbc3TimerRamBattery,
    Mbc3,
    Mbc3Ram,
    Mbc3RamBattery,
    Mbc5,
    Mbc5Ram,
    Mbc5RamBattery,
    Mbc5Rumble,
    Mbc5RumbleRam,
    Mbc5RumbleRamBattery,
    Mbc6,
    Mbc7SensorRumbleRamBattery,
    PocketCamera,
    BandaiTama5,
    HuC3,
    HuC1RamBattery,
}

/// One byte of the fixed 48-byte logo that a valid header must carry.
pub open spec fn spec_logo_byte(i: int) -> u8 {
    if i == 0 {
        0xCE
    } else if i == 1 {
        0xED
    } else if i == 2 {
        0x66
    } else if i == 3 {
        0x66
    } else if i == 4 {
        0xCC
    } else if i == 5 {
        0x0D
    } else if i == 6 {
        0x00
    } else if i == 7 {
        0x0B
    } else if i == 8 {
        0x03
    } else if i == 9 {
        0x73
    } else if i == 10 {
        0x00
    } else if i == 11 {
        0x83
    } else if i == 12 {
        0x00
    } else if i == 13 {
        0x0C
    } else if i == 14 {
        0x00
    } else if i == 15 {
        0x0D
    } else if i == 16 {
        0x00
    } else if i == 17 {
        0x08
    } else if i == 18 {
        0x11
    } else if i == 19 {
        0x1F
    } else if i == 20 {
        0x88
    } else if i == 21 {
        0x89
    } else if i == 22 {
        0x00
    } else if i == 23 {
        0x0E
    } else if i == 24 {
        0xDC
    } else if i == 25 {
        0xCC
    } else if i == 26 {
        0x6E
    } else if i == 27 {
        0xE6
    } else if i == 28 {
        0xDD
    } else if i == 29 {
        0xDD
    } else if i == 30 {
        0xD9
    } else if i == 31 {
        0x99
    } else if i == 32 {
        0xBB
    } else if i == 33 {
        0xBB
    } else if i == 34 {
        0x67
    } else if i == 35 {
        0x63
    } else if i == 36 {
        0x6E
    } else if i == 37 {
        0x0E
    } else if i == 38 {
        0xEC
    } else if i == 39 {
        0xCC
    } else if i == 40 {
        0xDD
    } else if i == 41 {
        0xDC
    } else if i == 42 {
        0x99
    } else if i == 43 {
        0x9F
    } else if i == 44 {
        0xBB
    } else if i == 45 {
        0xB9
    } else if i == 46 {
        0x33
    } else {
        0x3E
    }
}

/// Fetch one logo byte for the header check.
fn logo_byte(i: usize) -> (b: u8)
    requires
        i < 48,
    ensures
        b == spec_logo_byte(i as int),
{
    match i {
        0 => 0xCE,
        1 => 0xED,
        2 => 0x66,
        3 => 0x66,
        4 => 0xCC,
        5 => 0x0D,
        6 => 0x00,
        7 => 0x0B,
        8 => 0x03,
        9 => 0x73,
        10 => 0x00,
        11 => 0x83,
        12 => 0x00,
        13 => 0x0C,
        14 => 0x00,
        15 => 0x0D,
        16 => 0x00,
        17 => 0x08,
        18 => 0x11,
        19 => 0x1F,
        20 => 0x88,
        21 => 0x89,
        22 => 0x00,
        23 => 0x0E,
        24 => 0xDC,
        25 => 0xCC,
        26 => 0x6E,
        27 => 0xE6,
        28 => 0xDD,
        29 => 0xDD,
        30 => 0xD9,
        31 => 0x99,
        32 => 0xBB,
        33 => 0xBB,
        34 => 0x67,
        35 => 0x63,
        36 => 0x6E,
        37 => 0x0E,
        38 => 0xEC,
        39 => 0xCC,
        40 => 0xDD,
        41 => 0xDC,
        42 => 0x99,
        43 => 0x9F,
        44 => 0xBB,
        45 => 0xB9,
        46 => 0x33,
        _ => 0x3E,
    }
}

/// The hardware-configuration code of the cartridge-type byte, if recognized.
pub open spec fn spec_cartridge_type(b: u8) -> Option<CartridgeType> {
    if b == 0x00 {
        Some(CartridgeType::RomOnly)
    } else if b == 0x01 {
        Some(CartridgeType::Mbc1)
    } else if b == 0x02 {
        Some(CartridgeType::Mbc1Ram)
    } else if b == 0x03 {
        Some(CartridgeType::Mbc1RamBattery)
    } else if b == 0x05 {
        Some(CartridgeType::Mbc2)
    } else if b == 0x06 {
        Some(CartridgeType::Mbc2Battery)
    } else if b == 0x08 {
        Some(CartridgeType::RomRam)
    } else if b == 0x09 {
        Some(CartridgeType::RomRamBattery)
    } else if b == 0x0B {
        Some(CartridgeType::Mmm01)
    } else if b == 0x0C {
        Some(CartridgeType::Mmm01Ram)
    } else if b == 0x0D {
        Some(CartridgeType::Mmm01RamBattery)
    } else if b == 0x0F {
        Some(CartridgeType::Mbc3TimerBattery)
    } else if b == 0x10 {
        Some(CartridgeType::Mbc3TimerRamBattery)
    } else if b == 0x11 {
        Some(CartridgeType::Mbc3)
    } else if b == 0x12 {
        Some(CartridgeType::Mbc3Ram)
    } else if b == 0x13 {
        Some(CartridgeType::Mbc3RamBattery)
    } else if b == 0x19 {
        Some(CartridgeType::Mbc5)
    } else if b == 0x1A {
        Some(CartridgeType::Mbc5Ram)
    } else if b == 0x1B {
        Some(CartridgeType::Mbc5RamBattery)
    } else if b == 0x1C {
        Some(CartridgeType::Mbc5Rumble)
    } else if b == 0x1D {
        Some(CartridgeType::Mbc5RumbleRam)
    } else if b == 0x1E {
        Some(CartridgeType::Mbc5RumbleRamBattery)
    } else if b == 0x20 {
        Some(CartridgeType::Mbc6)
    } else if b == 0x22 {
        Some(CartridgeType::Mbc7SensorRumbleRamBattery)
    } else if b == 0xFC {
        Some(CartridgeType::PocketCamera)
    } else if b == 0xFD {
        Some(CartridgeType::BandaiTama5)
    } else if b == 0xFE {
        Some(CartridgeType::HuC3)
    } else if b == 0xFF {
        Some(CartridgeType::HuC1RamBattery)
    } else {
        None
    }
}

/// The cartridge-type byte decoded to its hardware configuration, if known.
pub fn cartridge_type_from_byte(b: u8) -> (r: Option<CartridgeType>)
    ensures
        r == spec_cartridge_type(b),
{
    match b {
        0x00 => Some(CartridgeType::RomOnly),
        0x01 => Some(CartridgeType::Mbc1),
        0x02 => Some(CartridgeType::Mbc1Ram),
        0x03 => Some(CartridgeType::Mbc1RamBattery),
        0x05 => Some(CartridgeType::Mbc2),
        0x06 => Some(CartridgeType::Mbc2Battery),
        0x08 => Some(CartridgeType::RomRam),
        0x09 => Some(CartridgeType::RomRamBattery),
        0x0B => Some(CartridgeType::Mmm01),
        0x0C => Some(CartridgeType::Mmm01Ram),
        0x0D => Some(CartridgeType::Mmm01RamBattery),
        0x0F => Some(CartridgeType::Mbc3TimerBattery),
        0x10 => Some(CartridgeType::Mbc3TimerRamBattery),
        0x11 => Some(CartridgeType::Mbc3),
        0x12 => Some(CartridgeType::Mbc3Ram),
        0x13 => Some(CartridgeType::Mbc3RamBattery),
        0x19 => Some(CartridgeType::Mbc5),
        0x1A => Some(CartridgeType::Mbc5Ram),
        0x1B => Some(CartridgeType::Mbc5RamBattery),
        0x1C => Some(CartridgeType::Mbc5Rumble),
        0x1D => Some(CartridgeType::Mbc5RumbleRam),
        0x1E => Some(CartridgeType::Mbc5RumbleRamBattery),
        0x20 => Some(CartridgeType::Mbc6),
        0x22 => Some(CartridgeType::Mbc7SensorRumbleRamBattery),
        0xFC => Some(CartridgeType::PocketCamera),
        0xFD => Some(CartridgeType::BandaiTama5),
        0xFE => Some(CartridgeType::HuC3),
        0xFF => Some(CartridgeType::HuC1RamBattery),
        _ => None,
    }
}

/// Bank count for a ROM-size code, if the code is recognized.
pub open spec fn spec_rom_banks(code: u8) -> Option<u16> {
    if code == 0x00 {
        Some(2u16)
    } else if code == 0x01 {
        Some(4u16)
    } else if code == 0x02 {
        Some(8u16)
    } else if code == 0x03 {
        Some(16u16)
    } else if code == 0x04 {
        Some(32u16)
    } else if code == 0x05 {
        Some(64u16)
    } else if code == 0x06 {
        Some(128u16)
    } else if code == 0x07 {
        Some(256u16)
    } else if code == 0x08 {
        Some(512u16)
    } else if code == 0x52 {
        Some(72u16)
    } else if code == 0x53 {
        Some(80u16)
    } else if code == 0x54 {
        Some(96u16)
    } else {
        None
    }
}

/// The ROM-size code decoded to a bank count: codes 0 through 8 give
/// two raised to the code plus one, and three special codes give 72, 80
/// and 96 banks.
pub fn rom_banks_from_code(code: u8) -> (r: Option<u16>)
    ensures
        r == spec_rom_banks(code),
{
    match code {
        0x00 => Some(2),
        0x01 => Some(4),
        0x02 => Some(8),
        0x03 => Some(16),
        0x04 => Some(32),
        0x05 => Some(64),
        0x06 => Some(128),
        0x07 => Some(256),
        0x08 => Some(512),
        0x52 => Some(72),
        0x53 => Some(80),
        0x54 => Some(96),
        _ => None,
    }
}

/// Bank count for a RAM-size code, if the code is recognized.
pub open spec fn spec_ram_banks(code: u8) -> Option<u8> {
    if code == 0x00 {
        Some(0u8)
    } else if code == 0x02 {
        Some(1u8)
    } else if code == 0x03 {
        Some(4u8)
    } else if code == 0x04 {
        Some(16u8)
    } else if code == 0x05 {
        Some(8u8)
    } else {
        None
    }
}

/// The RAM-size code decoded to a count of 8 KiB banks.
pub fn ram_banks_from_code(code: u8) -> (r: Option<u8>)
    ensures
        r == spec_ram_banks(code),
{
    match code {
        0x00 => Some(0),
        0x02 => Some(1),
        0x03 => Some(4),
        0x04 => Some(16),
        0x05 => Some(8),
        _ => None,
    }
}


/// True when `b` is an ASCII decimal digit.
pub open spec fn spec_is_ascii_digit(b: u8) -> bool {
    0x30 <= b <= 0x39
}

/// The numeric value of two ASCII digit bytes read as a two-digit decimal
/// number, or nothing when either byte is not a digit.
pub open spec fn spec_licensee_digits(b0: u8, b1: u8) -> Option<u8> {
    if spec_is_ascii_digit(b0) && spec_is_ascii_digit(b1) {
        Some((((b0 - 0x30) * 10 + (b1 - 0x30))) as u8)
    } else {
        None
    }
}

/// Parse the two new-licensee bytes as a two-digit decimal number.
pub fn parse_licensee_digits(b0: u8, b1: u8) -> (r: Option<u8>)
    ensures
        r == spec_licensee_digits(b0, b1),
{
    if 0x30 <= b0 && b0 <= 0x39 && 0x30 <= b1 && b1 <= 0x39 {
        Some((b0 - 0x30) * 10 + (b1 - 0x30))
    } else {
        None
    }
}

/// True when the 48 bytes at 0x104 equal the fixed logo.
pub open spec fn spec_logo_ok(rom: Seq<u8>) -> bool {
    forall|i: int| 0 <= i < 48 ==> rom[0x104 + i] == spec_logo_byte(i)
}

/// True when the byte at 0x14B selects the new licensee scheme.
pub open spec fn spec_uses_new_licensee(rom: Seq<u8>) -> bool {
    rom[0x14B] == 0x33
}

/// True when the licensee information can be decoded: under the new
/// scheme the two bytes at 0x144 must be ASCII digits, and the old scheme
/// always decodes.
pub open spec fn spec_licensee_ok(rom: Seq<u8>) -> bool {
    spec_uses_new_licensee(rom) ==> spec_licensee_digits(rom[0x144], rom[0x145]) is Some
}

/// The licensee code of a ROM whose licensee information decodes.
pub open spec fn spec_licensee_code(rom: Seq<u8>) -> u8 {
    if spec_uses_new_licensee(rom) {
        spec_licensee_digits(rom[0x144], rom[0x145]).unwrap()
    } else {
        rom[0x148]
    }
}

/// Color-device support: the new licensee scheme must be in use and the
/// last title byte must carry one of the two support markers.
pub open spec fn spec_cgb_support(rom: Seq<u8>) -> bool {
    spec_uses_new_licensee(rom) && (rom[0x143] == 0x80 || rom[0x143] == 0xC0)
}

/// Super-device support: the byte at 0x146 equals 3.
pub open spec fn spec_sgb_support(rom: Seq<u8>) -> bool {
    rom[0x146] == 0x03
}

/// The first header rule that `rom` breaks, in validation order, or
/// nothing when the image is valid.
pub open spec fn spec_cartridge_error(rom: Seq<u8>) -> Option<CartridgeError> {
    if rom.len() < 0x150 {
        Some(CartridgeError::RomTooSmall)
    } else if (rom.len() as int) % (BANK_SIZE as int) != 0 {
        Some(CartridgeError::MisalignedRomSize)
    } else if !spec_logo_ok(rom) {
        Some(CartridgeError::LogoMismatch)
    } else if !spec_licensee_ok(rom) {
        Some(CartridgeError::MalformedTitleBytes)
    } else if spec_cartridge_type(rom[0x147]) is None {
        Some(CartridgeError::UnrecognizedCartridgeType)
    } else if spec_rom_banks(rom[0x148]) is None {
        Some(CartridgeError::UnrecognizedRomSizeCode)
    } else if spec_ram_banks(rom[0x149]) is None {
        Some(CartridgeError::UnrecognizedRamSizeCode)
    } else {
        None
    }
}

/// The parsed, validated header of a ROM image. Immutable once built.
#[derive(Debug, Clone, PartialEq, Eq)]
pub struct CartridgeHeader {
    /// The 16 raw title bytes at 0x134.
    pub title: Vec<u8>,
    /// Licensee code: two decimal digits under the new scheme, else the
    /// raw byte at 0x148.
    pub licensee_code: u8,
    /// Whether the image declares color-device support.
    pub cgb_support: bool,
    /// Whether the image declares super-device support.
    pub sgb_support: bool,
    /// The hardware configuration the type byte names.
    pub cartridge_type: CartridgeType,
    /// How many 16 KiB ROM banks the size code declares.
    pub rom_banks: u16,
    /// How many 8 KiB RAM banks the size code declares.
    pub ram_banks: u8,
}

impl CartridgeHeader {
    /// The title field always holds its 16 raw bytes.
    pub open spec fn wf(&self) -> bool {
        self.title@.len() == 16
    }

    /// Every header field agrees with the raw image it was parsed from.
    pub open spec fn matches_rom(&self, rom: Seq<u8>) -> bool {
        &&& self.title@ == rom.subrange(0x134, 0x144)
        &&& self.licensee_code == spec_licensee_code(rom)
        &&& self.cgb_support == spec_cgb_support(rom)
        &&& self.sgb_support == spec_sgb_support(rom)
        &&& Some(self.cartridge_type) == spec_cartridge_type(rom[0x147])
        &&& Some(self.rom_banks) == spec_rom_banks(rom[0x148])
        &&& Some(self.ram_banks) == spec_ram_banks(rom[0x149])
    }

    /// Parse and validate the header region of `rom`, which is already
    /// known to be large enough and bank-aligned.
    fn from_rom(rom: &Vec<u8>) -> (r: Result<CartridgeHeader, CartridgeError>)
        requires
            rom@.len() >= 0x150,
            (rom@.len() as int) % (BANK_SIZE as int) == 0,
        ensures
            match r {
                Ok(h) => spec_cartridge_error(rom@) is None && h.wf() && h.matches_rom(rom@),
                Err(e) => spec_cartridge_error(rom@) == Some(e),
            },
    {
        let mut i: usize = 0;
        while i < 48
            invariant
                rom@.len() >= 0x150,
                (rom@.len() as int) % (BANK_SIZE as int) == 0,
                i <= 48,
                forall|j: int| 0 <= j < i ==> rom@[0x104 + j] == spec_logo_byte(j),
            decreases 48 - i,
        {
            if rom[0x104 + i] != logo_byte(i) {
                proof {
                    assert(!spec_logo_ok(rom@));
                }
                return Err(CartridgeError::LogoMismatch);
            }
            i += 1;
        }

        let mut title: Vec<u8> = Vec::new();
        let mut k: usize = 0;
        while k < 16
            invariant
                rom@.len() >= 0x150,
                k <= 16,
                title@ =~= rom@.subrange(0x134, 0x134 + k),
            decreases 16 - k,
        {
            title.push(rom[0x134 + k]);
            k += 1;
        }
        assert(title@ =~= rom@.subrange(0x134, 0x144));

        let uses_new_licensee = rom[0x14B] == 0x33;

        let licensee_code = if uses_new_licensee {
            match parse_licensee_digits(rom[0x144], rom[0x145]) {
                Some(v) => v,
                None => {
                    return Err(CartridgeError::MalformedTitleBytes);
                },
            }
        } else {
            rom[0x148]
        };

        let cgb_support = uses_new_licensee && (title[15] == 0x80 || title[15] == 0xC0);
        assert(title@[15] == rom@[0x143]);

        let sgb_support = rom[0x146] == 0x03;

        let cartridge_type = match cartridge_type_from_byte(rom[0x147]) {
            Some(t) => t,
            None => {
                return Err(CartridgeError::UnrecognizedCartridgeType);
            },
        };

        let rom_banks = match rom_banks_from_code(rom[0x148]) {
            Some(n) => n,
            None => {
                return Err(CartridgeError::UnrecognizedRomSizeCode);
            },
        };

        let ram_banks = match ram_banks_from_code(rom[0x149]) {
            Some(n) => n,
            None => {
                return Err(CartridgeError::UnrecognizedRamSizeCode);
            },
        };

        Ok(
            CartridgeHeader {
                title,
                licensee_code,
                cgb_support,
                sgb_support,
                cartridge_type,
                rom_banks,
                ram_banks,
            },
        )
    }

    /// The longest prefix of the title whose bytes are in the printable
    /// range 32 through 96; a display layer turns these into text.
    pub fn printable_title_prefix(&self) -> (r: Vec<u8>)
        requires
            self.wf(),
        ensures
            r@.len() <= 16,
            forall|j: int| 0 <= j < r@.len() ==> r@[j] == self.title@[j] && 32 <= r@[j] <= 96,
            r@.len() < 16 ==> !(32 <= self.title@[r@.len() as int] <= 96),
    {
        let mut out: Vec<u8> = Vec::new();
        let mut i: usize = 0;
        while i < 16
            invariant
                self.wf(),
                i <= 16,
                out@.len() == i,
                forall|j: int| 0 <= j < i ==> out@[j] == self.title@[j] && 32 <= out@[j] <= 96,
            decreases 16 - i,
        {
            let b = self.title[i];
            if 32 <= b && b <= 96 {
                out.push(b);
                i += 1;
            } else {
                return out;
            }
        }
        out
    }
}

/// A cartridge: the whole ROM buffer, its bank count, the currently
/// selected switchable bank, and the validated header.
#[derive(Debug)]
pub struct Cartridge {
    /// Name of the file the image came from, kept for diagnostics.
    pub file_name: String,
    /// The raw ROM bytes; length is `num_banks` times the bank size.
    pub rom: Vec<u8>,
    /// How many 16 KiB banks the buffer holds.
    pub num_banks: usize,
    /// Index of the currently selected switchable bank. Bank selection is
    /// outside this core, so the index never changes after construction.
    pub cur_index: usize,
    /// The validated header.
    pub header: CartridgeHeader,
}

impl Cartridge {
    /// The buffer is whole banks, there is at least one bank, and the
    /// selected bank exists.
    pub open spec fn wf(&self) -> bool {
        &&& self.rom@.len() == self.num_banks * (BANK_SIZE as int)
        &&& 1 <= self.num_banks
        &&& self.cur_index < self.num_banks
        &&& self.header.wf()
    }

    /// Validate `rom` and build a cartridge around it. The selected bank
    /// starts at 1 when the image has more than one bank, else at 0.
    pub fn new(file_name: &str, rom: Vec<u8>) -> (r: Result<Cartridge, CartridgeError>)
        ensures
            match r {
                Ok(c) => {
                    &&& spec_cartridge_error(rom@) is None
                    &&& c.wf()
                    &&& c.rom@ == rom@
                    &&& c.file_name@ == file_name@
                    &&& c.num_banks == (rom@.len() as int) / (BANK_SIZE as int)
                    &&& c.cur_index == (if c.num_banks > 1 { 1int } else { 0int })
                    &&& c.header.matches_rom(rom@)
                },
                Err(e) => spec_cartridge_error(rom@) == Some(e),
            },
    {
        let data_len = rom.len();

        if data_len < 0x150 {
            return Err(CartridgeError::RomTooSmall);
        }
        if data_len % BANK_SIZE != 0 {
            return Err(CartridgeError::MisalignedRomSize);
        }

        let header = match CartridgeHeader::from_rom(&rom) {
            Ok(h) => h,
            Err(e) => {
                return Err(e);
            },
        };

        let num_banks = data_len / BANK_SIZE;
        let cur_index: usize = if num_banks > 1 {
            1
        } else {
            0
        };

        proof {
            vstd::arithmetic::div_mod::lemma_fundamental_div_mod(data_len as int, BANK_SIZE as int);
        }

        Ok(
            Cartridge {
                file_name: file_name.to_owned(),
                rom,
                num_banks,
                cur_index,
                header,
            },
        )
    }

    /// The bank at index `bank_num`: exactly one bank-size slice starting
    /// at `bank_num` times the bank size, when that bank exists.
    fn nth_bank(&self, bank_num: usize) -> (r: Option<&[u8]>)
        requires
            self.wf(),
        ensures
            match r {
                Some(s) => bank_num < self.num_banks && s@ == self.rom@.subrange(
                    bank_num * (BANK_SIZE as int),
                    (bank_num + 1) * (BANK_SIZE as int),
                ),
                None => bank_num >= self.num_banks,
            },
    {
        if bank_num < self.num_banks {
            let total = self.rom.len();
            proof {
                vstd::arithmetic::mul::lemma_mul_inequality(
                    bank_num + 1,
                    self.num_banks as int,
                    BANK_SIZE as int,
                );
                vstd::arithmetic::mul::lemma_mul_inequality(
                    bank_num as int,
                    bank_num + 1,
                    BANK_SIZE as int,
                );
            }
            let lo = bank_num * BANK_SIZE;
            let hi = (bank_num + 1) * BANK_SIZE;
            Some(vstd::slice::slice_subrange(self.rom.as_slice(), lo, hi))
        } else {
            None
        }
    }

    /// The fixed first 16 KiB bank.
    pub fn bank0(&self) -> (r: &[u8])
        requires
            self.wf(),
        ensures
            r@ == self.rom@.subrange(0, BANK_SIZE as int),
    {
        match self.nth_bank(0) {
            Some(bank) => bank,
            None => vstd::pervasive::unreached(),
        }
    }

    /// The currently selected switchable bank.
    pub fn cur_bank(&self) -> (r: &[u8])
        requires
            self.wf(),
        ensures
            r@ == self.rom@.subrange(
                self.cur_index * (BANK_SIZE as int),
                (self.cur_index + 1) * (BANK_SIZE as int),
            ),
    {
        match self.nth_bank(self.cur_index) {
            Some(bank) => bank,
            None => vstd::pervasive::unreached(),
        }
    }

    /// Write one byte into the fixed first bank.
    pub fn bank0_mut(&mut self, offset: usize, value: u8)
        requires
            old(self).wf(),
            offset < BANK_SIZE,
        ensures
            final(self).wf(),
            final(self).rom@ == old(self).rom@.update(offset as int, value),
            final(self).file_name == old(self).file_name,
            final(self).num_banks == old(self).num_banks,
            final(self).cur_index == old(self).cur_index,
            final(self).header == old(self).header,
    {
        proof {
            vstd::arithmetic::mul::lemma_mul_inequality(1, self.num_banks as int, BANK_SIZE as int);
        }
        self.rom[offset] = value;
    }

    /// Write one byte into the currently selected switchable bank.
    pub fn cur_bank_mut(&mut self, offset: usize, value: u8)
        requires
            old(self).wf(),
            offset < BANK_SIZE,
        ensures
            final(self).wf(),
            final(self).rom@ == old(self).rom@.update(
                old(self).cur_index * (BANK_SIZE as int) + offset,
                value,
            ),
            final(self).file_name == old(self).file_name,
            final(self).num_banks == old(self).num_banks,
            final(self).cur_index == old(self).cur_index,
            final(self).header == old(self).header,
    {
        let total = self.rom.len();
        proof {
            vstd::arithmetic::mul::lemma_mul_inequality(
                self.cur_index + 1,
                self.num_banks as int,
                BANK_SIZE as int,
            );
            vstd::arithmetic::mul::lemma_mul_is_distributive_add_other_way(
                BANK_SIZE as int,
                self.cur_index as int,
                1,
            );
            vstd::arithmetic::mul::lemma_mul_basics(BANK_SIZE as int);
        }
        let idx = self.cur_index * BANK_SIZE + offset;
        self.rom[idx] = value;
    }
}

} // verus!
