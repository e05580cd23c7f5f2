use gbcore::cartridge::{parse_licensee_digits, Cartridge, CartridgeError, CartridgeType};

const LOGO: [u8; 48] = [
    0xCE, 0xED, 0x66, 0x66, 0xCC, 0x0D, 0x00, 0x0B, 0x03, 0x73, 0x00, 0x83, 0x00, 0x0C, 0x00, 0x0D,
    0x00, 0x08, 0x11, 0x1F, 0x88, 0x89, 0x00, 0x0E, 0xDC, 0xCC, 0x6E, 0xE6, 0xDD, 0xDD, 0xD9, 0x99,
    0xBB, 0xBB, 0x67, 0x63, 0x6E, 0x0E, 0xEC, 0xCC, 0xDD, 0xDC, 0x99, 0x9F, 0xBB, 0xB9, 0x33, 0x3E,
];

/// A 32 KiB image with a valid logo, the title "TETRIS" padded with
/// zeros, the old licensee scheme, and all size codes at zero.
fn valid_rom() -> Vec<u8> {
    let mut rom = vec![0u8; 32768];
    rom[0x104..0x134].copy_from_slice(&LOGO);
    rom[0x134..0x13A].copy_from_slice(b"TETRIS");
    rom
}

#[test]
fn parsing_new_licensee_bits() {
    let new_licensee_bits: [u8; 2] = [0x31, 0x32];

    let parsed: u8 = parse_licensee_digits(new_licensee_bits[0], new_licensee_bits[1]).unwrap();
    println!("Parsed as {parsed}");
}

#[test]
fn licensee_digits_reject_non_digits() {
    assert_eq!(parse_licensee_digits(0x31, 0x32), Some(12));
    assert_eq!(parse_licensee_digits(0x30, 0x39), Some(9));
    assert_eq!(parse_licensee_digits(0x41, 0x32), None);
    assert_eq!(parse_licensee_digits(0x31, 0x2F), None);
}

#[test]
fn header_parse_valid_image() {
    let cart = Cartridge::new("tetris.gb", valid_rom()).unwrap();
    assert_eq!(cart.header.rom_banks, 2);
    assert_eq!(cart.header.ram_banks, 0);
    assert!(!cart.header.cgb_support);
    assert!(!cart.header.sgb_support);
    assert!(matches!(cart.header.cartridge_type, CartridgeType::RomOnly));
    assert_eq!(cart.header.licensee_code, 0);
    assert_eq!(&cart.header.title[0..6], b"TETRIS");
    assert_eq!(cart.num_banks, 2);
    assert_eq!(cart.cur_index, 1);
}

#[test]
fn header_parse_rejects_short_image() {
    let rom = vec![0u8; 0x140];
    assert_eq!(
        Cartridge::new("short.gb", rom).unwrap_err(),
        CartridgeError::RomTooSmall
    );
}

#[test]
fn header_parse_rejects_flipped_logo_byte() {
    let mut rom = valid_rom();
    rom[0x104] ^= 0x01;
    assert_eq!(
        Cartridge::new("bad_logo.gb", rom).unwrap_err(),
        CartridgeError::LogoMismatch
    );
}

#[test]
fn header_parse_rejects_misaligned_image() {
    let rom = vec![0u8; 0x150];
    assert_eq!(
        Cartridge::new("odd.gb", rom).unwrap_err(),
        CartridgeError::MisalignedRomSize
    );
}

#[test]
fn header_parse_rejects_bad_licensee_digits() {
    let mut rom = valid_rom();
    rom[0x14B] = 0x33;
    rom[0x144] = 0x41;
    rom[0x145] = 0x42;
    assert_eq!(
        Cartridge::new("bad_digits.gb", rom).unwrap_err(),
        CartridgeError::MalformedTitleBytes
    );
}

#[test]
fn header_parse_rejects_unknown_type_byte() {
    let mut rom = valid_rom();
    rom[0x147] = 0x04;
    assert_eq!(
        Cartridge::new("bad_type.gb", rom).unwrap_err(),
        CartridgeError::UnrecognizedCartridgeType
    );
}

#[test]
fn header_parse_rejects_unknown_rom_size_code() {
    let mut rom = valid_rom();
    rom[0x148] = 0x09;
    assert_eq!(
        Cartridge::new("bad_rom_size.gb", rom).unwrap_err(),
        CartridgeError::UnrecognizedRomSizeCode
    );
}

#[test]
fn header_parse_rejects_unknown_ram_size_code() {
    let mut rom = valid_rom();
    rom[0x149] = 0x01;
    assert_eq!(
        Cartridge::new("bad_ram_size.gb", rom).unwrap_err(),
        CartridgeError::UnrecognizedRamSizeCode
    );
}

#[test]
fn header_new_licensee_and_support_flags() {
    let mut rom = valid_rom();
    rom[0x14B] = 0x33;
    rom[0x144] = 0x33;
    rom[0x145] = 0x37;
    rom[0x143] = 0x80;
    rom[0x146] = 0x03;
    let cart = Cartridge::new("cgb.gb", rom).unwrap();
    assert_eq!(cart.header.licensee_code, 37);
    assert!(cart.header.cgb_support);
    assert!(cart.header.sgb_support);
}

#[test]
fn header_size_codes_decode() {
    let mut rom = valid_rom();
    rom[0x148] = 0x03;
    rom[0x149] = 0x03;
    rom[0x147] = 0x13;
    let cart = Cartridge::new("mbc3.gb", rom).unwrap();
    assert_eq!(cart.header.rom_banks, 16);
    assert_eq!(cart.header.ram_banks, 4);
    assert!(matches!(
        cart.header.cartridge_type,
        CartridgeType::Mbc3RamBattery
    ));
}

#[test]
fn banks_are_bank_sized_slices() {
    let mut rom = valid_rom();
    rom[0x4000] = 0xAB;
    rom[0x7FFF] = 0xCD;
    rom[0x3FFF] = 0xEF;
    let cart = Cartridge::new("banks.gb", rom).unwrap();
    let bank0 = cart.bank0();
    assert_eq!(bank0.len(), 16384);
    assert_eq!(bank0[0x3FFF], 0xEF);
    let cur = cart.cur_bank();
    assert_eq!(cur.len(), 16384);
    assert_eq!(cur[0], 0xAB);
    assert_eq!(cur[0x3FFF], 0xCD);
}

#[test]
fn bank_writes_land_in_their_bank() {
    let cart_rom = valid_rom();
    let mut cart = Cartridge::new("rw.gb", cart_rom).unwrap();
    cart.bank0_mut(7, 0x11);
    cart.cur_bank_mut(9, 0x22);
    assert_eq!(cart.bank0()[7], 0x11);
    assert_eq!(cart.cur_bank()[9], 0x22);
    assert_eq!(cart.rom[7], 0x11);
    assert_eq!(cart.rom[16384 + 9], 0x22);
}

#[test]
fn printable_title_stops_at_first_unprintable_byte() {
    let cart = Cartridge::new("title.gb", valid_rom()).unwrap();
    assert_eq!(cart.header.printable_title_prefix(), b"TETRIS".to_vec());
}
