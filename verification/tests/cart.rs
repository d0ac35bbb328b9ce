use rgb_emu::CartType;
use rgb_emu::LoadError;
use rgb_emu::Rom;

fn base_image(len: usize) -> Vec<u8> {
    let mut bytes: Vec<u8> = vec![0u8; len];
    bytes[0x147] = 0x00;
    bytes[0x148] = 0x00;
    bytes[0x149] = 0x00;
    bytes
}

fn with_title(mut bytes: Vec<u8>, title: &[u8]) -> Vec<u8> {
    for (i, b) in title.iter().enumerate() {
        bytes[0x134 + i] = *b;
    }
    bytes
}

#[test]
fn header_parses_title_and_geometry() {
    let bytes = with_title(base_image(32768), b"TETRIS");
    let rom = Rom::new(bytes).unwrap();
    assert_eq!(rom.get_title().as_str(), "TETRIS");
    assert_eq!(rom.cart_type(), CartType::ROMONLY);
    assert_eq!(rom.rom_bank_count(), 2);
    assert_eq!(*rom.rom_size(), 32768);
    assert_eq!(rom.ram_bank_count(), 0);
}

#[test]
fn unknown_mapper_byte_rejected() {
    let mut bytes = base_image(32768);
    bytes[0x147] = 0xEE;
    match Rom::new(bytes) {
        Err(e) => assert_eq!(e, LoadError::UnsupportedCartridgeType(0xEE)),
        Ok(_) => panic!("expected UnsupportedCartridgeType"),
    }
}

#[test]
fn truncated_image_rejected() {
    let bytes = vec![0u8; 0x100];
    match Rom::new(bytes) {
        Err(LoadError::Truncated) => {},
        _ => panic!("expected Truncated"),
    }
}

#[test]
fn invalid_rom_size_code_rejected() {
    let mut bytes = base_image(32768);
    bytes[0x148] = 0x09;
    match Rom::new(bytes) {
        Err(LoadError::InvalidRomSizeCode(0x09)) => {},
        _ => panic!("expected InvalidRomSizeCode(0x09)"),
    }
}

#[test]
fn invalid_ram_size_code_rejected() {
    let mut bytes = base_image(32768);
    bytes[0x149] = 0x01;
    match Rom::new(bytes) {
        Err(LoadError::InvalidRamSizeCode(0x01)) => {},
        _ => panic!("expected InvalidRamSizeCode(0x01)"),
    }
}

#[test]
fn title_stops_at_first_null() {
    let bytes = with_title(base_image(32768), b"AB\0CD");
    let rom = Rom::new(bytes).unwrap();
    assert_eq!(rom.get_title().as_str(), "AB");
}

#[test]
fn title_is_at_most_fifteen_bytes() {
    let bytes = with_title(base_image(32768), b"ABCDEFGHIJKLMNOP");
    let rom = Rom::new(bytes).unwrap();
    assert_eq!(rom.get_title().as_str(), "ABCDEFGHIJKLMNO");
}

#[test]
fn rom_reads_out_of_range_as_zero() {
    let mut bytes = base_image(0x14A);
    bytes[0x100] = 0x77;
    let rom = Rom::new(bytes).unwrap();
    assert_eq!(rom.get_value(0x100), 0x77);
    assert_eq!(rom.get_value(0x1000), 0x00);
    assert_eq!(rom.get_value(0x8000), 0x00);
    assert_eq!(rom.read(0x0000, 3), 0x00);
}

#[test]
fn size_tables_match_known_codes() {
    assert_eq!(Rom::get_rom_size_banks(0x03), Ok((262144, 16)));
    assert_eq!(Rom::get_rom_size_banks(0x08), Ok((8388608, 512)));
    assert_eq!(Rom::get_ram_size_banks(0x00), Ok((0, 0)));
    assert_eq!(Rom::get_ram_size_banks(0x05), Ok((65536, 8)));
    assert_eq!(Rom::get_cart_type(0x1B), Ok(CartType::MBC5RAMBATTERY));
    assert_eq!(Rom::get_cart_type(0xFF), Ok(CartType::HuC1RAMBATTERY));
}
