use rgb_emu::MemBus;
use rgb_emu::Rom;
use rgb_emu::Vram;
use rgb_emu::Wram;

fn image(len: usize, mapper: u8, rom_code: u8, ram_code: u8) -> Vec<u8> {
    let mut bytes: Vec<u8> = vec![0u8; len];
    bytes[0x147] = mapper;
    bytes[0x148] = rom_code;
    bytes[0x149] = ram_code;
    bytes
}

fn flat_bus() -> MemBus {
    MemBus::new(Rom::new(image(32768, 0x00, 0x00, 0x00)).unwrap())
}

#[test]
fn echo_mirroring() {
    let mut bus = flat_bus();
    bus.write(0xC010, 0x42);
    assert_eq!(bus.read(0xE010), 0x42);
    bus.write(0xE020, 0x55);
    assert_eq!(bus.read(0xC020), 0x55);
    bus.write(0xFDFF, 0x77);
    assert_eq!(bus.read(0xDDFF), 0x77);
}

#[test]
fn unusable_region_discards_writes() {
    let mut bus = flat_bus();
    bus.write(0xFEA0, 0x42);
    assert_eq!(bus.read(0xFEA0), 0xFF);
    bus.write(0xFEFF, 0x13);
    assert_eq!(bus.read(0xFEFF), 0xFF);
}

#[test]
fn internal_regions_hold_bytes() {
    let mut bus = flat_bus();
    bus.write(0x8000, 0x11);
    bus.write(0x9FFF, 0x12);
    bus.write(0xC000, 0x21);
    bus.write(0xDFFF, 0x22);
    bus.write(0xFE00, 0x31);
    bus.write(0xFF00, 0x41);
    bus.write(0xFF80, 0x51);
    bus.write(0xFFFE, 0x52);
    bus.write(0xFFFF, 0x61);
    assert_eq!(bus.read(0x8000), 0x11);
    assert_eq!(bus.read(0x9FFF), 0x12);
    assert_eq!(bus.read(0xC000), 0x21);
    assert_eq!(bus.read(0xDFFF), 0x22);
    assert_eq!(bus.read(0xFE00), 0x31);
    assert_eq!(bus.read(0xFF00), 0x41);
    assert_eq!(bus.read(0xFF80), 0x51);
    assert_eq!(bus.read(0xFFFE), 0x52);
    assert_eq!(bus.read(0xFFFF), 0x61);
}

#[test]
fn rom_only_ignores_rom_writes() {
    let mut bytes = image(32768, 0x00, 0x00, 0x00);
    bytes[0x1000] = 0xAA;
    bytes[0x4000] = 0xBB;
    let mut bus = MemBus::new(Rom::new(bytes).unwrap());
    bus.write(0x1000, 0x99);
    bus.write(0x2000, 0x99);
    assert_eq!(bus.read(0x1000), 0xAA);
    assert_eq!(bus.read(0x4000), 0xBB);
}

#[test]
fn mapper_switches_rom_banks_and_clamps() {
    let mut bytes = image(65536, 0x01, 0x01, 0x00);
    bytes[0x0000] = 0x10;
    bytes[0x4000] = 0x11;
    bytes[0x8000] = 0x22;
    bytes[0xC000] = 0x33;
    let mut bus = MemBus::new(Rom::new(bytes).unwrap());
    assert_eq!(bus.read(0x4000), 0x11);
    bus.write(0x2000, 0x02);
    assert_eq!(bus.read(0x4000), 0x22);
    bus.write(0x2000, 0xFF);
    assert_eq!(bus.read(0x4000), 0x33);
    bus.write(0x2000, 0x00);
    assert_eq!(bus.read(0x4000), 0x10);
    assert_eq!(bus.read(0x0000), 0x10);
}

#[test]
fn external_ram_gated_and_banked() {
    let mut bus = MemBus::new(Rom::new(image(32768, 0x02, 0x00, 0x02)).unwrap());
    assert_eq!(bus.read(0xA000), 0xFF);
    bus.write(0xA000, 0x77);
    assert_eq!(bus.read(0xA000), 0xFF);
    bus.write(0x0000, 0x0A);
    bus.write(0xA000, 0x77);
    assert_eq!(bus.read(0xA000), 0x77);
    bus.write(0x0000, 0x00);
    assert_eq!(bus.read(0xA000), 0xFF);
    bus.write(0x0000, 0x0A);
    assert_eq!(bus.read(0xA000), 0x77);
}

#[test]
fn cartridge_without_ram_reads_ff() {
    let mut bus = flat_bus();
    bus.write(0xA000, 0x77);
    assert_eq!(bus.read(0xA000), 0xFF);
}

#[test]
fn wram_window_is_lenient() {
    let mut w = Wram::new();
    assert_eq!(w.get_value(0xC000), 0);
    w.set_value(0xC123, 9);
    assert_eq!(w.get_value(0xC123), 9);
    w.set_value(0x0000, 5);
    assert_eq!(w.get_value(0x0000), 0);
}

#[test]
fn vram_window_is_lenient() {
    let mut v = Vram::new();
    assert_eq!(v.get_value(0x8000), 0);
    v.set_value(0x9ABC, 7);
    assert_eq!(v.get_value(0x9ABC), 7);
    v.set_value(0x0000, 5);
    assert_eq!(v.get_value(0x0000), 0);
}

#[test]
fn external_ram_exposed_for_persistence() {
    let mut bus = MemBus::new(Rom::new(image(32768, 0x02, 0x00, 0x02)).unwrap());
    bus.write(0x0000, 0x0A);
    bus.write(0xA005, 0x99);
    assert_eq!(bus.external_ram()[5], 0x99);
    assert_eq!(bus.external_ram().len(), 0x2000);
}
