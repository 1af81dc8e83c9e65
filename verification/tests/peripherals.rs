use gb_core::lcd::{LCD, LCDMode};
use gb_core::rom::{RomGenerator, RomHeader};
use gb_core::tiles::TileMap;

#[test]
fn test_lcd_creation() {
    let lcd = LCD::new();
    assert_eq!(lcd.width, 160);
    assert_eq!(lcd.height, 144);
    assert_eq!(lcd.mode, LCDMode::HBlank);
}

#[test]
fn test_lcd_reset() {
    let mut lcd = LCD::new();
    lcd.reset();
    assert_eq!(lcd.mode, LCDMode::HBlank);
    assert_eq!(lcd.line, 0);
}

#[test]
fn lcd_walks_through_its_modes() {
    let mut lcd = LCD::new();
    lcd.update(204);
    assert_eq!(lcd.mode, LCDMode::OAM);
    assert_eq!(lcd.line, 1);
    lcd.update(80);
    assert_eq!(lcd.mode, LCDMode::Transfer);
    lcd.update(172);
    assert_eq!(lcd.mode, LCDMode::HBlank);
    assert_eq!(lcd.mode_clock, 0);
}

#[test]
fn test_rom_header_creation() {
    let header = RomHeader::new("TEST GAME");
    assert_eq!(header.title[0..9], b"TEST GAME"[..]);
}

#[test]
fn test_rom_generator() {
    let mut generator = RomGenerator::new("TEST ROM");
    generator.add_program(0x150, &[0x00, 0x01, 0x02]);

    let rom_data = generator.generate_rom();
    assert_eq!(rom_data.len(), 32 * 1024);
    assert_eq!(rom_data[0x150], 0x00);
    assert_eq!(rom_data[0x151], 0x01);
    assert_eq!(rom_data[0x152], 0x02);
}

#[test]
fn header_checksum_is_the_documented_fold() {
    let header = RomHeader::new("");
    // Every summed field is zero and the fold takes 28 (sub byte, sub one)
    // steps, so the checksum is 256 - 28.
    assert_eq!(header.calculate_header_checksum(), 228);
    assert_eq!(header.calculate_global_checksum(&[1, 2, 3]), 6);
    assert_eq!(header.calculate_global_checksum(&[]), 0);
}

#[test]
fn tile_map_reads_and_writes_in_bounds_only() {
    let mut map = TileMap::new(4, 4);
    map.set_tile(1, 2, 7);
    assert_eq!(map.get_tile(1, 2), 7);
    assert_eq!(map.get_tile(9, 0), 0);
    map.set_tile(9, 0, 3);
    assert_eq!(map.get_tile(3, 3), 0);
}
