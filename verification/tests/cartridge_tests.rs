use gb_core::cartridge::Cartridge;
use gb_core::cartridge::CartridgeRegion;
use gb_core::cartridge::CartridgeType;
use gb_core::cartridge::RomSize;

fn rom_with(offset: usize, byte: u8) -> Vec<u8> {
    let mut data = vec![0u8; 0x150];
    data[offset] = byte;
    data
}

#[test]
fn mbc1_byte_decodes_to_mbc1() {
    let mut cart = Cartridge::new();
    cart.load_rom(rom_with(0x147, 0x01));
    let t = cart.cartridge_type();
    assert_eq!(t, Some(CartridgeType::MBC1));
    assert_ne!(t, Some(CartridgeType::ROM_ONLY));
}

#[test]
fn cartridge_type_table() {
    let mut cart = Cartridge::new();
    cart.load_rom(rom_with(0x147, 0x00));
    assert_eq!(cart.cartridge_type(), Some(CartridgeType::ROM_ONLY));
    cart.load_rom(rom_with(0x147, 0x13));
    assert_eq!(cart.cartridge_type(), Some(CartridgeType::MBC3_RAM_BATTERY));
    cart.load_rom(rom_with(0x147, 0x1C));
    assert_eq!(cart.cartridge_type(), Some(CartridgeType::MBC5_RUMBLE));
    cart.load_rom(rom_with(0x147, 0x42));
    assert_eq!(cart.cartridge_type(), None);
}

#[test]
fn short_data_has_no_cartridge_type() {
    let mut cart = Cartridge::new();
    assert_eq!(cart.cartridge_type(), None);
    cart.load_rom(vec![0u8; 0x147]);
    assert_eq!(cart.cartridge_type(), None);
    assert_eq!(cart.rom_size(), None);
}

#[test]
fn rom_size_table() {
    let mut cart = Cartridge::new();
    cart.load_rom(rom_with(0x148, 0x00));
    assert_eq!(cart.rom_size(), Some(RomSize::KB32));
    cart.load_rom(rom_with(0x148, 0x07));
    assert_eq!(cart.rom_size(), Some(RomSize::MB4));
    cart.load_rom(rom_with(0x148, 0x52));
    assert_eq!(cart.rom_size(), Some(RomSize::MB1_1));
    cart.load_rom(rom_with(0x148, 0x54));
    assert_eq!(cart.rom_size(), Some(RomSize::MB1_5));
    cart.load_rom(rom_with(0x148, 0x0B));
    assert_eq!(cart.rom_size(), None);
}

#[test]
fn load_rom_replaces_wholesale() {
    let mut cart = Cartridge::new();
    cart.load_rom(rom_with(0x147, 0x01));
    assert_eq!(cart.cartridge_type(), Some(CartridgeType::MBC1));
    cart.load_rom(rom_with(0x147, 0x19));
    assert_eq!(cart.cartridge_type(), Some(CartridgeType::MBC5));
}

#[test]
fn read_region_extracts_header_field() {
    let mut cart = Cartridge::new();
    let mut data = vec![0u8; 0x150];
    let title = b"EMUCORE";
    for (i, b) in title.iter().enumerate() {
        data[0x134 + i] = *b;
    }
    cart.load_rom(data);
    let bytes = cart.read_region(CartridgeRegion::title()).unwrap();
    assert_eq!(bytes.len(), 15);
    assert_eq!(&bytes[..7], title);
    assert_eq!(bytes[7], 0);
}

#[test]
fn header_regions_sit_at_fixed_offsets() {
    assert_eq!(CartridgeRegion::entry_point(), CartridgeRegion { start: 0x000, end: 0x0FF });
    assert_eq!(CartridgeRegion::logo(), CartridgeRegion { start: 0x104, end: 0x132 });
    assert_eq!(CartridgeRegion::title(), CartridgeRegion { start: 0x134, end: 0x142 });
    assert_eq!(CartridgeRegion::manufacturer(), CartridgeRegion { start: 0x13F, end: 0x141 });
    assert_eq!(CartridgeRegion::licensee_code(), CartridgeRegion { start: 0x144, end: 0x144 });
    assert_eq!(
        CartridgeRegion::cartridge_type_field(),
        CartridgeRegion { start: 0x147, end: 0x147 }
    );
    assert_eq!(CartridgeRegion::rom_size_field(), CartridgeRegion { start: 0x148, end: 0x148 });
    // the manufacturer code lies inside the title field
    let t = CartridgeRegion::title();
    let m = CartridgeRegion::manufacturer();
    assert!(t.start <= m.start && m.end <= t.end);
    // the type byte read through its region matches the decoder's input
    let mut cart = Cartridge::new();
    let mut data = vec![0u8; 0x150];
    data[0x147] = 0x01;
    cart.load_rom(data);
    let bytes = cart.read_region(CartridgeRegion::cartridge_type_field()).unwrap();
    assert_eq!(bytes, vec![0x01]);
    assert_eq!(cart.cartridge_type(), Some(CartridgeType::MBC1));
}

#[test]
fn read_region_out_of_range_is_none() {
    let mut cart = Cartridge::new();
    cart.load_rom(vec![1, 2, 3]);
    assert!(cart.read_region(CartridgeRegion { start: 1, end: 3 }).is_none());
    assert!(cart.read_region(CartridgeRegion { start: 2, end: 1 }).is_none());
    let some = cart.read_region(CartridgeRegion { start: 0, end: 2 }).unwrap();
    assert_eq!(some, vec![1, 2, 3]);
}
