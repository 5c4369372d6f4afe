use gameboy::io::cartridge::{Cartridge, CartridgeError};
use gameboy::io::Bus;

fn rom(size: usize, kind: u8) -> Vec<u8> {
    let mut rom = vec![0u8; size];
    rom[0x147] = kind;
    rom
}

fn bus_with(rom: Vec<u8>) -> Bus {
    Bus::new(Cartridge::from_rom(rom).expect("valid rom"))
}

#[test]
fn boot_rom_handoff() {
    let mut image = rom(0x8000, 0);
    image[0] = 0xaa;
    let mut bus = bus_with(image);
    assert_eq!(bus.fetch_byte(0x0000), 0x31);
    bus.store_byte(0xff50, 1);
    assert_eq!(bus.fetch_byte(0x0000), 0xaa);
    // the overlay stays off
    bus.store_byte(0xff50, 0);
    assert_eq!(bus.fetch_byte(0x0000), 0xaa);
}

#[test]
fn boot_rom_ignores_other_values() {
    let mut image = rom(0x8000, 0);
    image[0] = 0xaa;
    let mut bus = bus_with(image);
    bus.store_byte(0xff50, 2);
    assert_eq!(bus.fetch_byte(0x0000), 0x31);
    assert_eq!(bus.fetch_byte(0x0100), 0x00);
}

#[test]
fn store_then_fetch_writable_regions() {
    let mut bus = bus_with(rom(0x8000, 0));
    let addresses: [u16; 14] = [
        0x8000, 0x9fff, 0xa000, 0xbfff, 0xc000, 0xdfff, 0xe123, 0xfe00, 0xfe9f, 0xff80, 0xfffe,
        0xff42, 0xff47, 0xff30,
    ];
    for (i, &a) in addresses.iter().enumerate() {
        let v = 0x11u8.wrapping_mul(i as u8 + 1);
        bus.store_byte(a, v);
        assert_eq!(bus.fetch_byte(a), v, "address {:04x}", a);
    }
}

#[test]
fn store_then_fetch_registers() {
    let mut bus = bus_with(rom(0x8000, 0));
    bus.store_byte(0xff40, 0x93);
    assert_eq!(bus.fetch_byte(0xff40), 0x93);
    bus.store_byte(0xff05, 0x42);
    assert_eq!(bus.fetch_byte(0xff05), 0x42);
    bus.store_byte(0xff07, 0xfd);
    assert_eq!(bus.fetch_byte(0xff07), 0x05);
    bus.store_byte(0xffff, 0xff);
    assert_eq!(bus.fetch_byte(0xffff), 0x1f);
    bus.store_byte(0xff0f, 0xe1);
    assert_eq!(bus.fetch_byte(0xff0f), 0x01);
}

#[test]
fn unmapped_reads_ff() {
    let mut bus = bus_with(rom(0x8000, 0));
    for &a in [0xfea0u16, 0xfeff, 0xff01, 0xff4c, 0xff7f].iter() {
        bus.store_byte(a, 0x12);
        assert_eq!(bus.fetch_byte(a), 0xff);
    }
}

#[test]
fn echo_ram_mirrors_work_ram() {
    let mut bus = bus_with(rom(0x8000, 0));
    bus.store_byte(0xc010, 0x5a);
    assert_eq!(bus.fetch_byte(0xe010), 0x5a);
    bus.store_byte(0xfdff, 0xa5);
    assert_eq!(bus.fetch_byte(0xddff), 0xa5);
}

#[test]
fn rom_writes_do_not_stick() {
    let mut image = rom(0x8000, 0);
    image[0x1234] = 0x77;
    let mut bus = bus_with(image);
    bus.store_byte(0x1234, 0x01);
    assert_eq!(bus.fetch_byte(0x1234), 0x77);
}

#[test]
fn div_write_resets() {
    let mut bus = bus_with(rom(0x8000, 0));
    for _ in 0..1000 {
        bus.tick();
    }
    assert_eq!(bus.fetch_byte(0xff04), (1000u32 >> 8) as u8);
    bus.store_byte(0xff04, 0x9c);
    assert_eq!(bus.fetch_byte(0xff04), 0);
}

#[test]
fn mbc1_bank_switch() {
    let mut image = rom(0x20000, 0x01);
    image[0xc000] = 0x5a;
    image[0x4000] = 0x11;
    let mut bus = bus_with(image);
    bus.store_byte(0xff50, 1);
    assert_eq!(bus.fetch_byte(0x4000), 0x11);
    bus.store_byte(0x2000, 0x03);
    assert_eq!(bus.fetch_byte(0x4000), 0x5a);
}

#[test]
fn mbc1_bank_zero_selects_one() {
    let mut image = rom(0x20000, 0x01);
    image[0x4000] = 0x11;
    image[0x8000] = 0x22;
    let mut bus = bus_with(image);
    bus.store_byte(0x2000, 0x02);
    assert_eq!(bus.fetch_byte(0x4000), 0x22);
    bus.store_byte(0x2000, 0x00);
    assert_eq!(bus.fetch_byte(0x4000), 0x11);
}

#[test]
fn mbc1_ram_needs_enable() {
    let mut bus = bus_with(rom(0x8000, 0x03));
    bus.store_byte(0xa000, 0x33);
    assert_eq!(bus.fetch_byte(0xa000), 0xff);
    bus.store_byte(0x0000, 0x0a);
    bus.store_byte(0xa000, 0x33);
    assert_eq!(bus.fetch_byte(0xa000), 0x33);
}

#[test]
fn mbc5_nine_bit_bank() {
    let mut image = rom(0x80_0000, 0x19);
    image[0x100 * 0x4000 + 5] = 0x66;
    let mut bus = bus_with(image);
    bus.store_byte(0x2000, 0x00);
    bus.store_byte(0x3000, 0x01);
    assert_eq!(bus.fetch_byte(0x4005), 0x66);
}

#[test]
fn cartridge_errors() {
    assert!(matches!(Cartridge::from_rom(vec![0u8; 0x7fff]), Err(CartridgeError::TooSmall)));
    assert!(matches!(Cartridge::from_rom(rom(0x8000, 0xfc)), Err(CartridgeError::UnknownController(0xfc))));
    assert!(matches!(Cartridge::from_rom(vec![0u8; 0x80_0001]), Err(CartridgeError::TooLarge)));
    assert!(Cartridge::from_rom(rom(0x8000, 0x1b)).is_ok());
}

#[test]
fn save_data_round_trip() {
    let mut cart = Cartridge::from_rom(rom(0x8000, 0x03)).unwrap();
    let data = vec![7u8; 3];
    cart.load_save_data(&data);
    let saved = cart.save_data();
    assert_eq!(&saved[0..4], &[7, 7, 7, 0]);
    assert_eq!(saved.len(), 0x20000);
}

#[test]
fn oam_dma_copies_one_byte_per_machine_cycle() {
    let mut bus = bus_with(rom(0x8000, 0));
    for i in 0..160u16 {
        bus.store_byte(0xc100 + i, i as u8 ^ 0x5a);
    }
    bus.store_byte(0xff46, 0xc1);
    assert_eq!(bus.fetch_byte(0xff46), 0xc1);
    for _ in 0..3 {
        bus.tick();
    }
    assert_eq!(bus.fetch_byte(0xfe00), 0x00);
    bus.tick();
    assert_eq!(bus.fetch_byte(0xfe00), 0x5a);
    assert_eq!(bus.fetch_byte(0xfe01), 0x00);
    for _ in 0..(4 * 159 - 1) {
        bus.tick();
    }
    assert_eq!(bus.fetch_byte(0xfe00 + 159), 0x00);
    bus.tick();
    for i in 0..160u16 {
        assert_eq!(bus.fetch_byte(0xfe00 + i), i as u8 ^ 0x5a);
    }
}

#[test]
fn joypad_register_unselected_reads_cf() {
    let mut bus = bus_with(rom(0x8000, 0));
    assert_eq!(bus.fetch_byte(0xff00), 0xcf);
    bus.store_byte(0xff00, 0x20);
    bus.joypad.set_directions(false, true, false, false);
    assert_eq!(bus.fetch_byte(0xff00), 0xc0 | 0x10 | 0x0d);
}
