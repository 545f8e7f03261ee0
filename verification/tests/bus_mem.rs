use gb_core::bus::Bus;
use gb_core::cartridge::Mbc;
use gb_core::cartridge::ROM;
use gb_core::fault::Fault;

fn rom_counting() -> ROM {
    // Each cartridge byte holds the low byte of its own address.
    let mut data = vec![0u8; 0x8000];
    for (k, slot) in data.iter_mut().enumerate() {
        *slot = (k % 256) as u8;
    }
    ROM::new(&data).unwrap()
}

#[test]
fn rom_construction_requires_exact_window() {
    assert!(matches!(ROM::new(&[0u8; 0x8000]), Ok(_)));
    assert_eq!(ROM::new(&[0u8; 10]).err(), Some(Fault::Construction));
    assert_eq!(ROM::new(&vec![0u8; 0x8001]).err(), Some(Fault::Construction));
    assert_eq!(ROM::new(&[]).err(), Some(Fault::Construction));
}

#[test]
fn bus_routes_rom_and_ram_halves() {
    let mut bus = Bus::new(Mbc::PlainRom(rom_counting()));
    assert_eq!(bus.read_u8(0x0000), 0x00);
    assert_eq!(bus.read_u8(0x0123), 0x23);
    assert_eq!(bus.read_u8(0x7FFF), 0xFF);
    // RAM half starts zeroed and is writable.
    assert_eq!(bus.read_u8(0x8000), 0x00);
    bus.write_u8(0x8000, 0xAB);
    assert_eq!(bus.read_u8(0x8000), 0xAB);
    bus.write_u8(0xFFFF, 0xCD);
    assert_eq!(bus.read_u8(0xFFFF), 0xCD);
}

#[test]
fn rom_write_is_ignored_without_fault() {
    let mut bus = Bus::new(Mbc::PlainRom(rom_counting()));
    let before = bus.read_u8(0x0123);
    bus.write_u8(0x0123, 0x99);
    assert_eq!(bus.read_u8(0x0123), before);
    // Nothing else changed either.
    assert_eq!(bus.read_u8(0x0122), 0x22);
    assert_eq!(bus.read_u8(0x8000), 0x00);
    // The drop is reported as a diagnostic.
    assert_eq!(bus.dropped_writes, 1);
    bus.write_u8(0x0000, 0x01);
    assert_eq!(bus.dropped_writes, 2);
}

#[test]
fn bus_word_access_is_little_endian() {
    let mut bus = Bus::new_blank();
    bus.write_u16(0x9000, 0xBEEF);
    assert_eq!(bus.read_u8(0x9000), 0xEF); // low byte first
    assert_eq!(bus.read_u8(0x9001), 0xBE);
    assert_eq!(bus.read_u16(0x9000), 0xBEEF);
}

#[test]
fn bus_word_write_straddling_rom_boundary() {
    let mut bus = Bus::new_blank();
    // Low byte aims at the read-only half, high byte at RAM.
    bus.write_u16(0x7FFF, 0xBEEF);
    assert_eq!(bus.read_u8(0x7FFF), 0x00); // dropped
    assert_eq!(bus.read_u8(0x8000), 0xBE); // stored
    assert_eq!(bus.dropped_writes, 1);
}

#[test]
fn bus_word_access_wraps_address_space() {
    let mut bus = Bus::new_blank();
    bus.write_u8(0xFFFF, 0x34);
    bus.write_u8(0x8000, 0x12);
    // The high byte of a word at 0xFFFF wraps to address 0x0000, which is
    // read-only cartridge storage here.
    bus.write_u16(0xFFFF, 0xABCD);
    assert_eq!(bus.read_u8(0xFFFF), 0xCD);
    assert_eq!(bus.dropped_writes, 1);
    assert_eq!(bus.read_u16(0xFFFF), (bus.read_u8(0x0000) as u16) * 256 + 0xCD);
}
