use ludus::cart::{Cart, Mirroring};
use ludus::mapper::Mapper0;
use ludus::memory::MemoryBus;

/// An image for the serial-shift-register mapper: four program chunks whose
/// first bytes carry distinct markers, and one pattern chunk.
fn mmc1_bus() -> MemoryBus {
    let mut buffer = vec![
        0x4E, 0x45, 0x53, 0x1A, 4, 1, 0x10, 0, 0, 0, 0, 0, 0, 0, 0, 0,
    ];
    for chunk in 0..4u8 {
        let mut prg = vec![0u8; 0x4000];
        prg[0] = 0x10 + chunk;
        buffer.extend_from_slice(&prg);
    }
    buffer.extend_from_slice(&[0u8; 0x2000]);
    MemoryBus::with_rom(&buffer).unwrap()
}

/// Serially writes one five-bit value into an internal register of the
/// shift mapper, least significant bit first.
fn shift_write(bus: &mut MemoryBus, address: u16, value: u8) {
    for bit in 0..5 {
        bus.cpu_write(address, (value >> bit) & 1);
    }
}

#[test]
fn mmc1_prg_switch_in_fix_last_mode() {
    // The mapper starts in fix-last mode. Committing 2 to the program
    // register maps bank 2 at the lower window, so $8000 reads the
    // cartridge's program-bank-2 byte 0.
    let mut bus = mmc1_bus();
    assert_eq!(bus.cpu_read(0x8000), 0x10);
    assert_eq!(bus.cpu_read(0xC000), 0x13); // the upper window is the last bank
    shift_write(&mut bus, 0xE000, 2);
    assert_eq!(bus.cpu_read(0x8000), 0x12);
    assert_eq!(bus.cpu_read(0xC000), 0x13);
}

#[test]
fn mmc1_bank_select_wraps_modulo_bank_count() {
    // Selecting bank 6 of a four-bank image lands on bank 2.
    let mut bus = mmc1_bus();
    shift_write(&mut bus, 0xE000, 6);
    assert_eq!(bus.cpu_read(0x8000), 0x12);
}

#[test]
fn mmc1_control_register_selects_mirroring() {
    let mut bus = mmc1_bus();
    assert!(matches!(
        bus.mapper.mirroring_mode(),
        Mirroring::Horizontal
    ));
    // Control bits: mirroring 2 (vertical), program mode 3 (fix-last).
    shift_write(&mut bus, 0x8000, 0b01110);
    assert!(matches!(bus.mapper.mirroring_mode(), Mirroring::Vertical));
}

#[test]
fn mmc1_reset_bit_clears_the_shift_register() {
    let mut bus = mmc1_bus();
    // Two bits in, then a bit-7 write resets the register; a full value
    // written afterwards still commits correctly.
    bus.cpu_write(0xE000, 1);
    bus.cpu_write(0xE000, 1);
    bus.cpu_write(0xE000, 0x80);
    shift_write(&mut bus, 0xE000, 1);
    assert_eq!(bus.cpu_read(0x8000), 0x11);
}

#[test]
fn mapper2_switches_the_lower_window() {
    // The bank mapper: any write at or above $8000 selects the lower
    // window's bank; the upper window stays fixed to the last bank.
    let mut buffer = vec![0x4E, 0x45, 0x53, 0x1A, 2, 1, 0, 0, 0, 0, 0, 0, 0, 0, 0, 0];
    for chunk in 0..2u8 {
        let mut prg = vec![0u8; 0x4000];
        prg[0] = 0x20 + chunk;
        buffer.extend_from_slice(&prg);
    }
    buffer.extend_from_slice(&[0u8; 0x2000]);
    let mut bus = MemoryBus::with_rom(&buffer).unwrap();
    assert_eq!(bus.cpu_read(0x8000), 0x20);
    assert_eq!(bus.cpu_read(0xC000), 0x21);
    bus.cpu_write(0x8000, 1);
    assert_eq!(bus.cpu_read(0x8000), 0x21);
    bus.cpu_write(0x8000, 0);
    assert_eq!(bus.cpu_read(0x8000), 0x20);
}

#[test]
fn pattern_ram_and_work_ram_are_writable() {
    let mut buffer = vec![0x4E, 0x45, 0x53, 0x1A, 1, 0, 0, 0, 0, 0, 0, 0, 0, 0, 0, 0];
    buffer.extend_from_slice(&[0xEAu8; 0x4000]);
    let mut bus = MemoryBus::with_rom(&buffer).unwrap();
    // Work RAM at $6000.
    bus.cpu_write(0x6123, 0x77);
    assert_eq!(bus.cpu_read(0x6123), 0x77);
    // Pattern RAM through the mapper's PPU window.
    bus.mapper.write(0x0456, 0x88);
    assert_eq!(bus.mapper.read(0x0456), 0x88);
}

#[test]
fn wrap_mapper_folds_the_program_window() {
    let mut buffer = vec![0x4E, 0x45, 0x53, 0x1A, 1, 1, 0, 0, 0, 0, 0, 0, 0, 0, 0, 0];
    let mut prg = vec![0u8; 0x4000];
    prg[0] = 0x42;
    prg[5] = 0x43;
    buffer.extend_from_slice(&prg);
    buffer.extend_from_slice(&[0u8; 0x2000]);
    let cart = Cart::from_bytes(&buffer).unwrap();
    let mut mapper = Mapper0::new(cart);
    // Both program windows fold onto the single bank.
    assert_eq!(mapper.read(0x8000), 0x42);
    assert_eq!(mapper.read(0xC000), 0x42);
    assert_eq!(mapper.read(0xC005), 0x43);
    // The program window of this mapper is writable RAM.
    mapper.write(0x8005, 0x44);
    assert_eq!(mapper.read(0xC005), 0x44);
}
