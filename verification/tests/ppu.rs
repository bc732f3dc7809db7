use ludus::memory::MemoryBus;

/// A minimal image: one program chunk of NOPs, one zeroed pattern chunk.
fn bus() -> MemoryBus {
    let mut buffer = vec![0x4E, 0x45, 0x53, 0x1A, 1, 1, 0, 0, 0, 0, 0, 0, 0, 0, 0, 0];
    buffer.extend_from_slice(&[0xEAu8; 0x4000]);
    buffer.extend_from_slice(&[0u8; 0x2000]);
    MemoryBus::with_rom(&buffer).unwrap()
}

fn set_vram_address(bus: &mut MemoryBus, address: u16) {
    bus.cpu_read(0x2002); // reset the write toggle
    bus.cpu_write(0x2006, (address >> 8) as u8);
    bus.cpu_write(0x2006, (address & 0xFF) as u8);
}

#[test]
fn palette_mirror_aliases_3f10_to_3f00() {
    let mut bus = bus();
    set_vram_address(&mut bus, 0x3F10);
    bus.cpu_write(0x2007, 0x2A);
    set_vram_address(&mut bus, 0x3F00);
    let read = bus.cpu_read(0x2007);
    assert_eq!(read, 0x2A);
}

#[test]
fn palette_mirror_aliases_all_four_backdrops() {
    let mut bus = bus();
    for (i, alias) in [0x3F10u16, 0x3F14, 0x3F18, 0x3F1C].iter().enumerate() {
        let value = 0x11 + i as u8;
        set_vram_address(&mut bus, *alias);
        bus.cpu_write(0x2007, value);
        set_vram_address(&mut bus, alias - 0x10);
        assert_eq!(bus.cpu_read(0x2007), value);
        // And the alias reads back what the base holds.
        set_vram_address(&mut bus, alias - 0x10);
        bus.cpu_write(0x2007, value + 0x40);
        set_vram_address(&mut bus, *alias);
        assert_eq!(bus.cpu_read(0x2007), value + 0x40);
    }
}

#[test]
fn scroll_then_addr_sets_vram_address() {
    // PPUSCROLL x, y then PPUADDR hi, lo leaves v == ((hi & 0x3F) << 8) | lo.
    let mut bus = bus();
    bus.cpu_write(0x2005, 0x7D);
    bus.cpu_write(0x2005, 0x5E);
    bus.cpu_write(0x2006, 0x3D);
    bus.cpu_write(0x2006, 0xF0);
    assert_eq!(bus.ppu.v, 0x3DF0);
    assert_eq!(bus.ppu.w, 0);
}

#[test]
fn status_read_clears_vblank_and_toggle() {
    let mut bus = bus();
    bus.ppu.nmi_occurred = true;
    bus.cpu_write(0x2006, 0x21); // leave the toggle half way
    let first = bus.cpu_read(0x2002);
    assert_eq!(first & 0x80, 0x80);
    let second = bus.cpu_read(0x2002);
    assert_eq!(second & 0x80, 0);
    // The toggle was reset, so two address writes work from scratch.
    bus.cpu_write(0x2006, 0x23);
    bus.cpu_write(0x2006, 0x45);
    assert_eq!(bus.ppu.v, 0x2345);
}

#[test]
fn data_port_increments_by_one_or_thirty_two() {
    let mut bus = bus();
    set_vram_address(&mut bus, 0x2000);
    bus.cpu_write(0x2007, 0x01);
    bus.cpu_write(0x2007, 0x02);
    assert_eq!(bus.ppu.v, 0x2002);
    bus.cpu_write(0x2000, 0x04); // increment-by-32 mode
    set_vram_address(&mut bus, 0x2000);
    bus.cpu_write(0x2007, 0x03);
    bus.cpu_write(0x2007, 0x04);
    assert_eq!(bus.ppu.v, 0x2040);
    assert_eq!(bus.ppu.nametables[0], 0x03);
    assert_eq!(bus.ppu.nametables[1], 0x02);
    assert_eq!(bus.ppu.nametables[0x20], 0x04);
}

#[test]
fn data_port_reads_are_buffered() {
    let mut bus = bus();
    set_vram_address(&mut bus, 0x2005);
    bus.cpu_write(0x2007, 0x99);
    set_vram_address(&mut bus, 0x2005);
    let stale = bus.cpu_read(0x2007);
    let fresh = bus.cpu_read(0x2007);
    assert_eq!(stale, 0x00);
    assert_eq!(fresh, 0x99);
}

#[test]
fn oam_data_writes_advance_the_address() {
    let mut bus = bus();
    bus.cpu_write(0x2003, 0x05);
    bus.cpu_write(0x2004, 0xAB);
    bus.cpu_write(0x2004, 0xCD);
    assert_eq!(bus.ppu.oam[0x05], 0xAB);
    assert_eq!(bus.ppu.oam[0x06], 0xCD);
    assert_eq!(bus.ppu.oam_address, 0x07);
    let read = bus.cpu_read(0x2004);
    assert_eq!(read, bus.ppu.oam[0x07]);
}

#[test]
fn dma_copies_a_page_into_oam() {
    // Writing $4014 = 3 copies the 256 bytes of CPU page 3 into OAM,
    // starting at the current OAM address and wrapping, and stalls the CPU
    // for 513 cycles.
    let mut bus = bus();
    for k in 0..256usize {
        bus.cpu_write(0x0300 + k as u16, k as u8);
    }
    bus.cpu_write(0x2003, 0x10);
    bus.cpu_write(0x4014, 0x03);
    assert_eq!(bus.cpu.stall, 513);
    for k in 0..256usize {
        assert_eq!(bus.ppu.oam[(0x10 + k) % 256], k as u8);
    }
    assert_eq!(bus.ppu.oam_address, 0x10);
}

#[test]
fn nametable_writes_respect_mirroring() {
    // The default cart is horizontally mirrored: 0x2000 and 0x2400 share a
    // bank, 0x2800 and 0x2C00 the other.
    let mut bus = bus();
    set_vram_address(&mut bus, 0x2001);
    bus.cpu_write(0x2007, 0x5A);
    set_vram_address(&mut bus, 0x2401);
    let stale = bus.cpu_read(0x2007);
    let fresh = bus.cpu_read(0x2007);
    let _ = stale;
    assert_eq!(fresh, 0x5A);
    // The bus read map: unmapped space reads as zero.
    assert_eq!(bus.cpu_read(0x5000), 0);
}
