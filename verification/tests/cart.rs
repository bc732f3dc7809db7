use ludus::cart::{Cart, CartReadingError, Mirroring};

// Makes an ines file with anything filling the PRG and CHR
// 0xFF is used as a marker file for the beginning of PRG and CHR
fn make_ines(
    mirroring: Mirroring,
    has_battery: bool,
    trainer: bool,
    mapper: u8,
    prg_chunks: usize,
    chr_chunks: usize,
) -> Vec<u8> {
    let trainer_offset = if trainer { 512 } else { 0 };
    let mut buffer = {
        let rom_size = 0x4000 * prg_chunks + 0x2000 * chr_chunks;
        Vec::with_capacity(16 + trainer_offset + rom_size)
    };
    let mut flag6 = 0;
    if mirroring.is_vertical() {
        flag6 |= 0b1;
    }
    if has_battery {
        flag6 |= 0b10;
    }
    if trainer {
        flag6 |= 0b100;
    }
    flag6 |= (mapper & 0x0F) << 4;
    let flag7 = (mapper & 0xF0) << 4;
    buffer.push(0x4E);
    buffer.push(0x45);
    buffer.push(0x53);
    buffer.push(0x1A);
    buffer.push(prg_chunks as u8);
    buffer.push(chr_chunks as u8);
    buffer.push(flag6);
    buffer.push(flag7);
    for _ in 8..16 {
        buffer.push(0);
    }
    for _ in 0..trainer_offset {
        buffer.push(0x1);
    }
    buffer.push(0xFF);
    for _ in 1..prg_chunks * 0x4000 {
        buffer.push(0x2);
    }
    buffer.push(0xFF);
    for _ in 1..chr_chunks * 0x2000 {
        buffer.push(0x3);
    }
    buffer
}

#[test]
fn cart_decoding() {
    let buffer = make_ines(Mirroring::Horizontal, true, false, 1, 1, 1);
    let cart_res = Cart::from_bytes(&buffer);
    assert!(cart_res.is_ok());
    let cart = cart_res.unwrap(); // we just asserted, so it's ok
    assert_eq!(cart.prg[0], 0xFF);
    assert_eq!(cart.chr[0], 0xFF);
    assert_eq!(cart.mapper, 1);
    assert!(!cart.mirroring.is_vertical());
    assert_eq!(cart.has_battery, true);
}

#[test]
fn cart_rejects_bad_magic() {
    let mut buffer = make_ines(Mirroring::Horizontal, false, false, 0, 1, 1);
    buffer[0] = 0x4D;
    let cart_res = Cart::from_bytes(&buffer);
    assert!(matches!(
        cart_res,
        Err(CartReadingError::UnrecognisedFormat)
    ));
}

#[test]
fn cart_rejects_short_buffer() {
    let buffer = vec![0x4E, 0x45, 0x53];
    let cart_res = Cart::from_bytes(&buffer);
    assert!(matches!(
        cart_res,
        Err(CartReadingError::UnrecognisedFormat)
    ));
}

#[test]
fn cart_rejects_truncated_images() {
    let mut buffer = make_ines(Mirroring::Horizontal, false, false, 0, 2, 1);
    buffer.truncate(16 + 0x4000);
    let cart_res = Cart::from_bytes(&buffer);
    assert!(matches!(
        cart_res,
        Err(CartReadingError::UnrecognisedFormat)
    ));
}

#[test]
fn cart_rejects_unknown_mapper() {
    let buffer = make_ines(Mirroring::Horizontal, false, false, 5, 1, 1);
    let cart_res = Cart::from_bytes(&buffer);
    assert!(matches!(cart_res, Err(CartReadingError::UnknownMapper(5))));
}

#[test]
fn cart_skips_trainer() {
    let buffer = make_ines(Mirroring::Vertical, false, true, 0, 1, 1);
    let cart = Cart::from_bytes(&buffer).unwrap();
    assert_eq!(cart.prg[0], 0xFF);
    assert_eq!(cart.chr[0], 0xFF);
    assert!(cart.mirroring.is_vertical());
}

#[test]
fn cart_without_pattern_chunks_gets_pattern_ram() {
    let buffer = make_ines(Mirroring::Horizontal, false, false, 0, 1, 0);
    let cart = Cart::from_bytes(&buffer).unwrap();
    assert_eq!(cart.chr.len(), 0x2000);
    assert!(cart.chr.iter().all(|&b| b == 0));
}

#[test]
fn mirror_address_folds_each_mode() {
    // Horizontal: the four quadrants fold as 0, 0, 1, 1.
    assert_eq!(Mirroring::Horizontal.mirror_address(0x2005), 0x2005);
    assert_eq!(Mirroring::Horizontal.mirror_address(0x2405), 0x2005);
    assert_eq!(Mirroring::Horizontal.mirror_address(0x2805), 0x2405);
    assert_eq!(Mirroring::Horizontal.mirror_address(0x2C05), 0x2405);
    // Vertical: the four quadrants fold as 0, 1, 0, 1.
    assert_eq!(Mirroring::Vertical.mirror_address(0x2005), 0x2005);
    assert_eq!(Mirroring::Vertical.mirror_address(0x2405), 0x2405);
    assert_eq!(Mirroring::Vertical.mirror_address(0x2805), 0x2005);
    assert_eq!(Mirroring::Vertical.mirror_address(0x2C05), 0x2405);
    // The single-table modes pin every quadrant.
    assert_eq!(Mirroring::SingleLower.mirror_address(0x2C05), 0x2005);
    assert_eq!(Mirroring::SingleUpper.mirror_address(0x2005), 0x2405);
    // Addresses above 0x3000 wrap into the 4 KiB window first.
    assert_eq!(Mirroring::Vertical.mirror_address(0x3405), 0x2405);
}

#[test]
fn mirror_address_is_idempotent_on_folded_addresses() {
    // Folding an already folded address leaves it unchanged, for every
    // mode on the lower half and for vertical mirroring everywhere.
    for a in [0x2000u16, 0x2111, 0x2405, 0x27FF] {
        for mode in [
            Mirroring::Horizontal,
            Mirroring::Vertical,
            Mirroring::SingleLower,
            Mirroring::SingleUpper,
        ] {
            let once = mode.mirror_address(a);
            assert_eq!(mode.mirror_address(once), once);
        }
    }
    let once = Mirroring::Vertical.mirror_address(0x2ABC);
    assert_eq!(Mirroring::Vertical.mirror_address(once), once);
}
