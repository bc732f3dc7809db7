//! Cartridge images: parsing of the iNES container, mirroring modes and
//! mapper identifiers.

use vstd::prelude::*;
use vstd::slice::{slice_subrange, slice_to_vec};

verus! {

/// The possible errors when decoding a cartridge image.
#[derive(Clone, Copy, Debug, PartialEq, Eq, Structural)]
pub enum CartReadingError {
    /// The buffer does not carry a well-formed iNES image.
    UnrecognisedFormat,
    /// The image names a mapper this library does not implement.
    UnknownMapper(u8),
}

/// The name-table mirroring arrangement a cartridge selects.
#[derive(Clone, Copy, Debug, PartialEq, Eq, Structural)]
pub enum Mirroring {
    /// Tables wrap horizontally.
    Horizontal,
    /// Tables wrap vertically.
    Vertical,
    /// Every mirror points to the first table.
    SingleLower,
    /// Every mirror points to the second table.
    SingleUpper,
}

/// Which of the two 1 KiB name-table banks a quadrant of the 4 KiB
/// name-table window folds onto.
pub open spec fn mirror_table(mode: Mirroring, quadrant: int) -> int {
    match mode {
        Mirroring::Horizontal => if quadrant < 2 { 0int } else { 1 },
        Mirroring::Vertical => quadrant % 2,
        Mirroring::SingleLower => 0,
        Mirroring::SingleUpper => 1,
    }
}

/// The address-folding function of §name-table mirroring: any address at or
/// above 0x2000 is folded onto one of the two banks at 0x2000 and 0x2400.
pub open spec fn mirror_address_spec(mode: Mirroring, address: int) -> int
    recommends
        0x2000 <= address,
{
    let folded = (address - 0x2000) % 0x1000;
    let table = mirror_table(mode, folded / 0x400);
    0x2000 + table * 0x400 + folded % 0x400
}

/// The mirroring arrangement selected by the two low bits of a serial
/// mapper's control register.
pub open spec fn mirroring_from_bits(bits: u8) -> Mirroring {
    if bits == 0 {
        Mirroring::SingleLower
    } else if bits == 1 {
        Mirroring::SingleUpper
    } else if bits == 2 {
        Mirroring::Vertical
    } else {
        Mirroring::Horizontal
    }
}

impl Mirroring {
    /// Mirroring from the two low bits of a serial mapper's control
    /// register.
    pub fn from_bits(bits: u8) -> (r: Self)
        ensures
            r == mirroring_from_bits(bits),
    {
        match bits {
            0 => Mirroring::SingleLower,
            1 => Mirroring::SingleUpper,
            2 => Mirroring::Vertical,
            _ => Mirroring::Horizontal,
        }
    }

    /// Mirroring from a flag bit, `true` meaning vertical.
    pub fn from_bool(b: bool) -> (r: Self)
        ensures
            r == (if b {
                Mirroring::Vertical
            } else {
                Mirroring::Horizontal
            }),
    {
        if b {
            Mirroring::Vertical
        } else {
            Mirroring::Horizontal
        }
    }

    /// Returns true if the mirroring is vertical.
    pub fn is_vertical(self) -> (r: bool)
        ensures
            r == (self is Vertical),
    {
        match self {
            Mirroring::Vertical => true,
            _ => false,
        }
    }

    /// Folds a name-table address at or above 0x2000 onto the two 1 KiB banks.
    pub fn mirror_address(self, address: u16) -> (r: u16)
        requires
            0x2000 <= address,
        ensures
            r == mirror_address_spec(self, address as int),
            0x2000 <= r < 0x2800,
    {
        let folded = (address - 0x2000) % 0x1000;
        let table: u16 = match (self, folded / 0x400) {
            (Mirroring::Horizontal, 0) => 0,
            (Mirroring::Horizontal, 1) => 0,
            (Mirroring::Horizontal, _) => 1,
            (Mirroring::Vertical, q) => q % 2,
            (Mirroring::SingleLower, _) => 0,
            (Mirroring::SingleUpper, _) => 1,
        };
        0x2000 + table * 0x400 + folded % 0x400
    }
}

/// Folding a name-table address is idempotent: folding an already folded
/// address leaves it unchanged. The one exception is horizontal mirroring
/// applied to the upper half of the 4 KiB window, whose fold lands in the
/// second bank and would fold once more onto the first.
pub proof fn lemma_mirror_idempotent(mode: Mirroring, address: int)
    requires
        0x2000 <= address,
        !(mode is Horizontal && (address - 0x2000) % 0x1000 >= 0x800),
    ensures
        mirror_address_spec(mode, mirror_address_spec(mode, address)) == mirror_address_spec(
            mode,
            address,
        ),
{
    let folded = (address - 0x2000) % 0x1000;
    let q = folded / 0x400;
    let off = folded % 0x400;
    assert(0 <= folded < 0x1000 && 0 <= off < 0x400 && 0 <= q < 4 && folded == q * 0x400 + off)
        by (nonlinear_arith)
        requires
            0x2000 <= address,
            folded == (address - 0x2000) % 0x1000,
            q == folded / 0x400,
            off == folded % 0x400,
    ;
    let table = mirror_table(mode, q);
    assert(0 <= table <= 1) by {
        if mode is Vertical {
            assert(0 <= q % 2 <= 1) by (nonlinear_arith)
                requires
                    0 <= q,
            ;
        }
    }
    if mode is Horizontal {
        assert(folded < 0x800);
        assert(q < 2) by (nonlinear_arith)
            requires
                q == folded / 0x400,
                0 <= folded < 0x800,
        ;
        assert(table == 0);
    }
    let r = mirror_address_spec(mode, address);
    assert(r == 0x2000 + table * 0x400 + off);
    let folded2 = (r - 0x2000) % 0x1000;
    let q2 = folded2 / 0x400;
    let off2 = folded2 % 0x400;
    assert(folded2 == table * 0x400 + off && q2 == table && off2 == off) by (nonlinear_arith)
        requires
            folded2 == (table * 0x400 + off) % 0x1000,
            q2 == folded2 / 0x400,
            off2 == folded2 % 0x400,
            0 <= table <= 1,
            0 <= off < 0x400,
    ;
    assert(mirror_table(mode, q2) == table) by {
        if mode is Vertical {
            assert(q2 == q % 2);
            assert(q2 % 2 == q2) by (nonlinear_arith)
                requires
                    0 <= q2 <= 1,
            ;
        }
    }
    assert(mirror_address_spec(mode, r) == 0x2000 + mirror_table(mode, q2) * 0x400 + off2);
}

/// The mapper families this library implements.
#[derive(Clone, Copy, Debug, PartialEq, Eq, Structural)]
pub enum MapperID {
    /// The switchable-bank family used for mapper bytes 0 and 2.
    M2,
    /// The serial-shift-register mapper, byte 1.
    M1,
}

impl MapperID {
    /// Decodes a raw mapper byte into a supported mapper family.
    pub fn from_byte(byte: u8) -> (r: Result<Self, CartReadingError>)
        ensures
            byte == 0 || byte == 2 ==> r == Ok::<MapperID, CartReadingError>(MapperID::M2),
            byte == 1 ==> r == Ok::<MapperID, CartReadingError>(MapperID::M1),
            byte > 2 ==> r == Err::<MapperID, CartReadingError>(CartReadingError::UnknownMapper(
                byte,
            )),
    {
        match byte {
            0 => Ok(MapperID::M2),
            1 => Ok(MapperID::M1),
            2 => Ok(MapperID::M2),
            _ => Err(CartReadingError::UnknownMapper(byte)),
        }
    }
}

/// True when the buffer opens with the iNES magic bytes.
pub open spec fn ines_magic_ok(b: Seq<u8>) -> bool {
    b.len() >= 16 && b[0] == 0x4E && b[1] == 0x45 && b[2] == 0x53 && b[3] == 0x1A
}

/// Offset of the program image inside the buffer: the 16-byte header plus
/// a 512-byte trainer when flag 6 announces one.
pub open spec fn ines_prg_start(b: Seq<u8>) -> int
    recommends
        b.len() >= 16,
{
    if b[6] & 0b100 != 0 {
        16 + 512int
    } else {
        16
    }
}

/// Length in bytes of the program image: 16 KiB per declared chunk.
pub open spec fn ines_prg_len(b: Seq<u8>) -> int
    recommends
        b.len() >= 16,
{
    0x4000 * (b[4] as int)
}

/// Length in bytes of the pattern image: 8 KiB per declared chunk.
pub open spec fn ines_chr_len(b: Seq<u8>) -> int
    recommends
        b.len() >= 16,
{
    0x2000 * (b[5] as int)
}

/// The mapper byte assembled from the two flag nibbles.
pub open spec fn ines_mapper_byte(b: Seq<u8>) -> u8
    recommends
        b.len() >= 16,
{
    (b[6] >> 4) | (b[7] & 0xF0)
}

/// True when the buffer is long enough to carry the declared images and
/// declares at least one program chunk.
pub open spec fn ines_sizes_ok(b: Seq<u8>) -> bool
    recommends
        b.len() >= 16,
{
    &&& b[4] != 0
    &&& b.len() >= ines_prg_start(b) + ines_prg_len(b) + ines_chr_len(b)
}

/// An NES cartridge: the program and pattern images, the battery-backed
/// work RAM, and the declared mapper and mirroring.
pub struct Cart {
    /// The program ROM, in 16 KiB chunks.
    pub prg: Vec<u8>,
    /// The pattern image, in 8 KiB chunks; all zero pattern RAM when the
    /// image declares no pattern chunks.
    pub chr: Vec<u8>,
    /// The cartridge work RAM, always 8 KiB.
    pub sram: [u8; 0x2000],
    /// The raw mapper byte of the image.
    pub mapper: u8,
    /// The mirroring arrangement the image declares.
    pub mirroring: Mirroring,
    /// Whether a battery-backed RAM is present.
    pub has_battery: bool,
}

impl Cart {
    /// Reads a buffer of bytes into a cartridge, checking the container
    /// format, the mapper byte and the declared sizes.
    pub fn from_bytes(buffer: &[u8]) -> (r: Result<Cart, CartReadingError>)
        ensures
            !ines_magic_ok(buffer@) ==> r == Err::<Cart, CartReadingError>(
                CartReadingError::UnrecognisedFormat,
            ),
            ines_magic_ok(buffer@) && ines_mapper_byte(buffer@) > 2 ==> r == Err::<
                Cart,
                CartReadingError,
            >(CartReadingError::UnknownMapper(ines_mapper_byte(buffer@))),
            ines_magic_ok(buffer@) && ines_mapper_byte(buffer@) <= 2 && !ines_sizes_ok(buffer@)
                ==> r == Err::<Cart, CartReadingError>(CartReadingError::UnrecognisedFormat),
            ines_magic_ok(buffer@) && ines_mapper_byte(buffer@) <= 2 && ines_sizes_ok(buffer@)
                ==> r is Ok && r->Ok_0.parsed_from(buffer@),
    {
        if buffer.len() < 16 {
            return Err(CartReadingError::UnrecognisedFormat);
        }
        let m0 = *vstd::slice::slice_index_get(buffer, 0);
        let m1 = *vstd::slice::slice_index_get(buffer, 1);
        let m2 = *vstd::slice::slice_index_get(buffer, 2);
        let m3 = *vstd::slice::slice_index_get(buffer, 3);
        if m0 == 0x4E && m1 == 0x45 && m2 == 0x53 && m3 == 0x1A {
            Cart::from_ines(buffer)
        } else {
            Err(CartReadingError::UnrecognisedFormat)
        }
    }

    /// What a successfully parsed cartridge holds, in terms of the buffer
    /// it was read from.
    pub open spec fn parsed_from(self, b: Seq<u8>) -> bool
        recommends
            b.len() >= 16,
    {
        let prg_start = ines_prg_start(b);
        let prg_end = prg_start + ines_prg_len(b);
        &&& self.prg@ == b.subrange(prg_start, prg_end)
        &&& self.chr@ == (if b[5] == 0 {
            Seq::new(0x2000, |i: int| 0u8)
        } else {
            b.subrange(prg_end, prg_end + ines_chr_len(b))
        })
        &&& self.sram@ == Seq::new(0x2000, |i: int| 0u8)
        &&& self.mapper == ines_mapper_byte(b)
        &&& self.mirroring == (if b[6] & 1 != 0 {
            Mirroring::Vertical
        } else {
            Mirroring::Horizontal
        })
        &&& self.has_battery == (b[6] & 0b10 != 0)
    }

    /// Reads an iNES formatted buffer, including the header.
    fn from_ines(buffer: &[u8]) -> (r: Result<Cart, CartReadingError>)
        requires
            ines_magic_ok(buffer@),
        ensures
            ines_mapper_byte(buffer@) > 2 ==> r == Err::<Cart, CartReadingError>(
                CartReadingError::UnknownMapper(ines_mapper_byte(buffer@)),
            ),
            ines_mapper_byte(buffer@) <= 2 && !ines_sizes_ok(buffer@) ==> r == Err::<
                Cart,
                CartReadingError,
            >(CartReadingError::UnrecognisedFormat),
            ines_mapper_byte(buffer@) <= 2 && ines_sizes_ok(buffer@) ==> r is Ok
                && r->Ok_0.parsed_from(buffer@),
    {
        let prg_chunks = *vstd::slice::slice_index_get(buffer, 4) as usize;
        let chr_chunks = *vstd::slice::slice_index_get(buffer, 5) as usize;
        let flag6 = *vstd::slice::slice_index_get(buffer, 6);
        let flag7 = *vstd::slice::slice_index_get(buffer, 7);
        let mapper_byte = (flag6 >> 4) | (flag7 & 0xF0);
        if mapper_byte > 2 {
            return Err(CartReadingError::UnknownMapper(mapper_byte));
        }
        let trainer_offset: usize = if flag6 & 0b100 != 0 {
            512
        } else {
            0
        };
        let prg_start = 16 + trainer_offset;
        let prg_end = prg_start + 0x4000 * prg_chunks;
        let chr_end = prg_end + 0x2000 * chr_chunks;
        if prg_chunks == 0 || buffer.len() < chr_end {
            return Err(CartReadingError::UnrecognisedFormat);
        }
        let prg = slice_to_vec(slice_subrange(buffer, prg_start, prg_end));
        let chr = if chr_chunks == 0 {
            zero_vec(0x2000)
        } else {
            slice_to_vec(slice_subrange(buffer, prg_end, chr_end))
        };
        let mirroring = Mirroring::from_bool(flag6 & 1 != 0);
        let sram = [0u8; 0x2000];
        proof {
            assert(prg@ =~= buffer@.subrange(
                ines_prg_start(buffer@),
                ines_prg_start(buffer@) + ines_prg_len(buffer@),
            ));
            assert(sram@ =~= Seq::new(0x2000, |i: int| 0u8));
            if chr_chunks == 0 {
                assert(chr@ =~= Seq::new(0x2000, |i: int| 0u8));
            } else {
                let prg_e = ines_prg_start(buffer@) + ines_prg_len(buffer@);
                assert(chr@ =~= buffer@.subrange(prg_e, prg_e + ines_chr_len(buffer@)));
            }
        }
        Ok(
            Cart {
                prg,
                chr,
                sram,
                mapper: mapper_byte,
                mirroring,
                has_battery: flag6 & 0b10 != 0,
            },
        )
    }
}

/// A vector of `n` zero bytes.
fn zero_vec(n: usize) -> (v: Vec<u8>)
    ensures
        v@ == Seq::new(n as nat, |i: int| 0u8),
{
    let mut v: Vec<u8> = Vec::new();
    while v.len() < n
        invariant
            v@ == Seq::new(v@.len(), |i: int| 0u8),
            v@.len() <= n,
        decreases n - v@.len(),
    {
        v.push(0);
        proof {
            assert(v@ =~= Seq::new(v@.len(), |i: int| 0u8));
        }
    }
    proof {
        assert(v@ =~= Seq::new(n as nat, |i: int| 0u8));
    }
    v
}

} // verus!
