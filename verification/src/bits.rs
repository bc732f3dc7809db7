//! Small facts about byte- and word-level masking, shared by the register
//! files: every masked or shifted field stays within its declared width.

use vstd::prelude::*;

verus! {

/// Bounds of the byte fields cut out of a register write: each mask or
/// shift keeps the value within the field's width.
pub proof fn lemma_u8_bits(v: u8)
    ensures
        v & 1 <= 1,
        v & 3 <= 3,
        v & 7 <= 7,
        v & 15 <= 15,
        v & 0x1F <= 0x1F,
        v & 0x7F <= 0x7F,
        v & 0xFE <= 0xFE,
        v >> 3 < 32,
        v >> 4 < 16,
        (v >> 1) & 1 <= 1,
        (v >> 2) & 1 <= 1,
        (v >> 3) & 1 <= 1,
        (v >> 4) & 1 <= 1,
        (v >> 5) & 1 <= 1,
        (v >> 6) & 1 <= 1,
        (v >> 7) & 1 <= 1,
        (v >> 6) & 3 <= 3,
        (v >> 4) & 7 <= 7,
        (v >> 6) & 1 <= 1,
{
    assert(v & 1 <= 1 && v & 3 <= 3 && v & 7 <= 7 && v & 15 <= 15 && v & 0x1F <= 0x1F && v & 0x7F
        <= 0x7F && v & 0xFE <= 0xFE && v >> 3 < 32 && v >> 4 < 16 && (v >> 1) & 1 <= 1 && (v >> 2)
        & 1 <= 1 && (v >> 3) & 1 <= 1 && (v >> 4) & 1 <= 1 && (v >> 5) & 1 <= 1 && (v >> 6) & 1
        <= 1 && (v >> 7) & 1 <= 1 && (v >> 6) & 3 <= 3 && (v >> 4) & 7 <= 7) by (bit_vector);
}

/// The temporary VRAM address stays within fifteen bits under each of the
/// register writes that rewrite parts of it.
pub proof fn lemma_t_update_bounds(t: u16, value: u8)
    requires
        t < 0x8000,
    ensures
        (t & 0xF3FF) | (((value & 0x03) as u16) << 10) < 0x8000,
        (t & 0x7FE0) | ((value as u16) >> 3) < 0x8000,
        (t & 0xC1F) | (((value & 0xF8) as u16) << 2) | (((value & 0x7) as u16) << 12) < 0x8000,
        (t & 0x80FF) | (((value & 0x3F) as u16) << 8) < 0x8000,
        (t & 0xFF00) | (value as u16) < 0x8000,
{
    assert((t & 0xF3FF) | (((value & 0x03) as u16) << 10) < 0x8000 && (t & 0x7FE0) | ((value as u16)
        >> 3) < 0x8000 && (t & 0xC1F) | (((value & 0xF8) as u16) << 2) | (((value & 0x7) as u16)
        << 12) < 0x8000 && (t & 0x80FF) | (((value & 0x3F) as u16) << 8) < 0x8000 && (t & 0xFF00) | (
    value as u16) < 0x8000) by (bit_vector)
        requires
            t < 0x8000,
    ;
}

/// The current VRAM address stays within fifteen bits under the scroll
/// housekeeping of the rendering pipeline.
pub proof fn lemma_v_update_bounds(v: u16, t: u16)
    requires
        v < 0x8000,
        t < 0x8000,
    ensures
        (v & 0xFBE0) | (t & 0x041F) < 0x8000,
        (v & 0x841F) | (t & 0x7BE0) < 0x8000,
        ((v & 0xFFE0) ^ 0x0400) < 0x8000,
        v & 0x001F != 31 ==> v + 1 < 0x8000,
        v & 0x7000 != 0x7000 ==> v + 0x1000 < 0x8000,
        v & 0x8FFF < 0x1000,
        (v & 0x8FFF) ^ 0x800 < 0x1000,
        (v & 0x3E0) >> 5 <= 31,
{
    assert((v & 0xFBE0) | (t & 0x041F) < 0x8000 && (v & 0x841F) | (t & 0x7BE0) < 0x8000 && ((v
        & 0xFFE0) ^ 0x0400) < 0x8000 && (v & 0x001F != 31 ==> v + 1 < 0x8000) && (v & 0x7000
        != 0x7000 ==> v + 0x1000 < 0x8000) && v & 0x8FFF < 0x1000 && (v & 0x8FFF) ^ 0x800 < 0x1000
        && (v & 0x3E0) >> 5 <= 31) by (bit_vector)
        requires
            v < 0x8000,
            t < 0x8000,
    ;
}

/// A value masked to fifteen bits equals its remainder modulo 0x8000, the
/// low bit equals the remainder modulo two, and any value ored into the
/// one-page stack window stays below the RAM boundary.
pub proof fn lemma_word_bits(x: u16)
    ensures
        x & 0x7FFF == x % 0x8000,
        x & 1 == x % 2,
        x < 0x100 ==> 0x100u16 | x < 0x2000,
{
    assert(x & 0x7FFF == x % 0x8000 && x & 1 == x % 2 && (x < 0x100 ==> 0x100u16 | x < 0x2000))
        by (bit_vector);
}

} // verus!
