//! The pixel-pipeline video processor: the memory-mapped register file the
//! bus reaches (`PPUState`), and the rendering pipeline that races the CPU
//! at three dots per CPU cycle (`PPU`).

use crate::cart::mirror_address_spec;
use crate::mapper::{mapper_read_spec, mapper_write_effect, Mapper};
use crate::cpu::{CPUState, Interrupt};
use crate::memory::MemoryBus;
use crate::ports::{PixelBuffer, VideoDevice};
use crate::bits::{lemma_t_update_bounds, lemma_u8_bits, lemma_v_update_bounds, lemma_word_bits};
use vstd::prelude::*;

verus! {

/// Palette addresses fold so that 0x10, 0x14, 0x18 and 0x1C alias 0x00,
/// 0x04, 0x08 and 0x0C.
pub open spec fn palette_fold(address: u16) -> int
    recommends
        address < 32,
{
    if address >= 16 && address % 4 == 0 {
        address - 16
    } else {
        address as int
    }
}

/// The backdrop entries of the sprite palette alias the backdrop entries of
/// the background palette: for each of the four aliased palette addresses,
/// reads and writes land on the same palette cell as the address 0x10
/// below it.
pub proof fn lemma_palette_alias(address: u16)
    requires
        address == 0x3F10 || address == 0x3F14 || address == 0x3F18 || address == 0x3F1C,
    ensures
        palette_fold(address % 32) == palette_fold(((address - 0x10) as u16) % 32),
{
}

/// The state transition of the internal non-maskable-interrupt edge
/// detector: a fresh rising edge of `output && occurred` arms a 15-dot
/// delivery delay.
pub open spec fn nmi_change_spec(p: PPUState) -> PPUState {
    let nmi = p.nmi_output && p.nmi_occurred;
    PPUState {
        nmi_delay: if nmi && !p.nmi_previous {
            15u8
        } else {
            p.nmi_delay
        },
        nmi_previous: nmi,
        ..p
    }
}

/// The openly modifiable register file of the PPU, reached from the CPU
/// bus through the eight memory-mapped registers and by sprite DMA.
pub struct PPUState {
    /// The 32 bytes of palette RAM, stored folded.
    pub palettes: [u8; 32],
    /// The 2 KiB of name-table RAM.
    pub nametables: [u8; 2048],
    /// The 256 bytes of sprite attribute memory.
    pub oam: [u8; 256],
    /// The current VRAM address (15 bits).
    pub v: u16,
    /// The temporary VRAM address (15 bits).
    pub t: u16,
    /// The shared write toggle of the scroll and address registers (1 bit).
    pub w: u8,
    /// The fine-x scroll (3 bits).
    pub x: u8,
    /// The last value driven onto the register bus.
    pub register: u8,
    /// Whether vertical blank has begun and not been acknowledged.
    pub nmi_occurred: bool,
    /// Whether the control register enables the non-maskable interrupt.
    pub nmi_output: bool,
    /// The previous level of the interrupt predicate, for edge detection.
    pub nmi_previous: bool,
    /// Dots left until an armed interrupt is delivered to the CPU.
    pub nmi_delay: u8,
    /// Control register: base name-table selection (2 bits).
    pub flg_nametable: u8,
    /// Control register: VRAM increment per data access, 0 for 1, 1 for 32.
    pub flg_increment: u8,
    /// Control register: sprite pattern table selection.
    pub flg_spritetable: u8,
    /// Control register: background pattern table selection.
    pub flg_backgroundtable: u8,
    /// Control register: sprite height, 0 for 8 pixels, 1 for 16.
    pub flg_spritesize: u8,
    /// Control register: master/slave selection.
    pub flg_masterslave: u8,
    /// Mask register: grayscale.
    pub flg_grayscale: u8,
    /// Mask register: show the background in the left eight pixels.
    pub flg_showleftbg: u8,
    /// Mask register: show sprites in the left eight pixels.
    pub flg_showleftsprites: u8,
    /// Mask register: show the background.
    pub flg_showbg: u8,
    /// Mask register: show sprites.
    pub flg_showsprites: u8,
    /// Mask register: red emphasis.
    pub flg_redtint: u8,
    /// Mask register: green emphasis.
    pub flg_greentint: u8,
    /// Mask register: blue emphasis.
    pub flg_bluetint: u8,
    /// Status register: sprite 0 hit.
    pub flg_sprite0hit: u8,
    /// Status register: sprite overflow.
    pub flg_spriteoverflow: u8,
    /// The sprite memory address the next OAM access uses.
    pub oam_address: u8,
    /// The read buffer of the data register.
    pub buffer_data: u8,
}

/// The register file a powered-up PPU starts from: everything cleared.
pub open spec fn initial_ppu_state() -> PPUState {
    PPUState {
        palettes: vstd::array::spec_array_fill_for_copy_type(0u8),
        nametables: vstd::array::spec_array_fill_for_copy_type(0u8),
        oam: vstd::array::spec_array_fill_for_copy_type(0u8),
        v: 0,
        t: 0,
        w: 0,
        x: 0,
        register: 0,
        nmi_occurred: false,
        nmi_output: false,
        nmi_previous: false,
        nmi_delay: 0,
        flg_nametable: 0,
        flg_increment: 0,
        flg_spritetable: 0,
        flg_backgroundtable: 0,
        flg_spritesize: 0,
        flg_masterslave: 0,
        flg_grayscale: 0,
        flg_showleftbg: 0,
        flg_showleftsprites: 0,
        flg_showbg: 0,
        flg_showsprites: 0,
        flg_redtint: 0,
        flg_greentint: 0,
        flg_bluetint: 0,
        flg_sprite0hit: 0,
        flg_spriteoverflow: 0,
        oam_address: 0,
        buffer_data: 0,
    }
}

/// What a PPU-space read returns: the pattern tables through the mapper,
/// the mirrored name tables, or the folded palette.
pub open spec fn ppu_read_spec(p: PPUState, m: Mapper, address: u16) -> u8 {
    let wrapped = address % 0x4000;
    if wrapped < 0x2000 {
        mapper_read_spec(m, wrapped)
    } else if wrapped < 0x3F00 {
        p.nametables@[mirror_address_spec(m.mirroring_spec(), wrapped as int) % 2048]
    } else {
        p.palettes@[palette_fold(wrapped % 32)]
    }
}

/// How a store through the PPU address space changes the register file and
/// the mapper: the pattern tables through the mapper below 0x2000, the
/// mirrored name tables below 0x3F00, and the folded palette above.
pub open spec fn ppu_mem_write_effect(
    p0: PPUState,
    p1: PPUState,
    m0: Mapper,
    m1: Mapper,
    address: u16,
    value: u8,
) -> bool {
    let wrapped = address % 0x4000;
    if wrapped < 0x2000 {
        &&& p1 == p0
        &&& mapper_write_effect(m0, m1, wrapped, value)
    } else if wrapped < 0x3F00 {
        &&& p1 == (PPUState { nametables: p1.nametables, ..p0 })
        &&& p1.nametables@ == p0.nametables@.update(
            mirror_address_spec(m0.mirroring_spec(), wrapped as int) % 2048,
            value,
        )
        &&& m1 == m0
    } else {
        &&& p1 == (PPUState { palettes: p1.palettes, ..p0 })
        &&& p1.palettes@ == p0.palettes@.update(palette_fold(wrapped % 32), value)
        &&& m1 == m0
    }
}

/// The state transition of a control-register write.
pub open spec fn control_write_spec(p: PPUState, value: u8) -> PPUState {
    nmi_change_spec(
        PPUState {
            flg_nametable: value & 3,
            flg_increment: (value >> 2) & 1,
            flg_spritetable: (value >> 3) & 1,
            flg_backgroundtable: (value >> 4) & 1,
            flg_spritesize: (value >> 5) & 1,
            flg_masterslave: (value >> 6) & 1,
            nmi_output: (value >> 7) & 1 == 1,
            t: (p.t & 0xF3FF) | (((value & 0x03) as u16) << 10),
            ..p
        },
    )
}

/// The state transition of a mask-register write.
pub open spec fn mask_write_spec(p: PPUState, value: u8) -> PPUState {
    PPUState {
        flg_grayscale: value & 1,
        flg_showleftbg: (value >> 1) & 1,
        flg_showleftsprites: (value >> 2) & 1,
        flg_showbg: (value >> 3) & 1,
        flg_showsprites: (value >> 4) & 1,
        flg_redtint: (value >> 5) & 1,
        flg_greentint: (value >> 6) & 1,
        flg_bluetint: (value >> 7) & 1,
        ..p
    }
}

/// The state transition of a scroll-register write: the first write sets
/// coarse and fine x, the second sets coarse and fine y.
pub open spec fn scroll_write_spec(p: PPUState, value: u8) -> PPUState {
    if p.w == 0 {
        PPUState { t: (p.t & 0x7FE0) | ((value as u16) >> 3), x: value & 0x7, w: 1, ..p }
    } else {
        PPUState {
            t: (p.t & 0xC1F) | (((value & 0xF8) as u16) << 2) | (((value & 0x7) as u16) << 12),
            w: 0,
            ..p
        }
    }
}

/// The state transition of an address-register write: the first write sets
/// the high six bits of the temporary address, the second sets the low
/// byte and transfers it to the current address.
pub open spec fn addr_write_spec(p: PPUState, value: u8) -> PPUState {
    if p.w == 0 {
        PPUState { t: (p.t & 0x80FF) | (((value & 0x3F) as u16) << 8), w: 1, ..p }
    } else {
        let t = (p.t & 0xFF00) | (value as u16);
        PPUState { t, v: t, w: 0, ..p }
    }
}

/// Writing the scroll register twice (x then y) and then the address
/// register twice (high then low) leaves the current VRAM address equal to
/// `((hi & 0x3F) << 8) | lo`, whatever came before.
pub proof fn lemma_scroll_then_addr_sets_v(p: PPUState, xv: u8, yv: u8, hi: u8, lo: u8)
    requires
        p.w == 0,
    ensures
        ({
            let p4 = addr_write_spec(
                addr_write_spec(scroll_write_spec(scroll_write_spec(p, xv), yv), hi),
                lo,
            );
            p4.v == ((((hi & 0x3F) as u16) as int) * 0x100 + lo) && p4.w == 0
        }),
{
    let t0 = p.t;
    let p1 = scroll_write_spec(p, xv);
    let p2 = scroll_write_spec(p1, yv);
    let p3 = addr_write_spec(p2, hi);
    let p4 = addr_write_spec(p3, lo);
    let t1 = p1.t;
    let t2 = p2.t;
    let t3 = p3.t;
    let t4 = p4.t;
    assert(t4 == ((hi & 0x3F) as u16) as int * 0x100 + lo) by (bit_vector)
        requires
            t1 == (t0 & 0x7FE0) | ((xv as u16) >> 3),
            t2 == (t1 & 0xC1F) | (((yv & 0xF8) as u16) << 2) | (((yv & 0x7) as u16) << 12),
            t3 == (t2 & 0x80FF) | (((hi & 0x3F) as u16) << 8),
            t4 == (t3 & 0xFF00) | (lo as u16),
    ;
}

/// What a read of one of the eight memory-mapped registers returns and
/// does: the status read reports and clears vblank, the OAM-data read is
/// passive, the data read is buffered and advances the current address,
/// and every other register reads as 0 untouched.
pub open spec fn ppu_register_read_effect(
    p0: PPUState,
    p1: PPUState,
    m: Mapper,
    address: u16,
    r: u8,
) -> bool {
    &&& (address == 0x2002 ==> r == read_status_value(p0) && p1 == read_status_state(p0))
    &&& (address == 0x2004 ==> r == p0.oam@[p0.oam_address as int] && p1 == p0)
    &&& (address == 0x2007 ==> ({
        &&& p1.v as int == (p0.v + (if p0.flg_increment == 0 {
            1int
        } else {
            32
        })) % 0x8000
        &&& (p0.v % 0x4000 < 0x3F00 ==> r == p0.buffer_data && p1.buffer_data == ppu_read_spec(
            p0,
            m,
            p0.v,
        ))
        &&& (p0.v % 0x4000 >= 0x3F00 ==> r == ppu_read_spec(p0, m, p0.v) && p1.buffer_data
            == ppu_read_spec(p0, m, ((p0.v - 0x1000) as u16)))
        &&& p1 == (PPUState { v: p1.v, buffer_data: p1.buffer_data, ..p0 })
    }))
    &&& (!(address == 0x2002 || address == 0x2004 || address == 0x2007) ==> r == 0 && p1 == p0)
}

/// How a write to one of the eight memory-mapped registers changes the
/// register file (and, through the data port, possibly the mapper): the
/// written value is latched on the register bus, and each register applies
/// its own transition; writes outside the eight registers only latch.
pub open spec fn ppu_register_write_effect(
    p0: PPUState,
    p1: PPUState,
    m0: Mapper,
    m1: Mapper,
    address: u16,
    value: u8,
) -> bool {
    let latched = PPUState { register: value, ..p0 };
    &&& (address == 0x2000 ==> p1 == control_write_spec(latched, value) && m1 == m0)
    &&& (address == 0x2001 ==> p1 == mask_write_spec(latched, value) && m1 == m0)
    &&& (address == 0x2002 ==> p1 == latched && m1 == m0)
    &&& (address == 0x2003 ==> p1 == (PPUState { oam_address: value, ..latched }) && m1 == m0)
    &&& (address == 0x2004 ==> p1 == (PPUState {
        oam: p1.oam,
        oam_address: ((latched.oam_address + 1) % 256) as u8,
        ..latched
    }) && p1.oam@ == latched.oam@.update(latched.oam_address as int, value) && m1 == m0)
    &&& (address == 0x2005 ==> p1 == scroll_write_spec(latched, value) && m1 == m0)
    &&& (address == 0x2006 ==> p1 == addr_write_spec(latched, value) && m1 == m0)
    &&& (address == 0x2007 ==> ({
        &&& p1.v as int == (latched.v + (if latched.flg_increment == 0 {
            1int
        } else {
            32
        })) % 0x8000
        &&& ppu_mem_write_effect(
            latched,
            (PPUState { v: latched.v, ..p1 }),
            m0,
            m1,
            latched.v,
            value,
        )
    }))
    &&& (!(0x2000 <= address <= 0x2007) ==> p1 == latched && m1 == m0)
}

impl PPUState {
    /// The two internal addresses fit 15 bits, the fine scroll fits 3, the
    /// write toggle and the single-bit flags fit 1, and the name-table
    /// selection fits 2.
    pub open spec fn wf(&self) -> bool {
        &&& self.v < 0x8000
        &&& self.t < 0x8000
        &&& self.w <= 1
        &&& self.x <= 7
        &&& self.flg_nametable <= 3
        &&& self.flg_increment <= 1
        &&& self.flg_spritetable <= 1
        &&& self.flg_backgroundtable <= 1
        &&& self.flg_spritesize <= 1
        &&& self.flg_masterslave <= 1
        &&& self.flg_grayscale <= 1
        &&& self.flg_showleftbg <= 1
        &&& self.flg_showleftsprites <= 1
        &&& self.flg_showbg <= 1
        &&& self.flg_showsprites <= 1
        &&& self.flg_redtint <= 1
        &&& self.flg_greentint <= 1
        &&& self.flg_bluetint <= 1
        &&& self.flg_sprite0hit <= 1
        &&& self.flg_spriteoverflow <= 1
    }

    /// The cleared register file of a powered-up PPU.
    pub fn new() -> (r: Self)
        ensures
            r == initial_ppu_state(),
            r.wf(),
    {
        PPUState {
            palettes: [0u8; 32],
            nametables: [0u8; 2048],
            oam: [0u8; 256],
            v: 0,
            t: 0,
            w: 0,
            x: 0,
            register: 0,
            nmi_occurred: false,
            nmi_output: false,
            nmi_previous: false,
            nmi_delay: 0,
            flg_nametable: 0,
            flg_increment: 0,
            flg_spritetable: 0,
            flg_backgroundtable: 0,
            flg_spritesize: 0,
            flg_masterslave: 0,
            flg_grayscale: 0,
            flg_showleftbg: 0,
            flg_showleftsprites: 0,
            flg_showbg: 0,
            flg_showsprites: 0,
            flg_redtint: 0,
            flg_greentint: 0,
            flg_bluetint: 0,
            flg_sprite0hit: 0,
            flg_spriteoverflow: 0,
            oam_address: 0,
            buffer_data: 0,
        }
    }

    /// Re-arms the interrupt edge detector after a flag change.
    pub(crate) fn nmi_change(&mut self)
        ensures
            *final(self) == nmi_change_spec(*old(self)),
    {
        let nmi = self.nmi_output && self.nmi_occurred;
        if nmi && !self.nmi_previous {
            self.nmi_delay = 15;
        }
        self.nmi_previous = nmi;
    }

    /// Reads a byte of PPU space: pattern tables, mirrored name tables or
    /// the folded palette.
    pub(crate) fn read(&self, mapper: &Mapper, address: u16) -> (r: u8)
        requires
            mapper.wf(),
        ensures
            r == ppu_read_spec(*self, *mapper, address),
    {
        let wrapped = address % 0x4000;
        if wrapped < 0x2000 {
            mapper.read(wrapped)
        } else if wrapped < 0x3F00 {
            let mode = mapper.mirroring_mode();
            let mirrored = mode.mirror_address(wrapped);
            self.nametables[(mirrored % 2048) as usize]
        } else {
            self.read_palette(wrapped % 32)
        }
    }

    /// Writes a byte of PPU space: pattern tables, mirrored name tables or
    /// the folded palette.
    pub(crate) fn write(&mut self, mapper: &mut Mapper, address: u16, value: u8)
        requires
            old(mapper).wf(),
        ensures
            final(mapper).wf(),
            ppu_mem_write_effect(*old(self), *final(self), *old(mapper), *final(mapper), address, value),
    {
        let wrapped = address % 0x4000;
        if wrapped < 0x2000 {
            mapper.write(wrapped, value);
        } else if wrapped < 0x3F00 {
            let mode = mapper.mirroring_mode();
            let mirrored = mode.mirror_address(wrapped);
            let i = (mirrored % 2048) as usize;
            self.nametables[i] = value;
        } else {
            self.write_palette(wrapped % 32, value);
        }
    }

    /// Reads a palette cell through the alias fold.
    pub(crate) fn read_palette(&self, address: u16) -> (r: u8)
        requires
            address < 32,
        ensures
            r == self.palettes@[palette_fold(address)],
    {
        let wrapped = if address >= 16 && address % 4 == 0 {
            address - 16
        } else {
            address
        };
        self.palettes[wrapped as usize]
    }

    /// Writes a palette cell through the alias fold.
    pub(crate) fn write_palette(&mut self, address: u16, value: u8)
        requires
            address < 32,
        ensures
            *final(self) == (PPUState { palettes: final(self).palettes, ..*old(self) }),
            final(self).palettes@ == old(self).palettes@.update(palette_fold(address), value),
    {
        let wrapped = if address >= 16 && address % 4 == 0 {
            address - 16
        } else {
            address
        };
        self.palettes[wrapped as usize] = value;
    }

    /// Reads one of the memory-mapped registers: status, OAM data or data;
    /// every other register reads as 0.
    pub fn read_register(&mut self, mapper: &Mapper, address: u16) -> (r: u8)
        requires
            old(self).wf(),
            mapper.wf(),
        ensures
            final(self).wf(),
            ppu_register_read_effect(*old(self), *final(self), *mapper, address, r),
            address == 0x2002 ==> r == read_status_value(*old(self)) && *final(self)
                == read_status_state(*old(self)),
            address == 0x2004 ==> r == old(self).oam@[old(self).oam_address as int] && *final(self)
                == *old(self),
            address == 0x2007 ==> ({
                &&& final(self).v as int == (old(self).v + (if old(self).flg_increment == 0 {
                    1int
                } else {
                    32
                })) % 0x8000
                &&& (old(self).v % 0x4000 < 0x3F00 ==> r == old(self).buffer_data
                    && final(self).buffer_data == ppu_read_spec(*old(self), *mapper, old(self).v))
                &&& (old(self).v % 0x4000 >= 0x3F00 ==> r == ppu_read_spec(
                    *old(self),
                    *mapper,
                    old(self).v,
                ) && final(self).buffer_data == ppu_read_spec(
                    *old(self),
                    *mapper,
                    (old(self).v - 0x1000) as u16,
                ))
                &&& *final(self) == (PPUState {
                    v: final(self).v,
                    buffer_data: final(self).buffer_data,
                    ..*old(self)
                })
            }),
            !(address == 0x2002 || address == 0x2004 || address == 0x2007) ==> r == 0
                && *final(self) == *old(self),
            final(self).oam == old(self).oam,
            final(self).oam_address == old(self).oam_address,
            final(self).nametables == old(self).nametables,
            final(self).palettes == old(self).palettes,
            final(self).flg_increment == old(self).flg_increment,
            final(self).register == old(self).register,
    {
        match address {
            0x2002 => self.read_status(),
            0x2004 => self.read_oam_data(),
            0x2007 => self.read_data(mapper),
            _ => 0,
        }
    }

    /// Reads the status register: the sprite flags and the vblank flag,
    /// which is cleared by the read; the write toggle resets.
    fn read_status(&mut self) -> (r: u8)
        requires
            old(self).wf(),
        ensures
            final(self).wf(),
            r == read_status_value(*old(self)),
            *final(self) == read_status_state(*old(self)),
    {
        let mut res = self.register & 0x1F;
        res |= self.flg_spriteoverflow << 5;
        res |= self.flg_sprite0hit << 6;
        if self.nmi_occurred {
            res |= 1u8 << 7;
        }
        self.nmi_occurred = false;
        self.nmi_change();
        self.w = 0;
        res
    }

    /// Reads the OAM data register: the byte at the current OAM address.
    fn read_oam_data(&self) -> (r: u8)
        ensures
            r == self.oam@[self.oam_address as int],
    {
        self.oam[self.oam_address as usize]
    }

    /// Reads the data register: buffered for name-table space, direct for
    /// the palette (the buffer still refills from the name-table mirror
    /// underneath); the current address advances by 1 or 32.
    fn read_data(&mut self, mapper: &Mapper) -> (r: u8)
        requires
            old(self).wf(),
            mapper.wf(),
        ensures
            final(self).wf(),
            final(self).v as int == (old(self).v + (if old(self).flg_increment == 0 {
                1int
            } else {
                32
            })) % 0x8000,
            old(self).v % 0x4000 < 0x3F00 ==> r == old(self).buffer_data
                && final(self).buffer_data == ppu_read_spec(*old(self), *mapper, old(self).v),
            old(self).v % 0x4000 >= 0x3F00 ==> r == ppu_read_spec(*old(self), *mapper, old(self).v)
                && final(self).buffer_data == ppu_read_spec(
                *old(self),
                *mapper,
                (old(self).v - 0x1000) as u16,
            ),
            *final(self) == (PPUState {
                v: final(self).v,
                buffer_data: final(self).buffer_data,
                ..*old(self)
            }),
            final(self).oam == old(self).oam,
    {
        let v = self.v;
        let mut value = self.read(mapper, v);
        if v % 0x4000 < 0x3F00 {
            let buffer = self.buffer_data;
            self.buffer_data = value;
            value = buffer;
        } else {
            let read = self.read(mapper, v - 0x1000);
            self.buffer_data = read;
        }
        let inc: u16 = if self.flg_increment == 0 {
            1
        } else {
            32
        };
        let summed = self.v + inc;
        self.v = summed & 0x7FFF;
        proof {
            lemma_word_bits(summed);
        }
        value
    }

    /// Writes one of the memory-mapped registers, latching the value on
    /// the register bus.
    pub fn write_register(&mut self, mapper: &mut Mapper, address: u16, value: u8)
        requires
            old(self).wf(),
            old(mapper).wf(),
        ensures
            final(self).wf(),
            final(mapper).wf(),
            ppu_register_write_effect(
                *old(self),
                *final(self),
                *old(mapper),
                *final(mapper),
                address,
                value,
            ),
            address != 0x2004 ==> final(self).oam == old(self).oam,
            final(self).oam_address == (if address == 0x2003 {
                value
            } else if address == 0x2004 {
                ((old(self).oam_address + 1) % 256) as u8
            } else {
                old(self).oam_address
            }),
    {
        self.register = value;
        match address {
            0x2000 => self.write_control(value),
            0x2001 => self.write_mask(value),
            0x2003 => self.write_oam_address(value),
            0x2004 => self.write_oam_data(value),
            0x2005 => self.write_scroll(value),
            0x2006 => self.write_address(value),
            0x2007 => self.write_data(mapper, value),
            _ => {},
        }
    }

    /// Writes the control register.
    fn write_control(&mut self, value: u8)
        requires
            old(self).wf(),
        ensures
            final(self).wf(),
            *final(self) == control_write_spec(*old(self), value),
    {
        self.flg_nametable = value & 3;
        self.flg_increment = (value >> 2) & 1;
        self.flg_spritetable = (value >> 3) & 1;
        self.flg_backgroundtable = (value >> 4) & 1;
        self.flg_spritesize = (value >> 5) & 1;
        self.flg_masterslave = (value >> 6) & 1;
        self.nmi_output = (value >> 7) & 1 == 1;
        self.nmi_change();
        let t0 = self.t;
        self.t = (t0 & 0xF3FF) | (((value & 0x03) as u16) << 10);
        proof {
            lemma_t_update_bounds(old(self).t, value);
            lemma_u8_bits(value);
        }
    }

    /// Writes the mask register.
    fn write_mask(&mut self, value: u8)
        requires
            old(self).wf(),
        ensures
            final(self).wf(),
            *final(self) == mask_write_spec(*old(self), value),
    {
        self.flg_grayscale = value & 1;
        self.flg_showleftbg = (value >> 1) & 1;
        self.flg_showleftsprites = (value >> 2) & 1;
        self.flg_showbg = (value >> 3) & 1;
        self.flg_showsprites = (value >> 4) & 1;
        self.flg_redtint = (value >> 5) & 1;
        self.flg_greentint = (value >> 6) & 1;
        self.flg_bluetint = (value >> 7) & 1;
        proof {
            lemma_u8_bits(value);
        }
    }

    /// Writes the OAM address register.
    fn write_oam_address(&mut self, value: u8)
        ensures
            *final(self) == (PPUState { oam_address: value, ..*old(self) }),
    {
        self.oam_address = value;
    }

    /// Writes the OAM data register and advances the OAM address, wrapping.
    fn write_oam_data(&mut self, value: u8)
        ensures
            *final(self) == (PPUState {
                oam: final(self).oam,
                oam_address: ((old(self).oam_address + 1) % 256) as u8,
                ..*old(self)
            }),
            final(self).oam@ == old(self).oam@.update(old(self).oam_address as int, value),
    {
        let a = self.oam_address as usize;
        self.oam[a] = value;
        self.oam_address = self.oam_address.wrapping_add(1);
    }

    /// Writes the scroll register, toggling between the x and y halves.
    fn write_scroll(&mut self, value: u8)
        requires
            old(self).wf(),
        ensures
            final(self).wf(),
            *final(self) == scroll_write_spec(*old(self), value),
    {
        if self.w == 0 {
            let t0 = self.t;
            self.t = (t0 & 0x7FE0) | ((value as u16) >> 3);
            self.x = value & 0x7;
            self.w = 1;
            proof {
                lemma_t_update_bounds(old(self).t, value);
                lemma_u8_bits(value);
            }
        } else {
            let t0 = self.t;
            let s1 = ((value & 0x7) as u16) << 12;
            self.t = (t0 & 0xC1F) | (((value & 0xF8) as u16) << 2) | s1;
            self.w = 0;
            proof {
                lemma_t_update_bounds(old(self).t, value);
            }
        }
    }

    /// Writes the address register, toggling between the high and low
    /// halves; the second write transfers the temporary address to the
    /// current one.
    fn write_address(&mut self, value: u8)
        requires
            old(self).wf(),
        ensures
            final(self).wf(),
            *final(self) == addr_write_spec(*old(self), value),
    {
        if self.w == 0 {
            let t0 = self.t;
            self.t = (t0 & 0x80FF) | (((value & 0x3F) as u16) << 8);
            self.w = 1;
            proof {
                lemma_t_update_bounds(old(self).t, value);
            }
        } else {
            let t0 = self.t;
            let t = (t0 & 0xFF00) | (value as u16);
            self.t = t;
            self.v = t;
            self.w = 0;
            proof {
                lemma_t_update_bounds(old(self).t, value);
            }
        }
    }

    /// Writes the data register: stores through the PPU address space and
    /// advances the current address by 1 or 32.
    fn write_data(&mut self, mapper: &mut Mapper, value: u8)
        requires
            old(self).wf(),
            old(mapper).wf(),
        ensures
            final(self).wf(),
            final(mapper).wf(),
            final(self).v as int == (old(self).v + (if old(self).flg_increment == 0 {
                1int
            } else {
                32
            })) % 0x8000,
            ppu_mem_write_effect(
                *old(self),
                (PPUState { v: old(self).v, ..*final(self) }),
                *old(mapper),
                *final(mapper),
                old(self).v,
                value,
            ),
            final(self).oam == old(self).oam,
            final(self).oam_address == old(self).oam_address,
            final(self).register == old(self).register,
    {
        let v = self.v;
        self.write(mapper, v, value);
        let inc: u16 = if self.flg_increment == 0 {
            1
        } else {
            32
        };
        let summed = self.v + inc;
        self.v = summed & 0x7FFF;
        proof {
            lemma_word_bits(summed);
        }
    }

    /// Copies the horizontal scroll bits (coarse x and the name-table x
    /// bit) from the temporary address into the current one.
    pub(crate) fn copy_x(&mut self)
        requires
            old(self).wf(),
        ensures
            final(self).wf(),
            *final(self) == (PPUState {
                v: (old(self).v & 0xFBE0) | (old(self).t & 0x041F),
                ..*old(self)
            }),
    {
        let v0 = self.v;
        let t0 = self.t;
        self.v = (v0 & 0xFBE0) | (t0 & 0x041F);
        proof {
            lemma_v_update_bounds(v0, t0);
        }
    }

    /// Copies the vertical scroll bits (coarse y, fine y and the
    /// name-table y bit) from the temporary address into the current one.
    pub(crate) fn copy_y(&mut self)
        requires
            old(self).wf(),
        ensures
            final(self).wf(),
            *final(self) == (PPUState {
                v: (old(self).v & 0x841F) | (old(self).t & 0x7BE0),
                ..*old(self)
            }),
    {
        let v0 = self.v;
        let t0 = self.t;
        self.v = (v0 & 0x841F) | (t0 & 0x7BE0);
        proof {
            lemma_v_update_bounds(v0, t0);
        }
    }

    /// Advances coarse x by one tile, wrapping into the neighbouring
    /// name table at the end of a row.
    pub(crate) fn increment_x(&mut self)
        requires
            old(self).wf(),
        ensures
            final(self).wf(),
            *final(self) == (PPUState {
                v: if old(self).v & 0x001F == 31 {
                    (old(self).v & 0xFFE0) ^ 0x0400
                } else {
                    (old(self).v + 1) as u16
                },
                ..*old(self)
            }),
    {
        let v0 = self.v;
        if v0 & 0x001F == 31 {
            self.v = (v0 & 0xFFE0) ^ 0x0400;
            proof {
                lemma_v_update_bounds(v0, self.t);
            }
        } else {
            proof {
                lemma_v_update_bounds(v0, self.t);
            }
            self.v = v0 + 1;
        }
    }

    /// Advances fine y by one line, cascading into coarse y at the bottom
    /// of a tile and into the neighbouring name table at the bottom of
    /// the screen.
    pub(crate) fn increment_y(&mut self)
        requires
            old(self).wf(),
        ensures
            final(self).wf(),
            *final(self) == (PPUState { v: increment_y_spec(old(self).v), ..*old(self) }),
    {
        let v0 = self.v;
        if v0 & 0x7000 != 0x7000 {
            proof {
                lemma_v_update_bounds(v0, self.t);
            }
            self.v = v0 + 0x1000;
        } else {
            let v1 = v0 & 0x8FFF;
            proof {
                lemma_v_update_bounds(v0, self.t);
            }
            let cy = (v1 & 0x3E0) >> 5;
            proof {
                lemma_v_update_bounds(v1, self.t);
            }
            let (v2, y): (u16, u16) = if cy == 29 {
                (v1 ^ 0x800, 0)
            } else if cy == 31 {
                (v1, 0)
            } else {
                (v1, cy + 1)
            };
            proof {
                lemma_v_update_bounds(v0, self.t);
                assert(v1 ^ 0x800 == (v0 & 0x8FFF) ^ 0x800);
            }
            self.v = (v2 & 0xFC1F) | (y << 5);
            proof {
                assert(v2 < 0x1000 && y <= 31 ==> ((v2 & 0xFC1F) | (y << 5)) < 0x8000)
                    by (bit_vector);
            }
        }
    }
}

/// The vertical advance of the current VRAM address by one line: fine y
/// counts up within the tile; at the bottom of a tile, coarse y counts up,
/// wrapping into the neighbouring name table past row 29 (and merely
/// wrapping, without a table switch, from row 31).
pub open spec fn increment_y_spec(v: u16) -> u16 {
    if v & 0x7000 != 0x7000 {
        (((v + 0x1000) % 0x10000) as u16)
    } else {
        let v1 = v & 0x8FFF;
        let cy = (v1 & 0x3E0) >> 5;
        let v2: u16 = if cy == 29 {
            v1 ^ 0x800
        } else {
            v1
        };
        let y: u16 = if cy == 29 || cy == 31 {
            0
        } else {
            (((cy + 1) % 0x10000) as u16)
        };
        (v2 & 0xFC1F) | (y << 5)
    }
}

/// The value a status-register read returns: the stale register bus in the
/// low five bits, then sprite overflow, sprite 0 hit and the vblank flag.
pub open spec fn read_status_value(p: PPUState) -> u8 {
    let base = (p.register & 0x1F) | (p.flg_spriteoverflow << 5) | (p.flg_sprite0hit << 6);
    if p.nmi_occurred {
        base | (1u8 << 7)
    } else {
        base
    }
}

/// The state after a status-register read: the vblank flag and the write
/// toggle are cleared and the interrupt edge detector re-armed.
pub open spec fn read_status_state(p: PPUState) -> PPUState {
    nmi_change_spec(PPUState { nmi_occurred: false, w: 0, ..p })
}

/// The machine's 64-entry master palette, as opaque ARGB pixels.
pub open spec fn palette_rgb_spec(i: u8) -> u32
    recommends
        i < 64,
{
    match i {
        0 => 0xFF757575,
        1 => 0xFF271B8F,
        2 => 0xFF0000AB,
        3 => 0xFF47009F,
        4 => 0xFF8F0077,
        5 => 0xFFAB0013,
        6 => 0xFFA70000,
        7 => 0xFF7F0B00,
        8 => 0xFF432F00,
        9 => 0xFF004700,
        10 => 0xFF005100,
        11 => 0xFF003F17,
        12 => 0xFF1B3F5F,
        13 => 0xFF000000,
        14 => 0xFF000000,
        15 => 0xFF000000,
        16 => 0xFFBCBCBC,
        17 => 0xFF0073EF,
        18 => 0xFF233BEF,
        19 => 0xFF8300F3,
        20 => 0xFFBF00BF,
        21 => 0xFFE7005B,
        22 => 0xFFDB2B00,
        23 => 0xFFCB4F0F,
        24 => 0xFF8B7300,
        25 => 0xFF009700,
        26 => 0xFF00AB00,
        27 => 0xFF00933B,
        28 => 0xFF00838B,
        29 => 0xFF000000,
        30 => 0xFF000000,
        31 => 0xFF000000,
        32 => 0xFFFFFFFF,
        33 => 0xFF3FBFFF,
        34 => 0xFF5F97FF,
        35 => 0xFFA78BFD,
        36 => 0xFFF77BFF,
        37 => 0xFFFF77B7,
        38 => 0xFFFF7763,
        39 => 0xFFFF9B3B,
        40 => 0xFFF3BF3F,
        41 => 0xFF83D313,
        42 => 0xFF4FDF4B,
        43 => 0xFF58F898,
        44 => 0xFF00EBDB,
        45 => 0xFF000000,
        46 => 0xFF000000,
        47 => 0xFF000000,
        48 => 0xFFFFFFFF,
        49 => 0xFFABE7FF,
        50 => 0xFFC7D7FF,
        51 => 0xFFD7CBFF,
        52 => 0xFFFFC7FF,
        53 => 0xFFFFC7DB,
        54 => 0xFFFFBFB3,
        55 => 0xFFFFDBAB,
        56 => 0xFFFFE7A3,
        57 => 0xFFE3FFA3,
        58 => 0xFFABF3BF,
        59 => 0xFFB3FFCF,
        60 => 0xFF9FFFF3,
        61 => 0xFF000000,
        62 => 0xFF000000,
        _ => 0xFF000000,
    }
}

/// The machine's 64-entry master palette, as opaque ARGB pixels.
pub fn palette_rgb(i: u8) -> (r: u32)
    requires
        i < 64,
    ensures
        r == palette_rgb_spec(i),
{
    match i {
        0 => 0xFF757575,
        1 => 0xFF271B8F,
        2 => 0xFF0000AB,
        3 => 0xFF47009F,
        4 => 0xFF8F0077,
        5 => 0xFFAB0013,
        6 => 0xFFA70000,
        7 => 0xFF7F0B00,
        8 => 0xFF432F00,
        9 => 0xFF004700,
        10 => 0xFF005100,
        11 => 0xFF003F17,
        12 => 0xFF1B3F5F,
        13 => 0xFF000000,
        14 => 0xFF000000,
        15 => 0xFF000000,
        16 => 0xFFBCBCBC,
        17 => 0xFF0073EF,
        18 => 0xFF233BEF,
        19 => 0xFF8300F3,
        20 => 0xFFBF00BF,
        21 => 0xFFE7005B,
        22 => 0xFFDB2B00,
        23 => 0xFFCB4F0F,
        24 => 0xFF8B7300,
        25 => 0xFF009700,
        26 => 0xFF00AB00,
        27 => 0xFF00933B,
        28 => 0xFF00838B,
        29 => 0xFF000000,
        30 => 0xFF000000,
        31 => 0xFF000000,
        32 => 0xFFFFFFFF,
        33 => 0xFF3FBFFF,
        34 => 0xFF5F97FF,
        35 => 0xFFA78BFD,
        36 => 0xFFF77BFF,
        37 => 0xFFFF77B7,
        38 => 0xFFFF7763,
        39 => 0xFFFF9B3B,
        40 => 0xFFF3BF3F,
        41 => 0xFF83D313,
        42 => 0xFF4FDF4B,
        43 => 0xFF58F898,
        44 => 0xFF00EBDB,
        45 => 0xFF000000,
        46 => 0xFF000000,
        47 => 0xFF000000,
        48 => 0xFFFFFFFF,
        49 => 0xFFABE7FF,
        50 => 0xFFC7D7FF,
        51 => 0xFFD7CBFF,
        52 => 0xFFFFC7FF,
        53 => 0xFFFFC7DB,
        54 => 0xFFFFBFB3,
        55 => 0xFFFFDBAB,
        56 => 0xFFFFE7A3,
        57 => 0xFFE3FFA3,
        58 => 0xFFABF3BF,
        59 => 0xFFB3FFCF,
        60 => 0xFF9FFFF3,
        61 => 0xFF000000,
        62 => 0xFF000000,
        _ => 0xFF000000,
    }
}


/// The background pixel under the current dot: the nibble of the shift
/// buffer selected by the fine-x scroll, or 0 when the background is
/// hidden.
pub open spec fn background_pixel_spec(p: PPU, regs: PPUState) -> u8
    recommends
        regs.x <= 7,
{
    if regs.flg_showbg == 0 {
        0
    } else {
        ((((p.tiledata >> 32) as u32) >> ((7 - regs.x) * 4)) & 0x0F) as u8
    }
}

/// The interleaving of a sprite row's pattern bytes into pixels, one
/// four-bit entry per pixel: each step takes one bit of each pattern byte
/// (from the low end when flipped horizontally, from the high end
/// otherwise) under the palette bits, shifting them into the accumulator.
pub open spec fn sprite_slice_bits(a: u8, lo: u8, hi: u8, flip: bool, acc: u32, n: int) -> u32
    decreases n,
{
    if n <= 0 {
        acc
    } else {
        let p1: u8 = if flip {
            lo & 1
        } else {
            (lo & 0x80) >> 7
        };
        let p2: u8 = if flip {
            (hi & 1) << 1
        } else {
            (hi & 0x80) >> 6
        };
        let lo2: u8 = if flip {
            lo >> 1
        } else {
            lo << 1
        };
        let hi2: u8 = if flip {
            hi >> 1
        } else {
            hi << 1
        };
        sprite_slice_bits(a, lo2, hi2, flip, (acc << 4) | ((a | p1 | p2) as u32), n - 1)
    }
}

/// The eight-pixel pattern slice of one sprite's row: the row is flipped
/// as the sprite's attributes say, the pattern bytes come from the sprite
/// pattern table (for tall sprites, from the bank the tile's low bit
/// names), and the palette bits ride above each pixel.
pub open spec fn sprite_pattern_spec(regs: PPUState, m: Mapper, i: int, row: int) -> u32
    recommends
        regs.wf(),
        0 <= i < 64,
        0 <= row < 16,
        regs.flg_spritesize == 0 ==> row < 8,
{
    let tile0 = regs.oam@[i * 4 + 1];
    let attributes = regs.oam@[i * 4 + 2];
    let address: u16 = if regs.flg_spritesize == 0 {
        let r8: int = if attributes & 0x80 == 0x80 {
            7 - row
        } else {
            row
        };
        ((0x1000 * (regs.flg_spritetable as int) + tile0 * 16 + r8) as u16)
    } else {
        let r16: int = if attributes & 0x80 == 0x80 {
            15 - row
        } else {
            row
        };
        let table = tile0 & 1;
        let base = tile0 & 0xFE;
        let tile: int = if r16 > 7 {
            base + 1
        } else {
            base as int
        };
        let r8: int = if r16 > 7 {
            r16 - 8
        } else {
            r16
        };
        ((0x1000 * (table as int) + tile * 16 + r8) as u16)
    };
    let a = (attributes & 3) << 2;
    let lo = ppu_read_spec(regs, m, address);
    let hi = ppu_read_spec(regs, m, ((address + 8) as u16));
    sprite_slice_bits(a, lo, hi, attributes & 0x40 == 0x40, 0, 8)
}

/// The OAM indices of the sprites, among the first `n`, that cross the
/// given scanline, in OAM order.
pub open spec fn candidates_upto(oam: Seq<u8>, scanline: int, h: int, n: int) -> Seq<int>
    decreases n,
{
    if n <= 0 {
        Seq::empty()
    } else {
        let prefix = candidates_upto(oam, scanline, h, n - 1);
        if 0 <= scanline - oam[(n - 1) * 4] < h {
            prefix.push(n - 1)
        } else {
            prefix
        }
    }
}

/// The first buffered sprite, from index `i` on, whose pattern slice is
/// opaque under the current dot, as its buffer index and four-bit palette
/// index; (0, 0) when none is.
pub open spec fn sprite_search_spec(p: PPU, i: int) -> (u8, u8)
    recommends
        0 <= p.sprite_count <= 8,
        1 <= p.cycle <= 256,
    decreases p.sprite_count - i,
{
    if i < 0 || i >= p.sprite_count {
        (0u8, 0u8)
    } else {
        let offset = (p.cycle - 1) - p.sprite_positions@[i];
        if 0 <= offset <= 7 {
            let shift = ((7 - offset) * 4) as u32;
            let color = ((p.sprite_patterns@[i] >> shift) & 0x0F) as u8;
            if color % 4 != 0 {
                (i as u8, color)
            } else {
                sprite_search_spec(p, i + 1)
            }
        } else {
            sprite_search_spec(p, i + 1)
        }
    }
}

/// The sprite pixel under the current dot: the first opaque buffered
/// sprite, or (0, 0) when sprites are hidden or none covers the dot.
pub open spec fn sprite_pixel_spec(p: PPU, regs: PPUState) -> (u8, u8) {
    if regs.flg_showsprites == 0 {
        (0u8, 0u8)
    } else {
        sprite_search_spec(p, 0)
    }
}

/// The pixel rendered under the current dot, before the palette lookup:
/// the four-bit background and sprite pixels, masked in the left eight
/// columns by their mask bits, combine by opacity, sprite priority
/// breaking the tie; the flag says whether the dot is a sprite-zero
/// overlap, which requires both pixels opaque, the winning sprite buffered
/// from OAM entry 0, and a column below 255.
pub open spec fn render_combine_spec(p: PPU, regs: PPUState) -> (u8, bool)
    recommends
        0 <= p.sprite_count <= 8,
        1 <= p.cycle <= 256,
{
    let x = p.cycle - 1;
    let bg0 = background_pixel_spec(p, regs);
    let bg: u8 = if x < 8 && regs.flg_showleftbg == 0 {
        0
    } else {
        bg0
    };
    let sp_pair = sprite_pixel_spec(p, regs);
    let i = sp_pair.0;
    let sp: u8 = if x < 8 && regs.flg_showleftsprites == 0 {
        0
    } else {
        sp_pair.1
    };
    let b = bg % 4 != 0;
    let s = sp % 4 != 0;
    let color: u8 = if !b && !s {
        0
    } else if !b && s {
        sp | 0x10
    } else if b && !s {
        bg
    } else if p.sprite_priorities@[i as int] == 0 {
        sp | 0x10
    } else {
        bg
    };
    let hit = b && s && p.sprite_indices@[i as int] == 0 && x < 255;
    (color, hit)
}

/// How many of the first `n` sprites in OAM cross the given scanline: a
/// sprite crosses when the scanline lies within its height below its y
/// coordinate.
pub open spec fn sprite_candidates(oam: Seq<u8>, scanline: int, h: int, n: int) -> int
    recommends
        oam.len() == 256,
        0 <= n <= 64,
    decreases n,
{
    if n <= 0 {
        0
    } else {
        sprite_candidates(oam, scanline, h, n - 1) + (if 0 <= scanline - oam[(n - 1) * 4] < h {
            1int
        } else {
            0
        })
    }
}

/// The rendering pipeline of the video processor: the dot clock, the two
/// frame buffers, the background fetch latches and the sprite scanline
/// buffers. The register file lives on the bus; the pipeline takes the bus
/// by loan on every dot.
pub struct PPU {
    /// The current dot within the scanline, 0 to 340.
    pub cycle: i32,
    /// The current scanline, 0 to 261 (261 being the pre-render line).
    pub scanline: i32,
    /// One of the two frame buffers.
    pub front: PixelBuffer,
    /// The other frame buffer.
    pub back: PixelBuffer,
    /// Which buffer is currently displayed; the other one is rendered to.
    pub is_front: bool,
    /// The latched name-table byte of the background fetch.
    pub nametable_byte: u8,
    /// The latched attribute bits of the background fetch.
    pub attributetable_byte: u8,
    /// The latched low pattern byte of the background fetch.
    pub lowtile_byte: u8,
    /// The latched high pattern byte of the background fetch.
    pub hightile_byte: u8,
    /// The 64-bit background shift buffer, one nibble per pixel.
    pub tiledata: u64,
    /// The odd-frame flag: odd rendered frames skip one pre-render dot.
    pub f: u8,
    /// How many sprites the scanline buffers hold, at most eight.
    pub sprite_count: i32,
    /// The pattern slices of the buffered sprites.
    pub sprite_patterns: [u32; 8],
    /// The screen x positions of the buffered sprites.
    pub sprite_positions: [u8; 8],
    /// The priority bits of the buffered sprites.
    pub sprite_priorities: [u8; 8],
    /// Which OAM entry each buffered sprite came from.
    pub sprite_indices: [u8; 8],
    /// How many dots the pipeline has been clocked, in all. The counter is
    /// ghost state the pipeline alone maintains, rising by exactly one per
    /// dot; host code has no reason to touch it.
    pub dots: Ghost<int>,
    /// How many frames the pipeline has completed, in all: ghost state the
    /// pipeline alone maintains, rising by exactly one per completed frame.
    pub frames: Ghost<int>,
}

impl PPU {
    /// The dot clock stays within one frame and the sprite count within
    /// the eight buffers.
    pub open spec fn wf(&self) -> bool {
        &&& 0 <= self.cycle <= 340
        &&& 0 <= self.scanline <= 261
        &&& 0 <= self.sprite_count <= 8
        &&& self.f <= 1
        &&& self.front.wf()
        &&& self.back.wf()
    }

    /// A pipeline at its power-up position, with black frame buffers; the
    /// register file on the bus is cleared as a reset does.
    pub fn new(m: &mut MemoryBus) -> (r: Self)
        requires
            old(m).wf(),
        ensures
            final(m).wf(),
            r.wf(),
            r.dots@ == 0,
            final(m).ram == old(m).ram,
            final(m).mapper == old(m).mapper,
            final(m).apu == old(m).apu,
            final(m).cpu == old(m).cpu,
    {
        let mut ppu = PPU {
            cycle: 0,
            scanline: 0,
            front: PixelBuffer::new(),
            back: PixelBuffer::new(),
            is_front: true,
            nametable_byte: 0,
            attributetable_byte: 0,
            lowtile_byte: 0,
            hightile_byte: 0,
            tiledata: 0,
            f: 0,
            sprite_count: 0,
            sprite_patterns: [0u32; 8],
            sprite_positions: [0u8; 8],
            sprite_priorities: [0u8; 8],
            sprite_indices: [0u8; 8],
            dots: Ghost(0),
            frames: Ghost(0),
        };
        ppu.reset(m);
        ppu
    }

    /// Resets the pipeline to its initial position and clears the control,
    /// mask and OAM-address registers on the bus.
    pub fn reset(&mut self, m: &mut MemoryBus)
        requires
            old(m).wf(),
            old(self).wf(),
        ensures
            final(m).wf(),
            final(self).wf(),
            *final(self) == (PPU { cycle: 340, scanline: 240, ..*old(self) }),
            final(m).ram == old(m).ram,
            final(m).mapper == old(m).mapper,
            final(m).apu == old(m).apu,
            final(m).cpu == old(m).cpu,
            *final(m) == (MemoryBus { ppu: final(m).ppu, ..*old(m) }),
            ({
                let p1 = control_write_spec(PPUState { register: 0, ..old(m).ppu }, 0);
                let p2 = mask_write_spec(PPUState { register: 0, ..p1 }, 0);
                final(m).ppu == (PPUState { oam_address: 0, register: 0, ..p2 })
            }),
    {
        self.cycle = 340;
        self.scanline = 240;
        m.ppu.write_register(&mut m.mapper, 0x2000, 0);
        m.ppu.write_register(&mut m.mapper, 0x2001, 0);
        m.ppu.write_register(&mut m.mapper, 0x2003, 0);
    }

    /// Repaints both frame buffers black.
    pub fn clear_vbuffers(&mut self)
        ensures
            final(self).front.wf(),
            final(self).back.wf(),
            *final(self) == (PPU {
                front: final(self).front,
                back: final(self).back,
                ..*old(self)
            }),
            forall|i: int|
                0 <= i < final(self).front.pixels@.len() ==> final(self).front.pixels@[i]
                    == 0xFF000000u32,
            forall|i: int|
                0 <= i < final(self).back.pixels@.len() ==> final(self).back.pixels@[i]
                    == 0xFF000000u32,
    {
        self.front = PixelBuffer::new();
        self.back = PixelBuffer::new();
    }

    /// Latches the name-table byte of the tile under the current address.
    fn fetch_nametable_byte(&mut self, m: &MemoryBus)
        requires
            m.wf(),
        ensures
            *final(self) == (PPU {
                nametable_byte: final(self).nametable_byte,
                ..*old(self)
            }),
    {
        let v = m.ppu.v;
        let address = 0x2000 | (v & 0x0FFF);
        self.nametable_byte = m.ppu.read(&m.mapper, address);
    }

    /// Latches the two attribute bits of the tile under the current
    /// address, already shifted into palette position.
    fn fetch_attributetable_byte(&mut self, m: &MemoryBus)
        requires
            m.wf(),
        ensures
            *final(self) == (PPU {
                attributetable_byte: final(self).attributetable_byte,
                ..*old(self)
            }),
    {
        let v = m.ppu.v;
        let address = 0x23C0 | (v & 0x0C00) | ((v >> 4) & 0x38) | ((v >> 2) & 0x07);
        let shift = ((v >> 4) & 4) | (v & 2);
        proof {
            assert(((v >> 4) & 4) | (v & 2) <= 6) by (bit_vector);
            assert(0x23C0u16 | (v & 0x0C00) | ((v >> 4) & 0x38) | ((v >> 2) & 0x07) < 0x4000)
                by (bit_vector);
        }
        let read = m.ppu.read(&m.mapper, address);
        self.attributetable_byte = ((read >> shift) & 3) << 2;
    }

    /// The pattern-table address of the current background tile's row.
    fn background_pattern_address(&self, m: &MemoryBus) -> (r: u16)
        requires
            m.ppu.wf(),
        ensures
            r < 0x2000,
    {
        let fine_y = (m.ppu.v >> 12) & 7;
        let table = m.ppu.flg_backgroundtable;
        let tile = self.nametable_byte as u16;
        proof {
            let v = m.ppu.v;
            assert((v >> 12) & 7 <= 7) by (bit_vector);
        }
        0x1000 * (table as u16) + tile * 16 + fine_y
    }

    /// Latches the low pattern byte of the current background tile row.
    fn fetch_lowtile_byte(&mut self, m: &MemoryBus)
        requires
            m.wf(),
        ensures
            *final(self) == (PPU { lowtile_byte: final(self).lowtile_byte, ..*old(self) }),
    {
        let address = self.background_pattern_address(m);
        self.lowtile_byte = m.ppu.read(&m.mapper, address);
    }

    /// Latches the high pattern byte of the current background tile row.
    fn fetch_hightile_byte(&mut self, m: &MemoryBus)
        requires
            m.wf(),
        ensures
            *final(self) == (PPU { hightile_byte: final(self).hightile_byte, ..*old(self) }),
    {
        let address = self.background_pattern_address(m);
        self.hightile_byte = m.ppu.read(&m.mapper, address + 8);
    }

    /// Interleaves the latched attribute and pattern bytes into the low
    /// half of the background shift buffer, one nibble per pixel.
    fn store_tiledata(&mut self)
        ensures
            *final(self) == (PPU {
                tiledata: final(self).tiledata,
                lowtile_byte: final(self).lowtile_byte,
                hightile_byte: final(self).hightile_byte,
                ..*old(self)
            }),
    {
        let mut data: u32 = 0;
        let mut i: usize = 0;
        while i < 8
            invariant
                *self == (PPU {
                    tiledata: self.tiledata,
                    lowtile_byte: self.lowtile_byte,
                    hightile_byte: self.hightile_byte,
                    ..*old(self)
                }),
            decreases 8 - i,
        {
            let a = self.attributetable_byte;
            let p1 = (self.lowtile_byte & 0x80) >> 7;
            let p2 = (self.hightile_byte & 0x80) >> 6;
            self.lowtile_byte = self.lowtile_byte << 1;
            self.hightile_byte = self.hightile_byte << 1;
            data = data << 4;
            data = data | ((a | p1 | p2) as u32);
            i = i + 1;
        }
        self.tiledata = self.tiledata | (data as u64);
    }

    /// Fetches the eight-pixel pattern slice of one sprite's row, flipped
    /// as its attributes say, with the palette bits interleaved.
    fn fetch_sprite_pattern(&self, m: &MemoryBus, i: usize, row: i32) -> (r: u32)
        requires
            m.wf(),
            i < 64,
            0 <= row < 16,
            m.ppu.flg_spritesize == 0 ==> row < 8,
        ensures
            r == sprite_pattern_spec(m.ppu, m.mapper, i as int, row as int),
    {
        let tile0 = m.ppu.oam[i * 4 + 1];
        let attributes = m.ppu.oam[i * 4 + 2];
        let address: u16;
        if m.ppu.flg_spritesize == 0 {
            let r8: i32 = if attributes & 0x80 == 0x80 {
                7 - row
            } else {
                row
            };
            let table = m.ppu.flg_spritetable;
            address = 0x1000 * (table as u16) + (tile0 as u16) * 16 + (r8 as u16);
        } else {
            let r16: i32 = if attributes & 0x80 == 0x80 {
                15 - row
            } else {
                row
            };
            let table = tile0 & 1;
            let base = tile0 & 0xFE;
            proof {
                lemma_u8_bits(tile0);
            }
            let tile: u8;
            let r8: i32;
            if r16 > 7 {
                tile = base + 1;
                r8 = r16 - 8;
            } else {
                tile = base;
                r8 = r16;
            }
            address = 0x1000 * (table as u16) + (tile as u16) * 16 + (r8 as u16);
        }
        let a = (attributes & 3) << 2;
        let flip = attributes & 0x40 == 0x40;
        let mut lowtile_byte = m.ppu.read(&m.mapper, address);
        let mut hightile_byte = m.ppu.read(&m.mapper, address + 8);
        let ghost target = sprite_slice_bits(a, lowtile_byte, hightile_byte, flip, 0, 8);
        proof {
            assert(target == sprite_pattern_spec(m.ppu, m.mapper, i as int, row as int));
        }
        let mut data: u32 = 0;
        let mut k: usize = 0;
        while k < 8
            invariant
                k <= 8,
                target == sprite_slice_bits(
                    a,
                    lowtile_byte,
                    hightile_byte,
                    flip,
                    data,
                    8 - k as int,
                ),
            decreases 8 - k,
        {
            let p1: u8;
            let p2: u8;
            if flip {
                p1 = lowtile_byte & 1;
                p2 = (hightile_byte & 1) << 1;
                lowtile_byte = lowtile_byte >> 1;
                hightile_byte = hightile_byte >> 1;
            } else {
                p1 = (lowtile_byte & 0x80) >> 7;
                p2 = (hightile_byte & 0x80) >> 6;
                lowtile_byte = lowtile_byte << 1;
                hightile_byte = hightile_byte << 1;
            }
            data = data << 4;
            data = data | ((a | p1 | p2) as u32);
            k = k + 1;
        }
        data
    }

    /// Scans the 64 sprites for those crossing the current scanline and
    /// buffers up to eight of them; more than eight sets the overflow
    /// flag.
    fn evaluate_sprites(&mut self, m: &mut MemoryBus)
        requires
            old(m).wf(),
            old(self).wf(),
            0 <= old(self).scanline < 240,
        ensures
            final(m).wf(),
            final(self).wf(),
            *final(m) == (MemoryBus {
                ppu: PPUState {
                    flg_spriteoverflow: final(m).ppu.flg_spriteoverflow,
                    ..old(m).ppu
                },
                ..*old(m)
            }),
            ({
                let h: int = if old(m).ppu.flg_spritesize == 0 {
                    8
                } else {
                    16
                };
                let total = sprite_candidates(old(m).ppu.oam@, old(self).scanline as int, h, 64);
                let cands = candidates_upto(old(m).ppu.oam@, old(self).scanline as int, h, 64);
                &&& final(self).sprite_count == (if total <= 8 {
                    total
                } else {
                    8
                })
                &&& final(m).ppu.flg_spriteoverflow == (if total > 8 {
                    1u8
                } else {
                    old(m).ppu.flg_spriteoverflow
                })
                &&& forall|k: int|
                    #![trigger cands[k]]
                    0 <= k < cands.len() && k < 8 ==> ({
                        let idx = cands[k];
                        &&& final(self).sprite_indices@[k] == idx
                        &&& final(self).sprite_positions@[k] == old(m).ppu.oam@[idx * 4 + 3]
                        &&& final(self).sprite_priorities@[k] == (old(m).ppu.oam@[idx * 4 + 2] >> 5)
                            & 1
                        &&& final(self).sprite_patterns@[k] == sprite_pattern_spec(
                            old(m).ppu,
                            old(m).mapper,
                            idx,
                            old(self).scanline - old(m).ppu.oam@[idx * 4],
                        )
                    })
            }),
            final(self).cycle == old(self).cycle,
            final(self).scanline == old(self).scanline,
            final(self).f == old(self).f,
            final(self).is_front == old(self).is_front,
            final(self).front == old(self).front,
            final(self).back == old(self).back,
            final(self).tiledata == old(self).tiledata,
            final(self).dots == old(self).dots,
            final(self).frames == old(self).frames,
    {
        let h: i32 = if m.ppu.flg_spritesize == 0 {
            8
        } else {
            16
        };
        let mut count: usize = 0;
        let mut i: usize = 0;
        while i < 64
            invariant
                old(m).wf(),
                m.wf(),
                self.wf(),
                count <= i,
                i <= 64,
                0 <= self.scanline < 240,
                h == (if m.ppu.flg_spritesize == 0 {
                    8int
                } else {
                    16
                }),
                count == sprite_candidates(m.ppu.oam@, self.scanline as int, h as int, i as int),
                count == candidates_upto(m.ppu.oam@, self.scanline as int, h as int, i as int).len(),
                forall|k: int|
                    #![trigger candidates_upto(m.ppu.oam@, self.scanline as int, h as int, i as int)[k]]
                    0 <= k < count && k < 8 ==> ({
                        let idx = candidates_upto(
                            m.ppu.oam@,
                            self.scanline as int,
                            h as int,
                            i as int,
                        )[k];
                        &&& self.sprite_indices@[k] == idx
                        &&& self.sprite_positions@[k] == m.ppu.oam@[idx * 4 + 3]
                        &&& self.sprite_priorities@[k] == (m.ppu.oam@[idx * 4 + 2] >> 5) & 1
                        &&& self.sprite_patterns@[k] == sprite_pattern_spec(
                            m.ppu,
                            m.mapper,
                            idx,
                            self.scanline - m.ppu.oam@[idx * 4],
                        )
                    }),
                *m == *old(m),
                *self == (PPU {
                    sprite_patterns: self.sprite_patterns,
                    sprite_positions: self.sprite_positions,
                    sprite_priorities: self.sprite_priorities,
                    sprite_indices: self.sprite_indices,
                    ..*old(self)
                }),
            decreases 64 - i,
        {
            let y = m.ppu.oam[i * 4];
            let a = m.ppu.oam[i * 4 + 2];
            let x = m.ppu.oam[i * 4 + 3];
            let row = self.scanline - (y as i32);
            if row >= 0 && row < h {
                if count < 8 {
                    let pattern = self.fetch_sprite_pattern(m, i, row);
                    self.sprite_patterns[count] = pattern;
                    self.sprite_positions[count] = x;
                    self.sprite_priorities[count] = (a >> 5) & 1;
                    self.sprite_indices[count] = i as u8;
                }
                count = count + 1;
            }
            i = i + 1;
        }
        if count > 8 {
            count = 8;
            m.ppu.flg_spriteoverflow = 1;
        }
        self.sprite_count = count as i32;
    }

    /// Begins vertical blank: the finished frame buffer is handed to the
    /// video device, the buffers swap roles, and the vblank flag rises.
    fn set_vblank<V: VideoDevice>(&mut self, m: &mut MemoryBus, video: &mut V)
        requires
            old(self).wf(),
        ensures
            final(self).wf(),
            *final(self) == (PPU {
                is_front: !old(self).is_front,
                frames: Ghost(old(self).frames@ + 1),
                ..*old(self)
            }),
            *final(m) == (MemoryBus {
                ppu: nmi_change_spec(PPUState { nmi_occurred: true, ..old(m).ppu }),
                ..*old(m)
            }),
    {
        proof {
            self.frames@ = self.frames@ + 1;
        }
        self.is_front = !self.is_front;
        if self.is_front {
            video.blit_pixels(&self.front);
        } else {
            video.blit_pixels(&self.back);
        }
        m.ppu.nmi_occurred = true;
        m.ppu.nmi_change();
    }

    /// Ends vertical blank: the vblank flag falls.
    fn clear_vblank(&self, m: &mut MemoryBus)
        ensures
            *final(m) == (MemoryBus {
                ppu: nmi_change_spec(PPUState { nmi_occurred: false, ..old(m).ppu }),
                ..*old(m)
            }),
    {
        m.ppu.nmi_occurred = false;
        m.ppu.nmi_change();
    }

    /// The next eight background nibbles, from the top of the shift
    /// buffer.
    fn fetch_tiledata(&self) -> (r: u32)
        ensures
            r == (self.tiledata >> 32) as u32,
    {
        (self.tiledata >> 32) as u32
    }

    /// The current background pixel: a four-bit palette index, 0 when the
    /// background is hidden.
    fn background_pixel(&self, m: &MemoryBus) -> (r: u8)
        requires
            m.ppu.wf(),
        ensures
            r <= 15,
            r == background_pixel_spec(*self, m.ppu),
    {
        if m.ppu.flg_showbg == 0 {
            0
        } else {
            let shift = (7 - m.ppu.x) * 4;
            let data = self.fetch_tiledata() >> (shift as u32);
            proof {
                assert((data & 0x0F) as u8 <= 15) by (bit_vector);
            }
            (data & 0x0F) as u8
        }
    }

    /// The first opaque sprite pixel under the current dot, as the buffer
    /// index of its sprite and its four-bit palette index; (0, 0) when
    /// none.
    fn sprite_pixel(&self, m: &MemoryBus) -> (r: (u8, u8))
        requires
            m.ppu.wf(),
            self.wf(),
            1 <= self.cycle <= 256,
        ensures
            r.0 < 8,
            r.1 <= 15,
            r == sprite_pixel_spec(*self, m.ppu),
    {
        if m.ppu.flg_showsprites == 0 {
            (0, 0)
        } else {
            let mut i: i32 = 0;
            while i < self.sprite_count
                invariant
                    0 <= i <= self.sprite_count <= 8,
                    1 <= self.cycle <= 256,
                    m.ppu.flg_showsprites != 0,
                    sprite_search_spec(*self, i as int) == sprite_search_spec(*self, 0),
                decreases self.sprite_count - i,
            {
                let sp_off = self.sprite_positions[i as usize] as i32;
                let offset = (self.cycle - 1) - sp_off;
                if offset >= 0 && offset <= 7 {
                    let flipped = 7 - offset;
                    let shift = (flipped * 4) as u32;
                    let pattern = self.sprite_patterns[i as usize];
                    let color = ((pattern >> shift) & 0x0F) as u8;
                    proof {
                        assert(((pattern >> shift) & 0x0F) as u8 <= 15) by (bit_vector)
                            requires
                                shift <= 28,
                        ;
                    }
                    if color % 4 != 0 {
                        return (i as u8, color);
                    }
                }
                i = i + 1;
            }
            (0, 0)
        }
    }

    /// Renders the pixel under the current dot: the background and sprite
    /// pixels are combined by opacity and priority, a sprite-zero overlap
    /// raises the sprite-0-hit flag, and the palette entry is written to
    /// the working frame buffer.
    fn render_pixel(&mut self, m: &mut MemoryBus)
        requires
            old(m).wf(),
            old(self).wf(),
            1 <= old(self).cycle <= 256,
            0 <= old(self).scanline < 240,
        ensures
            final(m).wf(),
            final(self).wf(),
            *final(m) == (MemoryBus {
                ppu: PPUState {
                    flg_sprite0hit: final(m).ppu.flg_sprite0hit,
                    ..old(m).ppu
                },
                ..*old(m)
            }),
            *final(self) == (PPU {
                front: final(self).front,
                back: final(self).back,
                ..*old(self)
            }),
            final(self).front.wf(),
            final(self).back.wf(),
            ({
                let combined = render_combine_spec(*old(self), old(m).ppu);
                let rgba = palette_rgb_spec(
                    (old(m).ppu.palettes@[palette_fold(combined.0 as u16)] % 64) as u8,
                );
                let pos = 256 * (old(self).scanline as int) + (old(self).cycle - 1);
                &&& final(m).ppu.flg_sprite0hit == (if combined.1 {
                    1u8
                } else {
                    old(m).ppu.flg_sprite0hit
                })
                &&& (old(self).is_front ==> final(self).back.pixels@ == old(
                    self,
                ).back.pixels@.update(pos, rgba) && final(self).front == old(self).front)
                &&& (!old(self).is_front ==> final(self).front.pixels@ == old(
                    self,
                ).front.pixels@.update(pos, rgba) && final(self).back == old(self).back)
            }),
    {
        let x = self.cycle - 1;
        let y = self.scanline;
        let mut background = self.background_pixel(m);
        let (i, mut sprite) = self.sprite_pixel(m);
        if x < 8 && m.ppu.flg_showleftbg == 0 {
            background = 0;
        }
        if x < 8 && m.ppu.flg_showleftsprites == 0 {
            sprite = 0;
        }
        let b = background % 4 != 0;
        let s = sprite % 4 != 0;
        let color: u8 = if !b && !s {
            0
        } else if !b && s {
            sprite | 0x10
        } else if b && !s {
            background
        } else {
            let ind = i as usize;
            if self.sprite_indices[ind] == 0 && x < 255 {
                m.ppu.flg_sprite0hit = 1;
            }
            if self.sprite_priorities[ind] == 0 {
                sprite | 0x10
            } else {
                background
            }
        };
        proof {
            assert(sprite <= 15 ==> sprite | 0x10 <= 0x1F) by (bit_vector);
        }
        let c = m.ppu.read_palette(color as u16) % 64;
        let rgba = palette_rgb(c);
        if self.is_front {
            self.back.write(x as usize, y as usize, rgba);
        } else {
            self.front.write(x as usize, y as usize, rgba);
        }
    }

    /// Advances the dot clock by one: a pending interrupt delay counts
    /// down and delivers the interrupt to the CPU when it expires; dot 339
    /// of the pre-render line is skipped on odd rendered frames; the dot
    /// and scanline wrap at the frame's end.
    fn tick(&mut self, m: &mut MemoryBus)
        requires
            old(m).wf(),
            old(self).wf(),
        ensures
            final(m).wf(),
            final(self).wf(),
            final(self).dots@ == old(self).dots@ + 1,
            *final(self) == (PPU {
                cycle: final(self).cycle,
                scanline: final(self).scanline,
                f: final(self).f,
                dots: final(self).dots,
                ..*old(self)
            }),
            ({
                let rendering = old(m).ppu.flg_showbg != 0 || old(m).ppu.flg_showsprites != 0;
                if rendering && old(self).f == 1 && old(self).scanline == 261 && old(self).cycle
                    == 339 {
                    final(self).cycle == 0 && final(self).scanline == 0 && final(self).f == 0
                } else if old(self).cycle < 340 {
                    final(self).cycle == old(self).cycle + 1 && final(self).scanline == old(self).scanline && final(self).f == old(self).f
                } else if old(self).scanline < 261 {
                    final(self).cycle == 0 && final(self).scanline == old(self).scanline + 1
                        && final(self).f == old(self).f
                } else {
                    final(self).cycle == 0 && final(self).scanline == 0 && final(self).f == 1 - old(self).f
                }
            }),
            *final(m) == (MemoryBus {
                ppu: PPUState { nmi_delay: final(m).ppu.nmi_delay, ..old(m).ppu },
                cpu: CPUState { interrupt: final(m).cpu.interrupt, ..old(m).cpu },
                ..*old(m)
            }),
            final(m).ppu.nmi_delay == (if old(m).ppu.nmi_delay > 0 {
                (old(m).ppu.nmi_delay - 1) as u8
            } else {
                0u8
            }),
            final(m).cpu.interrupt == (if old(m).ppu.nmi_delay == 1 && old(m).ppu.nmi_output
                && old(m).ppu.nmi_occurred {
                Some(Interrupt::NMI)
            } else {
                old(m).cpu.interrupt
            }),
    {
        if m.ppu.nmi_delay > 0 {
            m.ppu.nmi_delay = m.ppu.nmi_delay - 1;
            let was_nmi = m.ppu.nmi_output && m.ppu.nmi_occurred;
            if m.ppu.nmi_delay == 0 && was_nmi {
                m.cpu.set_nmi();
            }
        }
        proof {
            self.dots@ = self.dots@ + 1;
        }
        if m.ppu.flg_showbg != 0 || m.ppu.flg_showsprites != 0 {
            if self.f == 1 && self.scanline == 261 && self.cycle == 339 {
                self.cycle = 0;
                self.scanline = 0;
                self.f = 0;
                return ;
            }
        }
        self.cycle = self.cycle + 1;
        if self.cycle > 340 {
            self.cycle = 0;
            self.scanline = self.scanline + 1;
            if self.scanline > 261 {
                self.scanline = 0;
                self.f = 1 - self.f;
            }
        }
    }

    /// Clocks the pipeline by one dot: renders a visible pixel, runs the
    /// background fetches and scroll housekeeping, evaluates sprites at
    /// dot 257, and raises or clears vertical blank at dot 1 of scanlines
    /// 241 and 261. Returns whether this dot completed a frame, which
    /// happens exactly when vertical blank begins. Exactly one dot is
    /// consumed; the dot counter always advances by one.
    pub fn step<V: VideoDevice>(&mut self, m: &mut MemoryBus, video: &mut V) -> (frame: bool)
        requires
            old(m).wf(),
            old(self).wf(),
        ensures
            final(m).wf(),
            final(self).wf(),
            final(self).dots@ == old(self).dots@ + 1,
            frame == (final(self).scanline == 241 && final(self).cycle == 1),
            final(self).frames@ == old(self).frames@ + (if frame {
                1int
            } else {
                0
            }),
            final(self).is_front == (if frame {
                !old(self).is_front
            } else {
                old(self).is_front
            }),
            final(self).scanline == 261 && final(self).cycle == 1 ==> final(m).ppu.flg_sprite0hit
                == 0 && final(m).ppu.flg_spriteoverflow == 0,
            final(m).ram == old(m).ram,
            final(m).mapper == old(m).mapper,
            final(m).apu == old(m).apu,
            final(m).controller1 == old(m).controller1,
            final(m).controller2 == old(m).controller2,
            final(m).cpu.stall == old(m).cpu.stall,
            final(m).ppu.flg_showbg == old(m).ppu.flg_showbg,
            final(m).ppu.flg_showsprites == old(m).ppu.flg_showsprites,
            final(m).cpu.interrupt == (if old(m).ppu.nmi_delay == 1 && old(m).ppu.nmi_output
                && old(m).ppu.nmi_occurred {
                Some(Interrupt::NMI)
            } else {
                old(m).cpu.interrupt
            }),
            final(m).ppu.nmi_occurred == (if final(self).scanline == 241 && final(self).cycle == 1 {
                true
            } else if final(self).scanline == 261 && final(self).cycle == 1 {
                false
            } else {
                old(m).ppu.nmi_occurred
            }),
            ({
                let rendering = old(m).ppu.flg_showbg != 0 || old(m).ppu.flg_showsprites != 0;
                if rendering && old(self).f == 1 && old(self).scanline == 261 && old(self).cycle
                    == 339 {
                    final(self).cycle == 0 && final(self).scanline == 0 && final(self).f == 0
                } else if old(self).cycle < 340 {
                    final(self).cycle == old(self).cycle + 1 && final(self).scanline == old(self).scanline
                        && final(self).f == old(self).f
                } else if old(self).scanline < 261 {
                    final(self).cycle == 0 && final(self).scanline == old(self).scanline + 1
                        && final(self).f == old(self).f
                } else {
                    final(self).cycle == 0 && final(self).scanline == 0 && final(self).f == 1 - old(self).f
                }
            }),
    {
        self.tick(m);
        let rendering = m.ppu.flg_showbg != 0 || m.ppu.flg_showsprites != 0;
        let preline = self.scanline == 261;
        let visibleline = self.scanline < 240;
        let renderline = preline || visibleline;
        let prefetch_cycle = self.cycle >= 321 && self.cycle <= 336;
        let visible_cycle = self.cycle >= 1 && self.cycle <= 256;
        let fetch_cycle = prefetch_cycle || visible_cycle;
        // Background logic
        if rendering {
            if visibleline && visible_cycle {
                self.render_pixel(m);
            }
            if renderline && fetch_cycle {
                self.tiledata = self.tiledata << 4;
                let phase = self.cycle % 8;
                if phase == 1 {
                    self.fetch_nametable_byte(m);
                } else if phase == 3 {
                    self.fetch_attributetable_byte(m);
                } else if phase == 5 {
                    self.fetch_lowtile_byte(m);
                } else if phase == 7 {
                    self.fetch_hightile_byte(m);
                } else if phase == 0 {
                    self.store_tiledata();
                }
            }
            if preline && self.cycle >= 280 && self.cycle <= 304 {
                m.ppu.copy_y();
            }
            if renderline {
                if fetch_cycle && self.cycle % 8 == 0 {
                    m.ppu.increment_x();
                }
                if self.cycle == 256 {
                    m.ppu.increment_y();
                }
                if self.cycle == 257 {
                    m.ppu.copy_x();
                }
            }
        }
        // Sprite logic
        if rendering {
            if self.cycle == 257 {
                if visibleline {
                    self.evaluate_sprites(m);
                } else {
                    self.sprite_count = 0;
                }
            }
        }
        // Vblank logic
        let mut frame = false;
        if self.scanline == 241 && self.cycle == 1 {
            self.set_vblank(m, video);
            frame = true;
        }
        if preline && self.cycle == 1 {
            self.clear_vblank(m);
            m.ppu.flg_sprite0hit = 0;
            m.ppu.flg_spriteoverflow = 0;
        }
        frame
    }
}

} // verus!