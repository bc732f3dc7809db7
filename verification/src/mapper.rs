//! Cartridge mappers: address translation between the console's buses and
//! the cartridge's program, pattern and work-RAM arrays, with bank
//! switching. Dispatch is by tagged variant: the few mapper families do not
//! warrant dynamic dispatch inside the hot bus loop.

use crate::cart::{Cart, CartReadingError, MapperID, Mirroring};
use crate::cart::mirroring_from_bits;
use vstd::prelude::*;

verus! {

/// A bank slot stays inside the backing array: if a bank index is reduced
/// modulo the bank count, any offset within the bank lands in bounds.
proof fn lemma_bank_slot(bank: int, count: int, off: int, size: int)
    by (nonlinear_arith)
    requires
        0 <= bank < count,
        0 <= off < size,
        0 < size,
    ensures
        0 <= bank * size + off < count * size,
{
}

/// Geometry every supported mapper needs of a cartridge: the program image
/// is whole 16 KiB banks (at least one, at most 255), and the pattern image
/// is whole 4 KiB banks (at least two, at most 255, so at least one full
/// 8 KiB pattern table).
pub open spec fn cart_geometry_ok(cart: Cart) -> bool {
    &&& cart.prg.len() % 0x4000 == 0
    &&& 0x4000 <= cart.prg.len() <= 0xFF * 0x4000
    &&& cart.chr.len() % 0x1000 == 0
    &&& 0x2000 <= cart.chr.len() <= 0xFF * 0x1000
}

/// The simplest mapper: program reads wrap modulo the program size, the
/// pattern image is RAM at the bottom of the PPU space.
pub struct Mapper0 {
    /// The cartridge this mapper translates for.
    pub cart: Cart,
    /// The program size the address wraps against.
    pub prg_size: u16,
}

/// What a `Mapper0` read returns at each address.
pub open spec fn mapper0_read_spec(m: Mapper0, address: u16) -> u8
    recommends
        m.wf(),
{
    if address < 0x2000 {
        m.cart.chr@[address as int]
    } else if address >= 0x8000 {
        m.cart.prg@[(address as int) % (m.prg_size as int)]
    } else {
        0
    }
}

impl Mapper0 {
    /// The program size field matches the program image, which fits the
    /// 16-bit wrap, and a full pattern table is present.
    pub open spec fn wf(&self) -> bool {
        &&& self.prg_size as int == self.cart.prg.len()
        &&& 0 < self.cart.prg.len() <= 0xFFFF
        &&& self.cart.chr.len() >= 0x2000
    }

    /// Builds the mapper over a cartridge whose program image fits the
    /// 16-bit address wrap.
    pub fn new(cart: Cart) -> (r: Self)
        requires
            0 < cart.prg.len() <= 0xFFFF,
            cart.chr.len() >= 0x2000,
        ensures
            r.wf(),
            r.cart == cart,
    {
        let prg_size = cart.prg.len() as u16;
        Mapper0 { cart, prg_size }
    }

    /// Reads a byte: pattern RAM below 0x2000, wrapped program ROM at or
    /// above 0x8000, and 0 elsewhere.
    pub fn read(&self, address: u16) -> (r: u8)
        requires
            self.wf(),
        ensures
            r == mapper0_read_spec(*self, address),
    {
        if address < 0x2000 {
            self.cart.chr[address as usize]
        } else if address >= 0x8000 {
            let wrapped = address % self.prg_size;
            self.cart.prg[wrapped as usize]
        } else {
            0
        }
    }

    /// The mirroring the cartridge declares.
    pub fn mirroring_mode(&self) -> (r: Mirroring)
        ensures
            r == self.cart.mirroring,
    {
        self.cart.mirroring
    }

    /// Writes a byte: pattern RAM below 0x2000, wrapped program RAM at or
    /// above 0x8000, absorbed elsewhere.
    pub fn write(&mut self, address: u16, value: u8)
        requires
            old(self).wf(),
        ensures
            final(self).wf(),
            address < 0x2000 ==> final(self).cart.chr@ == old(self).cart.chr@.update(
                address as int,
                value,
            ),
            address >= 0x8000 ==> final(self).cart.prg@ == old(self).cart.prg@.update(
                (address as int) % (old(self).prg_size as int),
                value,
            ),
            0x2000 <= address < 0x8000 ==> *final(self) == *old(self),
    {
        if address < 0x2000 {
            let a = address as usize;
            self.cart.chr[a] = value;
        } else if address >= 0x8000 {
            let wrapped = (address % self.prg_size) as usize;
            self.cart.prg[wrapped] = value;
        }
    }
}

/// The switchable-bank mapper used for mapper bytes 0 and 2: the lower
/// program window is a switchable 16 KiB bank, the upper window is fixed to
/// the last bank, and the pattern image is RAM.
pub struct Mapper2 {
    /// The cartridge this mapper translates for.
    pub cart: Cart,
    /// How many 16 KiB program banks exist.
    pub prg_banks: usize,
    /// The bank mapped at 0x8000..0xC000.
    pub prgbank1: usize,
    /// The bank mapped at 0xC000..0x10000.
    pub prgbank2: usize,
}

/// What a `Mapper2` read returns at each address.
pub open spec fn mapper2_read_spec(m: Mapper2, address: u16) -> u8
    recommends
        m.wf(),
{
    if address < 0x2000 {
        m.cart.chr@[address as int]
    } else if address >= 0xC000 {
        m.cart.prg@[m.prgbank2 * 0x4000 + (address - 0xC000)]
    } else if address >= 0x8000 {
        m.cart.prg@[m.prgbank1 * 0x4000 + (address - 0x8000)]
    } else if address >= 0x6000 {
        m.cart.sram@[address - 0x6000]
    } else {
        0
    }
}

/// How a write changes the switchable-bank mapper: pattern RAM below
/// 0x2000, the lower-window bank register (reduced modulo the bank count)
/// at or above 0x8000, work RAM at 0x6000..0x8000, a no-op elsewhere.
pub open spec fn mapper2_write_effect(m0: Mapper2, m1: Mapper2, address: u16, value: u8) -> bool {
    if address < 0x2000 {
        &&& m1 == (Mapper2 { cart: Cart { chr: m1.cart.chr, ..m0.cart }, ..m0 })
        &&& m1.cart.chr@ == m0.cart.chr@.update(address as int, value)
    } else if address >= 0x8000 {
        m1 == (Mapper2 { prgbank1: (((value as int) % (m0.prg_banks as int)) as usize), ..m0 })
    } else if address >= 0x6000 {
        &&& m1 == (Mapper2 { cart: Cart { sram: m1.cart.sram, ..m0.cart }, ..m0 })
        &&& m1.cart.sram@ == m0.cart.sram@.update(address - 0x6000, value)
    } else {
        m1 == m0
    }
}

impl Mapper2 {
    /// Bank registers stay below the bank count and the cartridge arrays
    /// match the declared bank geometry.
    pub open spec fn wf(&self) -> bool {
        &&& self.cart.prg.len() == self.prg_banks * 0x4000
        &&& 1 <= self.prg_banks <= 0xFF
        &&& self.prgbank1 < self.prg_banks
        &&& self.prgbank2 < self.prg_banks
        &&& self.cart.chr.len() >= 0x2000
    }

    /// Builds the mapper with the lower window on the first bank and the
    /// upper window fixed to the last.
    pub fn new(cart: Cart) -> (r: Self)
        requires
            cart.prg.len() % 0x4000 == 0,
            0x4000 <= cart.prg.len() <= 0xFF * 0x4000,
            cart.chr.len() >= 0x2000,
        ensures
            r.wf(),
            r.cart == cart,
            r.prgbank1 == 0,
            r.prgbank2 == r.prg_banks - 1,
    {
        let prg_banks = cart.prg.len() / 0x4000;
        let prgbank1: usize = 0;
        let prgbank2 = prg_banks - 1;
        Mapper2 { cart, prg_banks, prgbank1, prgbank2 }
    }

    /// Reads a byte: pattern RAM, the two program windows, or work RAM.
    pub fn read(&self, address: u16) -> (r: u8)
        requires
            self.wf(),
        ensures
            r == mapper2_read_spec(*self, address),
    {
        if address < 0x2000 {
            self.cart.chr[address as usize]
        } else if address >= 0xC000 {
            let shifted = (address - 0xC000) as usize;
            proof {
                lemma_bank_slot(self.prgbank2 as int, self.prg_banks as int, shifted as int, 0x4000);
            }
            self.cart.prg[self.prgbank2 * 0x4000 + shifted]
        } else if address >= 0x8000 {
            let shifted = (address - 0x8000) as usize;
            proof {
                lemma_bank_slot(self.prgbank1 as int, self.prg_banks as int, shifted as int, 0x4000);
            }
            self.cart.prg[self.prgbank1 * 0x4000 + shifted]
        } else if address >= 0x6000 {
            let shifted = (address - 0x6000) as usize;
            self.cart.sram[shifted]
        } else {
            0
        }
    }

    /// The mirroring the cartridge declares.
    pub fn mirroring_mode(&self) -> (r: Mirroring)
        ensures
            r == self.cart.mirroring,
    {
        self.cart.mirroring
    }

    /// Writes a byte: pattern RAM below 0x2000, the bank register at or
    /// above 0x8000 (reduced modulo the bank count), work RAM at
    /// 0x6000..0x8000, absorbed elsewhere.
    pub fn write(&mut self, address: u16, value: u8)
        requires
            old(self).wf(),
        ensures
            final(self).wf(),
            mapper2_write_effect(*old(self), *final(self), address, value),
    {
        if address < 0x2000 {
            let a = address as usize;
            self.cart.chr[a] = value;
        } else if address >= 0x8000 {
            let bank = (value as usize) % self.prg_banks;
            self.prgbank1 = bank;
        } else if address >= 0x6000 {
            let shifted = (address - 0x6000) as usize;
            self.cart.sram[shifted] = value;
        }
    }
}

/// The serial shift register a write-driven mapper accumulates bits in: one
/// bit per write, committed on the fifth.
pub struct ShiftRegister {
    /// The bits accumulated so far.
    pub register: u8,
    /// How many bits have been accumulated, always below five.
    pub count: u8,
}

/// The transition of the serial shift register on one write: the low bit
/// of the value enters from the top; the fifth accumulated bit yields the
/// value and resets the register.
pub open spec fn shift_register_spec(s: ShiftRegister, value: u8) -> (ShiftRegister, Option<u8>) {
    let register = (s.register >> 1) | ((value & 1) << 4);
    if s.count == 4 {
        (ShiftRegister { register: 0x10, count: 0 }, Some(register))
    } else {
        (ShiftRegister { register, count: (s.count + 1) as u8 }, None)
    }
}

impl ShiftRegister {
    /// Fewer than five bits are pending.
    pub open spec fn wf(&self) -> bool {
        self.count <= 4
    }

    /// The empty register, ready for five writes.
    pub fn start() -> (r: Self)
        ensures
            r.wf(),
            r.register == 0x10,
            r.count == 0,
    {
        ShiftRegister { register: 0x10, count: 0 }
    }

    /// Shifts the low bit of `value` in; on the fifth bit, returns the
    /// accumulated value and resets.
    pub fn shift(&mut self, value: u8) -> (r: Option<u8>)
        requires
            old(self).wf(),
        ensures
            final(self).wf(),
            (*final(self), r) == shift_register_spec(*old(self), value),
    {
        self.register >>= 1;
        self.register |= (value & 1) << 4;
        self.count += 1;
        if self.count == 5 {
            let ret = self.register;
            self.register = 0x10;
            self.count = 0;
            Some(ret)
        } else {
            None
        }
    }
}

/// How the two 16 KiB program windows of the serial mapper are switched.
#[derive(Clone, Copy, Debug, PartialEq, Eq, Structural)]
pub enum PRGSwitching {
    /// Both windows switch together as one 32 KiB bank.
    DoubleBank,
    /// The first window is fixed, the second switches.
    Fix0,
    /// The second window is fixed to the last bank, the first switches.
    Fix1,
}

/// The program-switching mode the two control bits select.
pub open spec fn prg_mode_spec(mode: u8) -> PRGSwitching {
    if mode == 2 {
        PRGSwitching::Fix0
    } else if mode == 3 {
        PRGSwitching::Fix1
    } else {
        PRGSwitching::DoubleBank
    }
}

impl PRGSwitching {
    /// Decodes the two program-mode bits of the control register.
    pub fn from_mode(mode: u8) -> (r: Self)
        ensures
            r == prg_mode_spec(mode),
    {
        match mode {
            2 => PRGSwitching::Fix0,
            3 => PRGSwitching::Fix1,
            _ => PRGSwitching::DoubleBank,
        }
    }
}

/// The transition of a committed program-register value: the selected
/// bank, reduced modulo the bank count, lands in the window the current
/// switching mode leaves free; in the double mode both windows move as an
/// even-odd pair.
pub open spec fn prg_write_spec(p: PRGBanks, control: u8) -> PRGBanks {
    if p.switching is Fix0 {
        PRGBanks {
            control,
            bank_1: ((((control & 0xF) as int) % (p.count as int)) as usize),
            ..p
        }
    } else if p.switching is Fix1 {
        PRGBanks {
            control,
            bank_0: ((((control & 0xF) as int) % (p.count as int)) as usize),
            ..p
        }
    } else {
        let b0 = ((((control & 0xE) as int) % (p.count as int)) as usize);
        PRGBanks {
            control,
            bank_0: b0,
            bank_1: (((b0 + 1) % (p.count as int)) as usize),
            ..p
        }
    }
}

/// The transition of a mode change: a changed mode re-applies the last
/// written control value under the new switching.
pub open spec fn prg_set_switching_spec(p: PRGBanks, mode: u8) -> PRGBanks {
    let into = prg_mode_spec(mode);
    if p.switching == into {
        p
    } else {
        prg_write_spec(PRGBanks { switching: into, ..p }, p.control)
    }
}

/// The program-bank registers of the serial mapper.
pub struct PRGBanks {
    /// How many 16 KiB banks exist.
    pub count: u8,
    /// The bank behind the window at 0x8000..0xC000.
    pub bank_0: usize,
    /// The bank behind the window at 0xC000..0x10000.
    pub bank_1: usize,
    /// How the windows are switched.
    pub switching: PRGSwitching,
    /// The last value written to the program register.
    pub control: u8,
}

impl PRGBanks {
    /// Both banks stay below the bank count.
    pub open spec fn wf(&self) -> bool {
        &&& 1 <= self.count
        &&& self.bank_0 < self.count
        &&& self.bank_1 < self.count
    }

    /// Starts in fix-last mode with the first bank in the lower window.
    pub fn from_cart(cart: &Cart) -> (r: Self)
        requires
            cart.prg.len() % 0x4000 == 0,
            0x4000 <= cart.prg.len() <= 0xFF * 0x4000,
        ensures
            r.wf(),
            r.count as int == cart.prg.len() / 0x4000,
            r.bank_0 == 0,
            r.bank_1 == r.count - 1,
            r.switching == PRGSwitching::Fix1,
    {
        let count = cart.prg.len() / 0x4000;
        PRGBanks {
            count: count as u8,
            bank_0: 0,
            bank_1: count - 1,
            switching: PRGSwitching::Fix1,
            control: 0,
        }
    }

    /// The index into the program image behind an address in the two
    /// windows at or above 0x8000.
    pub open spec fn index_spec(&self, address: u16) -> int
        recommends
            address >= 0x8000,
    {
        if address >= 0xC000 {
            self.bank_1 * 0x4000 + (address - 0xC000)
        } else {
            self.bank_0 * 0x4000 + (address - 0x8000)
        }
    }

    /// Translates an address in the program windows to an index into the
    /// program image.
    pub fn index(&self, address: u16) -> (r: usize)
        requires
            self.wf(),
            address >= 0x8000,
        ensures
            r == self.index_spec(address),
            r < self.count * 0x4000,
    {
        if address >= 0xC000 {
            let shift = (address - 0xC000) as usize;
            proof {
                lemma_bank_slot(self.bank_1 as int, self.count as int, shift as int, 0x4000);
            }
            self.bank_1 * 0x4000 + shift
        } else {
            let shift = (address - 0x8000) as usize;
            proof {
                lemma_bank_slot(self.bank_0 as int, self.count as int, shift as int, 0x4000);
            }
            self.bank_0 * 0x4000 + shift
        }
    }

    /// Changes the switching mode; a change re-applies the last written
    /// control value under the new mode.
    pub fn set_switching(&mut self, mode: u8)
        requires
            old(self).wf(),
        ensures
            final(self).wf(),
            *final(self) == prg_set_switching_spec(*old(self), mode),
    {
        let into = PRGSwitching::from_mode(mode);
        if self.switching != into {
            self.switching = into;
            let control = self.control;
            self.write(control);
        }
    }

    /// Commits a value from the shift register to the program register:
    /// the selected bank is always reduced modulo the bank count.
    pub fn write(&mut self, control: u8)
        requires
            old(self).wf(),
        ensures
            final(self).wf(),
            *final(self) == prg_write_spec(*old(self), control),
    {
        self.control = control;
        match self.switching {
            PRGSwitching::Fix0 => {
                let bank = ((control & 0xF) as usize) % (self.count as usize);
                self.bank_1 = bank;
            },
            PRGSwitching::Fix1 => {
                let bank = ((control & 0xF) as usize) % (self.count as usize);
                self.bank_0 = bank;
            },
            PRGSwitching::DoubleBank => {
                let bank_0 = ((control & 0xE) as usize) % (self.count as usize);
                self.bank_0 = bank_0;
                self.bank_1 = (bank_0 + 1) % (self.count as usize);
            },
        }
    }
}

/// How the two 4 KiB pattern windows of the serial mapper are switched.
#[derive(Clone, Copy, Debug, PartialEq, Eq, Structural)]
pub enum CHRSwitching {
    /// The two windows switch independently.
    Single,
    /// Both windows switch together as one 8 KiB bank.
    Double,
}

/// The pattern-switching mode the control bit selects.
pub open spec fn chr_mode_spec(mode: u8) -> CHRSwitching {
    if mode == 0 {
        CHRSwitching::Double
    } else {
        CHRSwitching::Single
    }
}

impl CHRSwitching {
    /// Decodes the pattern-mode bit of the control register.
    pub fn from_mode(mode: u8) -> (r: Self)
        ensures
            r == chr_mode_spec(mode),
    {
        match mode {
            0 => CHRSwitching::Double,
            _ => CHRSwitching::Single,
        }
    }
}

/// The transition of a committed lower pattern-register value: the lower
/// window's bank, or both windows as an even-odd pair in the double mode,
/// reduced modulo the bank count.
pub open spec fn chr_write_lower_spec(c: CHRBanks, control: u8) -> CHRBanks {
    if c.switching is Double {
        let b0 = ((((control & 0x1E) as int) % (c.count as int)) as usize);
        CHRBanks {
            lower_control: control,
            bank_0: b0,
            bank_1: (((b0 + 1) % (c.count as int)) as usize),
            ..c
        }
    } else {
        CHRBanks {
            lower_control: control,
            bank_0: ((((control & 0x1F) as int) % (c.count as int)) as usize),
            ..c
        }
    }
}

/// The transition of a committed upper pattern-register value: the upper
/// window's bank in the single mode, ignored in the double mode.
pub open spec fn chr_write_upper_spec(c: CHRBanks, control: u8) -> CHRBanks {
    if c.switching is Double {
        CHRBanks { upper_control: control, ..c }
    } else {
        CHRBanks {
            upper_control: control,
            bank_1: ((((control & 0x1F) as int) % (c.count as int)) as usize),
            ..c
        }
    }
}

/// The transition of a mode change: a changed mode re-applies both stored
/// control values under the new switching, lower then upper.
pub open spec fn chr_set_switching_spec(c: CHRBanks, mode: u8) -> CHRBanks {
    let into = chr_mode_spec(mode);
    if c.switching == into {
        c
    } else {
        chr_write_upper_spec(
            chr_write_lower_spec(CHRBanks { switching: into, ..c }, c.lower_control),
            c.upper_control,
        )
    }
}

/// The pattern-bank registers of the serial mapper.
pub struct CHRBanks {
    /// How many 4 KiB banks exist.
    pub count: u8,
    /// The bank behind the window at 0x0000..0x1000.
    pub bank_0: usize,
    /// The bank behind the window at 0x1000..0x2000.
    pub bank_1: usize,
    /// How the windows are switched.
    pub switching: CHRSwitching,
    /// The last value written to the lower pattern register.
    pub lower_control: u8,
    /// The last value written to the upper pattern register.
    pub upper_control: u8,
}

impl CHRBanks {
    /// Both banks stay below the bank count.
    pub open spec fn wf(&self) -> bool {
        &&& 1 <= self.count
        &&& self.bank_0 < self.count
        &&& self.bank_1 < self.count
    }

    /// Starts in single mode with the first and last banks in the windows.
    pub fn from_cart(cart: &Cart) -> (r: Self)
        requires
            cart.chr.len() % 0x1000 == 0,
            0x1000 <= cart.chr.len() <= 0xFF * 0x1000,
        ensures
            r.wf(),
            r.count as int == cart.chr.len() / 0x1000,
    {
        let count = cart.chr.len() / 0x1000;
        CHRBanks {
            count: count as u8,
            bank_0: 0,
            bank_1: count - 1,
            switching: CHRSwitching::Single,
            lower_control: 0,
            upper_control: 0,
        }
    }

    /// The index into the pattern image behind an address below 0x2000.
    pub open spec fn index_spec(&self, address: u16) -> int
        recommends
            address < 0x2000,
    {
        if address < 0x1000 {
            self.bank_0 * 0x1000 + address
        } else {
            self.bank_1 * 0x1000 + (address - 0x1000)
        }
    }

    /// Translates an address in the pattern windows to an index into the
    /// pattern image.
    pub fn index(&self, address: u16) -> (r: usize)
        requires
            self.wf(),
            address < 0x2000,
        ensures
            r == self.index_spec(address),
            r < self.count * 0x1000,
    {
        if address < 0x1000 {
            let shift = address as usize;
            proof {
                lemma_bank_slot(self.bank_0 as int, self.count as int, shift as int, 0x1000);
            }
            self.bank_0 * 0x1000 + shift
        } else {
            let shift = (address - 0x1000) as usize;
            proof {
                lemma_bank_slot(self.bank_1 as int, self.count as int, shift as int, 0x1000);
            }
            self.bank_1 * 0x1000 + shift
        }
    }

    /// Changes the switching mode; a change re-applies the last written
    /// control values under the new mode.
    pub fn set_switching(&mut self, mode: u8)
        requires
            old(self).wf(),
        ensures
            final(self).wf(),
            *final(self) == chr_set_switching_spec(*old(self), mode),
    {
        let into = CHRSwitching::from_mode(mode);
        if self.switching != into {
            self.switching = into;
            let lower = self.lower_control;
            let upper = self.upper_control;
            self.write_lower(lower);
            self.write_upper(upper);
        }
    }

    /// Commits a value to the lower pattern register; in double mode it
    /// selects both windows. Banks are reduced modulo the bank count.
    pub fn write_lower(&mut self, control: u8)
        requires
            old(self).wf(),
        ensures
            final(self).wf(),
            *final(self) == chr_write_lower_spec(*old(self), control),
    {
        self.lower_control = control;
        if self.switching == CHRSwitching::Double {
            let bank_0 = ((control & 0x1E) as usize) % (self.count as usize);
            self.bank_0 = bank_0;
            self.bank_1 = (bank_0 + 1) % (self.count as usize);
        } else {
            let bank = ((control & 0x1F) as usize) % (self.count as usize);
            self.bank_0 = bank;
        }
    }

    /// Commits a value to the upper pattern register; ignored in double
    /// mode. The bank is reduced modulo the bank count.
    pub fn write_upper(&mut self, control: u8)
        requires
            old(self).wf(),
        ensures
            final(self).wf(),
            *final(self) == chr_write_upper_spec(*old(self), control),
    {
        self.upper_control = control;
        if self.switching == CHRSwitching::Double {
            return ;
        }
        let bank = ((control & 0x1F) as usize) % (self.count as usize);
        self.bank_1 = bank;
    }
}

/// The serial-shift-register mapper (mapper byte 1): writes at or above
/// 0x8000 shift one bit at a time into a five-bit register; the fifth bit
/// commits the value to one of four internal registers selected by the
/// address.
pub struct Mapper1 {
    /// The cartridge this mapper translates for.
    pub cart: Cart,
    /// The program bank registers.
    pub prg: PRGBanks,
    /// The pattern bank registers.
    pub chr: CHRBanks,
    /// The serial shift register.
    pub shift_register: ShiftRegister,
}

/// The transition of a committed control value: the two low bits select
/// the mirroring, bits 2..4 the program switching and bit 4 the pattern
/// switching, a changed switching re-applying the stored bank values.
pub open spec fn mapper1_control_spec(m: Mapper1, control: u8) -> Mapper1 {
    Mapper1 {
        cart: Cart { mirroring: mirroring_from_bits(control & 3), ..m.cart },
        prg: prg_set_switching_spec(m.prg, (control >> 2) & 3),
        chr: chr_set_switching_spec(m.chr, (control >> 4) & 1),
        ..m
    }
}

/// The routing of a committed shift value by address bits 13 and 14: the
/// program register at or above 0xE000, the upper and lower pattern
/// registers below it, and the control register below 0xA000.
pub open spec fn mapper1_commit_spec(m: Mapper1, address: u16, shift: u8) -> Mapper1 {
    if address >= 0xE000 {
        Mapper1 { prg: prg_write_spec(m.prg, shift), ..m }
    } else if address >= 0xC000 {
        Mapper1 { chr: chr_write_upper_spec(m.chr, shift), ..m }
    } else if address >= 0xA000 {
        Mapper1 { chr: chr_write_lower_spec(m.chr, shift), ..m }
    } else {
        mapper1_control_spec(m, shift)
    }
}

/// How a write changes the serial mapper: pattern RAM below 0x2000; at or
/// above 0x8000 a bit-7 write resets the shift register and forces
/// fix-last program switching (control 0xC), any other write shifts one
/// bit in, the fifth committing to the register the address selects; work
/// RAM at 0x6000..0x8000; a no-op elsewhere.
pub open spec fn mapper1_write_effect(m0: Mapper1, m1: Mapper1, address: u16, value: u8) -> bool {
    if address < 0x2000 {
        &&& m1 == (Mapper1 { cart: Cart { chr: m1.cart.chr, ..m0.cart }, ..m0 })
        &&& m1.cart.chr@ == m0.cart.chr@.update(m0.chr.index_spec(address), value)
    } else if address >= 0x8000 {
        if value & 0x80 != 0 {
            m1 == mapper1_control_spec(
                Mapper1 { shift_register: ShiftRegister { register: 0x10, count: 0 }, ..m0 },
                0xC,
            )
        } else {
            let (sr, committed) = shift_register_spec(m0.shift_register, value);
            match committed {
                Some(shift) => m1 == mapper1_commit_spec(
                    Mapper1 { shift_register: sr, ..m0 },
                    address,
                    shift,
                ),
                None => m1 == (Mapper1 { shift_register: sr, ..m0 }),
            }
        }
    } else if address >= 0x6000 {
        &&& m1 == (Mapper1 { cart: Cart { sram: m1.cart.sram, ..m0.cart }, ..m0 })
        &&& m1.cart.sram@ == m0.cart.sram@.update(address - 0x6000, value)
    } else {
        m1 == m0
    }
}

/// What a `Mapper1` read returns at each address.
pub open spec fn mapper1_read_spec(m: Mapper1, address: u16) -> u8
    recommends
        m.wf(),
{
    if address < 0x2000 {
        m.cart.chr@[m.chr.index_spec(address)]
    } else if address >= 0x8000 {
        m.cart.prg@[m.prg.index_spec(address)]
    } else if address >= 0x6000 {
        m.cart.sram@[address - 0x6000]
    } else {
        0
    }
}

impl Mapper1 {
    /// The bank registers are in range and the cartridge arrays match the
    /// declared bank geometry.
    pub open spec fn wf(&self) -> bool {
        &&& self.prg.wf()
        &&& self.chr.wf()
        &&& self.shift_register.wf()
        &&& self.cart.prg.len() == self.prg.count * 0x4000
        &&& self.cart.chr.len() == self.chr.count * 0x1000
    }

    /// Builds the mapper in fix-last program mode with an empty shift
    /// register.
    pub fn new(cart: Cart) -> (r: Self)
        requires
            cart_geometry_ok(cart),
        ensures
            r.wf(),
            r.cart == cart,
    {
        let prg = PRGBanks::from_cart(&cart);
        let chr = CHRBanks::from_cart(&cart);
        Mapper1 { cart, prg, chr, shift_register: ShiftRegister::start() }
    }

    /// Reads a byte: the pattern windows, the program windows, or work RAM.
    pub fn read(&self, address: u16) -> (r: u8)
        requires
            self.wf(),
        ensures
            r == mapper1_read_spec(*self, address),
    {
        if address < 0x2000 {
            self.cart.chr[self.chr.index(address)]
        } else if address >= 0x8000 {
            self.cart.prg[self.prg.index(address)]
        } else if address >= 0x6000 {
            let shift = (address - 0x6000) as usize;
            self.cart.sram[shift]
        } else {
            0
        }
    }

    /// The mirroring currently selected by the control register.
    pub fn mirroring_mode(&self) -> (r: Mirroring)
        ensures
            r == self.cart.mirroring,
    {
        self.cart.mirroring
    }

    /// Commits a control value: mirroring from the two low bits, program
    /// switching from bits 2..4, pattern switching from bit 4.
    fn write_control(&mut self, control: u8)
        requires
            old(self).wf(),
        ensures
            final(self).wf(),
            *final(self) == mapper1_control_spec(*old(self), control),
    {
        let mirroring = Mirroring::from_bits(control & 3);
        self.cart.mirroring = mirroring;
        let prg_mode = (control >> 2) & 3;
        self.prg.set_switching(prg_mode);
        let chr_mode = (control >> 4) & 1;
        self.chr.set_switching(chr_mode);
    }

    /// Routes a committed shift value to the internal register selected by
    /// the address: control, pattern-low, pattern-high or program.
    fn write_shift(&mut self, address: u16, shift: u8)
        requires
            old(self).wf(),
        ensures
            final(self).wf(),
            *final(self) == mapper1_commit_spec(*old(self), address, shift),
    {
        if address >= 0xE000 {
            self.prg.write(shift);
        } else if address >= 0xC000 {
            self.chr.write_upper(shift);
        } else if address >= 0xA000 {
            self.chr.write_lower(shift);
        } else {
            self.write_control(shift);
        }
    }

    /// Writes a byte: pattern RAM below 0x2000, the serial shift register
    /// at or above 0x8000 (a bit-7 write resets it and forces fix-last
    /// switching), work RAM at 0x6000..0x8000, absorbed elsewhere.
    pub fn write(&mut self, address: u16, value: u8)
        requires
            old(self).wf(),
        ensures
            final(self).wf(),
            mapper1_write_effect(*old(self), *final(self), address, value),
    {
        if address < 0x2000 {
            let i = self.chr.index(address);
            self.cart.chr[i] = value;
        } else if address >= 0x8000 {
            if value & 0x80 != 0 {
                self.shift_register = ShiftRegister::start();
                self.write_control(0xC);
            } else {
                let shifted = self.shift_register.shift(value);
                match shifted {
                    Some(shift) => self.write_shift(address, shift),
                    None => {},
                }
            }
        } else if address >= 0x6000 {
            let shift = (address - 0x6000) as usize;
            self.cart.sram[shift] = value;
        }
    }
}

/// The mapper of a cartridge, dispatched as a tagged variant.
pub enum Mapper {
    /// The serial-shift-register mapper, byte 1.
    M1(Mapper1),
    /// The switchable-bank mapper, bytes 0 and 2.
    M2(Mapper2),
}

/// How a write changes a mapper: the matched variant's own write effect;
/// the variant itself never changes.
pub open spec fn mapper_write_effect(m0: Mapper, m1: Mapper, address: u16, value: u8) -> bool {
    match (m0, m1) {
        (Mapper::M1(a), Mapper::M1(b)) => mapper1_write_effect(a, b, address, value),
        (Mapper::M2(a), Mapper::M2(b)) => mapper2_write_effect(a, b, address, value),
        _ => false,
    }
}

/// What a mapper read returns at each address.
pub open spec fn mapper_read_spec(m: Mapper, address: u16) -> u8
    recommends
        m.wf(),
{
    match m {
        Mapper::M1(m1) => mapper1_read_spec(m1, address),
        Mapper::M2(m2) => mapper2_read_spec(m2, address),
    }
}

impl Mapper {
    /// The variant's own well-formedness.
    pub open spec fn wf(&self) -> bool {
        match self {
            Mapper::M1(m1) => m1.wf(),
            Mapper::M2(m2) => m2.wf(),
        }
    }

    /// The mirroring the mapper currently selects.
    pub open spec fn mirroring_spec(&self) -> Mirroring {
        match self {
            Mapper::M1(m1) => m1.cart.mirroring,
            Mapper::M2(m2) => m2.cart.mirroring,
        }
    }

    /// Assigns the mapper for a cartridge from its mapper byte. Returns an
    /// error for an unknown byte, or when the cartridge arrays do not form
    /// whole banks.
    pub fn with_cart(cart: Cart) -> (r: Result<Mapper, CartReadingError>)
        ensures
            cart.mapper > 2 ==> r == Err::<Mapper, CartReadingError>(
                CartReadingError::UnknownMapper(cart.mapper),
            ),
            cart.mapper <= 2 && !cart_geometry_ok(cart) ==> r == Err::<Mapper, CartReadingError>(
                CartReadingError::UnrecognisedFormat,
            ),
            cart.mapper <= 2 && cart_geometry_ok(cart) ==> r is Ok && r->Ok_0.wf(),
            r is Ok && cart.mapper == 1 ==> (r->Ok_0 matches Mapper::M1(m1) && m1.cart == cart),
            r is Ok && cart.mapper != 1 ==> (r->Ok_0 matches Mapper::M2(m2) && m2.cart == cart),
    {
        let id = match MapperID::from_byte(cart.mapper) {
            Ok(id) => id,
            Err(e) => {
                return Err(e);
            },
        };
        let geometry_ok = cart.prg.len() % 0x4000 == 0 && 0x4000 <= cart.prg.len() && cart.prg.len()
            <= 0xFF * 0x4000 && cart.chr.len() % 0x1000 == 0 && 0x2000 <= cart.chr.len()
            && cart.chr.len() <= 0xFF * 0x1000;
        if !geometry_ok {
            return Err(CartReadingError::UnrecognisedFormat);
        }
        match id {
            MapperID::M1 => Ok(Mapper::M1(Mapper1::new(cart))),
            MapperID::M2 => Ok(Mapper::M2(Mapper2::new(cart))),
        }
    }

    /// Reads a byte through the mapper.
    pub fn read(&self, address: u16) -> (r: u8)
        requires
            self.wf(),
        ensures
            r == mapper_read_spec(*self, address),
    {
        match self {
            Mapper::M1(m1) => m1.read(address),
            Mapper::M2(m2) => m2.read(address),
        }
    }

    /// The mirroring the mapper currently selects.
    pub fn mirroring_mode(&self) -> (r: Mirroring)
        ensures
            r == self.mirroring_spec(),
    {
        match self {
            Mapper::M1(m1) => m1.mirroring_mode(),
            Mapper::M2(m2) => m2.mirroring_mode(),
        }
    }

    /// Writes a byte through the mapper.
    pub fn write(&mut self, address: u16, value: u8)
        requires
            old(self).wf(),
        ensures
            final(self).wf(),
            mapper_write_effect(*old(self), *final(self), address, value),
    {
        match self {
            Mapper::M1(m1) => m1.write(address, value),
            Mapper::M2(m2) => m2.write(address, value),
        }
    }
}

} // verus!
