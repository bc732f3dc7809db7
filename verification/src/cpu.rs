//! The 6502-family processor: the public state block the bus and the other
//! processors reach (`CPUState`), and the instruction interpreter (`CPU`).

use crate::controller::{button_seq, ButtonState};
use crate::mapper::mapper_read_spec;
use crate::memory::{cpu_read_pure, MemoryBus};
use crate::bits::{lemma_u8_bits, lemma_word_bits};
use vstd::prelude::*;

verus! {

/// The kinds of interrupt the processor honours at an instruction
/// boundary.
#[derive(Clone, Copy, Debug, PartialEq, Eq, Structural)]
pub enum Interrupt {
    /// The non-maskable interrupt, raised by the video processor at the
    /// start of vertical blank.
    NMI,
    /// The maskable interrupt request, raised by the audio processor.
    IRQ,
}

/// The state block a powered-up CPU starts from: no pending interrupt and
/// no stall.
pub open spec fn initial_cpu_state() -> CPUState {
    CPUState { interrupt: None, stall: 0 }
}

/// How a bus operation may change the pending interrupt: it is preserved,
/// except that a status read (0x4015) absorbs a pending frame-raised
/// interrupt request; nothing a bus operation does can latch a new one.
pub open spec fn irq_absorbed(i0: Option<Interrupt>, i1: Option<Interrupt>) -> bool {
    i1 == i0 || (i0 == Some(Interrupt::IRQ) && i1 is None)
}

/// The public CPU state block, visible to the bus: the pending interrupt
/// and the stall cycles other components impose.
#[derive(Clone, Copy, Debug)]
pub struct CPUState {
    /// The interrupt to deliver at the next instruction boundary, if any.
    pub interrupt: Option<Interrupt>,
    /// Cycles the processor must idle before executing again.
    pub stall: i32,
}

impl CPUState {
    /// The stall count never goes negative.
    pub open spec fn wf(&self) -> bool {
        self.stall >= 0
    }

    /// A state with no pending interrupt and no stall.
    pub fn new() -> (r: Self)
        ensures
            r == initial_cpu_state(),
            r.wf(),
    {
        CPUState { interrupt: None, stall: 0 }
    }

    /// Latches a pending non-maskable interrupt.
    pub fn set_nmi(&mut self)
        ensures
            *final(self) == (CPUState { interrupt: Some(Interrupt::NMI), ..*old(self) }),
    {
        self.interrupt = Some(Interrupt::NMI);
    }

    /// Latches a pending interrupt request.
    pub fn set_irq(&mut self)
        ensures
            *final(self) == (CPUState { interrupt: Some(Interrupt::IRQ), ..*old(self) }),
    {
        self.interrupt = Some(Interrupt::IRQ);
    }

    /// Clears any pending interrupt.
    pub fn clear_interrupt(&mut self)
        ensures
            *final(self) == (CPUState { interrupt: None::<Interrupt>, ..*old(self) }),
    {
        self.interrupt = None;
    }

    /// Adds stall cycles, saturating at the counter's range.
    pub fn add_stall(&mut self, amount: i32)
        requires
            old(self).wf(),
            amount >= 0,
        ensures
            final(self).wf(),
            final(self).stall == (if old(self).stall + amount <= i32::MAX {
                old(self).stall + amount
            } else {
                i32::MAX as int
            }),
            final(self).interrupt == old(self).interrupt,
    {
        if amount <= i32::MAX - self.stall {
            self.stall += amount;
        } else {
            self.stall = i32::MAX;
        }
    }
}

/// The thirteen addressing modes of the processor.
#[derive(Clone, Copy, Debug, PartialEq, Eq, Structural)]
pub enum Addressing {
    /// A full sixteen-bit operand address.
    Absolute,
    /// A full address indexed by X.
    AbsoluteX,
    /// A full address indexed by Y.
    AbsoluteY,
    /// The accumulator itself.
    Accumulator,
    /// The operand byte follows the opcode.
    Immediate,
    /// No operand.
    Implied,
    /// A zero-page pointer indexed by X before the indirection.
    IndexedIndirect,
    /// A sixteen-bit pointer to the operand address.
    Indirect,
    /// A zero-page pointer indexed by Y after the indirection.
    IndirectIndexed,
    /// A signed offset from the next instruction.
    Relative,
    /// A zero-page address.
    ZeroPage,
    /// A zero-page address indexed by X, wrapping within the page.
    ZeroPageX,
    /// A zero-page address indexed by Y, wrapping within the page.
    ZeroPageY,
}

/// The size in bytes of each opcode's instruction.
pub open spec fn op_size_spec(op: u8) -> u16 {
    match op {
        0x02 | 0x03 | 0x07 | 0x0B | 0x0F | 0x12 | 0x13 | 0x17 | 0x1B | 0x1F | 0x22 | 0x23 | 0x27 | 0x2B | 0x2F | 0x32 | 0x33 | 0x37 | 0x3B | 0x3F | 0x42 | 0x43 | 0x47 | 0x4B | 0x4F | 0x52 | 0x53 | 0x57 | 0x5B | 0x5F | 0x62 | 0x63 | 0x67 | 0x6B | 0x6F | 0x72 | 0x73 | 0x77 | 0x7B | 0x7F | 0x82 | 0x83 | 0x87 | 0x89 | 0x8B | 0x8F | 0x92 | 0x93 | 0x97 | 0x9B | 0x9C | 0x9E | 0x9F | 0xA3 | 0xA7 | 0xAB | 0xAF | 0xB2 | 0xB3 | 0xB7 | 0xBB | 0xBF | 0xC2 | 0xC3 | 0xC7 | 0xCB | 0xCF | 0xD2 | 0xD3 | 0xD7 | 0xDB | 0xDF | 0xE2 | 0xE3 | 0xE7 | 0xEB | 0xEF | 0xF2 | 0xF3 | 0xF7 | 0xFB | 0xFF => 0,
        0x08 | 0x0A | 0x18 | 0x1A | 0x28 | 0x2A | 0x38 | 0x3A | 0x40 | 0x48 | 0x4A | 0x58 | 0x5A | 0x60 | 0x68 | 0x6A | 0x78 | 0x7A | 0x88 | 0x8A | 0x98 | 0x9A | 0xA8 | 0xAA | 0xB8 | 0xBA | 0xC8 | 0xCA | 0xD8 | 0xDA | 0xE8 | 0xEA | 0xF8 | 0xFA => 1,
        0x0C | 0x0D | 0x0E | 0x19 | 0x1C | 0x1D | 0x1E | 0x20 | 0x2C | 0x2D | 0x2E | 0x39 | 0x3C | 0x3D | 0x3E | 0x4C | 0x4D | 0x4E | 0x59 | 0x5C | 0x5D | 0x5E | 0x6C | 0x6D | 0x6E | 0x79 | 0x7C | 0x7D | 0x7E | 0x8C | 0x8D | 0x8E | 0x99 | 0x9D | 0xAC | 0xAD | 0xAE | 0xB9 | 0xBC | 0xBD | 0xBE | 0xCC | 0xCD | 0xCE | 0xD9 | 0xDC | 0xDD | 0xDE | 0xEC | 0xED | 0xEE | 0xF9 | 0xFC | 0xFD | 0xFE => 3,
        _ => 2,
    }
}

/// The size in bytes of each opcode's instruction.
pub fn op_size(op: u8) -> (r: u16)
    ensures
        r == op_size_spec(op),
        r <= 3,
{
    match op {
        0x02 | 0x03 | 0x07 | 0x0B | 0x0F | 0x12 | 0x13 | 0x17 | 0x1B | 0x1F | 0x22 | 0x23 | 0x27 | 0x2B | 0x2F | 0x32 | 0x33 | 0x37 | 0x3B | 0x3F | 0x42 | 0x43 | 0x47 | 0x4B | 0x4F | 0x52 | 0x53 | 0x57 | 0x5B | 0x5F | 0x62 | 0x63 | 0x67 | 0x6B | 0x6F | 0x72 | 0x73 | 0x77 | 0x7B | 0x7F | 0x82 | 0x83 | 0x87 | 0x89 | 0x8B | 0x8F | 0x92 | 0x93 | 0x97 | 0x9B | 0x9C | 0x9E | 0x9F | 0xA3 | 0xA7 | 0xAB | 0xAF | 0xB2 | 0xB3 | 0xB7 | 0xBB | 0xBF | 0xC2 | 0xC3 | 0xC7 | 0xCB | 0xCF | 0xD2 | 0xD3 | 0xD7 | 0xDB | 0xDF | 0xE2 | 0xE3 | 0xE7 | 0xEB | 0xEF | 0xF2 | 0xF3 | 0xF7 | 0xFB | 0xFF => 0,
        0x08 | 0x0A | 0x18 | 0x1A | 0x28 | 0x2A | 0x38 | 0x3A | 0x40 | 0x48 | 0x4A | 0x58 | 0x5A | 0x60 | 0x68 | 0x6A | 0x78 | 0x7A | 0x88 | 0x8A | 0x98 | 0x9A | 0xA8 | 0xAA | 0xB8 | 0xBA | 0xC8 | 0xCA | 0xD8 | 0xDA | 0xE8 | 0xEA | 0xF8 | 0xFA => 1,
        0x0C | 0x0D | 0x0E | 0x19 | 0x1C | 0x1D | 0x1E | 0x20 | 0x2C | 0x2D | 0x2E | 0x39 | 0x3C | 0x3D | 0x3E | 0x4C | 0x4D | 0x4E | 0x59 | 0x5C | 0x5D | 0x5E | 0x6C | 0x6D | 0x6E | 0x79 | 0x7C | 0x7D | 0x7E | 0x8C | 0x8D | 0x8E | 0x99 | 0x9D | 0xAC | 0xAD | 0xAE | 0xB9 | 0xBC | 0xBD | 0xBE | 0xCC | 0xCD | 0xCE | 0xD9 | 0xDC | 0xDD | 0xDE | 0xEC | 0xED | 0xEE | 0xF9 | 0xFC | 0xFD | 0xFE => 3,
        _ => 2,
    }
}

/// The base cycle count of each opcode.
pub open spec fn op_cycles_spec(op: u8) -> i32 {
    match op {
        0x04 | 0x05 | 0x08 | 0x24 | 0x25 | 0x44 | 0x45 | 0x48 | 0x4C | 0x64 | 0x65 | 0x84 | 0x85 | 0x86 | 0x87 | 0xA4 | 0xA5 | 0xA6 | 0xA7 | 0xC4 | 0xC5 | 0xE4 | 0xE5 => 3,
        0x0C | 0x0D | 0x14 | 0x15 | 0x19 | 0x1C | 0x1D | 0x28 | 0x2C | 0x2D | 0x34 | 0x35 | 0x39 | 0x3C | 0x3D | 0x4D | 0x54 | 0x55 | 0x59 | 0x5C | 0x5D | 0x68 | 0x6D | 0x74 | 0x75 | 0x79 | 0x7C | 0x7D | 0x8C | 0x8D | 0x8E | 0x8F | 0x94 | 0x95 | 0x96 | 0x97 | 0xAC | 0xAD | 0xAE | 0xAF | 0xB4 | 0xB5 | 0xB6 | 0xB7 | 0xB9 | 0xBB | 0xBC | 0xBD | 0xBE | 0xBF | 0xCC | 0xCD | 0xD4 | 0xD5 | 0xD9 | 0xDC | 0xDD | 0xEC | 0xED | 0xF4 | 0xF5 | 0xF9 | 0xFC | 0xFD => 4,
        0x06 | 0x07 | 0x11 | 0x26 | 0x27 | 0x31 | 0x46 | 0x47 | 0x51 | 0x66 | 0x67 | 0x6C | 0x71 | 0x99 | 0x9B | 0x9C | 0x9D | 0x9E | 0x9F | 0xB1 | 0xB3 | 0xC6 | 0xC7 | 0xD1 | 0xE6 | 0xE7 | 0xF1 => 5,
        0x01 | 0x0E | 0x0F | 0x16 | 0x17 | 0x20 | 0x21 | 0x2E | 0x2F | 0x36 | 0x37 | 0x40 | 0x41 | 0x4E | 0x4F | 0x56 | 0x57 | 0x60 | 0x61 | 0x6E | 0x6F | 0x76 | 0x77 | 0x81 | 0x83 | 0x91 | 0x93 | 0xA1 | 0xA3 | 0xC1 | 0xCE | 0xCF | 0xD6 | 0xD7 | 0xE1 | 0xEE | 0xEF | 0xF6 | 0xF7 => 6,
        0x00 | 0x1B | 0x1E | 0x1F | 0x3B | 0x3E | 0x3F | 0x5B | 0x5E | 0x5F | 0x7B | 0x7E | 0x7F | 0xDB | 0xDE | 0xDF | 0xFB | 0xFE | 0xFF => 7,
        0x03 | 0x13 | 0x23 | 0x33 | 0x43 | 0x53 | 0x63 | 0x73 | 0xC3 | 0xD3 | 0xE3 | 0xF3 => 8,
        _ => 2,
    }
}

/// The base cycle count of each opcode.
pub fn op_cycles(op: u8) -> (r: i32)
    ensures
        r == op_cycles_spec(op),
        2 <= r <= 8,
{
    match op {
        0x04 | 0x05 | 0x08 | 0x24 | 0x25 | 0x44 | 0x45 | 0x48 | 0x4C | 0x64 | 0x65 | 0x84 | 0x85 | 0x86 | 0x87 | 0xA4 | 0xA5 | 0xA6 | 0xA7 | 0xC4 | 0xC5 | 0xE4 | 0xE5 => 3,
        0x0C | 0x0D | 0x14 | 0x15 | 0x19 | 0x1C | 0x1D | 0x28 | 0x2C | 0x2D | 0x34 | 0x35 | 0x39 | 0x3C | 0x3D | 0x4D | 0x54 | 0x55 | 0x59 | 0x5C | 0x5D | 0x68 | 0x6D | 0x74 | 0x75 | 0x79 | 0x7C | 0x7D | 0x8C | 0x8D | 0x8E | 0x8F | 0x94 | 0x95 | 0x96 | 0x97 | 0xAC | 0xAD | 0xAE | 0xAF | 0xB4 | 0xB5 | 0xB6 | 0xB7 | 0xB9 | 0xBB | 0xBC | 0xBD | 0xBE | 0xBF | 0xCC | 0xCD | 0xD4 | 0xD5 | 0xD9 | 0xDC | 0xDD | 0xEC | 0xED | 0xF4 | 0xF5 | 0xF9 | 0xFC | 0xFD => 4,
        0x06 | 0x07 | 0x11 | 0x26 | 0x27 | 0x31 | 0x46 | 0x47 | 0x51 | 0x66 | 0x67 | 0x6C | 0x71 | 0x99 | 0x9B | 0x9C | 0x9D | 0x9E | 0x9F | 0xB1 | 0xB3 | 0xC6 | 0xC7 | 0xD1 | 0xE6 | 0xE7 | 0xF1 => 5,
        0x01 | 0x0E | 0x0F | 0x16 | 0x17 | 0x20 | 0x21 | 0x2E | 0x2F | 0x36 | 0x37 | 0x40 | 0x41 | 0x4E | 0x4F | 0x56 | 0x57 | 0x60 | 0x61 | 0x6E | 0x6F | 0x76 | 0x77 | 0x81 | 0x83 | 0x91 | 0x93 | 0xA1 | 0xA3 | 0xC1 | 0xCE | 0xCF | 0xD6 | 0xD7 | 0xE1 | 0xEE | 0xEF | 0xF6 | 0xF7 => 6,
        0x00 | 0x1B | 0x1E | 0x1F | 0x3B | 0x3E | 0x3F | 0x5B | 0x5E | 0x5F | 0x7B | 0x7E | 0x7F | 0xDB | 0xDE | 0xDF | 0xFB | 0xFE | 0xFF => 7,
        0x03 | 0x13 | 0x23 | 0x33 | 0x43 | 0x53 | 0x63 | 0x73 | 0xC3 | 0xD3 | 0xE3 | 0xF3 => 8,
        _ => 2,
    }
}

/// Whether the opcode costs one more cycle when its index addition crosses a page (branch opcodes are handled separately, at the branch itself).
pub open spec fn pagecross_op_spec(op: u8) -> bool {
    match op {
        0x7D | 0x79 | 0x71 | 0x3D | 0x39 | 0x31 | 0xDD | 0xD9 | 0xD1 | 0x5D | 0x59 | 0x51 | 0xBD | 0xB9 | 0xB1 | 0xBE | 0xBC | 0x1D | 0x19 | 0x11 | 0xFD | 0xF9 | 0xF1 => true,
        _ => false,
    }
}

/// Whether the opcode costs one more cycle when its index addition crosses a page (branch opcodes are handled separately, at the branch itself).
pub fn pagecross_op(op: u8) -> (r: bool)
    ensures
        r == pagecross_op_spec(op),
{
    match op {
        0x7D | 0x79 | 0x71 | 0x3D | 0x39 | 0x31 | 0xDD | 0xD9 | 0xD1 | 0x5D | 0x59 | 0x51 | 0xBD | 0xB9 | 0xB1 | 0xBE | 0xBC | 0x1D | 0x19 | 0x11 | 0xFD | 0xF9 | 0xF1 => true,
        _ => false,
    }
}

/// Whether the opcode is a conditional branch.
pub open spec fn branch_op_spec(op: u8) -> bool {
    match op {
        0x10 | 0x30 | 0x50 | 0x70 | 0x90 | 0xB0 | 0xD0 | 0xF0 => true,
        _ => false,
    }
}

/// Whether the opcode is a conditional branch.
pub fn branch_op(op: u8) -> (r: bool)
    ensures
        r == branch_op_spec(op),
{
    match op {
        0x10 | 0x30 | 0x50 | 0x70 | 0x90 | 0xB0 | 0xD0 | 0xF0 => true,
        _ => false,
    }
}

/// Whether the opcode redirects the program counter, rather than advancing it by the instruction size: the branches, the jumps, the returns and the software interrupt.
pub open spec fn flow_op_spec(op: u8) -> bool {
    match op {
        0x00 | 0x10 | 0x20 | 0x30 | 0x40 | 0x4C | 0x50 | 0x60 | 0x6C | 0x70 | 0x90 | 0xB0 | 0xD0 | 0xF0 => true,
        _ => false,
    }
}

/// Whether the opcode redirects the program counter, rather than advancing it by the instruction size: the branches, the jumps, the returns and the software interrupt.
pub fn flow_op(op: u8) -> (r: bool)
    ensures
        r == flow_op_spec(op),
{
    match op {
        0x00 | 0x10 | 0x20 | 0x30 | 0x40 | 0x4C | 0x50 | 0x60 | 0x6C | 0x70 | 0x90 | 0xB0 | 0xD0 | 0xF0 => true,
        _ => false,
    }
}

/// The addressing mode each opcode decodes its operand with.
pub open spec fn op_addressing_spec(op: u8) -> Addressing {
    match op {
        0x0C | 0x0D | 0x0E | 0x0F | 0x20 | 0x2C | 0x2D | 0x2E | 0x2F | 0x4C | 0x4D | 0x4E | 0x4F | 0x6D | 0x6E | 0x6F | 0x8C | 0x8D | 0x8E | 0x8F | 0xAC | 0xAD | 0xAE | 0xAF | 0xCC | 0xCD | 0xCE | 0xCF | 0xEC | 0xED | 0xEE | 0xEF => Addressing::Absolute,
        0x1C | 0x1D | 0x1E | 0x1F | 0x3C | 0x3D | 0x3E | 0x3F | 0x5C | 0x5D | 0x5E | 0x5F | 0x7C | 0x7D | 0x7E | 0x7F | 0x9C | 0x9D | 0xBC | 0xBD | 0xDC | 0xDD | 0xDE | 0xDF | 0xFC | 0xFD | 0xFE | 0xFF => Addressing::AbsoluteX,
        0x19 | 0x1B | 0x39 | 0x3B | 0x59 | 0x5B | 0x79 | 0x7B | 0x99 | 0x9B | 0x9E | 0x9F | 0xB9 | 0xBB | 0xBE | 0xBF | 0xD9 | 0xDB | 0xF9 | 0xFB => Addressing::AbsoluteY,
        0x0A | 0x2A | 0x4A | 0x6A => Addressing::Accumulator,
        0x09 | 0x0B | 0x29 | 0x2B | 0x49 | 0x4B | 0x69 | 0x6B | 0x80 | 0x82 | 0x89 | 0x8B | 0xA0 | 0xA2 | 0xA9 | 0xAB | 0xC0 | 0xC2 | 0xC9 | 0xCB | 0xE0 | 0xE2 | 0xE9 | 0xEB => Addressing::Immediate,
        0x01 | 0x03 | 0x21 | 0x23 | 0x41 | 0x43 | 0x61 | 0x63 | 0x81 | 0x83 | 0xA1 | 0xA3 | 0xC1 | 0xC3 | 0xE1 | 0xE3 => Addressing::IndexedIndirect,
        0x6C => Addressing::Indirect,
        0x11 | 0x13 | 0x31 | 0x33 | 0x51 | 0x53 | 0x71 | 0x73 | 0x91 | 0x93 | 0xB1 | 0xB3 | 0xD1 | 0xD3 | 0xF1 | 0xF3 => Addressing::IndirectIndexed,
        0x10 | 0x30 | 0x50 | 0x70 | 0x90 | 0xB0 | 0xD0 | 0xF0 => Addressing::Relative,
        0x04 | 0x05 | 0x06 | 0x07 | 0x24 | 0x25 | 0x26 | 0x27 | 0x44 | 0x45 | 0x46 | 0x47 | 0x64 | 0x65 | 0x66 | 0x67 | 0x84 | 0x85 | 0x86 | 0x87 | 0xA4 | 0xA5 | 0xA6 | 0xA7 | 0xC4 | 0xC5 | 0xC6 | 0xC7 | 0xE4 | 0xE5 | 0xE6 | 0xE7 => Addressing::ZeroPage,
        0x14 | 0x15 | 0x16 | 0x17 | 0x34 | 0x35 | 0x36 | 0x37 | 0x54 | 0x55 | 0x56 | 0x57 | 0x74 | 0x75 | 0x76 | 0x77 | 0x94 | 0x95 | 0xB4 | 0xB5 | 0xD4 | 0xD5 | 0xD6 | 0xD7 | 0xF4 | 0xF5 | 0xF6 | 0xF7 => Addressing::ZeroPageX,
        0x96 | 0x97 | 0xB6 | 0xB7 => Addressing::ZeroPageY,
        _ => Addressing::Implied,
    }
}

/// The addressing mode each opcode decodes its operand with.
pub fn op_addressing(op: u8) -> (r: Addressing)
    ensures
        r == op_addressing_spec(op),
{
    match op {
        0x0C | 0x0D | 0x0E | 0x0F | 0x20 | 0x2C | 0x2D | 0x2E | 0x2F | 0x4C | 0x4D | 0x4E | 0x4F | 0x6D | 0x6E | 0x6F | 0x8C | 0x8D | 0x8E | 0x8F | 0xAC | 0xAD | 0xAE | 0xAF | 0xCC | 0xCD | 0xCE | 0xCF | 0xEC | 0xED | 0xEE | 0xEF => Addressing::Absolute,
        0x1C | 0x1D | 0x1E | 0x1F | 0x3C | 0x3D | 0x3E | 0x3F | 0x5C | 0x5D | 0x5E | 0x5F | 0x7C | 0x7D | 0x7E | 0x7F | 0x9C | 0x9D | 0xBC | 0xBD | 0xDC | 0xDD | 0xDE | 0xDF | 0xFC | 0xFD | 0xFE | 0xFF => Addressing::AbsoluteX,
        0x19 | 0x1B | 0x39 | 0x3B | 0x59 | 0x5B | 0x79 | 0x7B | 0x99 | 0x9B | 0x9E | 0x9F | 0xB9 | 0xBB | 0xBE | 0xBF | 0xD9 | 0xDB | 0xF9 | 0xFB => Addressing::AbsoluteY,
        0x0A | 0x2A | 0x4A | 0x6A => Addressing::Accumulator,
        0x09 | 0x0B | 0x29 | 0x2B | 0x49 | 0x4B | 0x69 | 0x6B | 0x80 | 0x82 | 0x89 | 0x8B | 0xA0 | 0xA2 | 0xA9 | 0xAB | 0xC0 | 0xC2 | 0xC9 | 0xCB | 0xE0 | 0xE2 | 0xE9 | 0xEB => Addressing::Immediate,
        0x01 | 0x03 | 0x21 | 0x23 | 0x41 | 0x43 | 0x61 | 0x63 | 0x81 | 0x83 | 0xA1 | 0xA3 | 0xC1 | 0xC3 | 0xE1 | 0xE3 => Addressing::IndexedIndirect,
        0x6C => Addressing::Indirect,
        0x11 | 0x13 | 0x31 | 0x33 | 0x51 | 0x53 | 0x71 | 0x73 | 0x91 | 0x93 | 0xB1 | 0xB3 | 0xD1 | 0xD3 | 0xF1 | 0xF3 => Addressing::IndirectIndexed,
        0x10 | 0x30 | 0x50 | 0x70 | 0x90 | 0xB0 | 0xD0 | 0xF0 => Addressing::Relative,
        0x04 | 0x05 | 0x06 | 0x07 | 0x24 | 0x25 | 0x26 | 0x27 | 0x44 | 0x45 | 0x46 | 0x47 | 0x64 | 0x65 | 0x66 | 0x67 | 0x84 | 0x85 | 0x86 | 0x87 | 0xA4 | 0xA5 | 0xA6 | 0xA7 | 0xC4 | 0xC5 | 0xC6 | 0xC7 | 0xE4 | 0xE5 | 0xE6 | 0xE7 => Addressing::ZeroPage,
        0x14 | 0x15 | 0x16 | 0x17 | 0x34 | 0x35 | 0x36 | 0x37 | 0x54 | 0x55 | 0x56 | 0x57 | 0x74 | 0x75 | 0x76 | 0x77 | 0x94 | 0x95 | 0xB4 | 0xB5 | 0xD4 | 0xD5 | 0xD6 | 0xD7 | 0xF4 | 0xF5 | 0xF6 | 0xF7 => Addressing::ZeroPageX,
        0x96 | 0x97 | 0xB6 | 0xB7 => Addressing::ZeroPageY,
        _ => Addressing::Implied,
    }
}



/// Whether two addresses lie in different 256-byte pages.
pub open spec fn pages_differ_spec(a: u16, b: u16) -> bool {
    a & 0xFF00 != b & 0xFF00
}

/// Whether two addresses lie in different 256-byte pages.
fn pages_differ(a: u16, b: u16) -> (r: bool)
    ensures
        r == pages_differ_spec(a, b),
{
    a & 0xFF00 != b & 0xFF00
}

/// The address the high byte of an indirect pointer is fetched from: the
/// increment of the low byte does not carry into the high byte, so a
/// pointer whose low byte is 0xFF reads its high byte from the start of
/// the same page.
pub open spec fn wrap_bug_addr(a: u16) -> u16 {
    (a & 0xFF00) | ((((a + 1) % 0x10000) as u16) & 0xFF)
}

/// The indirect-pointer quirk: for any pointer whose low byte is 0xFF, the
/// high byte of the target is fetched from the bottom of the pointer's own
/// page, never from the next page.
pub proof fn lemma_indirect_wrap(p: u16)
    requires
        p & 0xFF == 0xFF,
    ensures
        wrap_bug_addr(p) == p & 0xFF00,
{
    if p == 0xFFFF {
        assert((0xFFFFu16 & 0xFF00) | (0u16 & 0xFF) == 0xFFFFu16 & 0xFF00) by (bit_vector);
    } else {
        let s = ((p + 1) % 0x10000) as u16;
        assert(s == p + 1);
        assert((p & 0xFF00) | (s & 0xFF) == p & 0xFF00) by (bit_vector)
            requires
                p & 0xFF == 0xFF,
                p < 0xFFFF,
                s == p + 1,
        ;
    }
}

/// Where a relative branch lands: the offset is added to the address of
/// the next instruction, its top bit carrying a negative displacement.
pub open spec fn branch_target_spec(pc: u16, offset: u8) -> u16 {
    let nxt = (((((pc + 2) % 0x10000) + offset) % 0x10000) as u16);
    if offset < 0x80 {
        nxt
    } else {
        ((((nxt as int) - 0x100) % 0x10000) as u16)
    }
}

/// The flag condition each conditional-branch opcode tests.
pub open spec fn branch_cond_spec(op: u8, c: CPU) -> bool {
    if op == 0x10 {
        c.n == 0
    } else if op == 0x30 {
        c.n != 0
    } else if op == 0x50 {
        c.v == 0
    } else if op == 0x70 {
        c.v != 0
    } else if op == 0x90 {
        c.c == 0
    } else if op == 0xB0 {
        c.c != 0
    } else if op == 0xD0 {
        c.z == 0
    } else {
        c.z != 0
    }
}

/// Whether both bytes of a sixteen-bit word can be read from the bus
/// without side effects.
pub open spec fn word_pure(m: MemoryBus, address: u16) -> bool {
    &&& cpu_read_pure(m, address) is Some
    &&& cpu_read_pure(m, (((address + 1) % 0x10000) as u16)) is Some
}

/// The sixteen-bit little-endian word at a side-effect-free pair of bus
/// addresses.
pub open spec fn pure_word(m: MemoryBus, address: u16) -> int
    recommends
        word_pure(m, address),
{
    cpu_read_pure(m, address)->Some_0 + 0x100 * cpu_read_pure(
        m,
        (((address + 1) % 0x10000) as u16),
    )->Some_0
}

/// The little-endian word the mapper serves at a vector in the fixed upper
/// window; vectors always read through the mapper, so the word is
/// determined by the mapper alone.
pub open spec fn vector_word(m: MemoryBus, vector: u16) -> int
    recommends
        0x6000 <= vector < 0xFFFF,
{
    mapper_read_spec(m.mapper, vector) + 0x100 * mapper_read_spec(m.mapper, (vector + 1) as u16)
}

/// The page-one stack slot behind a stack pointer, as a work-RAM index.
pub open spec fn stack_slot(sp: u8) -> int {
    ((0x100 | (sp as u16)) % 0x800) as int
}

/// The extra cycles of a taken branch: one, or two when the target lies in
/// a different page than the next instruction.
fn branch_cycles(pc: u16, address: u16) -> (r: i32)
    ensures
        1 <= r <= 2,
        r == (if pages_differ_spec(pc, address) {
            2int
        } else {
            1
        }),
{
    if pages_differ(pc, address) {
        2
    } else {
        1
    }
}

/// The packed status byte of the processor's eight flags.
pub open spec fn flags_byte(c: CPU) -> u8 {
    (c.c | (c.z << 1) | (c.i << 2) | (c.d << 3) | (c.b << 4) | (c.u << 5) | (c.v << 6) | (c.n
        << 7)) as u8
}

/// Whether two processor values agree on every register and flag (the bus
/// aside).
pub open spec fn same_regs(x: CPU, y: CPU) -> bool {
    &&& x.pc == y.pc
    &&& x.sp == y.sp
    &&& x.a == y.a
    &&& x.x == y.x
    &&& x.y == y.y
    &&& same_flags(x, y)
}

/// Whether two processor values agree on every flag.
pub open spec fn same_flags(x: CPU, y: CPU) -> bool {
    &&& x.c == y.c
    &&& x.z == y.z
    &&& x.i == y.i
    &&& x.d == y.d
    &&& x.b == y.b
    &&& x.u == y.u
    &&& x.v == y.v
    &&& x.n == y.n
}

/// The instruction effects a step pins down whenever the operand bytes can
/// be read without bus side effects: where an absolute or indirect jump
/// lands (the indirect pointer never carrying into the next page), the
/// stall a store to the sprite-DMA port imposes, the full register effect
/// of an immediate add-with-carry, and the page-zero wrap of an indexed
/// zero-page store.
pub open spec fn step_op_effects(pre: CPU, post: CPU, op: u8, cycles: i32) -> bool {
    let pc1 = (((pre.pc + 1) % 0x10000) as u16);
    &&& (op == 0x4C && word_pure(pre.mem, pc1) ==> post == (CPU {
        pc: (pure_word(pre.mem, pc1) as u16),
        ..pre
    }) && cycles == 3)
    &&& (op == 0x6C && word_pure(pre.mem, pc1) ==> ({
        let ptr = (pure_word(pre.mem, pc1) as u16);
        cpu_read_pure(pre.mem, ptr) is Some && cpu_read_pure(pre.mem, wrap_bug_addr(ptr)) is Some
            ==> post == (CPU {
            pc: ((cpu_read_pure(pre.mem, ptr)->Some_0 + 0x100 * cpu_read_pure(
                pre.mem,
                wrap_bug_addr(ptr),
            )->Some_0) as u16),
            ..pre
        }) && cycles == 5
    }))
    &&& (op == 0x8D && word_pure(pre.mem, pc1) ==> ({
        let address = pure_word(pre.mem, pc1);
        &&& post.pc as int == (pre.pc + 3) % 0x10000
        &&& post.sp == pre.sp
        &&& post.a == pre.a
        &&& post.x == pre.x
        &&& post.y == pre.y
        &&& same_flags(pre, post)
        &&& post.mem.cpu.stall == (if address == 0x4014 {
            if pre.mem.cpu.stall + 513 <= i32::MAX {
                pre.mem.cpu.stall + 513
            } else {
                i32::MAX as int
            }
        } else {
            pre.mem.cpu.stall as int
        })
    }))
    &&& (op == 0x69 && cpu_read_pure(pre.mem, pc1) is Some ==> ({
        let b = cpu_read_pure(pre.mem, pc1)->Some_0;
        let sum = pre.a + b + pre.c;
        let a2 = (sum % 256) as u8;
        post == (CPU {
            pc: (((pre.pc + 2) % 0x10000) as u16),
            a: a2,
            c: if sum > 0xFF {
                1u8
            } else {
                0u8
            },
            v: if (pre.a ^ b) & 0x80 == 0 && (pre.a ^ a2) & 0x80 != 0 {
                1u8
            } else {
                0u8
            },
            z: if a2 == 0 {
                1u8
            } else {
                0u8
            },
            n: if a2 & 0x80 != 0 {
                1u8
            } else {
                0u8
            },
            ..pre
        })
    }))
    &&& (op == 0x95 && cpu_read_pure(pre.mem, pc1) is Some ==> ({
        let zp = cpu_read_pure(pre.mem, pc1)->Some_0;
        let address = (zp + pre.x) % 256;
        &&& post == (CPU {
            pc: (((pre.pc + 2) % 0x10000) as u16),
            mem: post.mem,
            ..pre
        })
        &&& post.mem == (MemoryBus { ram: post.mem.ram, ..pre.mem })
        &&& post.mem.ram@ == pre.mem.ram@.update(address, pre.a)
    }))
    &&& (pagecross_op_spec(op) && op_addressing_spec(op) is AbsoluteX && word_pure(pre.mem, pc1)
        ==> ({
        let base = (pure_word(pre.mem, pc1) as u16);
        cycles == op_cycles_spec(op) + (if pages_differ_spec(
            base,
            (((base + pre.x) % 0x10000) as u16),
        ) {
            1int
        } else {
            0
        })
    }))
    &&& (pagecross_op_spec(op) && op_addressing_spec(op) is AbsoluteY && word_pure(pre.mem, pc1)
        ==> ({
        let base = (pure_word(pre.mem, pc1) as u16);
        cycles == op_cycles_spec(op) + (if pages_differ_spec(
            base,
            (((base + pre.y) % 0x10000) as u16),
        ) {
            1int
        } else {
            0
        })
    }))
    &&& (branch_op_spec(op) && cpu_read_pure(pre.mem, pc1) is Some ==> ({
        let target = branch_target_spec(pre.pc, cpu_read_pure(pre.mem, pc1)->Some_0);
        let taken = branch_cond_spec(op, pre);
        &&& post.pc == (if taken {
            target
        } else {
            (((pre.pc + 2) % 0x10000) as u16)
        })
        &&& cycles == op_cycles_spec(op) + (if taken {
            if pages_differ_spec((((pre.pc + 2) % 0x10000) as u16), target) {
                2int
            } else {
                1
            }
        } else {
            0
        })
    }))
}

/// The 6502-family interpreter: the programmer-visible registers and the
/// memory bus it owns.
pub struct CPU {
    /// The program counter.
    pub pc: u16,
    /// The stack pointer, indexing page one.
    pub sp: u8,
    /// The accumulator.
    pub a: u8,
    /// The X index register.
    pub x: u8,
    /// The Y index register.
    pub y: u8,
    /// The carry flag, as a byte holding 0 or 1.
    pub c: u8,
    /// The zero flag.
    pub z: u8,
    /// The interrupt-disable flag.
    pub i: u8,
    /// The decimal-mode flag (decimal arithmetic itself is absent).
    pub d: u8,
    /// The break flag.
    pub b: u8,
    /// The unused flag, set when the status byte is unpacked.
    pub u: u8,
    /// The overflow flag.
    pub v: u8,
    /// The negative flag.
    pub n: u8,
    /// The memory bus, owned by the processor and loaned to its peers.
    pub mem: MemoryBus,
}

impl CPU {
    /// Every flag byte holds 0 or 1.
    pub open spec fn flags_wf(&self) -> bool {
        &&& self.c <= 1
        &&& self.z <= 1
        &&& self.i <= 1
        &&& self.d <= 1
        &&& self.b <= 1
        &&& self.u <= 1
        &&& self.v <= 1
        &&& self.n <= 1
    }

    /// The flags and the bus are well formed.
    pub open spec fn wf(&self) -> bool {
        &&& self.flags_wf()
        &&& self.mem.wf()
    }

    /// A processor over the given bus, reset to its power-up state: the
    /// program counter is loaded from the reset vector at 0xFFFC.
    pub fn new(mem: MemoryBus) -> (r: Self)
        requires
            mem.wf(),
        ensures
            r.wf(),
            r.sp == 0xFD,
    {
        let mut cpu = CPU {
            pc: 0,
            sp: 0,
            a: 0,
            x: 0,
            y: 0,
            c: 0,
            z: 0,
            i: 0,
            d: 0,
            b: 0,
            u: 0,
            v: 0,
            n: 0,
            mem,
        };
        cpu.reset();
        cpu
    }

    /// Resets the processor to its power-up state: the stack pointer at
    /// 0xFD, the packed status byte 0x24, and the program counter loaded
    /// from the reset vector at 0xFFFC, which always reads through the
    /// mapper.
    pub fn reset(&mut self)
        requires
            old(self).mem.wf(),
        ensures
            final(self).wf(),
            final(self).sp == 0xFD,
            final(self).i == 1,
            flags_byte(*final(self)) == 0x24,
            final(self).a == old(self).a,
            final(self).x == old(self).x,
            final(self).y == old(self).y,
            final(self).pc as int == vector_word(old(self).mem, 0xFFFC),
            final(self).mem == old(self).mem,
    {
        proof {
            assert(word_pure(old(self).mem, 0xFFFC));
        }
        let pc = self.read16(0xFFFC);
        self.pc = pc;
        self.sp = 0xFD;
        self.set_flags(0x24);
        proof {
            assert((0x24u8 & 1) | (((0x24u8 >> 1) & 1) << 1) | (((0x24u8 >> 2) & 1) << 2) | (((
            0x24u8 >> 3) & 1) << 3) | (((0x24u8 >> 4) & 1) << 4) | (((0x24u8 >> 5) & 1) << 5) | (((
            0x24u8 >> 6) & 1) << 6) | (((0x24u8 >> 7) & 1) << 7) == 0x24 && (0x24u8 >> 2) & 1 == 1)
                by (bit_vector);
        }
    }

    /// Latches the host's button state into the first controller.
    pub fn set_buttons(&mut self, buttons: ButtonState)
        requires
            old(self).wf(),
        ensures
            final(self).wf(),
            same_regs(*old(self), *final(self)),
            final(self).mem == (MemoryBus {
                controller1: final(self).mem.controller1,
                ..old(self).mem
            }),
            final(self).mem.controller1.buttons@ == button_seq(buttons),
    {
        self.mem.controller1.set_buttons(buttons);
    }

    /// Unpacks a status byte into the eight flag fields.
    fn set_flags(&mut self, flags: u8)
        ensures
            final(self).flags_wf(),
            *final(self) == (CPU {
                c: flags & 1,
                z: (flags >> 1) & 1,
                i: (flags >> 2) & 1,
                d: (flags >> 3) & 1,
                b: (flags >> 4) & 1,
                u: (flags >> 5) & 1,
                v: (flags >> 6) & 1,
                n: (flags >> 7) & 1,
                ..*old(self)
            }),
    {
        proof {
            lemma_u8_bits(flags);
        }
        self.c = flags & 1;
        self.z = (flags >> 1) & 1;
        self.i = (flags >> 2) & 1;
        self.d = (flags >> 3) & 1;
        self.b = (flags >> 4) & 1;
        self.u = (flags >> 5) & 1;
        self.v = (flags >> 6) & 1;
        self.n = (flags >> 7) & 1;
    }

    /// Packs the eight flag fields into a status byte.
    fn get_flags(&self) -> (r: u8)
        requires
            self.flags_wf(),
        ensures
            r == flags_byte(*self),
    {
        self.c | (self.z << 1) | (self.i << 2) | (self.d << 3) | (self.b << 4) | (self.u << 5) | (
        self.v << 6) | (self.n << 7)
    }

    /// Reads a byte of CPU space through the bus.
    pub fn read(&mut self, address: u16) -> (r: u8)
        requires
            old(self).mem.wf(),
        ensures
            final(self).mem.wf(),
            same_regs(*old(self), *final(self)),
            irq_absorbed(old(self).mem.cpu.interrupt, final(self).mem.cpu.interrupt),
            cpu_read_pure(old(self).mem, address) is Some ==> r == cpu_read_pure(
                old(self).mem,
                address,
            )->Some_0 && final(self).mem == old(self).mem,
    {
        self.mem.cpu_read(address)
    }

    /// Reads a sixteen-bit little-endian value.
    fn read16(&mut self, address: u16) -> (r: u16)
        requires
            old(self).mem.wf(),
        ensures
            final(self).mem.wf(),
            same_regs(*old(self), *final(self)),
            irq_absorbed(old(self).mem.cpu.interrupt, final(self).mem.cpu.interrupt),
            word_pure(old(self).mem, address) ==> r as int == pure_word(old(self).mem, address)
                && final(self).mem == old(self).mem,
    {
        let lo = self.read(address);
        let hi = self.read(address.wrapping_add(1));
        let r = ((hi as u16) << 8) | (lo as u16);
        proof {
            assert(((hi as u16) << 8) | (lo as u16) == 0x100 * (hi as u16) + (lo as u16))
                by (bit_vector);
        }
        r
    }

    /// Reads a sixteen-bit value through the indirect-pointer quirk: the
    /// high byte comes from `wrap_bug_addr`, never from the next page.
    fn read16bug(&mut self, a: u16) -> (r: u16)
        requires
            old(self).mem.wf(),
        ensures
            final(self).mem.wf(),
            same_regs(*old(self), *final(self)),
            irq_absorbed(old(self).mem.cpu.interrupt, final(self).mem.cpu.interrupt),
            cpu_read_pure(old(self).mem, a) is Some && cpu_read_pure(
                old(self).mem,
                wrap_bug_addr(a),
            ) is Some ==> r == cpu_read_pure(old(self).mem, a)->Some_0 + 0x100 * cpu_read_pure(
                old(self).mem,
                wrap_bug_addr(a),
            )->Some_0 && final(self).mem == old(self).mem,
    {
        let b = (a & 0xFF00) | ((a.wrapping_add(1)) & 0xFF);
        let lo = self.read(a);
        let hi = self.read(b);
        let r = ((hi as u16) << 8) | (lo as u16);
        proof {
            assert(((hi as u16) << 8) | (lo as u16) == 0x100 * (hi as u16) + (lo as u16))
                by (bit_vector);
        }
        r
    }

    /// Writes a byte of CPU space through the bus.
    fn write(&mut self, address: u16, value: u8)
        requires
            old(self).mem.wf(),
        ensures
            final(self).mem.wf(),
            same_regs(*old(self), *final(self)),
            address != 0x4014 ==> final(self).mem.cpu.interrupt == old(self).mem.cpu.interrupt,
            irq_absorbed(old(self).mem.cpu.interrupt, final(self).mem.cpu.interrupt),
            final(self).mem.cpu.stall == (if address == 0x4014 {
                if old(self).mem.cpu.stall + 513 <= i32::MAX {
                    old(self).mem.cpu.stall + 513
                } else {
                    i32::MAX as int
                }
            } else {
                old(self).mem.cpu.stall as int
            }),
            address < 0x2000 ==> final(self).mem == (MemoryBus {
                ram: final(self).mem.ram,
                ..old(self).mem
            }) && final(self).mem.ram@ == old(self).mem.ram@.update(
                (address % 0x800) as int,
                value,
            ),
    {
        self.mem.cpu_write(address, value);
    }

    /// Pushes a byte onto the page-one stack.
    fn push(&mut self, value: u8)
        requires
            old(self).mem.wf(),
        ensures
            final(self).mem.wf(),
            final(self).sp as int == (old(self).sp - 1) % 256,
            final(self).pc == old(self).pc,
            final(self).a == old(self).a,
            final(self).x == old(self).x,
            final(self).y == old(self).y,
            same_flags(*old(self), *final(self)),
            final(self).mem.cpu.interrupt == old(self).mem.cpu.interrupt,
            final(self).mem == (MemoryBus { ram: final(self).mem.ram, ..old(self).mem }),
            final(self).mem.ram@ == old(self).mem.ram@.update(stack_slot(old(self).sp), value),
    {
        let sp = self.sp as u16;
        proof {
            lemma_word_bits(sp);
        }
        self.write(0x100 | sp, value);
        self.sp = self.sp.wrapping_sub(1);
    }

    /// Pushes a sixteen-bit value, high byte first.
    fn push16(&mut self, value: u16)
        requires
            old(self).mem.wf(),
        ensures
            final(self).mem.wf(),
            final(self).sp as int == (old(self).sp - 2) % 256,
            final(self).pc == old(self).pc,
            final(self).a == old(self).a,
            final(self).x == old(self).x,
            final(self).y == old(self).y,
            same_flags(*old(self), *final(self)),
            final(self).mem.cpu.interrupt == old(self).mem.cpu.interrupt,
            final(self).mem == (MemoryBus { ram: final(self).mem.ram, ..old(self).mem }),
            final(self).mem.ram@ == old(self).mem.ram@.update(
                stack_slot(old(self).sp),
                (value >> 8) as u8,
            ).update(stack_slot((((old(self).sp - 1) % 256) as u8)), (value & 0xFF) as u8),
    {
        let hi = (value >> 8) as u8;
        let lo = (value & 0xFF) as u8;
        self.push(hi);
        self.push(lo);
        proof {
            let sp0 = old(self).sp as int;
            assert(((sp0 - 1) % 256 - 1) % 256 == (sp0 - 2) % 256) by (nonlinear_arith)
                requires
                    0 <= sp0 < 256,
            ;
        }
    }

    /// Pulls a byte from the page-one stack.
    fn pull(&mut self) -> (r: u8)
        requires
            old(self).mem.wf(),
        ensures
            final(self).mem.wf(),
            final(self).sp as int == (old(self).sp + 1) % 256,
            final(self).pc == old(self).pc,
            final(self).a == old(self).a,
            final(self).x == old(self).x,
            final(self).y == old(self).y,
            same_flags(*old(self), *final(self)),
            final(self).mem.cpu.interrupt == old(self).mem.cpu.interrupt,
    {
        self.sp = self.sp.wrapping_add(1);
        let sp = self.sp as u16;
        proof {
            lemma_word_bits(sp);
        }
        self.read(0x100 | sp)
    }

    /// Pulls a sixteen-bit value, low byte first.
    fn pull16(&mut self) -> (r: u16)
        requires
            old(self).mem.wf(),
        ensures
            final(self).mem.wf(),
            final(self).sp as int == (old(self).sp + 2) % 256,
            final(self).pc == old(self).pc,
            final(self).a == old(self).a,
            final(self).x == old(self).x,
            final(self).y == old(self).y,
            same_flags(*old(self), *final(self)),
            final(self).mem.cpu.interrupt == old(self).mem.cpu.interrupt,
    {
        let lo = self.pull();
        let hi = self.pull();
        proof {
            let sp0 = old(self).sp as int;
            assert(((sp0 + 1) % 256 + 1) % 256 == (sp0 + 2) % 256) by (nonlinear_arith)
                requires
                    0 <= sp0 < 256,
            ;
        }
        ((hi as u16) << 8) | (lo as u16)
    }

    /// Sets the zero flag from a result.
    fn set_z(&mut self, r: u8)
        ensures
            *final(self) == (CPU {
                z: if r == 0 {
                    1u8
                } else {
                    0u8
                },
                ..*old(self)
            }),
    {
        self.z = if r == 0 {
            1
        } else {
            0
        };
    }

    /// Sets the negative flag from a result's top bit.
    fn set_n(&mut self, r: u8)
        ensures
            *final(self) == (CPU {
                n: if r & 0x80 != 0 {
                    1u8
                } else {
                    0u8
                },
                ..*old(self)
            }),
    {
        self.n = if r & 0x80 != 0 {
            1
        } else {
            0
        };
    }

    /// Sets the zero and negative flags from a result.
    fn set_zn(&mut self, r: u8)
        ensures
            *final(self) == (CPU {
                z: if r == 0 {
                    1u8
                } else {
                    0u8
                },
                n: if r & 0x80 != 0 {
                    1u8
                } else {
                    0u8
                },
                ..*old(self)
            }),
    {
        self.set_z(r);
        self.set_n(r);
    }

    /// Pushes the status byte with the break bit set.
    fn php(&mut self)
        requires
            old(self).wf(),
        ensures
            final(self).wf(),
            final(self).sp as int == (old(self).sp - 1) % 256,
            final(self).pc == old(self).pc,
            final(self).a == old(self).a,
            final(self).x == old(self).x,
            final(self).y == old(self).y,
            same_flags(*old(self), *final(self)),
            final(self).mem.cpu.interrupt == old(self).mem.cpu.interrupt,
            final(self).mem == (MemoryBus { ram: final(self).mem.ram, ..old(self).mem }),
            final(self).mem.ram@ == old(self).mem.ram@.update(
                stack_slot(old(self).sp),
                flags_byte(*old(self)) | 0x10,
            ),
    {
        let flags = self.get_flags();
        self.push(flags | 0x10);
    }

    /// Compares a register against a value, setting carry, zero and
    /// negative.
    fn compare(&mut self, a: u8, b: u8)
        requires
            old(self).wf(),
        ensures
            final(self).wf(),
            *final(self) == (CPU {
                c: if a >= b {
                    1u8
                } else {
                    0u8
                },
                z: if a == b {
                    1u8
                } else {
                    0u8
                },
                n: if ((a - b) % 256) as u8 & 0x80 != 0 {
                    1u8
                } else {
                    0u8
                },
                ..*old(self)
            }),
    {
        let diff = a.wrapping_sub(b);
        self.set_zn(diff);
        if a >= b {
            self.c = 1;
        } else {
            self.c = 0;
        }
        proof {
            let ai = a as int;
            let bi = b as int;
            assert((ai == bi) == (((ai - bi) % 256) == 0)) by (nonlinear_arith)
                requires
                    0 <= ai < 256 && 0 <= bi < 256,
            ;
        }
    }

    /// Services a non-maskable interrupt: the program counter is pushed
    /// high byte first, the status is pushed with the break bit clear, the
    /// interrupt-disable flag rises, and the handler at the vector 0xFFFA
    /// is entered.
    fn nmi(&mut self)
        requires
            old(self).wf(),
        ensures
            final(self).wf(),
            final(self).mem.cpu.interrupt == old(self).mem.cpu.interrupt,
            final(self).i == 1,
            final(self).sp as int == (old(self).sp - 3) % 256,
            final(self).a == old(self).a,
            final(self).x == old(self).x,
            final(self).y == old(self).y,
            final(self).pc as int == vector_word(old(self).mem, 0xFFFA),
            final(self).mem == (MemoryBus { ram: final(self).mem.ram, ..old(self).mem }),
            final(self).mem.ram@ == old(self).mem.ram@.update(
                stack_slot(old(self).sp),
                (old(self).pc >> 8) as u8,
            ).update(stack_slot((((old(self).sp - 1) % 256) as u8)), (old(self).pc & 0xFF) as u8)
                .update(
                stack_slot((((old(self).sp - 2) % 256) as u8)),
                flags_byte(*old(self)) & 0xEF,
            ),
    {
        self.service_interrupt(0xFFFA);
    }

    /// Services an interrupt request: like the non-maskable service, but
    /// through the vector 0xFFFE.
    fn irq(&mut self)
        requires
            old(self).wf(),
        ensures
            final(self).wf(),
            final(self).mem.cpu.interrupt == old(self).mem.cpu.interrupt,
            final(self).i == 1,
            final(self).sp as int == (old(self).sp - 3) % 256,
            final(self).a == old(self).a,
            final(self).x == old(self).x,
            final(self).y == old(self).y,
            final(self).pc as int == vector_word(old(self).mem, 0xFFFE),
            final(self).mem == (MemoryBus { ram: final(self).mem.ram, ..old(self).mem }),
    {
        self.service_interrupt(0xFFFE);
    }

    /// The shared interrupt entry: pushes the program counter and the
    /// status with the break bit clear, raises interrupt-disable, and
    /// loads the program counter from the vector.
    fn service_interrupt(&mut self, vector: u16)
        requires
            old(self).wf(),
            0x6000 <= vector < 0xFFFF,
        ensures
            final(self).wf(),
            final(self).mem.cpu.interrupt == old(self).mem.cpu.interrupt,
            final(self).i == 1,
            final(self).sp as int == (old(self).sp - 3) % 256,
            final(self).a == old(self).a,
            final(self).x == old(self).x,
            final(self).y == old(self).y,
            final(self).pc as int == vector_word(old(self).mem, vector),
            final(self).mem == (MemoryBus { ram: final(self).mem.ram, ..old(self).mem }),
            final(self).mem.ram@ == old(self).mem.ram@.update(
                stack_slot(old(self).sp),
                (old(self).pc >> 8) as u8,
            ).update(stack_slot((((old(self).sp - 1) % 256) as u8)), (old(self).pc & 0xFF) as u8)
                .update(
                stack_slot((((old(self).sp - 2) % 256) as u8)),
                flags_byte(*old(self)) & 0xEF,
            ),
    {
        let pc = self.pc;
        self.push16(pc);
        let flags = self.get_flags();
        self.push(flags & 0xEF);
        proof {
            let sp0 = old(self).sp as int;
            assert(((sp0 - 2) % 256 - 1) % 256 == (sp0 - 3) % 256) by (nonlinear_arith)
                requires
                    0 <= sp0 < 256,
            ;
            assert(word_pure(self.mem, vector));
        }
        let pc2 = self.read16(vector);
        self.pc = pc2;
        self.i = 1;
    }


    /// Reads the sixteen-bit operand word following the opcode.
    fn resolve_absolute(&mut self) -> (addr: u16)
        requires
            old(self).mem.wf(),
        ensures
            final(self).mem.wf(),
            same_regs(*old(self), *final(self)),
            irq_absorbed(old(self).mem.cpu.interrupt, final(self).mem.cpu.interrupt),
            word_pure(old(self).mem, (((old(self).pc + 1) % 0x10000) as u16)) ==> final(self).mem
                == old(self).mem && addr as int == pure_word(
                old(self).mem,
                (((old(self).pc + 1) % 0x10000) as u16),
            ),
    {
        let pc = self.pc.wrapping_add(1);
        self.read16(pc)
    }

    /// Reads the operand word and adds an index register, noting whether
    /// the addition crossed a page.
    fn resolve_indexed(&mut self, index: u8) -> (r: (u16, bool))
        requires
            old(self).mem.wf(),
        ensures
            final(self).mem.wf(),
            same_regs(*old(self), *final(self)),
            irq_absorbed(old(self).mem.cpu.interrupt, final(self).mem.cpu.interrupt),
            word_pure(old(self).mem, (((old(self).pc + 1) % 0x10000) as u16)) ==> ({
                let base = (pure_word(
                    old(self).mem,
                    (((old(self).pc + 1) % 0x10000) as u16),
                ) as u16);
                &&& final(self).mem == old(self).mem
                &&& r.0 as int == (base + index) % 0x10000
                &&& r.1 == pages_differ_spec(base, r.0)
            }),
    {
        let pc = self.pc.wrapping_add(1);
        let base = self.read16(pc);
        let address = base.wrapping_add(index as u16);
        let crossed = pages_differ(base, address);
        (address, crossed)
    }

    /// Reads the operand word and follows it through the indirect-pointer
    /// quirk.
    #[verifier::rlimit(50)]
    fn resolve_indirect(&mut self) -> (addr: u16)
        requires
            old(self).mem.wf(),
        ensures
            final(self).mem.wf(),
            same_regs(*old(self), *final(self)),
            irq_absorbed(old(self).mem.cpu.interrupt, final(self).mem.cpu.interrupt),
            word_pure(old(self).mem, (((old(self).pc + 1) % 0x10000) as u16)) ==> ({
                let ptr = (pure_word(
                    old(self).mem,
                    (((old(self).pc + 1) % 0x10000) as u16),
                ) as u16);
                cpu_read_pure(old(self).mem, ptr) is Some && cpu_read_pure(
                    old(self).mem,
                    wrap_bug_addr(ptr),
                ) is Some ==> final(self).mem == old(self).mem && addr as int == cpu_read_pure(
                    old(self).mem,
                    ptr,
                )->Some_0 + 0x100 * cpu_read_pure(old(self).mem, wrap_bug_addr(ptr))->Some_0
            }),
    {
        let next = self.pc.wrapping_add(1);
        let base = self.read16(next);
        self.read16bug(base)
    }

    /// Reads the signed branch offset and computes the branch target.
    fn resolve_relative(&mut self) -> (addr: u16)
        requires
            old(self).mem.wf(),
        ensures
            final(self).mem.wf(),
            same_regs(*old(self), *final(self)),
            irq_absorbed(old(self).mem.cpu.interrupt, final(self).mem.cpu.interrupt),
            cpu_read_pure(old(self).mem, (((old(self).pc + 1) % 0x10000) as u16)) is Some ==> final(self).mem == old(self).mem && addr == branch_target_spec(
                old(self).pc,
                cpu_read_pure(old(self).mem, (((old(self).pc + 1) % 0x10000) as u16))->Some_0,
            ),
    {
        let pc = self.pc.wrapping_add(1);
        let offset = self.read(pc) as u16;
        let nxt = self.pc.wrapping_add(2).wrapping_add(offset);
        if offset < 0x80 {
            nxt
        } else {
            nxt.wrapping_sub(0x100)
        }
    }

    /// Computes the operand address of an opcode from its addressing mode,
    /// and whether an index addition crossed a page.
    #[verifier::rlimit(100)]
    fn resolve(&mut self, op: u8) -> (r: (u16, bool))
        requires
            old(self).wf(),
        ensures
            final(self).wf(),
            same_regs(*old(self), *final(self)),
            irq_absorbed(old(self).mem.cpu.interrupt, final(self).mem.cpu.interrupt),
            op_addressing_spec(op) is Immediate ==> *final(self) == *old(self) && r.0 as int == (
            old(self).pc + 1) % 0x10000 && r.1 == false,
            !(op_addressing_spec(op) is AbsoluteX || op_addressing_spec(op) is AbsoluteY
                || op_addressing_spec(op) is IndirectIndexed) ==> r.1 == false,
            ({
                let pc1 = (((old(self).pc + 1) % 0x10000) as u16);
                &&& (op_addressing_spec(op) is AbsoluteX && word_pure(old(self).mem, pc1) ==> ({
                    let base = (pure_word(old(self).mem, pc1) as u16);
                    &&& *final(self) == *old(self)
                    &&& r.0 as int == (base + old(self).x) % 0x10000
                    &&& r.1 == pages_differ_spec(base, r.0)
                }))
                &&& (op_addressing_spec(op) is AbsoluteY && word_pure(old(self).mem, pc1) ==> ({
                    let base = (pure_word(old(self).mem, pc1) as u16);
                    &&& *final(self) == *old(self)
                    &&& r.0 as int == (base + old(self).y) % 0x10000
                    &&& r.1 == pages_differ_spec(base, r.0)
                }))
                &&& (op_addressing_spec(op) is Relative && cpu_read_pure(old(self).mem, pc1)
                    is Some ==> *final(self) == *old(self) && r.0 == branch_target_spec(
                    old(self).pc,
                    cpu_read_pure(old(self).mem, pc1)->Some_0,
                ))
            }),
            ({
                let pc1 = (((old(self).pc + 1) % 0x10000) as u16);
                &&& (op_addressing_spec(op) is Absolute && word_pure(old(self).mem, pc1)
                    ==> *final(self) == *old(self) && r.0 as int == pure_word(old(self).mem, pc1)
                    && r.1 == false)
                &&& (op_addressing_spec(op) is Indirect && word_pure(old(self).mem, pc1) ==> ({
                    let ptr = (pure_word(old(self).mem, pc1) as u16);
                    cpu_read_pure(old(self).mem, ptr) is Some && cpu_read_pure(
                        old(self).mem,
                        wrap_bug_addr(ptr),
                    ) is Some ==> *final(self) == *old(self) && r.0 as int == cpu_read_pure(
                        old(self).mem,
                        ptr,
                    )->Some_0 + 0x100 * cpu_read_pure(old(self).mem, wrap_bug_addr(ptr))->Some_0
                }))
                &&& (op_addressing_spec(op) is ZeroPageX && cpu_read_pure(old(self).mem, pc1)
                    is Some ==> *final(self) == *old(self) && r.0 as int == (cpu_read_pure(
                    old(self).mem,
                    pc1,
                )->Some_0 + old(self).x) % 256)
                &&& (op_addressing_spec(op) is ZeroPageY && cpu_read_pure(old(self).mem, pc1)
                    is Some ==> *final(self) == *old(self) && r.0 as int == (cpu_read_pure(
                    old(self).mem,
                    pc1,
                )->Some_0 + old(self).y) % 256)
            }),
    {
        let addressing = op_addressing(op);
        let mut page_crossed = false;
        let address: u16 = match addressing {
            Addressing::Absolute => self.resolve_absolute(),
            Addressing::AbsoluteX => {
                let x = self.x;
                let r = self.resolve_indexed(x);
                page_crossed = r.1;
                r.0
            },
            Addressing::AbsoluteY => {
                let y = self.y;
                let r = self.resolve_indexed(y);
                page_crossed = r.1;
                r.0
            },
            Addressing::Accumulator => 0,
            Addressing::Immediate => self.pc.wrapping_add(1),
            Addressing::Implied => 0,
            Addressing::IndexedIndirect => {
                let next = self.pc.wrapping_add(1);
                let added = self.read(next).wrapping_add(self.x);
                self.read16bug(added as u16)
            },
            Addressing::Indirect => self.resolve_indirect(),
            Addressing::IndirectIndexed => {
                let pc = self.pc.wrapping_add(1);
                let next = self.read(pc) as u16;
                let base = self.read16bug(next);
                let address = base.wrapping_add(self.y as u16);
                page_crossed = pages_differ(address, base);
                address
            },
            Addressing::Relative => self.resolve_relative(),
            Addressing::ZeroPage => {
                let next = self.pc.wrapping_add(1);
                self.read(next) as u16
            },
            Addressing::ZeroPageX => {
                let next = self.pc.wrapping_add(1);
                let added = self.read(next).wrapping_add(self.x);
                added as u16
            },
            Addressing::ZeroPageY => {
                let next = self.pc.wrapping_add(1);
                let added = self.read(next).wrapping_add(self.y);
                added as u16
            },
        };
        (address, page_crossed)
    }

    /// Adds a value and the carry into the accumulator: the carry is set
    /// on unsigned overflow, and the overflow flag when both operands
    /// share a sign that the result does not.
    fn adc(&mut self, value: u8)
        ensures
            ({
                let sum = old(self).a + value + old(self).c;
                let a2 = (sum % 256) as u8;
                *final(self) == (CPU {
                    a: a2,
                    c: if sum > 0xFF {
                        1u8
                    } else {
                        0u8
                    },
                    v: if (old(self).a ^ value) & 0x80 == 0 && (old(self).a ^ a2) & 0x80 != 0 {
                        1u8
                    } else {
                        0u8
                    },
                    z: if a2 == 0 {
                        1u8
                    } else {
                        0u8
                    },
                    n: if a2 & 0x80 != 0 {
                        1u8
                    } else {
                        0u8
                    },
                    ..*old(self)
                })
            }),
    {
        let a = self.a;
        let b = value;
        let c = self.c;
        let a2 = a.wrapping_add(b).wrapping_add(c);
        proof {
            let ai = a as int;
            let bi = b as int;
            let ci = c as int;
            assert(((ai + bi) % 256 + ci) % 256 == (ai + bi + ci) % 256) by (nonlinear_arith)
                requires
                    0 <= ai < 256 && 0 <= bi < 256 && 0 <= ci < 256,
            ;
        }
        self.a = a2;
        self.set_zn(a2);
        if (a as u32) + (b as u32) + (c as u32) > 0xFF {
            self.c = 1;
        } else {
            self.c = 0;
        }
        if (a ^ b) & 0x80 == 0 && (a ^ a2) & 0x80 != 0 {
            self.v = 1;
        } else {
            self.v = 0;
        }
    }

    /// Subtracts a value and the borrow from the accumulator: the carry is
    /// set when no borrow occurs, and the overflow flag when the operands'
    /// signs differ and the result's sign differs from the accumulator's.
    fn sbc(&mut self, value: u8)
        requires
            old(self).c <= 1,
        ensures
            ({
                let diff = old(self).a - value - (1 - old(self).c);
                let a2 = (diff % 256) as u8;
                *final(self) == (CPU {
                    a: a2,
                    c: if diff >= 0 {
                        1u8
                    } else {
                        0u8
                    },
                    v: if (old(self).a ^ value) & 0x80 != 0 && (old(self).a ^ a2) & 0x80 != 0 {
                        1u8
                    } else {
                        0u8
                    },
                    z: if a2 == 0 {
                        1u8
                    } else {
                        0u8
                    },
                    n: if a2 & 0x80 != 0 {
                        1u8
                    } else {
                        0u8
                    },
                    ..*old(self)
                })
            }),
    {
        let a = self.a;
        let b = value;
        let c = self.c;
        let a2 = a.wrapping_sub(b).wrapping_sub(1 - c);
        proof {
            let ai = a as int;
            let bi = b as int;
            let ci = c as int;
            assert(((ai - bi) % 256 - (1 - ci)) % 256 == (ai - bi - (1 - ci)) % 256)
                by (nonlinear_arith)
                requires
                    0 <= ai < 256 && 0 <= bi < 256 && 0 <= ci <= 1,
            ;
        }
        self.a = a2;
        self.set_zn(a2);
        if (a as i32) - (b as i32) - (1 - (c as i32)) >= 0 {
            self.c = 1;
        } else {
            self.c = 0;
        }
        if (a ^ b) & 0x80 != 0 && (a ^ a2) & 0x80 != 0 {
            self.v = 1;
        } else {
            self.v = 0;
        }
    }

    /// Loads a value into the accumulator, setting zero and negative.
    fn lda_value(&mut self, value: u8)
        ensures
            *final(self) == (CPU {
                a: value,
                z: if value == 0 {
                    1u8
                } else {
                    0u8
                },
                n: if value & 0x80 != 0 {
                    1u8
                } else {
                    0u8
                },
                ..*old(self)
            }),
    {
        self.a = value;
        self.set_zn(value);
    }

    /// Shifts a value left one bit, the top bit into the carry.
    fn asl_value(&mut self, value: u8) -> (r: u8)
        ensures
            r == value << 1,
            *final(self) == (CPU {
                c: (value >> 7) & 1,
                z: if value << 1 == 0 {
                    1u8
                } else {
                    0u8
                },
                n: if (value << 1) & 0x80 != 0 {
                    1u8
                } else {
                    0u8
                },
                ..*old(self)
            }),
            final(self).c <= 1,
    {
        proof {
            lemma_u8_bits(value);
        }
        self.c = (value >> 7) & 1;
        let shifted = value << 1;
        self.set_zn(shifted);
        shifted
    }

    /// Shifts a value right one bit, the low bit into the carry.
    fn lsr_value(&mut self, value: u8) -> (r: u8)
        ensures
            r == value >> 1,
            *final(self) == (CPU {
                c: value & 1,
                z: if value >> 1 == 0 {
                    1u8
                } else {
                    0u8
                },
                n: if (value >> 1) & 0x80 != 0 {
                    1u8
                } else {
                    0u8
                },
                ..*old(self)
            }),
            final(self).c <= 1,
    {
        proof {
            lemma_u8_bits(value);
        }
        self.c = value & 1;
        let shifted = value >> 1;
        self.set_zn(shifted);
        shifted
    }

    /// Rotates a value left through the carry.
    fn rol_value(&mut self, value: u8) -> (r: u8)
        requires
            old(self).c <= 1,
        ensures
            r == (value << 1) | old(self).c,
            *final(self) == (CPU {
                c: (value >> 7) & 1,
                z: if (value << 1) | old(self).c == 0 {
                    1u8
                } else {
                    0u8
                },
                n: if ((value << 1) | old(self).c) & 0x80 != 0 {
                    1u8
                } else {
                    0u8
                },
                ..*old(self)
            }),
            final(self).c <= 1,
    {
        let c = self.c;
        proof {
            lemma_u8_bits(value);
        }
        self.c = (value >> 7) & 1;
        let rotated = (value << 1) | c;
        self.set_zn(rotated);
        rotated
    }

    /// Rotates a value right through the carry.
    fn ror_value(&mut self, value: u8) -> (r: u8)
        requires
            old(self).c <= 1,
        ensures
            r == (value >> 1) | (old(self).c << 7),
            *final(self) == (CPU {
                c: value & 1,
                z: if (value >> 1) | (old(self).c << 7) == 0 {
                    1u8
                } else {
                    0u8
                },
                n: if ((value >> 1) | (old(self).c << 7)) & 0x80 != 0 {
                    1u8
                } else {
                    0u8
                },
                ..*old(self)
            }),
            final(self).c <= 1,
    {
        let c = self.c;
        proof {
            lemma_u8_bits(value);
        }
        self.c = value & 1;
        let rotated = (value >> 1) | (c << 7);
        self.set_zn(rotated);
        rotated
    }

    /// Takes a conditional branch: a taken branch redirects the program
    /// counter and costs one extra cycle, or two when it crosses a page.
    fn branch(&mut self, cond: bool, address: u16) -> (extra: i32)
        ensures
            0 <= extra <= 2,
            !cond ==> extra == 0 && *final(self) == *old(self),
            cond ==> *final(self) == (CPU { pc: address, ..*old(self) }) && extra == (
            if pages_differ_spec(old(self).pc, address) {
                2int
            } else {
                1
            }),
    {
        if cond {
            let pc = self.pc;
            self.pc = address;
            branch_cycles(pc, address)
        } else {
            0
        }
    }

    /// Performs one opcode's work, the operand address already resolved
    /// and the program counter already advanced. Returns the extra cycles
    /// of a taken branch; undocumented opcodes do nothing.
    #[verifier::rlimit(100)]
    fn run_op(&mut self, op: u8, address: u16) -> (extra: i32)
        requires
            old(self).wf(),
        ensures
            final(self).wf(),
            0 <= extra <= 2,
            !branch_op_spec(op) ==> extra == 0,
            !flow_op_spec(op) ==> final(self).pc == old(self).pc,
            irq_absorbed(old(self).mem.cpu.interrupt, final(self).mem.cpu.interrupt),
            op == 0x4C || op == 0x6C ==> *final(self) == (CPU { pc: address, ..*old(self) }),
            branch_op_spec(op) ==> *final(self) == (if branch_cond_spec(op, *old(self)) {
                CPU { pc: address, ..*old(self) }
            } else {
                *old(self)
            }) && extra == (if branch_cond_spec(op, *old(self)) {
                if pages_differ_spec(old(self).pc, address) {
                    2int
                } else {
                    1
                }
            } else {
                0
            }),
            op == 0x85 || op == 0x95 || op == 0x8D || op == 0x9D || op == 0x99 || op == 0x81 || op
                == 0x91 ==> ({
                &&& same_regs(*old(self), *final(self))
                &&& final(self).mem.cpu.stall == (if address == 0x4014 {
                    if old(self).mem.cpu.stall + 513 <= i32::MAX {
                        old(self).mem.cpu.stall + 513
                    } else {
                        i32::MAX as int
                    }
                } else {
                    old(self).mem.cpu.stall as int
                })
                &&& (address < 0x2000 ==> final(self).mem == (MemoryBus {
                    ram: final(self).mem.ram,
                    ..old(self).mem
                }) && final(self).mem.ram@ == old(self).mem.ram@.update(
                    (address % 0x800) as int,
                    old(self).a,
                ))
            }),
            (op == 0x69 || op == 0x65 || op == 0x75 || op == 0x6D || op == 0x7D || op == 0x79 || op
                == 0x61 || op == 0x71) && cpu_read_pure(old(self).mem, address) is Some ==> ({
                let b = cpu_read_pure(old(self).mem, address)->Some_0;
                let sum = old(self).a + b + old(self).c;
                let a2 = (sum % 256) as u8;
                *final(self) == (CPU {
                    a: a2,
                    c: if sum > 0xFF {
                        1u8
                    } else {
                        0u8
                    },
                    v: if (old(self).a ^ b) & 0x80 == 0 && (old(self).a ^ a2) & 0x80 != 0 {
                        1u8
                    } else {
                        0u8
                    },
                    z: if a2 == 0 {
                        1u8
                    } else {
                        0u8
                    },
                    n: if a2 & 0x80 != 0 {
                        1u8
                    } else {
                        0u8
                    },
                    ..*old(self)
                })
            }),
    {
        if op < 0x80 {
            self.run_op_lo(op, address)
        } else {
            self.run_op_hi(op, address)
        }
    }

    /// One half of the opcode dispatch, split to keep each proof light: the
    /// opcodes below 0x80.
    #[verifier::rlimit(100)]
    fn run_op_lo(&mut self, op: u8, address: u16) -> (extra: i32)
        requires
            old(self).wf(),
            op < 0x80,
        ensures
            final(self).wf(),
            0 <= extra <= 2,
            !branch_op_spec(op) ==> extra == 0,
            !flow_op_spec(op) ==> final(self).pc == old(self).pc,
            irq_absorbed(old(self).mem.cpu.interrupt, final(self).mem.cpu.interrupt),
            op == 0x4C || op == 0x6C ==> *final(self) == (CPU { pc: address, ..*old(self) }),
            branch_op_spec(op) ==> *final(self) == (if branch_cond_spec(op, *old(self)) {
                CPU { pc: address, ..*old(self) }
            } else {
                *old(self)
            }) && extra == (if branch_cond_spec(op, *old(self)) {
                if pages_differ_spec(old(self).pc, address) {
                    2int
                } else {
                    1
                }
            } else {
                0
            }),
            op == 0x85 || op == 0x95 || op == 0x8D || op == 0x9D || op == 0x99 || op == 0x81 || op
                == 0x91 ==> ({
                &&& same_regs(*old(self), *final(self))
                &&& final(self).mem.cpu.stall == (if address == 0x4014 {
                    if old(self).mem.cpu.stall + 513 <= i32::MAX {
                        old(self).mem.cpu.stall + 513
                    } else {
                        i32::MAX as int
                    }
                } else {
                    old(self).mem.cpu.stall as int
                })
                &&& (address < 0x2000 ==> final(self).mem == (MemoryBus {
                    ram: final(self).mem.ram,
                    ..old(self).mem
                }) && final(self).mem.ram@ == old(self).mem.ram@.update(
                    (address % 0x800) as int,
                    old(self).a,
                ))
            }),
            (op == 0x69 || op == 0x65 || op == 0x75 || op == 0x6D || op == 0x7D || op == 0x79 || op
                == 0x61 || op == 0x71) && cpu_read_pure(old(self).mem, address) is Some ==> ({
                let b = cpu_read_pure(old(self).mem, address)->Some_0;
                let sum = old(self).a + b + old(self).c;
                let a2 = (sum % 256) as u8;
                *final(self) == (CPU {
                    a: a2,
                    c: if sum > 0xFF {
                        1u8
                    } else {
                        0u8
                    },
                    v: if (old(self).a ^ b) & 0x80 == 0 && (old(self).a ^ a2) & 0x80 != 0 {
                        1u8
                    } else {
                        0u8
                    },
                    z: if a2 == 0 {
                        1u8
                    } else {
                        0u8
                    },
                    n: if a2 & 0x80 != 0 {
                        1u8
                    } else {
                        0u8
                    },
                    ..*old(self)
                })
            }),
    {
        match op {
            // ADC
            0x69 | 0x65 | 0x75 | 0x6D | 0x7D | 0x79 | 0x61 | 0x71 => {
                let value = self.read(address);
                self.adc(value);
                0
            },
            // AND
            0x29 | 0x25 | 0x35 | 0x2D | 0x3D | 0x39 | 0x21 | 0x31 => {
                let value = self.read(address);
                let a = self.a & value;
                self.a = a;
                self.set_zn(a);
                0
            },
            // ASL
            0x0A => {
                let a = self.a;
                let shifted = self.asl_value(a);
                self.a = shifted;
                0
            },
            0x06 | 0x16 | 0x0E | 0x1E => {
                let value = self.read(address);
                let shifted = self.asl_value(value);
                self.write(address, shifted);
                0
            },
            // BIT
            0x24 | 0x2C => {
                let value = self.read(address);
                proof {
                    lemma_u8_bits(value);
                }
                self.v = (value >> 6) & 1;
                let a = self.a;
                self.set_z(value & a);
                self.set_n(value);
                0
            },
            // BMI
            0x30 => {
                let cond = self.n != 0;
                self.branch(cond, address)
            },
            // BPL
            0x10 => {
                let cond = self.n == 0;
                self.branch(cond, address)
            },
            // BVC
            0x50 => {
                let cond = self.v == 0;
                self.branch(cond, address)
            },
            // BVS
            0x70 => {
                let cond = self.v != 0;
                self.branch(cond, address)
            },
            // BRK
            0x00 => {
                let pc = self.pc;
                self.push16(pc);
                self.php();
                self.i = 1;
                let target = self.read16(0xFFFE);
                self.pc = target;
                0
            },
            // CLC
            0x18 => {
                self.c = 0;
                0
            },
            // CLI
            0x58 => {
                self.i = 0;
                0
            },
            // EOR
            0x49 | 0x45 | 0x55 | 0x4D | 0x5D | 0x59 | 0x41 | 0x51 => {
                let value = self.read(address);
                let a = self.a ^ value;
                self.a = a;
                self.set_zn(a);
                0
            },
            // JMP
            0x4C | 0x6C => {
                self.pc = address;
                0
            },
            // JSR
            0x20 => {
                let minus = self.pc.wrapping_sub(1);
                self.push16(minus);
                self.pc = address;
                0
            },
            // LSR
            0x4A => {
                let a = self.a;
                let shifted = self.lsr_value(a);
                self.a = shifted;
                0
            },
            0x46 | 0x56 | 0x4E | 0x5E => {
                let value = self.read(address);
                let shifted = self.lsr_value(value);
                self.write(address, shifted);
                0
            },
            // ORA
            0x09 | 0x05 | 0x15 | 0x0D | 0x1D | 0x19 | 0x01 | 0x11 => {
                let value = self.read(address);
                let a = self.a | value;
                self.a = a;
                self.set_zn(a);
                0
            },
            // PLA
            0x68 => {
                let a = self.pull();
                self.a = a;
                self.set_zn(a);
                0
            },
            // PHA
            0x48 => {
                let a = self.a;
                self.push(a);
                0
            },
            // PHP
            0x08 => {
                self.php();
                0
            },
            // PLP
            0x28 => {
                let p = self.pull();
                self.set_flags((p & 0xEF) | 0x20);
                0
            },
            // ROL
            0x2A => {
                let a = self.a;
                let rotated = self.rol_value(a);
                self.a = rotated;
                0
            },
            0x26 | 0x36 | 0x2E | 0x3E => {
                let value = self.read(address);
                let rotated = self.rol_value(value);
                self.write(address, rotated);
                0
            },
            // ROR
            0x6A => {
                let a = self.a;
                let rotated = self.ror_value(a);
                self.a = rotated;
                0
            },
            0x66 | 0x76 | 0x6E | 0x7E => {
                let value = self.read(address);
                let rotated = self.ror_value(value);
                self.write(address, rotated);
                0
            },
            // RTI
            0x40 => {
                let p = self.pull();
                self.set_flags((p & 0xEF) | 0x20);
                let target = self.pull16();
                self.pc = target;
                0
            },
            // RTS
            0x60 => {
                let target = self.pull16();
                self.pc = target.wrapping_add(1);
                0
            },
            // SEC
            0x38 => {
                self.c = 1;
                0
            },
            // SEI
            0x78 => {
                self.i = 1;
                0
            },
            // NOP, documented and undocumented alike
            _ => 0,
        }
    }

    /// One half of the opcode dispatch, split to keep each proof light: the
    /// opcodes at or above 0x80.
    #[verifier::rlimit(100)]
    fn run_op_hi(&mut self, op: u8, address: u16) -> (extra: i32)
        requires
            old(self).wf(),
            op >= 0x80,
        ensures
            final(self).wf(),
            0 <= extra <= 2,
            !branch_op_spec(op) ==> extra == 0,
            !flow_op_spec(op) ==> final(self).pc == old(self).pc,
            irq_absorbed(old(self).mem.cpu.interrupt, final(self).mem.cpu.interrupt),
            op == 0x4C || op == 0x6C ==> *final(self) == (CPU { pc: address, ..*old(self) }),
            branch_op_spec(op) ==> *final(self) == (if branch_cond_spec(op, *old(self)) {
                CPU { pc: address, ..*old(self) }
            } else {
                *old(self)
            }) && extra == (if branch_cond_spec(op, *old(self)) {
                if pages_differ_spec(old(self).pc, address) {
                    2int
                } else {
                    1
                }
            } else {
                0
            }),
            op == 0x85 || op == 0x95 || op == 0x8D || op == 0x9D || op == 0x99 || op == 0x81 || op
                == 0x91 ==> ({
                &&& same_regs(*old(self), *final(self))
                &&& final(self).mem.cpu.stall == (if address == 0x4014 {
                    if old(self).mem.cpu.stall + 513 <= i32::MAX {
                        old(self).mem.cpu.stall + 513
                    } else {
                        i32::MAX as int
                    }
                } else {
                    old(self).mem.cpu.stall as int
                })
                &&& (address < 0x2000 ==> final(self).mem == (MemoryBus {
                    ram: final(self).mem.ram,
                    ..old(self).mem
                }) && final(self).mem.ram@ == old(self).mem.ram@.update(
                    (address % 0x800) as int,
                    old(self).a,
                ))
            }),
            (op == 0x69 || op == 0x65 || op == 0x75 || op == 0x6D || op == 0x7D || op == 0x79 || op
                == 0x61 || op == 0x71) && cpu_read_pure(old(self).mem, address) is Some ==> ({
                let b = cpu_read_pure(old(self).mem, address)->Some_0;
                let sum = old(self).a + b + old(self).c;
                let a2 = (sum % 256) as u8;
                *final(self) == (CPU {
                    a: a2,
                    c: if sum > 0xFF {
                        1u8
                    } else {
                        0u8
                    },
                    v: if (old(self).a ^ b) & 0x80 == 0 && (old(self).a ^ a2) & 0x80 != 0 {
                        1u8
                    } else {
                        0u8
                    },
                    z: if a2 == 0 {
                        1u8
                    } else {
                        0u8
                    },
                    n: if a2 & 0x80 != 0 {
                        1u8
                    } else {
                        0u8
                    },
                    ..*old(self)
                })
            }),
    {
        match op {
            // BCC
            0x90 => {
                let cond = self.c == 0;
                self.branch(cond, address)
            },
            // BCS
            0xB0 => {
                let cond = self.c != 0;
                self.branch(cond, address)
            },
            // BEQ
            0xF0 => {
                let cond = self.z != 0;
                self.branch(cond, address)
            },
            // BNE
            0xD0 => {
                let cond = self.z == 0;
                self.branch(cond, address)
            },
            // CLD
            0xD8 => {
                self.d = 0;
                0
            },
            // CLV
            0xB8 => {
                self.v = 0;
                0
            },
            // CMP
            0xC9 | 0xC5 | 0xD5 | 0xCD | 0xDD | 0xD9 | 0xC1 | 0xD1 => {
                let value = self.read(address);
                let a = self.a;
                self.compare(a, value);
                0
            },
            // CPX
            0xE0 | 0xE4 | 0xEC => {
                let value = self.read(address);
                let x = self.x;
                self.compare(x, value);
                0
            },
            // CPY
            0xC0 | 0xC4 | 0xCC => {
                let value = self.read(address);
                let y = self.y;
                self.compare(y, value);
                0
            },
            // DEC
            0xC6 | 0xD6 | 0xCE | 0xDE => {
                let value = self.read(address).wrapping_sub(1);
                self.write(address, value);
                self.set_zn(value);
                0
            },
            // DEX
            0xCA => {
                let x = self.x.wrapping_sub(1);
                self.x = x;
                self.set_zn(x);
                0
            },
            // DEY
            0x88 => {
                let y = self.y.wrapping_sub(1);
                self.y = y;
                self.set_zn(y);
                0
            },
            // INC
            0xE6 | 0xF6 | 0xEE | 0xFE => {
                let value = self.read(address).wrapping_add(1);
                self.write(address, value);
                self.set_zn(value);
                0
            },
            // INX
            0xE8 => {
                let x = self.x.wrapping_add(1);
                self.x = x;
                self.set_zn(x);
                0
            },
            // INY
            0xC8 => {
                let y = self.y.wrapping_add(1);
                self.y = y;
                self.set_zn(y);
                0
            },
            // LDA
            0xA9 | 0xA5 | 0xB5 | 0xAD | 0xBD | 0xB9 | 0xA1 | 0xB1 => {
                let value = self.read(address);
                self.lda_value(value);
                0
            },
            // LDX
            0xA2 | 0xA6 | 0xB6 | 0xAE | 0xBE => {
                let value = self.read(address);
                self.x = value;
                self.set_zn(value);
                0
            },
            // LDY
            0xA0 | 0xA4 | 0xB4 | 0xAC | 0xBC => {
                let value = self.read(address);
                self.y = value;
                self.set_zn(value);
                0
            },
            // SBC
            0xE9 | 0xE5 | 0xF5 | 0xED | 0xFD | 0xF9 | 0xE1 | 0xF1 => {
                let value = self.read(address);
                self.sbc(value);
                0
            },
            // SED
            0xF8 => {
                self.d = 1;
                0
            },
            // STA
            0x85 | 0x95 | 0x8D | 0x9D | 0x99 | 0x81 | 0x91 => {
                let a = self.a;
                self.write(address, a);
                0
            },
            // STX
            0x86 | 0x96 | 0x8E => {
                let x = self.x;
                self.write(address, x);
                0
            },
            // STY
            0x84 | 0x94 | 0x8C => {
                let y = self.y;
                self.write(address, y);
                0
            },
            // TAX
            0xAA => {
                let a = self.a;
                self.x = a;
                self.set_zn(a);
                0
            },
            // TAY
            0xA8 => {
                let a = self.a;
                self.y = a;
                self.set_zn(a);
                0
            },
            // TSX
            0xBA => {
                let sp = self.sp;
                self.x = sp;
                self.set_zn(sp);
                0
            },
            // TXA
            0x8A => {
                let x = self.x;
                self.a = x;
                self.set_zn(x);
                0
            },
            // TXS
            0x9A => {
                self.sp = self.x;
                0
            },
            // TYA
            0x98 => {
                let y = self.y;
                self.a = y;
                self.set_zn(y);
                0
            },
            // NOP, documented and undocumented alike
            _ => 0,
        }
    }


    /// Decodes and performs one instruction, the opcode already fetched:
    /// the program counter advances by the instruction's size (a control
    /// transfer then redirects it), and the returned cycle count is the
    /// opcode's base count, plus one for a page-crossing indexed access,
    /// or plus one or two for a taken branch.
    pub fn execute(&mut self, op: u8) -> (cycles: i32)
        requires
            old(self).wf(),
        ensures
            final(self).wf(),
            irq_absorbed(old(self).mem.cpu.interrupt, final(self).mem.cpu.interrupt),
            !flow_op_spec(op) ==> final(self).pc as int == (old(self).pc + op_size_spec(op))
                % 0x10000,
            op_cycles_spec(op) <= cycles <= op_cycles_spec(op) + 2,
            ({
                ||| cycles == op_cycles_spec(op)
                ||| (pagecross_op_spec(op) && cycles == op_cycles_spec(op) + 1)
                ||| (branch_op_spec(op) && (cycles == op_cycles_spec(op) + 1 || cycles
                    == op_cycles_spec(op) + 2))
            }),
            step_op_effects(*old(self), *final(self), op, cycles),
    {
        let (address, page_crossed) = self.resolve(op);
        let size = op_size(op);
        self.pc = self.pc.wrapping_add(size);
        let mut cycles = op_cycles(op);
        if page_crossed && pagecross_op(op) {
            cycles = cycles + 1;
        }
        let extra = self.run_op(op, address);
        proof {
            if op == 0x95 && cpu_read_pure(old(self).mem, (((old(self).pc + 1) % 0x10000) as u16))
                is Some {
                let zp = cpu_read_pure(
                    old(self).mem,
                    (((old(self).pc + 1) % 0x10000) as u16),
                )->Some_0;
                let addr = (zp + old(self).x) % 256;
                assert(addr % 0x800 == addr) by (nonlinear_arith)
                    requires
                        0 <= addr < 256,
                ;
            }
        }
        cycles + extra
    }

    /// Advances the processor by one step: a pending stall consumes one
    /// cycle; otherwise a pending interrupt is serviced for seven cycles
    /// and one instruction is executed. An interrupt request is serviced
    /// only while interrupts are enabled; a masked request stays latched.
    /// Returns the elapsed cycles. When the opcode fetch is from
    /// side-effect-free memory, the program counter advances by the
    /// fetched opcode's size (control transfers aside), the cycle count is
    /// the opcode's base count plus its documented page-cross or branch
    /// extras, and the per-opcode effects of `step_op_effects` hold; a
    /// serviced interrupt enters its vector's handler.
    pub fn step(&mut self) -> (cycles: i32)
        requires
            old(self).wf(),
        ensures
            final(self).wf(),
            1 <= cycles <= 17,
            old(self).mem.cpu.stall == 0 ==> (final(self).mem.cpu.interrupt is None || (old(self).mem.cpu.interrupt == Some(Interrupt::IRQ) && old(self).i == 1 && final(self).mem.cpu.interrupt == Some(Interrupt::IRQ))),
            old(self).mem.cpu.stall > 0 ==> cycles == 1 && same_regs(*old(self), *final(self))
                && final(self).mem == (MemoryBus {
                cpu: CPUState {
                    stall: (old(self).mem.cpu.stall - 1) as i32,
                    ..old(self).mem.cpu
                },
                ..old(self).mem
            }),
            ({
                let fetched = cpu_read_pure(old(self).mem, old(self).pc);
                old(self).mem.cpu.stall == 0 && (old(self).mem.cpu.interrupt is None || (old(self).mem.cpu.interrupt == Some(Interrupt::IRQ) && old(self).i == 1)) && fetched is Some
                    ==> ({
                    let op = fetched->Some_0;
                    &&& (!flow_op_spec(op) ==> final(self).pc as int == (old(self).pc
                        + op_size_spec(op)) % 0x10000)
                    &&& ({
                        ||| cycles == op_cycles_spec(op)
                        ||| (pagecross_op_spec(op) && cycles == op_cycles_spec(op) + 1)
                        ||| (branch_op_spec(op) && (cycles == op_cycles_spec(op) + 1 || cycles
                            == op_cycles_spec(op) + 2))
                    })
                    &&& step_op_effects(*old(self), *final(self), op, cycles)
                })
            }),
            ({
                let serviced_nmi = old(self).mem.cpu.interrupt == Some(Interrupt::NMI);
                let serviced_irq = old(self).mem.cpu.interrupt == Some(Interrupt::IRQ) && old(self).i == 0;
                let vector: u16 = if serviced_nmi {
                    0xFFFA
                } else {
                    0xFFFE
                };
                let target = vector_word(old(self).mem, vector);
                let handler_op = mapper_read_spec(old(self).mem.mapper, target as u16);
                old(self).mem.cpu.stall == 0 && (serviced_nmi || serviced_irq) ==> ({
                    &&& cycles >= 9
                    &&& (target >= 0x6000 && !flow_op_spec(handler_op) ==> final(self).pc as int
                        == (target + op_size_spec(handler_op)) % 0x10000)
                    &&& (target >= 0x6000 ==> ({
                        ||| cycles == 7 + op_cycles_spec(handler_op)
                        ||| (pagecross_op_spec(handler_op) && cycles == 7 + op_cycles_spec(
                            handler_op,
                        ) + 1)
                        ||| (branch_op_spec(handler_op) && (cycles == 7 + op_cycles_spec(handler_op)
                            + 1 || cycles == 7 + op_cycles_spec(handler_op) + 2))
                    }))
                })
            }),
    {
        if self.mem.cpu.stall > 0 {
            self.mem.cpu.stall = self.mem.cpu.stall - 1;
            return 1;
        }
        let mut cycles: i32 = 0;
        let interrupt = self.mem.cpu.interrupt;
        match interrupt {
            None => {},
            Some(Interrupt::NMI) => {
                self.mem.cpu.clear_interrupt();
                self.nmi();
                cycles = 7;
            },
            Some(Interrupt::IRQ) => {
                if self.i == 0 {
                    self.mem.cpu.clear_interrupt();
                    self.irq();
                    cycles = 7;
                }
            },
        }
        let pc = self.pc;
        let opcode = self.read(pc);
        let executed = self.execute(opcode);
        cycles + executed
    }
}

} // verus!
