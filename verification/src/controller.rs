//! Controllers: a serial button shift register addressable from the CPU
//! bus. A write with bit 0 set ("strobe") holds the read index at the first
//! button; once the strobe is released, successive reads shift through the
//! eight buttons and then return 1s.

use vstd::prelude::*;

verus! {

/// The state of the eight buttons of one controller, as the host sees them.
#[derive(Clone, Copy, Debug)]
pub struct ButtonState {
    /// The A button.
    pub a: bool,
    /// The B button.
    pub b: bool,
    /// The Select button.
    pub select: bool,
    /// The Start button.
    pub start: bool,
    /// The up direction.
    pub up: bool,
    /// The down direction.
    pub down: bool,
    /// The left direction.
    pub left: bool,
    /// The right direction.
    pub right: bool,
}

impl Default for ButtonState {
    /// All buttons released.
    fn default() -> (r: Self)
        ensures
            r == (ButtonState {
                a: false,
                b: false,
                select: false,
                start: false,
                up: false,
                down: false,
                left: false,
                right: false,
            }),
    {
        ButtonState {
            a: false,
            b: false,
            select: false,
            start: false,
            up: false,
            down: false,
            left: false,
            right: false,
        }
    }
}

/// The button order the serial register shifts through.
pub open spec fn button_seq(s: ButtonState) -> Seq<bool> {
    seq![s.a, s.b, s.select, s.start, s.up, s.down, s.left, s.right]
}

/// A controller port: the latched buttons, the serial read index and the
/// strobe flag.
pub struct Controller {
    /// The buttons, in the order A, B, Select, Start, Up, Down, Left,
    /// Right.
    pub buttons: [bool; 8],
    /// Which button the next read returns; past the last button, reads
    /// return 1.
    pub index: u8,
    /// While the strobe is held, reads keep returning the first button.
    pub strobe: bool,
}

/// The value one read of the controller port returns.
pub open spec fn controller_read_value(c: Controller) -> u8 {
    if c.index < 8 {
        if c.buttons@[c.index as int] {
            1u8
        } else {
            0u8
        }
    } else {
        1u8
    }
}

/// The controller state after one read: the index advances up to the end
/// of the register, and snaps back to the first button while strobed.
pub open spec fn controller_after_read(c: Controller) -> Controller {
    let advanced: u8 = if c.index < 8 {
        (c.index + 1) as u8
    } else {
        c.index
    };
    Controller { index: if c.strobe { 0u8 } else { advanced }, ..c }
}

/// The controller state after a write to the port: bit 0 sets the strobe,
/// and a held strobe pins the index to the first button.
pub open spec fn controller_after_write(c: Controller, value: u8) -> Controller {
    let strobe = value & 1 == 1;
    Controller { strobe, index: if strobe { 0u8 } else { c.index }, ..c }
}

/// The controller state after `n` successive reads.
pub open spec fn controller_after_reads(c: Controller, n: nat) -> Controller
    decreases n,
{
    if n == 0 {
        c
    } else {
        controller_after_read(controller_after_reads(c, (n - 1) as nat))
    }
}

impl Controller {
    /// A controller with no buttons pressed and the register at rest.
    pub fn new() -> (r: Self)
        ensures
            r.buttons@ == Seq::new(8, |i: int| false),
            r.index == 0,
            !r.strobe,
    {
        let buttons = [false;8];
        proof {
            assert(buttons@ =~= Seq::new(8, |i: int| false));
        }
        Controller { buttons, index: 0, strobe: false }
    }

    /// Latches the host's button state into the serial register.
    pub fn set_buttons(&mut self, buttons: ButtonState)
        ensures
            *final(self) == (Controller { buttons: final(self).buttons, ..*old(self) }),
            final(self).buttons@ == button_seq(buttons),
    {
        let arr = [
            buttons.a,
            buttons.b,
            buttons.select,
            buttons.start,
            buttons.up,
            buttons.down,
            buttons.left,
            buttons.right,
        ];
        proof {
            assert(arr@ =~= button_seq(buttons));
        }
        self.buttons = arr;
    }

    /// Serially reads one bit: the current button, or 1 once all eight
    /// have been read.
    pub fn read(&mut self) -> (r: u8)
        ensures
            r == controller_read_value(*old(self)),
            *final(self) == controller_after_read(*old(self)),
    {
        let res: u8 = if self.index < 8 {
            let pressed = self.buttons[self.index as usize];
            if pressed {
                1
            } else {
                0
            }
        } else {
            1
        };
        if self.index < 8 {
            self.index += 1;
        }
        if self.strobe {
            self.index = 0;
        }
        res
    }

    /// Writes the strobe bit; a held strobe resets the serial index.
    pub fn write(&mut self, value: u8)
        ensures
            *final(self) == controller_after_write(*old(self), value),
    {
        self.strobe = value & 1 == 1;
        if self.strobe {
            self.index = 0;
        }
    }
}

/// After `n` reads of a strobe-released controller whose index started at
/// 0, the index has advanced to `n` and the buttons and strobe are
/// untouched.
proof fn lemma_reads_advance_index(c: Controller, n: nat)
    requires
        n <= 8,
        c.index == 0,
        !c.strobe,
    ensures
        controller_after_reads(c, n).index == n,
        controller_after_reads(c, n).buttons == c.buttons,
        !controller_after_reads(c, n).strobe,
    decreases n,
{
    if n > 0 {
        lemma_reads_advance_index(c, (n - 1) as nat);
    }
}

/// After a rising-edge strobe on the controller port (a write of 1 then a
/// write of 0), eight successive reads return the button state in order:
/// A, B, Select, Start, Up, Down, Left, Right.
pub proof fn lemma_controller_serial_reads(c: Controller, i: int)
    requires
        0 <= i < 8,
    ensures
        ({
            let ready = controller_after_write(controller_after_write(c, 1), 0);
            controller_read_value(controller_after_reads(ready, i as nat)) == (if c.buttons@[i] {
                1u8
            } else {
                0u8
            })
        }),
{
    let ready = controller_after_write(controller_after_write(c, 1), 0);
    assert(1u8 & 1 == 1) by (bit_vector);
    assert(0u8 & 1 == 0) by (bit_vector);
    assert(ready.index == 0 && !ready.strobe && ready.buttons == c.buttons);
    lemma_reads_advance_index(ready, i as nat);
}

} // verus!
