//! The audio processor's register file: the five signal generators, the
//! frame-counter configuration and the status register, all reached from
//! the CPU bus. The generators produce integer amplitude levels; the host
//! maps them to an analog waveform through the standard mixer tables.

use crate::cpu::{CPUState, Interrupt};
use crate::memory::{cpu_read_pure, MemoryBus};
use crate::bits::{lemma_u8_bits, lemma_word_bits};
use vstd::prelude::*;

verus! {

/// The length-counter load values, indexed by the five high bits of a length write.
pub open spec fn length_table_spec(i: u8) -> u8
    recommends
        i < 32,
{
    match i {
        0 => 10,
        1 => 254,
        2 => 20,
        3 => 2,
        4 => 40,
        5 => 4,
        6 => 80,
        7 => 6,
        8 => 160,
        9 => 8,
        10 => 60,
        11 => 10,
        12 => 14,
        13 => 12,
        14 => 26,
        15 => 14,
        16 => 12,
        17 => 16,
        18 => 24,
        19 => 18,
        20 => 48,
        21 => 20,
        22 => 96,
        23 => 22,
        24 => 192,
        25 => 24,
        26 => 72,
        27 => 26,
        28 => 16,
        29 => 28,
        30 => 32,
        _ => 30,
    }
}

/// The length-counter load values, indexed by the five high bits of a length write.
pub fn length_table(i: u8) -> (r: u8)
    requires
        i < 32,
    ensures
        r == length_table_spec(i),
{
    match i {
        0 => 10,
        1 => 254,
        2 => 20,
        3 => 2,
        4 => 40,
        5 => 4,
        6 => 80,
        7 => 6,
        8 => 160,
        9 => 8,
        10 => 60,
        11 => 10,
        12 => 14,
        13 => 12,
        14 => 26,
        15 => 14,
        16 => 12,
        17 => 16,
        18 => 24,
        19 => 18,
        20 => 48,
        21 => 20,
        22 => 96,
        23 => 22,
        24 => 192,
        25 => 24,
        26 => 72,
        27 => 26,
        28 => 16,
        29 => 28,
        30 => 32,
        _ => 30,
    }
}

/// The noise timer periods, indexed by the four low bits of a period write.
pub open spec fn noise_period_spec(i: u8) -> u16
    recommends
        i < 16,
{
    match i {
        0 => 4,
        1 => 8,
        2 => 16,
        3 => 32,
        4 => 64,
        5 => 96,
        6 => 128,
        7 => 160,
        8 => 202,
        9 => 254,
        10 => 380,
        11 => 508,
        12 => 762,
        13 => 1016,
        14 => 2034,
        _ => 4068,
    }
}

/// The noise timer periods, indexed by the four low bits of a period write.
pub fn noise_period(i: u8) -> (r: u16)
    requires
        i < 16,
    ensures
        r == noise_period_spec(i),
{
    match i {
        0 => 4,
        1 => 8,
        2 => 16,
        3 => 32,
        4 => 64,
        5 => 96,
        6 => 128,
        7 => 160,
        8 => 202,
        9 => 254,
        10 => 380,
        11 => 508,
        12 => 762,
        13 => 1016,
        14 => 2034,
        _ => 4068,
    }
}

/// The delta-modulation timer periods, indexed by the four low bits of a control write.
pub open spec fn dmc_period_spec(i: u8) -> u8
    recommends
        i < 16,
{
    match i {
        0 => 214,
        1 => 190,
        2 => 170,
        3 => 160,
        4 => 143,
        5 => 127,
        6 => 113,
        7 => 107,
        8 => 95,
        9 => 80,
        10 => 71,
        11 => 64,
        12 => 53,
        13 => 42,
        14 => 36,
        _ => 27,
    }
}

/// The delta-modulation timer periods, indexed by the four low bits of a control write.
pub fn dmc_period(i: u8) -> (r: u8)
    requires
        i < 16,
    ensures
        r == dmc_period_spec(i),
{
    match i {
        0 => 214,
        1 => 190,
        2 => 170,
        3 => 160,
        4 => 143,
        5 => 127,
        6 => 113,
        7 => 107,
        8 => 95,
        9 => 80,
        10 => 71,
        11 => 64,
        12 => 53,
        13 => 42,
        14 => 36,
        _ => 27,
    }
}


/// Whether the selected duty waveform is high at the given phase.
pub open spec fn duty_active_spec(mode: u8, phase: u8) -> bool
    recommends
        mode <= 3,
        phase <= 7,
{
    if mode == 0 {
        phase == 1
    } else if mode == 1 {
        1 <= phase <= 2
    } else if mode == 2 {
        1 <= phase <= 4
    } else {
        !(1 <= phase <= 2)
    }
}

/// Whether the selected duty waveform is high at the given phase.
pub fn duty_active(mode: u8, phase: u8) -> (r: bool)
    requires
        mode <= 3,
        phase <= 7,
    ensures
        r == duty_active_spec(mode, phase),
{
    if mode == 0 {
        phase == 1
    } else if mode == 1 {
        1 <= phase && phase <= 2
    } else if mode == 2 {
        1 <= phase && phase <= 4
    } else {
        !(1 <= phase && phase <= 2)
    }
}

/// One square-wave generator of the audio processor.
#[derive(Clone, Copy, Debug)]
pub struct Square {
    /// Whether the generator is enabled through the control port.
    pub enabled: bool,
    /// Whether this is the first square channel, whose negated sweep
    /// subtracts one more than the second channel's.
    pub first_channel: bool,
    /// Whether the length counter counts down.
    pub length_enabled: bool,
    /// The current length counter.
    pub length_value: u8,
    /// The reload value of the waveform timer.
    pub timer_period: u16,
    /// The current waveform timer.
    pub timer_value: u16,
    /// Which duty waveform is selected (2 bits).
    pub duty_mode: u8,
    /// The current phase within the eight-step waveform (3 bits).
    pub duty_value: u8,
    /// Whether the sweep unit reloads its divider on the next clock.
    pub sweep_reload: bool,
    /// Whether the sweep unit adjusts the timer period.
    pub sweep_enabled: bool,
    /// Whether the sweep subtracts instead of adding.
    pub sweep_negate: bool,
    /// How far the sweep shifts the period.
    pub sweep_shift: u8,
    /// The reload value of the sweep divider.
    pub sweep_period: u8,
    /// The current sweep divider.
    pub sweep_value: u8,
    /// Whether the envelope decays (otherwise constant volume is used).
    pub envelope_enabled: bool,
    /// Whether the envelope loops at zero.
    pub envelope_loop: bool,
    /// Whether the envelope restarts on the next clock.
    pub envelope_start: bool,
    /// The reload value of the envelope divider (4 bits).
    pub envelope_period: u8,
    /// The current envelope divider.
    pub envelope_value: u8,
    /// The current envelope volume (4 bits).
    pub envelope_volume: u8,
    /// The constant volume level (4 bits).
    pub constant_volume: u8,
}

/// The transition of a square control write (0x4000 / 0x4004).
pub open spec fn square_write_control_spec(s: Square, value: u8) -> Square {
    Square {
        duty_mode: (value >> 6) & 3,
        length_enabled: (value >> 5) & 1 == 0,
        envelope_loop: (value >> 5) & 1 == 1,
        envelope_enabled: (value >> 4) & 1 == 0,
        envelope_period: value & 15,
        constant_volume: value & 15,
        envelope_start: true,
        ..s
    }
}

/// The transition of a square sweep write (0x4001 / 0x4005).
pub open spec fn square_write_sweep_spec(s: Square, value: u8) -> Square {
    Square {
        sweep_enabled: (value >> 7) & 1 == 1,
        sweep_period: (((value >> 4) & 7) + 1) as u8,
        sweep_negate: (value >> 3) & 1 == 1,
        sweep_shift: value & 7,
        sweep_reload: true,
        ..s
    }
}

/// The transition of a square low-timer write (0x4002 / 0x4006).
pub open spec fn square_write_low_timer_spec(s: Square, value: u8) -> Square {
    Square { timer_period: (s.timer_period & 0xFF00) | (value as u16), ..s }
}

/// The transition of a square high-timer write (0x4003 / 0x4007).
pub open spec fn square_write_high_timer_spec(s: Square, value: u8) -> Square {
    Square {
        length_value: length_table_spec(value >> 3),
        timer_period: (s.timer_period & 0xFF) | (((value & 7) as u16) << 8),
        envelope_start: true,
        duty_value: 0,
        ..s
    }
}

/// The transition of the square waveform timer on one clock: on underflow
/// the phase advances.
pub open spec fn square_step_timer_spec(s: Square) -> Square {
    if s.timer_value == 0 {
        Square { timer_value: s.timer_period, duty_value: ((s.duty_value + 1) % 8) as u8, ..s }
    } else {
        Square { timer_value: (s.timer_value - 1) as u16, ..s }
    }
}

/// The transition of an envelope unit on one quarter-frame clock.
pub open spec fn square_step_envelope_spec(s: Square) -> Square {
    if s.envelope_start {
        Square { envelope_volume: 15, envelope_value: s.envelope_period, envelope_start: false, ..s }
    } else if s.envelope_value > 0 {
        Square { envelope_value: (s.envelope_value - 1) as u8, ..s }
    } else if s.envelope_volume > 0 {
        Square { envelope_volume: (s.envelope_volume - 1) as u8, envelope_value: s.envelope_period, ..s }
    } else if s.envelope_loop {
        Square { envelope_volume: 15, envelope_value: s.envelope_period, ..s }
    } else {
        Square { envelope_value: s.envelope_period, ..s }
    }
}

/// The sweep adjustment of the timer period: the shifted period is added,
/// or subtracted under negation (the first channel subtracting one more),
/// wrapping in sixteen bits.
pub open spec fn square_sweep_spec(s: Square) -> Square {
    let delta = s.timer_period >> s.sweep_shift;
    if s.sweep_negate {
        let sub = s.timer_period - delta - (if s.first_channel {
            1int
        } else {
            0
        });
        Square { timer_period: (sub % 0x10000) as u16, ..s }
    } else {
        Square { timer_period: ((s.timer_period + delta) % 0x10000) as u16, ..s }
    }
}

/// The transition of a sweep unit on one half-frame clock.
pub open spec fn square_step_sweep_spec(s: Square) -> Square {
    if s.sweep_reload {
        let swept = if s.sweep_enabled && s.sweep_value == 0 {
            square_sweep_spec(s)
        } else {
            s
        };
        Square { sweep_value: swept.sweep_period, sweep_reload: false, ..swept }
    } else if s.sweep_value > 0 {
        Square { sweep_value: (s.sweep_value - 1) as u8, ..s }
    } else {
        let swept = if s.sweep_enabled {
            square_sweep_spec(s)
        } else {
            s
        };
        Square { sweep_value: swept.sweep_period, ..swept }
    }
}

/// The transition of a length counter on one half-frame clock.
pub open spec fn square_step_length_spec(s: Square) -> Square {
    if s.length_enabled && s.length_value > 0 {
        Square { length_value: (s.length_value - 1) as u8, ..s }
    } else {
        s
    }
}

/// The amplitude level the square generator currently outputs.
pub open spec fn square_output_spec(s: Square) -> u8 {
    if !s.enabled {
        0
    } else if s.length_value == 0 {
        0
    } else if !duty_active_spec(s.duty_mode, s.duty_value) {
        0
    } else if s.timer_period < 8 || s.timer_period > 0x7FF {
        0
    } else if s.envelope_enabled {
        s.envelope_volume
    } else {
        s.constant_volume
    }
}

impl Square {
    /// The phase indices and the volume levels stay in range.
    pub open spec fn wf(&self) -> bool {
        &&& self.duty_mode <= 3
        &&& self.duty_value <= 7
        &&& self.sweep_shift <= 7
        &&& self.envelope_volume <= 15
        &&& self.envelope_period <= 15
        &&& self.constant_volume <= 15
    }

    /// A silent generator.
    pub fn new(first_channel: bool) -> (r: Self)
        ensures
            r.wf(),
            r.first_channel == first_channel,
            !r.enabled,
            r.length_value == 0,
    {
        Square {
            enabled: false,
            first_channel,
            length_enabled: false,
            length_value: 0,
            timer_period: 0,
            timer_value: 0,
            duty_mode: 0,
            duty_value: 0,
            sweep_reload: false,
            sweep_enabled: false,
            sweep_negate: false,
            sweep_shift: 0,
            sweep_period: 0,
            sweep_value: 0,
            envelope_enabled: false,
            envelope_loop: false,
            envelope_start: false,
            envelope_period: 0,
            envelope_value: 0,
            envelope_volume: 0,
            constant_volume: 0,
        }
    }

    /// Writes the control port: duty, length/envelope flags and volume.
    pub(crate) fn write_control(&mut self, value: u8)
        requires
            old(self).wf(),
        ensures
            final(self).wf(),
            *final(self) == square_write_control_spec(*old(self), value),
    {
        proof {
            lemma_u8_bits(value);
        }
        self.duty_mode = (value >> 6) & 3;
        self.length_enabled = (value >> 5) & 1 == 0;
        self.envelope_loop = (value >> 5) & 1 == 1;
        self.envelope_enabled = (value >> 4) & 1 == 0;
        self.envelope_period = value & 15;
        self.constant_volume = value & 15;
        self.envelope_start = true;
    }

    /// Writes the sweep port.
    pub(crate) fn write_sweep(&mut self, value: u8)
        requires
            old(self).wf(),
        ensures
            final(self).wf(),
            *final(self) == square_write_sweep_spec(*old(self), value),
    {
        proof {
            lemma_u8_bits(value);
        }
        self.sweep_enabled = (value >> 7) & 1 == 1;
        self.sweep_period = ((value >> 4) & 7) + 1;
        self.sweep_negate = (value >> 3) & 1 == 1;
        self.sweep_shift = value & 7;
        self.sweep_reload = true;
    }

    /// Writes the low byte of the timer period.
    pub(crate) fn write_low_timer(&mut self, value: u8)
        requires
            old(self).wf(),
        ensures
            final(self).wf(),
            *final(self) == square_write_low_timer_spec(*old(self), value),
    {
        self.timer_period = (self.timer_period & 0xFF00) | (value as u16);
    }

    /// Writes the high bits of the timer period and reloads the length
    /// counter; the waveform phase and envelope restart.
    pub(crate) fn write_high_timer(&mut self, value: u8)
        requires
            old(self).wf(),
        ensures
            final(self).wf(),
            *final(self) == square_write_high_timer_spec(*old(self), value),
    {
        proof {
            lemma_u8_bits(value);
        }
        self.length_value = length_table(value >> 3);
        let shifted = ((value & 7) as u16) << 8;
        self.timer_period = (self.timer_period & 0xFF) | shifted;
        self.envelope_start = true;
        self.duty_value = 0;
    }

    /// Clocks the waveform timer.
    pub(crate) fn step_timer(&mut self)
        requires
            old(self).wf(),
        ensures
            final(self).wf(),
            *final(self) == square_step_timer_spec(*old(self)),
    {
        if self.timer_value == 0 {
            self.timer_value = self.timer_period;
            self.duty_value = (self.duty_value + 1) % 8;
        } else {
            self.timer_value -= 1;
        }
    }

    /// Clocks the envelope unit.
    pub(crate) fn step_envelope(&mut self)
        requires
            old(self).wf(),
        ensures
            final(self).wf(),
            *final(self) == square_step_envelope_spec(*old(self)),
    {
        if self.envelope_start {
            self.envelope_volume = 15;
            self.envelope_value = self.envelope_period;
            self.envelope_start = false;
        } else if self.envelope_value > 0 {
            self.envelope_value -= 1;
        } else {
            if self.envelope_volume > 0 {
                self.envelope_volume -= 1;
            } else if self.envelope_loop {
                self.envelope_volume = 15;
            }
            self.envelope_value = self.envelope_period;
        }
    }

    /// Applies the sweep to the timer period, wrapping in sixteen bits.
    fn sweep(&mut self)
        requires
            old(self).wf(),
        ensures
            final(self).wf(),
            *final(self) == square_sweep_spec(*old(self)),
    {
        let delta = self.timer_period >> self.sweep_shift;
        if self.sweep_negate {
            self.timer_period = self.timer_period.wrapping_sub(delta);
            if self.first_channel {
                self.timer_period = self.timer_period.wrapping_sub(1);
            }
            proof {
                let p = old(self).timer_period;
                let d = old(self).timer_period >> old(self).sweep_shift;
                if old(self).first_channel {
                    assert(sub_mod_u16(sub_mod_u16(p as int, d as int), 1) == (p - d - 1) % 0x10000)
                        by (nonlinear_arith)
                        requires
                            0 <= d < 0x10000 && 0 <= p < 0x10000,
                    ;
                }
            }
        } else {
            let summed = self.timer_period.wrapping_add(delta);
            self.timer_period = summed;
        }
    }

    /// Clocks the sweep unit.
    pub(crate) fn step_sweep(&mut self)
        requires
            old(self).wf(),
        ensures
            final(self).wf(),
            *final(self) == square_step_sweep_spec(*old(self)),
    {
        if self.sweep_reload {
            if self.sweep_enabled && self.sweep_value == 0 {
                self.sweep();
            }
            self.sweep_value = self.sweep_period;
            self.sweep_reload = false;
        } else if self.sweep_value > 0 {
            self.sweep_value -= 1;
        } else {
            if self.sweep_enabled {
                self.sweep();
            }
            self.sweep_value = self.sweep_period;
        }
    }

    /// Clocks the length counter.
    pub(crate) fn step_length(&mut self)
        requires
            old(self).wf(),
        ensures
            final(self).wf(),
            *final(self) == square_step_length_spec(*old(self)),
    {
        if self.length_enabled && self.length_value > 0 {
            self.length_value -= 1;
        }
    }

    /// The amplitude level the generator currently outputs.
    pub(crate) fn output(&self) -> (r: u8)
        requires
            self.wf(),
        ensures
            r == square_output_spec(*self),
            r <= 15,
    {
        if !self.enabled {
            return 0;
        }
        if self.length_value == 0 {
            return 0;
        }
        if !duty_active(self.duty_mode, self.duty_value) {
            return 0;
        }
        if self.timer_period < 8 || self.timer_period > 0x7FF {
            return 0;
        }
        if self.envelope_enabled {
            self.envelope_volume
        } else {
            self.constant_volume
        }
    }
}

/// Subtraction wrapped to sixteen bits.
pub open spec fn sub_mod_u16(a: int, b: int) -> int {
    (a - b) % 0x10000
}

/// The 32-step triangle wave: down from 15 to 0, then up from 0 to 15.
pub open spec fn triangle_wave_spec(i: u8) -> u8
    recommends
        i < 32,
{
    if i < 16 {
        (15 - i) as u8
    } else {
        (i - 16) as u8
    }
}

/// The triangle signal generator.
#[derive(Clone, Copy, Debug)]
pub struct Triangle {
    /// Whether the generator is enabled through the control port.
    pub enabled: bool,
    /// Whether the length counter counts down.
    pub length_enabled: bool,
    /// The current length counter.
    pub length_value: u8,
    /// The reload value of the waveform timer.
    pub timer_period: u16,
    /// The current waveform timer.
    pub timer_value: u16,
    /// The current phase within the 32-step waveform (5 bits).
    pub duty_value: u8,
    /// The reload value of the linear counter (7 bits).
    pub counter_period: u8,
    /// The current linear counter.
    pub counter_value: u8,
    /// Whether the linear counter reloads on the next clock.
    pub counter_reload: bool,
}

/// The transition of a triangle control write (0x4008).
pub open spec fn triangle_write_control_spec(t: Triangle, value: u8) -> Triangle {
    Triangle { length_enabled: (value >> 7) & 1 == 0, counter_period: value & 0x7F, ..t }
}

/// The transition of a triangle low-timer write (0x400A).
pub open spec fn triangle_write_low_timer_spec(t: Triangle, value: u8) -> Triangle {
    Triangle { timer_period: (t.timer_period & 0xFF00) | (value as u16), ..t }
}

/// The transition of a triangle high-timer write (0x400B).
pub open spec fn triangle_write_high_timer_spec(t: Triangle, value: u8) -> Triangle {
    let period = (t.timer_period & 0xFF) | (((value & 7) as u16) << 8);
    Triangle {
        length_value: length_table_spec(value >> 3),
        timer_period: period,
        timer_value: period,
        counter_reload: true,
        ..t
    }
}

/// The transition of the triangle waveform timer on one clock: on underflow
/// the phase advances while both counters are live.
pub open spec fn triangle_step_timer_spec(t: Triangle) -> Triangle {
    if t.timer_value == 0 {
        Triangle {
            timer_value: t.timer_period,
            duty_value: if t.length_value > 0 && t.counter_value > 0 {
                ((t.duty_value + 1) % 32) as u8
            } else {
                t.duty_value
            },
            ..t
        }
    } else {
        Triangle { timer_value: (t.timer_value - 1) as u16, ..t }
    }
}

/// The transition of the triangle length counter on one half-frame clock.
pub open spec fn triangle_step_length_spec(t: Triangle) -> Triangle {
    if t.length_enabled && t.length_value > 0 {
        Triangle { length_value: (t.length_value - 1) as u8, ..t }
    } else {
        t
    }
}

/// The transition of the triangle linear counter on one quarter-frame
/// clock.
pub open spec fn triangle_step_counter_spec(t: Triangle) -> Triangle {
    let counter_value = if t.counter_reload {
        t.counter_period
    } else if t.counter_value > 0 {
        (t.counter_value - 1) as u8
    } else {
        t.counter_value
    };
    Triangle {
        counter_value,
        counter_reload: if t.length_enabled {
            false
        } else {
            t.counter_reload
        },
        ..t
    }
}

/// The amplitude level the triangle generator currently outputs.
pub open spec fn triangle_output_spec(t: Triangle) -> u8 {
    if !t.enabled {
        0
    } else if t.length_value == 0 {
        0
    } else if t.counter_value == 0 {
        0
    } else {
        triangle_wave_spec(t.duty_value)
    }
}

impl Triangle {
    /// The waveform phase stays in range.
    pub open spec fn wf(&self) -> bool {
        self.duty_value <= 31
    }

    /// A silent generator.
    pub fn new() -> (r: Self)
        ensures
            r.wf(),
            !r.enabled,
            r.length_value == 0,
    {
        Triangle {
            enabled: false,
            length_enabled: false,
            length_value: 0,
            timer_period: 0,
            timer_value: 0,
            duty_value: 0,
            counter_period: 0,
            counter_value: 0,
            counter_reload: false,
        }
    }

    /// Writes the control port: length flag and linear counter period.
    pub(crate) fn write_control(&mut self, value: u8)
        requires
            old(self).wf(),
        ensures
            final(self).wf(),
            *final(self) == triangle_write_control_spec(*old(self), value),
    {
        self.length_enabled = (value >> 7) & 1 == 0;
        self.counter_period = value & 0x7F;
    }

    /// Writes the low byte of the timer period.
    pub(crate) fn write_low_timer(&mut self, value: u8)
        requires
            old(self).wf(),
        ensures
            final(self).wf(),
            *final(self) == triangle_write_low_timer_spec(*old(self), value),
    {
        let low = value as u16;
        self.timer_period = (self.timer_period & 0xFF00) | low;
    }

    /// Writes the high bits of the timer period, reloading the length and
    /// timer counters.
    pub(crate) fn write_high_timer(&mut self, value: u8)
        requires
            old(self).wf(),
        ensures
            final(self).wf(),
            *final(self) == triangle_write_high_timer_spec(*old(self), value),
    {
        proof {
            lemma_u8_bits(value);
        }
        self.length_value = length_table(value >> 3);
        let high = ((value & 7) as u16) << 8;
        self.timer_period = (self.timer_period & 0xFF) | high;
        self.timer_value = self.timer_period;
        self.counter_reload = true;
    }

    /// Clocks the waveform timer; the triangle runs every CPU tick, twice
    /// the square generators' rate.
    pub(crate) fn step_timer(&mut self)
        requires
            old(self).wf(),
        ensures
            final(self).wf(),
            *final(self) == triangle_step_timer_spec(*old(self)),
    {
        if self.timer_value == 0 {
            self.timer_value = self.timer_period;
            if self.length_value > 0 && self.counter_value > 0 {
                self.duty_value = (self.duty_value + 1) % 32;
            }
        } else {
            self.timer_value -= 1;
        }
    }

    /// Clocks the length counter.
    pub(crate) fn step_length(&mut self)
        requires
            old(self).wf(),
        ensures
            final(self).wf(),
            *final(self) == triangle_step_length_spec(*old(self)),
    {
        if self.length_enabled && self.length_value > 0 {
            self.length_value -= 1;
        }
    }

    /// Clocks the linear counter.
    pub(crate) fn step_counter(&mut self)
        requires
            old(self).wf(),
        ensures
            final(self).wf(),
            *final(self) == triangle_step_counter_spec(*old(self)),
    {
        if self.counter_reload {
            self.counter_value = self.counter_period;
        } else if self.counter_value > 0 {
            self.counter_value -= 1;
        }
        if self.length_enabled {
            self.counter_reload = false;
        }
    }

    /// The amplitude level the generator currently outputs.
    pub(crate) fn output(&self) -> (r: u8)
        requires
            self.wf(),
        ensures
            r == triangle_output_spec(*self),
            r <= 15,
    {
        if !self.enabled {
            0
        } else if self.length_value == 0 {
            0
        } else if self.counter_value == 0 {
            0
        } else if self.duty_value < 16 {
            15 - self.duty_value
        } else {
            self.duty_value - 16
        }
    }
}

/// The noise signal generator: a fifteen-bit linear-feedback shift
/// register.
#[derive(Clone, Copy, Debug)]
pub struct Noise {
    /// Whether the generator is enabled through the control port.
    pub enabled: bool,
    /// Which feedback tap is used: bit 6 when set, bit 1 otherwise.
    pub mode: bool,
    /// The feedback shift register.
    pub shift_register: u16,
    /// Whether the length counter counts down.
    pub length_enabled: bool,
    /// The current length counter.
    pub length_value: u8,
    /// The reload value of the timer.
    pub timer_period: u16,
    /// The current timer.
    pub timer_value: u16,
    /// Whether the envelope decays (otherwise constant volume is used).
    pub envelope_enabled: bool,
    /// Whether the envelope loops at zero.
    pub envelope_loop: bool,
    /// Whether the envelope restarts on the next clock.
    pub envelope_start: bool,
    /// The reload value of the envelope divider (4 bits).
    pub envelope_period: u8,
    /// The current envelope divider.
    pub envelope_value: u8,
    /// The current envelope volume (4 bits).
    pub envelope_volume: u8,
    /// The constant volume level (4 bits).
    pub constant_volume: u8,
}

/// The transition of a noise control write (0x400C).
pub open spec fn noise_write_control_spec(n: Noise, value: u8) -> Noise {
    Noise {
        length_enabled: (value >> 5) & 1 == 0,
        envelope_loop: (value >> 5) & 1 == 1,
        envelope_enabled: (value >> 4) & 1 == 0,
        envelope_period: value & 15,
        constant_volume: value & 15,
        envelope_start: true,
        ..n
    }
}

/// The transition of a noise period write (0x400E).
pub open spec fn noise_write_period_spec(n: Noise, value: u8) -> Noise {
    Noise { mode: value & 0x80 == 0x80, timer_period: noise_period_spec(value & 0xF), ..n }
}

/// The transition of a noise length write (0x400F).
pub open spec fn noise_write_length_spec(n: Noise, value: u8) -> Noise {
    Noise { length_value: length_table_spec(value >> 3), envelope_start: true, ..n }
}

/// The transition of the noise timer on one clock: on underflow the shift
/// register advances, feeding back the chosen tap.
pub open spec fn noise_step_timer_spec(n: Noise) -> Noise {
    if n.timer_value == 0 {
        let shift: u16 = if n.mode {
            6
        } else {
            1
        };
        let b1 = n.shift_register & 1;
        let b2 = (n.shift_register >> shift) & 1;
        Noise {
            timer_value: n.timer_period,
            shift_register: (n.shift_register >> 1) | ((b1 ^ b2) << 14),
            ..n
        }
    } else {
        Noise { timer_value: (n.timer_value - 1) as u16, ..n }
    }
}

/// The transition of the noise envelope on one quarter-frame clock.
pub open spec fn noise_step_envelope_spec(n: Noise) -> Noise {
    if n.envelope_start {
        Noise { envelope_volume: 15, envelope_value: n.envelope_period, envelope_start: false, ..n }
    } else if n.envelope_value > 0 {
        Noise { envelope_value: (n.envelope_value - 1) as u8, ..n }
    } else if n.envelope_volume > 0 {
        Noise { envelope_volume: (n.envelope_volume - 1) as u8, envelope_value: n.envelope_period, ..n }
    } else if n.envelope_loop {
        Noise { envelope_volume: 15, envelope_value: n.envelope_period, ..n }
    } else {
        Noise { envelope_value: n.envelope_period, ..n }
    }
}

/// The transition of the noise length counter on one half-frame clock.
pub open spec fn noise_step_length_spec(n: Noise) -> Noise {
    if n.length_enabled && n.length_value > 0 {
        Noise { length_value: (n.length_value - 1) as u8, ..n }
    } else {
        n
    }
}

/// The amplitude level the noise generator currently outputs.
pub open spec fn noise_output_spec(n: Noise) -> u8 {
    if !n.enabled {
        0
    } else if n.length_value == 0 {
        0
    } else if n.shift_register & 1 == 1 {
        0
    } else if n.envelope_enabled {
        n.envelope_volume
    } else {
        n.constant_volume
    }
}

impl Noise {
    /// The volume levels stay in range.
    pub open spec fn wf(&self) -> bool {
        &&& self.envelope_volume <= 15
        &&& self.envelope_period <= 15
        &&& self.constant_volume <= 15
    }

    /// A silent generator seeded with the given shift register.
    pub fn new(shift_register: u16) -> (r: Self)
        ensures
            r.wf(),
            !r.enabled,
            r.length_value == 0,
            r.shift_register == shift_register,
    {
        Noise {
            enabled: false,
            mode: false,
            shift_register,
            length_enabled: true,
            length_value: 0,
            timer_period: 0,
            timer_value: 0,
            envelope_enabled: false,
            envelope_loop: false,
            envelope_start: false,
            envelope_period: 0,
            envelope_value: 0,
            envelope_volume: 0,
            constant_volume: 0,
        }
    }

    /// Writes the control port: length/envelope flags and volume.
    pub(crate) fn write_control(&mut self, value: u8)
        requires
            old(self).wf(),
        ensures
            final(self).wf(),
            *final(self) == noise_write_control_spec(*old(self), value),
    {
        proof {
            lemma_u8_bits(value);
        }
        self.length_enabled = (value >> 5) & 1 == 0;
        self.envelope_loop = (value >> 5) & 1 == 1;
        self.envelope_enabled = (value >> 4) & 1 == 0;
        self.envelope_period = value & 15;
        self.constant_volume = value & 15;
        self.envelope_start = true;
    }

    /// Writes the period port: the feedback mode and the timer period from
    /// the lookup table.
    pub(crate) fn write_period(&mut self, value: u8)
        requires
            old(self).wf(),
        ensures
            final(self).wf(),
            *final(self) == noise_write_period_spec(*old(self), value),
    {
        proof {
            lemma_u8_bits(value);
        }
        self.mode = value & 0x80 == 0x80;
        self.timer_period = noise_period(value & 0xF);
    }

    /// Writes the length port, reloading the length counter.
    pub(crate) fn write_length(&mut self, value: u8)
        requires
            old(self).wf(),
        ensures
            final(self).wf(),
            *final(self) == noise_write_length_spec(*old(self), value),
    {
        proof {
            lemma_u8_bits(value);
        }
        self.length_value = length_table(value >> 3);
        self.envelope_start = true;
    }

    /// Clocks the timer and, on underflow, the feedback shift register.
    pub(crate) fn step_timer(&mut self)
        requires
            old(self).wf(),
        ensures
            final(self).wf(),
            *final(self) == noise_step_timer_spec(*old(self)),
    {
        if self.timer_value == 0 {
            self.timer_value = self.timer_period;
            let shift: u16 = if self.mode {
                6
            } else {
                1
            };
            let b1 = self.shift_register & 1;
            let b2 = (self.shift_register >> shift) & 1;
            self.shift_register >>= 1;
            self.shift_register |= (b1 ^ b2) << 14;
        } else {
            self.timer_value -= 1;
        }
    }

    /// Clocks the envelope unit.
    pub(crate) fn step_envelope(&mut self)
        requires
            old(self).wf(),
        ensures
            final(self).wf(),
            *final(self) == noise_step_envelope_spec(*old(self)),
    {
        if self.envelope_start {
            self.envelope_volume = 15;
            self.envelope_value = self.envelope_period;
            self.envelope_start = false;
        } else if self.envelope_value > 0 {
            self.envelope_value -= 1;
        } else {
            if self.envelope_volume > 0 {
                self.envelope_volume -= 1;
            } else if self.envelope_loop {
                self.envelope_volume = 15;
            }
            self.envelope_value = self.envelope_period;
        }
    }

    /// Clocks the length counter.
    pub(crate) fn step_length(&mut self)
        requires
            old(self).wf(),
        ensures
            final(self).wf(),
            *final(self) == noise_step_length_spec(*old(self)),
    {
        if self.length_enabled && self.length_value > 0 {
            self.length_value -= 1;
        }
    }

    /// The amplitude level the generator currently outputs.
    pub(crate) fn output(&self) -> (r: u8)
        requires
            self.wf(),
        ensures
            r == noise_output_spec(*self),
            r <= 15,
    {
        if !self.enabled {
            0
        } else if self.length_value == 0 {
            0
        } else if self.shift_register & 1 == 1 {
            0
        } else if self.envelope_enabled {
            self.envelope_volume
        } else {
            self.constant_volume
        }
    }
}

/// The delta-modulation generator: reads sample bytes from CPU-visible
/// memory and clocks a seven-bit delta modulator, two levels per bit.
#[derive(Clone, Copy, Debug)]
pub struct DMC {
    /// Whether the generator is enabled through the control port.
    pub enabled: bool,
    /// The current output level (7 bits).
    pub value: u8,
    /// The address the next sample restart begins at.
    pub sample_address: u16,
    /// The byte length of the sample.
    pub sample_length: u16,
    /// The address the next sample byte is fetched from.
    pub current_address: u16,
    /// How many sample bytes are left to fetch.
    pub current_length: u16,
    /// The bits of the sample byte being played.
    pub shift_register: u8,
    /// How many bits of the sample byte are left (at most eight).
    pub bit_count: u8,
    /// The reload value of the output timer.
    pub tick_period: u8,
    /// The current output timer.
    pub tick_value: u8,
    /// Whether the sample restarts when it runs out.
    pub do_loop: bool,
    /// Whether the control port enabled the fetch interrupt.
    pub irq: bool,
}

/// The transition of a delta-modulation control write (0x4010).
pub open spec fn dmc_write_control_spec(d: DMC, value: u8) -> DMC {
    DMC {
        irq: value & 0x80 == 0x80,
        do_loop: value & 0x40 == 0x40,
        tick_period: dmc_period_spec(value & 0xF),
        ..d
    }
}

/// The transition of a delta-modulation level write (0x4011).
pub open spec fn dmc_write_value_spec(d: DMC, value: u8) -> DMC {
    DMC { value: value & 0x7F, ..d }
}

/// The transition of a delta-modulation address write (0x4012).
pub open spec fn dmc_write_address_spec(d: DMC, value: u8) -> DMC {
    DMC { sample_address: 0xC000 | ((value as u16) << 6), ..d }
}

/// The transition of a delta-modulation length write (0x4013).
pub open spec fn dmc_write_length_spec(d: DMC, value: u8) -> DMC {
    DMC { sample_length: ((value as u16) << 4) | 1, ..d }
}

/// Rewinding the sample to its start.
pub open spec fn dmc_restart_spec(d: DMC) -> DMC {
    DMC { current_address: d.sample_address, current_length: d.sample_length, ..d }
}

/// The transition of the sample reader given the byte fetched from memory:
/// when a byte is due, it is loaded into the shifter, the address advances
/// (wrapping into 0x8000), and the CPU is stalled.
pub open spec fn dmc_step_reader_spec(d: DMC, read: u8) -> (DMC, bool) {
    if d.current_length > 0 && d.bit_count == 0 {
        let next_address: u16 = if d.current_address == 0xFFFF {
            0x8000
        } else {
            (d.current_address + 1) as u16
        };
        let after = DMC {
            shift_register: read,
            bit_count: 8,
            current_address: next_address,
            current_length: (d.current_length - 1) as u16,
            ..d
        };
        if after.current_length == 0 && d.do_loop {
            (dmc_restart_spec(after), true)
        } else {
            (after, true)
        }
    } else {
        (d, false)
    }
}

/// The transition of the delta modulator on one shifter clock: the output
/// level moves two steps up or down, saturating at the seven-bit range.
pub open spec fn dmc_step_shifter_spec(d: DMC) -> DMC {
    if d.bit_count == 0 {
        d
    } else {
        let value = if d.shift_register & 1 == 1 {
            if d.value <= 125 {
                (d.value + 2) as u8
            } else {
                d.value
            }
        } else {
            if d.value >= 2 {
                (d.value - 2) as u8
            } else {
                d.value
            }
        };
        DMC {
            value,
            shift_register: d.shift_register >> 1,
            bit_count: (d.bit_count - 1) as u8,
            ..d
        }
    }
}

/// The transition of the delta-modulation unit on one generator clock,
/// given the byte fetched from memory; the flag says whether the fetch
/// stalls the CPU.
pub open spec fn dmc_step_timer_spec(d: DMC, read: u8) -> (DMC, bool) {
    if d.enabled {
        let (after_read, stall) = dmc_step_reader_spec(d, read);
        if after_read.tick_value == 0 {
            (
                dmc_step_shifter_spec(DMC { tick_value: after_read.tick_period, ..after_read }),
                stall,
            )
        } else {
            (DMC { tick_value: (after_read.tick_value - 1) as u8, ..after_read }, stall)
        }
    } else {
        (d, false)
    }
}

impl DMC {
    /// The output level fits seven bits and the shifter holds at most
    /// eight bits.
    pub open spec fn wf(&self) -> bool {
        &&& self.value <= 127
        &&& self.bit_count <= 8
    }

    /// A silent generator.
    pub fn new() -> (r: Self)
        ensures
            r.wf(),
            !r.enabled,
            r.current_length == 0,
            r.current_address == 0,
    {
        DMC {
            enabled: false,
            value: 0,
            sample_address: 0,
            sample_length: 0,
            current_address: 0,
            current_length: 0,
            shift_register: 0,
            bit_count: 0,
            tick_period: 0,
            tick_value: 0,
            do_loop: false,
            irq: false,
        }
    }

    /// Writes the control port: interrupt and loop flags and the timer
    /// period from the lookup table.
    pub(crate) fn write_control(&mut self, value: u8)
        requires
            old(self).wf(),
        ensures
            final(self).wf(),
            *final(self) == dmc_write_control_spec(*old(self), value),
    {
        proof {
            lemma_u8_bits(value);
        }
        self.irq = value & 0x80 == 0x80;
        self.do_loop = value & 0x40 == 0x40;
        self.tick_period = dmc_period(value & 0xF);
    }

    /// Writes the output level directly.
    pub(crate) fn write_value(&mut self, value: u8)
        requires
            old(self).wf(),
        ensures
            final(self).wf(),
            *final(self) == dmc_write_value_spec(*old(self), value),
    {
        proof {
            lemma_u8_bits(value);
        }
        self.value = value & 0x7F;
    }

    /// Writes the sample start address.
    pub(crate) fn write_address(&mut self, value: u8)
        requires
            old(self).wf(),
        ensures
            final(self).wf(),
            *final(self) == dmc_write_address_spec(*old(self), value),
    {
        self.sample_address = 0xC000 | ((value as u16) << 6);
    }

    /// Writes the sample length.
    pub(crate) fn write_length(&mut self, value: u8)
        requires
            old(self).wf(),
        ensures
            final(self).wf(),
            *final(self) == dmc_write_length_spec(*old(self), value),
    {
        self.sample_length = ((value as u16) << 4) | 1;
    }

    /// Rewinds the sample to its start.
    pub(crate) fn restart(&mut self)
        requires
            old(self).wf(),
        ensures
            final(self).wf(),
            *final(self) == dmc_restart_spec(*old(self)),
    {
        self.current_address = self.sample_address;
        self.current_length = self.sample_length;
    }

    /// Clocks the generator with the byte fetched from memory; returns
    /// whether the fetch stalls the CPU.
    pub(crate) fn step_timer(&mut self, read: u8) -> (stall: bool)
        requires
            old(self).wf(),
        ensures
            final(self).wf(),
            (*final(self), stall) == dmc_step_timer_spec(*old(self), read),
    {
        if self.enabled {
            let stall = self.step_reader(read);
            if self.tick_value == 0 {
                self.tick_value = self.tick_period;
                self.step_shifter();
            } else {
                self.tick_value -= 1;
            }
            stall
        } else {
            false
        }
    }

    /// Loads the next sample byte when one is due; returns whether the
    /// fetch stalls the CPU.
    fn step_reader(&mut self, read: u8) -> (stall: bool)
        requires
            old(self).wf(),
        ensures
            final(self).wf(),
            (*final(self), stall) == dmc_step_reader_spec(*old(self), read),
    {
        if self.current_length > 0 && self.bit_count == 0 {
            self.shift_register = read;
            self.bit_count = 8;
            self.current_address = self.current_address.wrapping_add(1);
            if self.current_address == 0 {
                self.current_address = 0x8000;
            }
            self.current_length -= 1;
            if self.current_length == 0 && self.do_loop {
                self.restart();
            }
            true
        } else {
            false
        }
    }

    /// Clocks the delta modulator by one bit of the sample byte.
    fn step_shifter(&mut self)
        requires
            old(self).wf(),
        ensures
            final(self).wf(),
            *final(self) == dmc_step_shifter_spec(*old(self)),
    {
        if self.bit_count != 0 {
            if self.shift_register & 1 == 1 {
                if self.value <= 125 {
                    self.value += 2;
                }
            } else {
                if self.value >= 2 {
                    self.value -= 2;
                }
            }
            self.shift_register >>= 1;
            self.bit_count -= 1;
        }
    }

    /// The amplitude level the generator currently outputs.
    pub(crate) fn output(&self) -> (r: u8)
        requires
            self.wf(),
        ensures
            r == self.value,
            r <= 127,
    {
        self.value
    }
}

/// The audio processor's register file: the five generators and the frame
/// counter configuration, written to across the memory bus.
pub struct APUState {
    /// The first square generator.
    pub square1: Square,
    /// The second square generator.
    pub square2: Square,
    /// The triangle generator.
    pub triangle: Triangle,
    /// The noise generator.
    pub noise: Noise,
    /// The delta-modulation generator.
    pub dmc: DMC,
    /// The frame-counter mode: 4 or 5 steps once written, 0 at power-up.
    pub frame_period: u8,
    /// Whether the frame counter raises an interrupt on its last step.
    pub frame_irq: bool,
}

/// The status byte (0x4015): one bit per generator whose length counter
/// (for the delta channel, remaining sample length) is non-zero.
pub open spec fn apu_status_spec(a: APUState) -> u8 {
    ((if a.square1.length_value > 0 {
        1u8
    } else {
        0u8
    }) | (if a.square2.length_value > 0 {
        2u8
    } else {
        0u8
    }) | (if a.triangle.length_value > 0 {
        4u8
    } else {
        0u8
    }) | (if a.noise.length_value > 0 {
        8u8
    } else {
        0u8
    }) | (if a.dmc.current_length > 0 {
        16u8
    } else {
        0u8
    })) as u8
}

/// The transition of a control write (0x4015): each generator is enabled
/// or silenced by its bit; enabling an exhausted delta channel restarts
/// its sample.
pub open spec fn apu_write_control_spec(a: APUState, value: u8) -> APUState {
    let square1 = Square {
        enabled: value & 1 == 1,
        length_value: if value & 1 == 1 {
            a.square1.length_value
        } else {
            0u8
        },
        ..a.square1
    };
    let square2 = Square {
        enabled: value & 2 == 2,
        length_value: if value & 2 == 2 {
            a.square2.length_value
        } else {
            0u8
        },
        ..a.square2
    };
    let triangle = Triangle {
        enabled: value & 4 == 4,
        length_value: if value & 4 == 4 {
            a.triangle.length_value
        } else {
            0u8
        },
        ..a.triangle
    };
    let noise = Noise {
        enabled: value & 8 == 8,
        length_value: if value & 8 == 8 {
            a.noise.length_value
        } else {
            0u8
        },
        ..a.noise
    };
    let dmc0 = DMC { enabled: value & 16 == 16, ..a.dmc };
    let dmc = if !(value & 16 == 16) {
        DMC { current_length: 0, ..dmc0 }
    } else if a.dmc.current_length == 0 {
        dmc_restart_spec(dmc0)
    } else {
        dmc0
    };
    APUState { square1, square2, triangle, noise, dmc, ..a }
}

/// One quarter-frame clock: envelopes and the triangle's linear counter.
pub open spec fn apu_step_envelope_spec(a: APUState) -> APUState {
    APUState {
        square1: square_step_envelope_spec(a.square1),
        square2: square_step_envelope_spec(a.square2),
        triangle: triangle_step_counter_spec(a.triangle),
        noise: noise_step_envelope_spec(a.noise),
        ..a
    }
}

/// One half-frame sweep clock.
pub open spec fn apu_step_sweep_spec(a: APUState) -> APUState {
    APUState {
        square1: square_step_sweep_spec(a.square1),
        square2: square_step_sweep_spec(a.square2),
        ..a
    }
}

/// One half-frame length clock.
pub open spec fn apu_step_length_spec(a: APUState) -> APUState {
    APUState {
        square1: square_step_length_spec(a.square1),
        square2: square_step_length_spec(a.square2),
        triangle: triangle_step_length_spec(a.triangle),
        noise: noise_step_length_spec(a.noise),
        ..a
    }
}

/// The transition of a frame-counter write (0x4017): the mode and the
/// interrupt enable are set; selecting the five-step mode immediately
/// clocks the envelope, sweep and length units once.
pub open spec fn apu_write_frame_counter_spec(a: APUState, value: u8) -> APUState {
    let set = APUState {
        frame_period: (4 + ((value >> 7) & 1)) as u8,
        frame_irq: (value >> 6) & 1 == 0,
        ..a
    };
    if set.frame_period == 5 {
        apu_step_length_spec(apu_step_sweep_spec(apu_step_envelope_spec(set)))
    } else {
        set
    }
}

/// How a register write changes the audio processor's register file: each
/// port's transition, with writes outside the register map absorbed.
pub open spec fn apu_register_write_effect(a0: APUState, a1: APUState, address: u16, value: u8) -> bool {
    &&& (address == 0x4000 ==> a1 == (APUState {
                square1: square_write_control_spec(a0.square1, value),
                ..a0
            }))
    &&& (address == 0x4001 ==> a1 == (APUState {
                square1: square_write_sweep_spec(a0.square1, value),
                ..a0
            }))
    &&& (address == 0x4002 ==> a1 == (APUState {
                square1: square_write_low_timer_spec(a0.square1, value),
                ..a0
            }))
    &&& (address == 0x4003 ==> a1 == (APUState {
                square1: square_write_high_timer_spec(a0.square1, value),
                ..a0
            }))
    &&& (address == 0x4004 ==> a1 == (APUState {
                square2: square_write_control_spec(a0.square2, value),
                ..a0
            }))
    &&& (address == 0x4005 ==> a1 == (APUState {
                square2: square_write_sweep_spec(a0.square2, value),
                ..a0
            }))
    &&& (address == 0x4006 ==> a1 == (APUState {
                square2: square_write_low_timer_spec(a0.square2, value),
                ..a0
            }))
    &&& (address == 0x4007 ==> a1 == (APUState {
                square2: square_write_high_timer_spec(a0.square2, value),
                ..a0
            }))
    &&& (address == 0x4008 ==> a1 == (APUState {
                triangle: triangle_write_control_spec(a0.triangle, value),
                ..a0
            }))
    &&& (address == 0x400A ==> a1 == (APUState {
                triangle: triangle_write_low_timer_spec(a0.triangle, value),
                ..a0
            }))
    &&& (address == 0x400B ==> a1 == (APUState {
                triangle: triangle_write_high_timer_spec(a0.triangle, value),
                ..a0
            }))
    &&& (address == 0x400C ==> a1 == (APUState {
                noise: noise_write_control_spec(a0.noise, value),
                ..a0
            }))
    &&& (address == 0x400E ==> a1 == (APUState {
                noise: noise_write_period_spec(a0.noise, value),
                ..a0
            }))
    &&& (address == 0x400F ==> a1 == (APUState {
                noise: noise_write_length_spec(a0.noise, value),
                ..a0
            }))
    &&& (address == 0x4010 ==> a1 == (APUState {
                dmc: dmc_write_control_spec(a0.dmc, value),
                ..a0
            }))
    &&& (address == 0x4011 ==> a1 == (APUState {
                dmc: dmc_write_value_spec(a0.dmc, value),
                ..a0
            }))
    &&& (address == 0x4012 ==> a1 == (APUState {
                dmc: dmc_write_address_spec(a0.dmc, value),
                ..a0
            }))
    &&& (address == 0x4013 ==> a1 == (APUState {
                dmc: dmc_write_length_spec(a0.dmc, value),
                ..a0
            }))
    &&& (address == 0x4015 ==> a1 == apu_write_control_spec(a0, value))
    &&& (address == 0x4017 ==> a1 == apu_write_frame_counter_spec(a0, value))
    &&& (address == 0x4009 || address == 0x400D ==> a1 == a0)
    &&& (!(0x4000 <= address <= 0x4013 || address == 0x4015 || address == 0x4017) ==> a1 == a0)
}

impl APUState {
    /// Every generator is well formed and the frame mode is 0, 4 or 5.
    pub open spec fn wf(&self) -> bool {
        &&& self.square1.wf()
        &&& self.square2.wf()
        &&& self.triangle.wf()
        &&& self.noise.wf()
        &&& self.dmc.wf()
        &&& self.frame_period <= 5
    }

    /// The silent register file of a powered-up audio processor, the noise
    /// register seeded with 1.
    pub fn new() -> (r: Self)
        ensures
            r.wf(),
            apu_status_spec(r) == 0,
            r.frame_period == 0,
            !r.frame_irq,
            r.dmc.current_address == 0,
    {
        let r = APUState {
            square1: Square::new(true),
            square2: Square::new(false),
            triangle: Triangle::new(),
            noise: Noise::new(1),
            dmc: DMC::new(),
            frame_period: 0,
            frame_irq: false,
        };
        proof {
            assert(0u8 | 0 | 0 | 0 | 0 == 0) by (bit_vector);
        }
        r
    }

    /// Reads a register: only the status register (0x4015) reads back;
    /// every other address reads as 0.
    pub fn read_register(&self, address: u16) -> (r: u8)
        ensures
            address == 0x4015 ==> r == apu_status_spec(*self),
            address != 0x4015 ==> r == 0,
    {
        match address {
            0x4015 => self.read_status(),
            _ => 0,
        }
    }

    /// The status byte: one bit per live generator.
    fn read_status(&self) -> (r: u8)
        ensures
            r == apu_status_spec(*self),
    {
        let b1: u8 = if self.square1.length_value > 0 {
            1
        } else {
            0
        };
        let b2: u8 = if self.square2.length_value > 0 {
            2
        } else {
            0
        };
        let b3: u8 = if self.triangle.length_value > 0 {
            4
        } else {
            0
        };
        let b4: u8 = if self.noise.length_value > 0 {
            8
        } else {
            0
        };
        let b5: u8 = if self.dmc.current_length > 0 {
            16
        } else {
            0
        };
        b1 | b2 | b3 | b4 | b5
    }

    /// Writes a register of the audio processor: the four ports of each
    /// generator, the control port or the frame counter.
    pub fn write_register(&mut self, address: u16, value: u8)
        requires
            old(self).wf(),
        ensures
            final(self).wf(),
            apu_register_write_effect(*old(self), *final(self), address, value),
    {
        match address {
            0x4000 => self.square1.write_control(value),
            0x4001 => self.square1.write_sweep(value),
            0x4002 => self.square1.write_low_timer(value),
            0x4003 => self.square1.write_high_timer(value),
            0x4004 => self.square2.write_control(value),
            0x4005 => self.square2.write_sweep(value),
            0x4006 => self.square2.write_low_timer(value),
            0x4007 => self.square2.write_high_timer(value),
            0x4008 => self.triangle.write_control(value),
            0x4009 => {},
            0x4010 => self.dmc.write_control(value),
            0x4011 => self.dmc.write_value(value),
            0x4012 => self.dmc.write_address(value),
            0x4013 => self.dmc.write_length(value),
            0x400A => self.triangle.write_low_timer(value),
            0x400B => self.triangle.write_high_timer(value),
            0x400C => self.noise.write_control(value),
            0x400D => {},
            0x400E => self.noise.write_period(value),
            0x400F => self.noise.write_length(value),
            0x4015 => self.write_control(value),
            0x4017 => self.write_frame_counter(value),
            _ => {},
        }
    }

    /// Writes the control port: enables each generator by its bit,
    /// silencing the disabled ones.
    #[verifier::rlimit(50)]
    fn write_control(&mut self, value: u8)
        requires
            old(self).wf(),
        ensures
            final(self).wf(),
            *final(self) == apu_write_control_spec(*old(self), value),
    {
        let s1 = self.square1;
        self.square1 = Square {
            enabled: value & 1 == 1,
            length_value: if value & 1 == 1 {
                s1.length_value
            } else {
                0
            },
            ..s1
        };
        let s2 = self.square2;
        self.square2 = Square {
            enabled: value & 2 == 2,
            length_value: if value & 2 == 2 {
                s2.length_value
            } else {
                0
            },
            ..s2
        };
        let t = self.triangle;
        self.triangle = Triangle {
            enabled: value & 4 == 4,
            length_value: if value & 4 == 4 {
                t.length_value
            } else {
                0
            },
            ..t
        };
        let n = self.noise;
        self.noise = Noise {
            enabled: value & 8 == 8,
            length_value: if value & 8 == 8 {
                n.length_value
            } else {
                0
            },
            ..n
        };
        let d0 = DMC { enabled: value & 16 == 16, ..self.dmc };
        self.dmc = if !(value & 16 == 16) {
            DMC { current_length: 0, ..d0 }
        } else if d0.current_length == 0 {
            DMC { current_address: d0.sample_address, current_length: d0.sample_length, ..d0 }
        } else {
            d0
        };
    }

    /// Writes the frame counter: mode 4 or 5 and the interrupt enable;
    /// selecting the five-step mode clocks everything once to catch up.
    fn write_frame_counter(&mut self, value: u8)
        requires
            old(self).wf(),
        ensures
            final(self).wf(),
            *final(self) == apu_write_frame_counter_spec(*old(self), value),
    {
        proof {
            lemma_u8_bits(value);
        }
        self.frame_period = 4 + ((value >> 7) & 1);
        self.frame_irq = (value >> 6) & 1 == 0;
        if self.frame_period == 5 {
            self.step_envelope();
            self.step_sweep();
            self.step_length();
        }
    }

    /// Clocks the envelopes and the triangle's linear counter.
    pub(crate) fn step_envelope(&mut self)
        requires
            old(self).wf(),
        ensures
            final(self).wf(),
            *final(self) == apu_step_envelope_spec(*old(self)),
    {
        self.square1.step_envelope();
        self.square2.step_envelope();
        self.triangle.step_counter();
        self.noise.step_envelope();
    }

    /// Clocks the sweep units.
    pub(crate) fn step_sweep(&mut self)
        requires
            old(self).wf(),
        ensures
            final(self).wf(),
            *final(self) == apu_step_sweep_spec(*old(self)),
    {
        self.square1.step_sweep();
        self.square2.step_sweep();
    }

    /// Clocks the length counters.
    pub(crate) fn step_length(&mut self)
        requires
            old(self).wf(),
        ensures
            final(self).wf(),
            *final(self) == apu_step_length_spec(*old(self)),
    {
        self.square1.step_length();
        self.square2.step_length();
        self.triangle.step_length();
        self.noise.step_length();
    }
}

/// The audio processor's clocking engine: the frame and sample timers that
/// drive the generators on the bus. The float mixing of the generator
/// levels into a waveform is the host's affair; each due sample is handed
/// out as the two integer mixer indices.
pub struct Apu {
    /// CPU ticks since the frame counter last fired; it fires about every
    /// 7458 ticks, roughly 240 times a second.
    pub frame_tick: u16,
    /// CPU ticks since a sample was last taken.
    pub sample_tick: u32,
    /// Ticks per sample: the CPU rate divided by the host's sample rate.
    pub sample_cap: u32,
    /// The current step of the frame counter's cycle.
    pub frame_value: u8,
    /// How many CPU ticks the engine has been clocked, in all: ghost state
    /// the engine alone maintains, rising by exactly one per tick.
    pub ticks: Ghost<int>,
}

/// The pulse mixer index of an audio register file: the summed outputs of
/// the two square generators, at most 30.
pub open spec fn pulse_index_spec(a: APUState) -> int {
    square_output_spec(a.square1) + square_output_spec(a.square2)
}

/// The triangle-noise-delta mixer index of an audio register file:
/// `3*t + 2*n + d`, at most 202.
pub open spec fn tnd_index_spec(a: APUState) -> int {
    3 * triangle_output_spec(a.triangle) + 2 * noise_output_spec(a.noise) + a.dmc.value
}

impl Apu {
    /// The frame timer stays below its firing point and the frame step
    /// within its five-step cycle.
    pub open spec fn wf(&self) -> bool {
        &&& self.frame_tick < 7458
        &&& self.frame_value < 5
        &&& 1 <= self.sample_cap <= 1_790_000
        &&& self.sample_tick < self.sample_cap
    }

    /// An engine producing samples every `1_790_000 / sample_rate` CPU
    /// ticks.
    pub fn new(sample_rate: u32) -> (r: Self)
        requires
            sample_rate >= 1,
        ensures
            r.wf(),
            r.ticks@ == 0,
            r.sample_cap as int == (if 1_790_000int / (sample_rate as int) >= 1 {
                1_790_000int / (sample_rate as int)
            } else {
                1
            }),
    {
        let cap = 1_790_000 / sample_rate;
        let sample_cap = if cap >= 1 {
            cap
        } else {
            1
        };
        proof {
            assert(1_790_000int / (sample_rate as int) <= 1_790_000) by (nonlinear_arith)
                requires
                    sample_rate >= 1,
            ;
        }
        Apu { frame_tick: 0, sample_tick: 0, sample_cap, frame_value: 0, ticks: Ghost(0) }
    }

    /// Clocks the engine by one CPU tick: the generator timers advance
    /// (the squares, noise and delta channel on every other tick, the
    /// triangle on every tick), the frame counter fires on schedule, and a
    /// due sample is returned as its two mixer indices. A delta-channel
    /// fetch reads CPU space through the bus and stalls the CPU; a frame
    /// interrupt is latched into the CPU state block.
    pub fn step(&mut self, m: &mut MemoryBus) -> (sample: Option<(u8, u8)>)
        requires
            old(self).wf(),
            old(m).wf(),
        ensures
            final(self).wf(),
            final(m).wf(),
            final(self).ticks@ == old(self).ticks@ + 1,
            final(self).sample_cap == old(self).sample_cap,
            final(m).ram == old(m).ram,
            final(m).mapper == old(m).mapper,
            final(m).ppu.flg_showbg == old(m).ppu.flg_showbg,
            final(m).ppu.flg_showsprites == old(m).ppu.flg_showsprites,
            final(self).frame_tick == (if old(self).frame_tick + 1 >= 7458 {
                0int
            } else {
                old(self).frame_tick + 1
            }),
            final(self).frame_value as int == (if old(self).frame_tick + 1 >= 7458 {
                if old(m).apu.frame_period == 4 {
                    (old(self).frame_value + 1) % 4
                } else if old(m).apu.frame_period == 5 {
                    (old(self).frame_value + 1) % 5
                } else {
                    old(self).frame_value as int
                }
            } else {
                old(self).frame_value as int
            }),
            sample is Some <==> old(self).sample_tick + 1 >= old(self).sample_cap,
            sample matches Some((p, t)) ==> p as int == pulse_index_spec(final(m).apu) && t as int
                == tnd_index_spec(final(m).apu) && p <= 30 && t <= 202,
            old(self).frame_tick + 1 < 7458 && (old(self).frame_tick + 1) % 2 == 1 ==> *final(m)
                == (MemoryBus {
                apu: APUState {
                    triangle: triangle_step_timer_spec(old(m).apu.triangle),
                    ..old(m).apu
                },
                ..*old(m)
            }),
    {
        proof {
            self.ticks@ = self.ticks@ + 1;
        }
        self.frame_tick = self.frame_tick + 1;
        proof {
            lemma_word_bits(self.frame_tick);
        }
        let toggle = self.frame_tick & 1 == 0;
        self.step_timer(m, toggle);
        if self.frame_tick >= 7458 {
            self.frame_tick = 0;
            self.step_framecounter(m);
        }
        self.sample_tick = self.sample_tick + 1;
        if self.sample_tick >= self.sample_cap {
            self.sample_tick = 0;
            let p1 = m.apu.square1.output();
            let p2 = m.apu.square2.output();
            let t = m.apu.triangle.output();
            let n = m.apu.noise.output();
            let d = m.apu.dmc.output();
            Some((p1 + p2, 3 * t + 2 * n + d))
        } else {
            None
        }
    }

    /// Clocks the generator timers: the triangle every tick, the others
    /// every other tick; a due delta-channel fetch reads CPU space and
    /// stalls the CPU four cycles.
    fn step_timer(&self, m: &mut MemoryBus, toggle: bool)
        requires
            old(m).wf(),
        ensures
            final(m).wf(),
            final(m).ram == old(m).ram,
            final(m).mapper == old(m).mapper,
            final(m).apu.frame_period == old(m).apu.frame_period,
            final(m).apu.frame_irq == old(m).apu.frame_irq,
            final(m).ppu.flg_showbg == old(m).ppu.flg_showbg,
            final(m).ppu.flg_showsprites == old(m).ppu.flg_showsprites,
            !toggle ==> *final(m) == (MemoryBus {
                apu: APUState {
                    triangle: triangle_step_timer_spec(old(m).apu.triangle),
                    ..old(m).apu
                },
                ..*old(m)
            }),
            toggle && (old(m).apu.dmc.current_address < 0x2000 || old(m).apu.dmc.current_address
                >= 0x6000) ==> ({
                let read = cpu_read_pure(*old(m), old(m).apu.dmc.current_address)->Some_0;
                let stepped = dmc_step_timer_spec(old(m).apu.dmc, read);
                &&& final(m).apu == (APUState {
                    square1: square_step_timer_spec(old(m).apu.square1),
                    square2: square_step_timer_spec(old(m).apu.square2),
                    noise: noise_step_timer_spec(old(m).apu.noise),
                    triangle: triangle_step_timer_spec(old(m).apu.triangle),
                    dmc: stepped.0,
                    ..old(m).apu
                })
                &&& final(m).cpu.stall == (if stepped.1 {
                    if old(m).cpu.stall + 4 <= i32::MAX {
                        old(m).cpu.stall + 4
                    } else {
                        i32::MAX as int
                    }
                } else {
                    old(m).cpu.stall as int
                })
                &&& final(m).cpu.interrupt == old(m).cpu.interrupt
                &&& final(m).ppu == old(m).ppu
                &&& final(m).controller1 == old(m).controller1
                &&& final(m).controller2 == old(m).controller2
            }),
    {
        if toggle {
            m.apu.square1.step_timer();
            m.apu.square2.step_timer();
            m.apu.noise.step_timer();
            let address = m.apu.dmc.current_address;
            let read = m.cpu_read(address);
            let stall = m.apu.dmc.step_timer(read);
            if stall {
                m.cpu.add_stall(4);
            }
        }
        m.apu.triangle.step_timer();
    }

    /// Fires the frame counter: in the four-step mode, envelopes clock on
    /// every step, sweeps and lengths on the second and fourth, and the
    /// last step raises the frame interrupt when enabled; in the five-step
    /// mode, the fifth step idles and no interrupt fires.
    fn step_framecounter(&mut self, m: &mut MemoryBus)
        requires
            old(self).wf(),
            old(m).wf(),
        ensures
            final(self).wf(),
            final(m).wf(),
            *final(self) == (Apu { frame_value: final(self).frame_value, ..*old(self) }),
            final(m).ram == old(m).ram,
            final(m).mapper == old(m).mapper,
            final(m).ppu == old(m).ppu,
            ({
                let a0 = old(m).apu;
                let quarter = apu_step_envelope_spec(a0);
                let full = apu_step_length_spec(apu_step_sweep_spec(apu_step_envelope_spec(a0)));
                if a0.frame_period == 4 {
                    let fv = (old(self).frame_value + 1) % 4;
                    &&& final(self).frame_value == fv
                    &&& (fv == 0 || fv == 2 ==> *final(m) == (MemoryBus { apu: quarter, ..*old(m) }))
                    &&& (fv == 1 ==> *final(m) == (MemoryBus { apu: full, ..*old(m) }))
                    &&& (fv == 3 ==> *final(m) == (MemoryBus {
                        apu: full,
                        cpu: CPUState {
                            interrupt: if a0.frame_irq {
                                Some(Interrupt::IRQ)
                            } else {
                                old(m).cpu.interrupt
                            },
                            ..old(m).cpu
                        },
                        ..*old(m)
                    }))
                } else if a0.frame_period == 5 {
                    let fv = (old(self).frame_value + 1) % 5;
                    &&& final(self).frame_value == fv
                    &&& (fv == 1 || fv == 3 ==> *final(m) == (MemoryBus { apu: quarter, ..*old(m) }))
                    &&& (fv == 0 || fv == 2 ==> *final(m) == (MemoryBus { apu: full, ..*old(m) }))
                    &&& (fv == 4 ==> *final(m) == *old(m))
                } else {
                    *final(m) == *old(m) && final(self).frame_value == old(self).frame_value
                }
            }),
    {
        if m.apu.frame_period == 4 {
            self.frame_value = (self.frame_value + 1) % 4;
            if self.frame_value == 1 || self.frame_value == 3 {
                m.apu.step_envelope();
                m.apu.step_sweep();
                m.apu.step_length();
                if self.frame_value == 3 {
                    self.fire_irq(m);
                }
            } else {
                m.apu.step_envelope();
            }
        } else if m.apu.frame_period == 5 {
            self.frame_value = (self.frame_value + 1) % 5;
            if self.frame_value == 1 || self.frame_value == 3 {
                m.apu.step_envelope();
            } else if self.frame_value == 0 || self.frame_value == 2 {
                m.apu.step_envelope();
                m.apu.step_sweep();
                m.apu.step_length();
            }
        }
    }

    /// Raises the frame interrupt into the CPU state block, when enabled.
    fn fire_irq(&self, m: &mut MemoryBus)
        requires
            old(m).wf(),
        ensures
            final(m).wf(),
            *final(m) == (MemoryBus {
                cpu: CPUState {
                    interrupt: if old(m).apu.frame_irq {
                        Some(Interrupt::IRQ)
                    } else {
                        old(m).cpu.interrupt
                    },
                    ..old(m).cpu
                },
                ..*old(m)
            }),
    {
        if m.apu.frame_irq {
            m.cpu.set_irq();
        }
    }
}

} // verus!
