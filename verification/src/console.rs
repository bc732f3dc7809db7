//! The console driver: assembles the three processors around the shared
//! bus and drives them forward in lock step — for every cycle the CPU
//! reports, the video pipeline advances three dots and the audio engine
//! one tick.

use crate::apu::Apu;
use crate::cart::{Cart, CartReadingError};
use crate::controller::{button_seq, ButtonState};
use crate::cpu::{flags_byte, initial_cpu_state, vector_word, CPU};
use crate::mapper::cart_geometry_ok;
use crate::memory::MemoryBus;
use crate::ports::{AudioSink, VideoDevice};
use crate::ppu::{initial_ppu_state, PPU};
use vstd::prelude::*;

verus! {

/// A complete console: the audio engine, the processor (which owns the
/// bus) and the video pipeline.
pub struct Console {
    /// The audio clocking engine.
    pub apu: Apu,
    /// The processor, owner of the memory bus.
    pub cpu: CPU,
    /// The video pipeline.
    pub ppu: PPU,
}

/// A lower-bounded copy of a countdown budget, for termination measures.
pub open spec fn remaining_budget(x: int) -> int {
    if x > 0 {
        x
    } else {
        0
    }
}

/// The dot clock's position after one tick, as (scanline, cycle, odd-frame
/// flag): dot 339 of the pre-render line is skipped on odd rendered
/// frames, and the position wraps at the end of the frame.
pub open spec fn dot_after(scanline: int, cycle: int, f: int, rendering: bool) -> (int, int, int) {
    if rendering && f == 1 && scanline == 261 && cycle == 339 {
        (0int, 0int, 0int)
    } else if cycle < 340 {
        (scanline, cycle + 1, f)
    } else if scanline < 261 {
        (scanline + 1, 0int, f)
    } else {
        (0int, 0int, 1 - f)
    }
}

/// The dot clock's position after `n` ticks under a fixed rendering mode.
pub open spec fn dots_after(
    scanline: int,
    cycle: int,
    f: int,
    rendering: bool,
    n: int,
) -> (int, int, int)
    decreases n,
{
    if n <= 0 {
        (scanline, cycle, f)
    } else {
        let s = dot_after(scanline, cycle, f, rendering);
        dots_after(s.0, s.1, s.2, rendering, n - 1)
    }
}

/// Ticking `n + 1` dots is ticking `n` dots and then one more.
proof fn lemma_dots_after_snoc(scanline: int, cycle: int, f: int, rendering: bool, n: int)
    requires
        n >= 0,
    ensures
        dots_after(scanline, cycle, f, rendering, n + 1) == ({
            let t = dots_after(scanline, cycle, f, rendering, n);
            dot_after(t.0, t.1, t.2, rendering)
        }),
    decreases n,
{
    let u = dot_after(scanline, cycle, f, rendering);
    assert(dots_after(scanline, cycle, f, rendering, n + 1) == dots_after(
        u.0,
        u.1,
        u.2,
        rendering,
        n,
    ));
    if n > 0 {
        lemma_dots_after_snoc(u.0, u.1, u.2, rendering, n - 1);
        assert(dots_after(scanline, cycle, f, rendering, n) == dots_after(
            u.0,
            u.1,
            u.2,
            rendering,
            n - 1,
        ));
    } else {
        assert(dots_after(u.0, u.1, u.2, rendering, 0) == u);
        assert(dots_after(scanline, cycle, f, rendering, 0) == (scanline, cycle, f));
    }
}

/// How many dots the video pipeline is from raising the next vertical
/// blank: the distance, around the frame, from the current dot position to
/// dot 1 of scanline 241. The measure is always positive and shrinks with
/// every dot, so a frame always completes.
pub open spec fn dots_to_vblank(scanline: int, cycle: int) -> int {
    let d = 241 * 341 + 1 - (scanline * 341 + cycle);
    if d > 0 {
        d
    } else {
        d + 262 * 341
    }
}

impl Console {
    /// All three components are well formed.
    pub open spec fn wf(&self) -> bool {
        &&& self.apu.wf()
        &&& self.cpu.wf()
        &&& self.ppu.wf()
    }

    /// Assembles a console over a cartridge, producing audio samples at
    /// the given rate. An unknown mapper byte or ill-formed bank geometry
    /// is reported as a value.
    pub fn new(cart: Cart, sample_rate: u32) -> (r: Result<Console, CartReadingError>)
        requires
            sample_rate >= 1,
        ensures
            cart.mapper > 2 ==> r == Err::<Console, CartReadingError>(
                CartReadingError::UnknownMapper(cart.mapper),
            ),
            cart.mapper <= 2 && !cart_geometry_ok(cart) ==> r == Err::<Console, CartReadingError>(
                CartReadingError::UnrecognisedFormat,
            ),
            cart.mapper <= 2 && cart_geometry_ok(cart) ==> r is Ok,
            r is Ok ==> r->Ok_0.wf() && r->Ok_0.ppu.dots@ == 0 && r->Ok_0.apu.ticks@ == 0,
    {
        let mut memory = match MemoryBus::with_cart(cart) {
            Ok(memory) => memory,
            Err(e) => {
                return Err(e);
            },
        };
        let ppu = PPU::new(&mut memory);
        let cpu = CPU::new(memory);
        Ok(Console { apu: Apu::new(sample_rate), cpu, ppu })
    }

    /// Advances the console by a single CPU step: the CPU executes and
    /// reports its elapsed cycles N, then the video pipeline is clocked
    /// exactly 3N dots and the audio engine exactly N ticks, all over the
    /// shared bus. Due samples go to the audio sink and a completed frame
    /// to the video device. Returns N.
    pub fn step<A: AudioSink, V: VideoDevice>(&mut self, audio: &mut A, video: &mut V) -> (cycles:
        i32)
        requires
            old(self).wf(),
        ensures
            final(self).wf(),
            1 <= cycles <= 17,
            final(self).ppu.dots@ == old(self).ppu.dots@ + 3 * cycles,
            final(self).apu.ticks@ == old(self).apu.ticks@ + cycles,
            final(self).ppu.frames@ >= old(self).ppu.frames@,
            ({
                let rendering = final(self).cpu.mem.ppu.flg_showbg != 0 || final(self).cpu.mem.ppu.flg_showsprites != 0;
                (
                    final(self).ppu.scanline as int,
                    final(self).ppu.cycle as int,
                    final(self).ppu.f as int,
                ) == dots_after(
                    old(self).ppu.scanline as int,
                    old(self).ppu.cycle as int,
                    old(self).ppu.f as int,
                    rendering,
                    3 * cycles,
                )
            }),
    {
        let cpucycles = self.cpu.step();
        let ghost rendering = self.cpu.mem.ppu.flg_showbg != 0 || self.cpu.mem.ppu.flg_showsprites
            != 0;
        let dot_budget = cpucycles * 3;
        let mut i: i32 = 0;
        while i < dot_budget
            invariant
                0 <= i <= dot_budget,
                dot_budget == cpucycles * 3,
                1 <= cpucycles <= 17,
                self.cpu.flags_wf(),
                self.cpu.mem.wf(),
                self.ppu.wf(),
                self.apu == old(self).apu,
                self.apu.wf(),
                self.ppu.dots@ == old(self).ppu.dots@ + i,
                self.ppu.frames@ >= old(self).ppu.frames@,
                rendering == (self.cpu.mem.ppu.flg_showbg != 0 || self.cpu.mem.ppu.flg_showsprites
                    != 0),
                (self.ppu.scanline as int, self.ppu.cycle as int, self.ppu.f as int) == dots_after(
                    old(self).ppu.scanline as int,
                    old(self).ppu.cycle as int,
                    old(self).ppu.f as int,
                    rendering,
                    i as int,
                ),
            decreases dot_budget - i,
        {
            self.ppu.step(&mut self.cpu.mem, video);
            proof {
                lemma_dots_after_snoc(
                    old(self).ppu.scanline as int,
                    old(self).ppu.cycle as int,
                    old(self).ppu.f as int,
                    rendering,
                    i as int,
                );
            }
            i = i + 1;
        }
        let ghost before_audio_ppu = self.ppu;
        let mut k: i32 = 0;
        while k < cpucycles
            invariant
                0 <= k <= cpucycles,
                1 <= cpucycles <= 17,
                self.cpu.flags_wf(),
                self.cpu.mem.wf(),
                self.ppu.wf(),
                self.apu.wf(),
                self.ppu.dots@ == old(self).ppu.dots@ + 3 * cpucycles,
                self.ppu.frames@ >= old(self).ppu.frames@,
                self.apu.ticks@ == old(self).apu.ticks@ + k,
                self.ppu == before_audio_ppu,
                rendering == (self.cpu.mem.ppu.flg_showbg != 0 || self.cpu.mem.ppu.flg_showsprites
                    != 0),
            decreases cpucycles - k,
        {
            let sample = self.apu.step(&mut self.cpu.mem);
            match sample {
                Some((pulse, tnd)) => audio.push_sample(pulse, tnd),
                None => {},
            }
            k = k + 1;
        }
        cpucycles
    }

    /// Advances the console by about the given number of microseconds,
    /// at 1.79 CPU cycles per microsecond.
    pub fn step_micros<A: AudioSink, V: VideoDevice>(
        &mut self,
        audio: &mut A,
        video: &mut V,
        micros: u32,
    )
        requires
            old(self).wf(),
        ensures
            final(self).wf(),
            final(self).apu.ticks@ >= old(self).apu.ticks@ + ((micros as int) * 179) / 100,
    {
        let mut budget: i64 = ((micros as i64) * 179) / 100;
        let ghost budget0 = budget as int;
        while budget > 0
            invariant
                self.wf(),
                budget <= 0x200000000,
                self.apu.ticks@ >= old(self).apu.ticks@ + (budget0 - budget),
            decreases remaining_budget(budget as int),
        {
            let cycles = self.step(audio, video);
            budget = budget - (cycles as i64);
        }
    }

    /// Advances the console until the video pipeline completes a frame.
    /// Unlike the timed steps this waits for the frame itself, which suits
    /// hosts that act at the start of every frame.
    pub fn step_frame<A: AudioSink, V: VideoDevice>(&mut self, audio: &mut A, video: &mut V)
        requires
            old(self).wf(),
        ensures
            final(self).wf(),
            final(self).ppu.frames@ >= old(self).ppu.frames@ + 1,
    {
        let mut frame_happened = false;
        loop
            invariant
                self.wf(),
                self.ppu.frames@ >= old(self).ppu.frames@ + (if frame_happened {
                    1int
                } else {
                    0
                }),
            ensures
                self.wf(),
                frame_happened,
                self.ppu.frames@ >= old(self).ppu.frames@ + 1,
            decreases dots_to_vblank(self.ppu.scanline as int, self.ppu.cycle as int),
        {
            let ghost m_start = dots_to_vblank(self.ppu.scanline as int, self.ppu.cycle as int);
            proof {
                assert(1 <= m_start <= 262 * 341);
            }
            let cpucycles = self.cpu.step();
            let dot_budget = cpucycles * 3;
            let mut i: i32 = 0;
            while i < dot_budget
                invariant
                    0 <= i <= dot_budget,
                    3 <= dot_budget <= 51,
                    self.cpu.flags_wf(),
                    self.cpu.mem.wf(),
                    self.ppu.wf(),
                    self.apu.wf(),
                    self.ppu.frames@ >= old(self).ppu.frames@ + (if frame_happened {
                        1int
                    } else {
                        0
                    }),
                    frame_happened || dots_to_vblank(
                        self.ppu.scanline as int,
                        self.ppu.cycle as int,
                    ) <= m_start - i,
                    dots_to_vblank(self.ppu.scanline as int, self.ppu.cycle as int) >= 1,
                decreases dot_budget - i,
            {
                let ghost before = *self;
                let frame = self.ppu.step(&mut self.cpu.mem, video);
                proof {
                    if !frame {
                        assert(dots_to_vblank(self.ppu.scanline as int, self.ppu.cycle as int)
                            < dots_to_vblank(
                            before.ppu.scanline as int,
                            before.ppu.cycle as int,
                        ));
                    }
                }
                frame_happened = frame_happened || frame;
                i = i + 1;
            }
            let mut k: i32 = 0;
            while k < cpucycles
                invariant
                    0 <= k <= cpucycles,
                    cpucycles <= 17,
                    self.cpu.flags_wf(),
                    self.cpu.mem.wf(),
                    self.ppu.wf(),
                    self.apu.wf(),
                    self.ppu.frames@ >= old(self).ppu.frames@ + (if frame_happened {
                        1int
                    } else {
                        0
                    }),
                    frame_happened || dots_to_vblank(
                        self.ppu.scanline as int,
                        self.ppu.cycle as int,
                    ) < m_start,
                decreases cpucycles - k,
            {
                let sample = self.apu.step(&mut self.cpu.mem);
                match sample {
                    Some((pulse, tnd)) => audio.push_sample(pulse, tnd),
                    None => {},
                }
                k = k + 1;
            }
            if frame_happened {
                break ;
            }
        }
    }

    /// Latches the host's button state into the first controller.
    pub fn update_controller(&mut self, buttons: ButtonState)
        requires
            old(self).wf(),
        ensures
            final(self).wf(),
            *final(self) == (Console { cpu: final(self).cpu, ..*old(self) }),
            final(self).cpu == (CPU { mem: final(self).cpu.mem, ..old(self).cpu }),
            final(self).cpu.mem == (MemoryBus {
                controller1: final(self).cpu.mem.controller1,
                ..old(self).cpu.mem
            }),
            final(self).cpu.mem.controller1.buttons@ == button_seq(buttons),
    {
        self.cpu.set_buttons(buttons);
    }

    /// Resets everything to its initial state: the CPU re-reads its reset
    /// vector, the work RAM and the CPU and PPU register files clear, the
    /// video pipeline rewinds and both frame buffers are repainted black.
    /// The cartridge, the mapper's banks, the audio state and the
    /// controllers persist.
    pub fn reset(&mut self)
        requires
            old(self).wf(),
        ensures
            final(self).wf(),
            final(self).cpu.mem.ram@ == Seq::new(0x2000, |i: int| 0u8),
            final(self).cpu.mem.cpu == initial_cpu_state(),
            final(self).cpu.mem.ppu == initial_ppu_state(),
            final(self).cpu.mem.mapper == old(self).cpu.mem.mapper,
            final(self).cpu.mem.apu == old(self).cpu.mem.apu,
            final(self).cpu.mem.controller1 == old(self).cpu.mem.controller1,
            final(self).cpu.mem.controller2 == old(self).cpu.mem.controller2,
            final(self).cpu.sp == 0xFD,
            flags_byte(final(self).cpu) == 0x24,
            final(self).cpu.pc as int == vector_word(final(self).cpu.mem, 0xFFFC),
            final(self).ppu.cycle == 340,
            final(self).ppu.scanline == 240,
            forall|i: int|
                0 <= i < final(self).ppu.front.pixels@.len() ==> final(self).ppu.front.pixels@[i]
                    == 0xFF000000u32,
            forall|i: int|
                0 <= i < final(self).ppu.back.pixels@.len() ==> final(self).ppu.back.pixels@[i]
                    == 0xFF000000u32,
    {
        self.cpu.mem.reset();
        self.cpu.reset();
        self.ppu.reset(&mut self.cpu.mem);
        proof {
            assert(0u8 & 3 == 0 && (0u8 >> 1) & 1 == 0 && (0u8 >> 2) & 1 == 0 && (0u8 >> 3) & 1
                == 0 && (0u8 >> 4) & 1 == 0 && (0u8 >> 5) & 1 == 0 && (0u8 >> 6) & 1 == 0 && (0u8
                >> 7) & 1 == 0 && 0u8 & 1 == 0 && 0u8 & 0x7F == 0) by (bit_vector);
            assert((0u16 & 0xF3FF) | ((0u16 & 0x03) << 10) == 0) by (bit_vector);
        }
        self.ppu.clear_vbuffers();
    }
}

} // verus!
