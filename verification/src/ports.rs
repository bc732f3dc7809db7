//! The ports through which the console hands its output to the host: a
//! pixel buffer and the video and audio sink capabilities.

use vstd::prelude::*;

verus! {

/// The width of the display in pixels.
pub const NES_WIDTH: usize = 256;

/// The height of the display in pixels.
pub const NES_HEIGHT: usize = 240;

/// A buffer of pixels the PPU renders into, one 32-bit ARGB value per
/// pixel, row by row.
pub struct PixelBuffer {
    /// The pixels, row-major, `NES_WIDTH * NES_HEIGHT` of them.
    pub pixels: Vec<u32>,
}

impl PixelBuffer {
    /// The buffer holds exactly one pixel per screen position.
    pub open spec fn wf(&self) -> bool {
        self.pixels.len() == NES_WIDTH * NES_HEIGHT
    }

    /// A buffer filled with an opaque black pixel.
    pub fn new() -> (r: Self)
        ensures
            r.wf(),
            forall|i: int| 0 <= i < r.pixels@.len() ==> r.pixels@[i] == 0xFF000000u32,
    {
        let mut pixels: Vec<u32> = Vec::new();
        while pixels.len() < 256 * 240
            invariant
                pixels@.len() <= 256 * 240,
                forall|i: int| 0 <= i < pixels@.len() ==> pixels@[i] == 0xFF000000u32,
            decreases 256 * 240 - pixels@.len(),
        {
            pixels.push(0xFF000000);
        }
        PixelBuffer { pixels }
    }

    /// Writes one pixel at screen position (x, y).
    pub fn write(&mut self, x: usize, y: usize, argb: u32)
        requires
            old(self).wf(),
            x < NES_WIDTH,
            y < NES_HEIGHT,
        ensures
            final(self).wf(),
            final(self).pixels@ == old(self).pixels@.update(
                NES_WIDTH * (y as int) + (x as int),
                argb,
            ),
    {
        let index = NES_WIDTH * y + x;
        proof {
            assert(256 * (y as int) + x < 256 * 240) by (nonlinear_arith)
                requires
                    x < 256 && y < 240,
            ;
        }
        self.pixels[index] = argb;
    }

    /// Reads back the pixel at screen position (x, y).
    pub fn pixel(&self, x: usize, y: usize) -> (r: u32)
        requires
            self.wf(),
            x < NES_WIDTH,
            y < NES_HEIGHT,
        ensures
            r == self.pixels@[NES_WIDTH * (y as int) + (x as int)],
    {
        let index = NES_WIDTH * y + x;
        proof {
            assert(256 * (y as int) + x < 256 * 240) by (nonlinear_arith)
                requires
                    x < 256 && y < 240,
            ;
        }
        self.pixels[index]
    }

    /// The pixels as one row-major vector.
    pub fn as_argb(&self) -> (r: &Vec<u32>)
        ensures
            r == &self.pixels,
    {
        &self.pixels
    }
}

/// A video device the console can hand a completed frame to.
pub trait VideoDevice {
    /// Transfers a completed frame onto the device.
    fn blit_pixels(&mut self, pixels: &PixelBuffer);
}

/// An audio device the console can push one sample to. The sample is handed
/// over as the two mixer-table indices the generators produced: the pulse
/// index (the summed square outputs) and the triangle-noise-delta index
/// (`3*t + 2*n + d`). The host maps them to amplitudes with the standard
/// mixer tables and its own filtering.
pub trait AudioSink {
    /// Accepts one sample, given by its two mixer indices.
    fn push_sample(&mut self, pulse_index: u8, tnd_index: u8)
        requires
            pulse_index <= 30,
            tnd_index <= 202,
    ;
}

} // verus!
