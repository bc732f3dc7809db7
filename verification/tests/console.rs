use ludus::cart::Cart;
use ludus::controller::ButtonState;
use ludus::console::Console;
use ludus::ports::{AudioSink, PixelBuffer, VideoDevice};

struct NullAudio;

impl AudioSink for NullAudio {
    fn push_sample(&mut self, _pulse_index: u8, _tnd_index: u8) {}
}

struct CountAudio(usize);

impl AudioSink for CountAudio {
    fn push_sample(&mut self, _pulse_index: u8, _tnd_index: u8) {
        self.0 += 1;
    }
}

struct NullVideo;

impl VideoDevice for NullVideo {
    fn blit_pixels(&mut self, _pixels: &PixelBuffer) {}
}

struct CaptureVideo(Vec<u32>);

impl VideoDevice for CaptureVideo {
    fn blit_pixels(&mut self, pixels: &PixelBuffer) {
        self.0 = pixels.as_argb().clone();
    }
}

struct CountVideo(usize);

impl VideoDevice for CountVideo {
    fn blit_pixels(&mut self, _pixels: &PixelBuffer) {
        self.0 += 1;
    }
}

/// An image whose single program chunk holds the given patch over NOPs,
/// with the reset vector at 0x8000, and whose pattern chunk is filled with
/// the given byte.
fn console_with(patch: &[(usize, u8)], chr_fill: u8, sample_rate: u32) -> Console {
    let mut prg = vec![0xEAu8; 0x4000];
    prg[0x3FFC] = 0x00;
    prg[0x3FFD] = 0x80;
    for &(offset, byte) in patch {
        prg[offset] = byte;
    }
    let mut buffer = vec![0x4E, 0x45, 0x53, 0x1A, 1, 1, 0, 0, 0, 0, 0, 0, 0, 0, 0, 0];
    buffer.extend_from_slice(&prg);
    buffer.extend_from_slice(&vec![chr_fill; 0x2000]);
    let cart = Cart::from_bytes(&buffer).unwrap();
    Console::new(cart, sample_rate).unwrap()
}

#[test]
fn dots_advance_three_per_cpu_cycle() {
    // From power-up, the dot position always equals the initial position
    // plus three dots per CPU cycle, modulo the frame.
    let mut console = console_with(&[], 0, 44100);
    let mut audio = NullAudio;
    let mut video = NullVideo;
    let start = (console.ppu.scanline as i64) * 341 + (console.ppu.cycle as i64);
    let mut total: i64 = 0;
    for _ in 0..200 {
        let cycles = console.step(&mut audio, &mut video);
        total += cycles as i64;
        let pos = (console.ppu.scanline as i64) * 341 + (console.ppu.cycle as i64);
        assert_eq!(pos, (start + 3 * total) % (262 * 341));
    }
}

#[test]
fn vblank_period_is_one_frame_of_dots() {
    // A ROM that enables the interrupt and spins reading $2002: vertical
    // blank rises once per frame of 89342 dots, which is 89342 / 3, about
    // 29780.7, CPU cycles — observed at instruction boundaries.
    let mut console = console_with(
        &[
            (0x0000, 0xA9),
            (0x0001, 0x80), // LDA #$80
            (0x0002, 0x8D),
            (0x0003, 0x00),
            (0x0004, 0x20), // STA $2000
            (0x0005, 0xAD),
            (0x0006, 0x02),
            (0x0007, 0x20), // LDA $2002
            (0x0008, 0x10),
            (0x0009, 0xFB), // BPL back to the read
            (0x000A, 0x4C),
            (0x000B, 0x05),
            (0x000C, 0x80), // JMP back to the read
            (0x000D, 0x40), // the interrupt handler: RTI
            (0x3FFA, 0x0D),
            (0x3FFB, 0x80),
        ],
        0,
        44100,
    );
    let mut audio = NullAudio;
    let mut video = NullVideo;
    let mut total: i64 = 0;
    let mut rises: Vec<i64> = Vec::new();
    let mut prev = console.cpu.mem.ppu.nmi_occurred;
    while rises.len() < 4 && total < 200_000 {
        let cycles = console.step(&mut audio, &mut video);
        total += cycles as i64;
        let now = console.cpu.mem.ppu.nmi_occurred;
        if now && !prev {
            rises.push(total);
        }
        prev = now;
    }
    assert_eq!(rises.len(), 4);
    let d1 = rises[1] - rises[0];
    let d2 = rises[2] - rises[1];
    let d3 = rises[3] - rises[2];
    for d in [d1, d2, d3] {
        assert!(
            (29770..=29790).contains(&d),
            "vblank period out of range: {}",
            d
        );
    }
    // Three frames are exactly 3 * 89342 dots, so the quantisation cancels
    // out over the sum up to one instruction's width.
    let sum = d1 + d2 + d3;
    assert!((89329..=89355).contains(&sum), "three frames: {}", sum);
}

#[test]
fn sprite_zero_hit_fires_early_in_the_frame() {
    // A visible sprite at (64, 32) over an opaque background: the
    // sprite-0-hit flag must be up before scanline 40.
    let mut console = console_with(&[(0x0000, 0x4C), (0x0001, 0x00), (0x0002, 0x80)], 0xFF, 44100);
    let mut audio = NullAudio;
    let mut video = NullVideo;
    console.cpu.mem.cpu_write(0x2001, 0x1E); // show background and sprites
    console.cpu.mem.cpu_write(0x2003, 0x00);
    console.cpu.mem.cpu_write(0x2004, 32); // sprite 0: y
    console.cpu.mem.cpu_write(0x2004, 0); // tile
    console.cpu.mem.cpu_write(0x2004, 0); // attributes
    console.cpu.mem.cpu_write(0x2004, 64); // x
    let mut found = false;
    for _ in 0..60_000 {
        console.step(&mut audio, &mut video);
        if console.cpu.mem.ppu.flg_sprite0hit == 1 {
            assert!(
                console.ppu.scanline < 40,
                "hit too late, at scanline {}",
                console.ppu.scanline
            );
            found = true;
            break;
        }
    }
    assert!(found, "sprite 0 hit never fired");
    let status = console.cpu.mem.cpu_read(0x2002);
    assert_eq!(status & 0x40, 0x40);
}

#[test]
fn step_frame_hands_one_frame_to_the_video_device() {
    let mut console = console_with(&[], 0, 44100);
    let mut audio = NullAudio;
    let mut video = CountVideo(0);
    console.step_frame(&mut audio, &mut video);
    assert_eq!(video.0, 1);
    console.step_frame(&mut audio, &mut video);
    assert_eq!(video.0, 2);
}

#[test]
fn samples_arrive_at_the_configured_rate() {
    // At a sample rate equal to the CPU rate, every CPU tick produces one
    // sample.
    let mut console = console_with(&[], 0, 1_790_000);
    let mut audio = CountAudio(0);
    let mut video = NullVideo;
    let mut total = 0i64;
    for _ in 0..50 {
        total += console.step(&mut audio, &mut video) as i64;
    }
    assert_eq!(audio.0 as i64, total);
}

#[test]
fn reset_clears_ram_and_registers() {
    let mut console = console_with(&[], 0, 44100);
    let mut audio = NullAudio;
    let mut video = NullVideo;
    console.cpu.mem.cpu_write(0x0000, 0x55);
    console.cpu.mem.cpu_write(0x2006, 0x21);
    console.cpu.mem.cpu_write(0x2006, 0x08);
    for _ in 0..100 {
        console.step(&mut audio, &mut video);
    }
    console.reset();
    assert_eq!(console.cpu.mem.cpu_read(0x0000), 0);
    assert_eq!(console.cpu.mem.ppu.v, 0);
    assert_eq!(console.cpu.pc, 0x8000);
    assert_eq!(console.cpu.sp, 0xFD);
}

#[test]
fn update_controller_reaches_the_first_port() {
    let mut console = console_with(&[], 0, 44100);
    console.update_controller(ButtonState {
        a: true,
        b: false,
        select: false,
        start: true,
        up: false,
        down: false,
        left: false,
        right: false,
    });
    console.cpu.mem.cpu_write(0x4016, 1);
    console.cpu.mem.cpu_write(0x4016, 0);
    assert_eq!(console.cpu.mem.cpu_read(0x4016), 1); // A
    assert_eq!(console.cpu.mem.cpu_read(0x4016), 0); // B
    assert_eq!(console.cpu.mem.cpu_read(0x4016), 0); // Select
    assert_eq!(console.cpu.mem.cpu_read(0x4016), 1); // Start
}

#[test]
fn rendered_backdrop_uses_the_palette() {
    // With the background enabled over an all-zero pattern table, every
    // pixel is the backdrop colour: master-palette entry 0x21.
    let mut console = console_with(&[(0x0000, 0x4C), (0x0001, 0x00), (0x0002, 0x80)], 0, 44100);
    let mut audio = NullAudio;
    let mut video = CaptureVideo(Vec::new());
    console.cpu.mem.cpu_write(0x2006, 0x3F);
    console.cpu.mem.cpu_write(0x2006, 0x00);
    console.cpu.mem.cpu_write(0x2007, 0x21);
    console.cpu.mem.cpu_write(0x2001, 0x08); // show the background
    console.step_frame(&mut audio, &mut video);
    console.step_frame(&mut audio, &mut video);
    assert_eq!(video.0.len(), 256 * 240);
    assert_eq!(video.0[10 * 256 + 10], 0xFF3FBFFF);
    assert_eq!(video.0[100 * 256 + 200], 0xFF3FBFFF);
}
