//! A cycle-accurate emulator for a classic 8-bit home game console.
//!
//! The library models the three coupled processors of the machine — the
//! 6502-family CPU, the pixel-pipeline PPU and the five-generator APU —
//! together with the memory bus, the cartridge mappers and the controllers.
//! A host program supplies a cartridge image, a video sink, an audio sink
//! and controller state, and drives emulation forward in time slices.

pub mod apu;
pub mod bits;
pub mod cart;
pub mod console;
pub mod controller;
pub mod cpu;
pub mod mapper;
pub mod memory;
pub mod ports;
pub mod ppu;

pub use cart::{Cart, CartReadingError, MapperID, Mirroring};
pub use console::Console;
pub use controller::ButtonState;
pub use ports::{AudioSink, PixelBuffer, VideoDevice, NES_HEIGHT, NES_WIDTH};
