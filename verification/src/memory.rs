//! The memory bus: the central dispatcher that routes CPU-space reads and
//! writes to work RAM, the PPU and APU registers, the controllers or the
//! mapper, and performs sprite DMA. The bus owns the mapper, the work RAM,
//! the controllers and the public state blocks of the three processors.

use crate::apu::{apu_status_spec, APUState};
use crate::cart::{ines_magic_ok, ines_mapper_byte, ines_sizes_ok, Cart, CartReadingError};
use crate::controller::{
    controller_after_read, controller_after_write, controller_read_value, Controller,
};
use crate::cpu::{initial_cpu_state, irq_absorbed, CPUState, Interrupt};
use crate::mapper::{cart_geometry_ok, mapper_read_spec, mapper_write_effect, Mapper};
use crate::apu::apu_register_write_effect;
use crate::ppu::{initial_ppu_state, ppu_register_read_effect, ppu_register_write_effect, PPUState};
use vstd::prelude::*;

verus! {

/// The memory bus.
pub struct MemoryBus {
    /// The cartridge's address translator.
    pub mapper: Mapper,
    /// The audio processor's register file.
    pub apu: APUState,
    /// The CPU's public state block.
    pub cpu: CPUState,
    /// The video processor's register file.
    pub ppu: PPUState,
    /// The first controller port (0x4016).
    pub controller1: Controller,
    /// The second controller port (0x4017).
    pub controller2: Controller,
    /// The CPU work RAM, mirrored every 2 KiB below 0x2000.
    pub ram: [u8; 0x2000],
}

/// What a CPU-space read returns at the addresses where reading has no
/// side effect and a determined value: work RAM and the mapper's windows.
/// Reads elsewhere shift registers, fill buffers or acknowledge the frame
/// interrupt.
pub open spec fn cpu_read_pure(m: MemoryBus, address: u16) -> Option<u8> {
    if address < 0x2000 {
        Some(m.ram@[(address % 0x800) as int])
    } else if address >= 0x6000 {
        Some(mapper_read_spec(m.mapper, address))
    } else {
        None
    }
}

/// The byte at offset `k` of a CPU page, where the page is free of read
/// side effects.
pub open spec fn dma_byte(m: MemoryBus, page: u16, k: int) -> u8 {
    cpu_read_pure(m, (page + k) as u16)->Some_0
}

/// Whether every byte of the 256-byte CPU page is free of read side
/// effects, so that sprite DMA from it is a plain copy.
pub open spec fn dma_page_pure(m: MemoryBus, page: u16) -> bool {
    forall|k: int| 0 <= k < 256 ==> #[trigger] cpu_read_pure(m, (page + k) as u16) is Some
}

impl MemoryBus {
    /// The mapper, the processors' register files and the stall counter
    /// are all well formed.
    pub open spec fn wf(&self) -> bool {
        &&& self.mapper.wf()
        &&& self.apu.wf()
        &&& self.ppu.wf()
        &&& self.cpu.wf()
    }

    /// Assembles a bus over a cartridge: the mapper is chosen from the
    /// cartridge's mapper byte, and everything else starts cleared.
    pub fn with_cart(cart: Cart) -> (r: Result<Self, CartReadingError>)
        ensures
            cart.mapper > 2 ==> r == Err::<MemoryBus, CartReadingError>(
                CartReadingError::UnknownMapper(cart.mapper),
            ),
            cart.mapper <= 2 && !cart_geometry_ok(cart) ==> r == Err::<MemoryBus, CartReadingError>(
                CartReadingError::UnrecognisedFormat,
            ),
            cart.mapper <= 2 && cart_geometry_ok(cart) ==> r is Ok,
            r is Ok ==> ({
                let bus = r->Ok_0;
                &&& bus.wf()
                &&& bus.cpu == initial_cpu_state()
                &&& bus.ppu == initial_ppu_state()
                &&& bus.ram@ == Seq::new(0x2000, |i: int| 0u8)
                &&& apu_status_spec(bus.apu) == 0
            }),
    {
        let mapper = match Mapper::with_cart(cart) {
            Ok(mapper) => mapper,
            Err(e) => {
                return Err(e);
            },
        };
        let ram = [0u8; 0x2000];
        proof {
            assert(ram@ =~= Seq::new(0x2000, |i: int| 0u8));
        }
        Ok(
            MemoryBus {
                mapper,
                apu: APUState::new(),
                cpu: CPUState::new(),
                ppu: PPUState::new(),
                controller1: Controller::new(),
                controller2: Controller::new(),
                ram,
            },
        )
    }

    /// Assembles a bus from a raw cartridge image: the image is parsed and
    /// the mapper chosen; a malformed image, an unknown mapper byte or a
    /// pattern image too large for the bank registers is reported as a
    /// value.
    pub fn with_rom(buffer: &[u8]) -> (r: Result<Self, CartReadingError>)
        ensures
            !ines_magic_ok(buffer@) ==> r == Err::<MemoryBus, CartReadingError>(
                CartReadingError::UnrecognisedFormat,
            ),
            ines_magic_ok(buffer@) && ines_mapper_byte(buffer@) > 2 ==> r == Err::<
                MemoryBus,
                CartReadingError,
            >(CartReadingError::UnknownMapper(ines_mapper_byte(buffer@))),
            ines_magic_ok(buffer@) && ines_mapper_byte(buffer@) <= 2 && !ines_sizes_ok(buffer@)
                ==> r == Err::<MemoryBus, CartReadingError>(CartReadingError::UnrecognisedFormat),
            ines_magic_ok(buffer@) && ines_mapper_byte(buffer@) <= 2 && ines_sizes_ok(buffer@)
                && buffer@[5] <= 127 ==> r is Ok,
            r is Ok ==> r->Ok_0.wf(),
    {
        let cart = match Cart::from_bytes(buffer) {
            Ok(cart) => cart,
            Err(e) => {
                return Err(e);
            },
        };
        proof {
            let b = buffer@;
            if b[5] <= 127 {
                assert(cart.prg.len() == 0x4000 * (b[4] as int) && cart.prg.len() % 0x4000 == 0
                    && cart.prg.len() <= 0xFF * 0x4000) by (nonlinear_arith)
                    requires
                        cart.prg@.len() == 0x4000 * (b[4] as int),
                        1 <= b[4] <= 0xFF,
                ;
                if b[5] == 0 {
                    assert(cart.chr.len() == 0x2000);
                    assert(0x2000int % 0x1000 == 0) by (nonlinear_arith);
                } else {
                    assert(cart.chr.len() == 0x2000 * (b[5] as int) && cart.chr.len() % 0x1000 == 0
                        && cart.chr.len() <= 0xFF * 0x1000) by (nonlinear_arith)
                        requires
                            cart.chr@.len() == 0x2000 * (b[5] as int),
                            1 <= b[5] <= 127,
                    ;
                }
            }
        }
        MemoryBus::with_cart(cart)
    }

    /// Clears the work RAM and the CPU and PPU state blocks, as a console
    /// reset does; the cartridge, mapper and audio state persist.
    pub fn reset(&mut self)
        requires
            old(self).wf(),
        ensures
            final(self).wf(),
            *final(self) == (MemoryBus {
                ram: final(self).ram,
                cpu: initial_cpu_state(),
                ppu: initial_ppu_state(),
                ..*old(self)
            }),
            final(self).ram@ == Seq::new(0x2000, |i: int| 0u8),
    {
        let ram = [0u8; 0x2000];
        proof {
            assert(ram@ =~= Seq::new(0x2000, |i: int| 0u8));
        }
        self.ram = ram;
        self.cpu = CPUState::new();
        self.ppu = PPUState::new();
    }

    /// Reads a byte of CPU space, routing by range: work RAM, the PPU
    /// registers (mirrored every eight bytes), the APU status, the
    /// controllers, or the mapper. Reads outside the map return 0.
    pub fn cpu_read(&mut self, address: u16) -> (r: u8)
        requires
            old(self).wf(),
        ensures
            final(self).wf(),
            cpu_read_pure(*old(self), address) is Some ==> r == cpu_read_pure(
                *old(self),
                address,
            )->Some_0 && *final(self) == *old(self),
            final(self).ram == old(self).ram,
            final(self).mapper == old(self).mapper,
            final(self).apu == old(self).apu,
            final(self).cpu == (if address == 0x4015 && old(self).cpu.interrupt == Some(
                Interrupt::IRQ,
            ) {
                CPUState { interrupt: None, ..old(self).cpu }
            } else {
                old(self).cpu
            }),
            address == 0x4015 ==> r == apu_status_spec(old(self).apu),
            final(self).ppu.oam == old(self).ppu.oam,
            final(self).ppu.oam_address == old(self).ppu.oam_address,
            final(self).ppu.nametables == old(self).ppu.nametables,
            final(self).ppu.palettes == old(self).ppu.palettes,
            final(self).ppu.register == old(self).ppu.register,
            final(self).ppu.flg_showbg == old(self).ppu.flg_showbg,
            final(self).ppu.flg_showsprites == old(self).ppu.flg_showsprites,
            address == 0x4016 ==> r == controller_read_value(old(self).controller1) && *final(self)
                == (MemoryBus {
                controller1: controller_after_read(old(self).controller1),
                ..*old(self)
            }),
            address == 0x4017 ==> r == controller_read_value(old(self).controller2) && *final(self)
                == (MemoryBus {
                controller2: controller_after_read(old(self).controller2),
                ..*old(self)
            }),
            final(self).controller1 == (if address == 0x4016 {
                controller_after_read(old(self).controller1)
            } else {
                old(self).controller1
            }),
            final(self).controller2 == (if address == 0x4017 {
                controller_after_read(old(self).controller2)
            } else {
                old(self).controller2
            }),
            0x2000 <= address < 0x4000 ==> *final(self) == (MemoryBus {
                ppu: final(self).ppu,
                ..*old(self)
            }) && ppu_register_read_effect(
                old(self).ppu,
                final(self).ppu,
                old(self).mapper,
                ((0x2000 + address % 8) as u16),
                r,
            ),
            address == 0x4014 ==> r == 0 && *final(self) == *old(self),
            (0x4000 <= address < 0x4014 || 0x4018 <= address < 0x6000) ==> r == 0 && *final(self)
                == *old(self),
    {
        if address < 0x2000 {
            self.ram[(address % 0x800) as usize]
        } else if address < 0x4000 {
            let adr = 0x2000 + address % 8;
            self.ppu.read_register(&self.mapper, adr)
        } else if address == 0x4014 {
            self.ppu.read_register(&self.mapper, 0x4014)
        } else if address == 0x4015 {
            let status = self.apu.read_register(address);
            match self.cpu.interrupt {
                Some(Interrupt::IRQ) => self.cpu.clear_interrupt(),
                _ => {},
            }
            status
        } else if address == 0x4016 {
            self.controller1.read()
        } else if address == 0x4017 {
            self.controller2.read()
        } else if address >= 0x6000 {
            self.mapper.read(address)
        } else {
            0
        }
    }

    /// Writes a byte of CPU space, routing by range as the read map does.
    /// A write to 0x4014 performs sprite DMA: 256 bytes are copied from
    /// the named CPU page into sprite memory and the CPU is stalled for
    /// 513 cycles. Writes outside the map are absorbed.
    pub fn cpu_write(&mut self, address: u16, value: u8)
        requires
            old(self).wf(),
        ensures
            final(self).wf(),
            address != 0x4014 ==> final(self).cpu.interrupt == old(self).cpu.interrupt,
            irq_absorbed(old(self).cpu.interrupt, final(self).cpu.interrupt),
            final(self).cpu.stall == (if address == 0x4014 {
                if old(self).cpu.stall + 513 <= i32::MAX {
                    old(self).cpu.stall + 513
                } else {
                    i32::MAX as int
                }
            } else {
                old(self).cpu.stall as int
            }),
            address < 0x2000 ==> *final(self) == (MemoryBus {
                ram: final(self).ram,
                ..*old(self)
            }) && final(self).ram@ == old(self).ram@.update((address % 0x800) as int, value),
            0x2000 <= address < 0x4000 ==> final(self).ram == old(self).ram && final(self).apu
                == old(self).apu && final(self).cpu == old(self).cpu && final(self).controller1
                == old(self).controller1 && final(self).controller2 == old(self).controller2,
            address == 0x4016 ==> *final(self) == (MemoryBus {
                controller1: controller_after_write(old(self).controller1, value),
                controller2: controller_after_write(old(self).controller2, value),
                ..*old(self)
            }),
            0x4000 <= address <= 0x4013 || address == 0x4015 || address == 0x4017 ==> final(self).ram == old(self).ram && final(self).ppu == old(self).ppu && final(self).mapper == old(self).mapper && final(self).cpu == old(self).cpu && final(self).controller1 == old(self).controller1 && final(self).controller2 == old(self).controller2,
            address >= 0x6000 ==> final(self).ram == old(self).ram && final(self).ppu == old(self).ppu && final(self).apu == old(self).apu && final(self).cpu == old(self).cpu,
            address == 0x4014 ==> final(self).ram == old(self).ram && final(self).mapper == old(self).mapper && final(self).apu == old(self).apu && final(self).ppu.oam_address == old(self).ppu.oam_address && final(self).ppu.register == value,
            0x2000 <= address < 0x4000 ==> *final(self) == (MemoryBus {
                ppu: final(self).ppu,
                mapper: final(self).mapper,
                ..*old(self)
            }) && ppu_register_write_effect(
                old(self).ppu,
                final(self).ppu,
                old(self).mapper,
                final(self).mapper,
                ((0x2000 + address % 8) as u16),
                value,
            ),
            0x4000 <= address <= 0x4013 || address == 0x4015 || address == 0x4017 ==> *final(self)
                == (MemoryBus { apu: final(self).apu, ..*old(self) }) && apu_register_write_effect(
                old(self).apu,
                final(self).apu,
                address,
                value,
            ),
            address >= 0x6000 ==> *final(self) == (MemoryBus {
                mapper: final(self).mapper,
                ..*old(self)
            }) && mapper_write_effect(old(self).mapper, final(self).mapper, address, value),
            0x4018 <= address < 0x6000 ==> *final(self) == *old(self),
            address == 0x4014 && dma_page_pure(*old(self), (value as u16) << 8) ==> ({
                let page = (value as u16) << 8;
                let start = old(self).ppu.oam_address as int;
                &&& forall|k: int|
                    0 <= k < 256 ==> final(self).ppu.oam@[(start + k) % 256] == #[trigger] dma_byte(
                        *old(self),
                        page,
                        k,
                    )
                &&& *final(self) == (MemoryBus {
                    ppu: PPUState {
                        oam: final(self).ppu.oam,
                        register: value,
                        ..old(self).ppu
                    },
                    cpu: CPUState { stall: final(self).cpu.stall, ..old(self).cpu },
                    ..*old(self)
                })
            }),
    {
        if address < 0x2000 {
            let i = (address % 0x800) as usize;
            self.ram[i] = value;
        } else if address < 0x4000 {
            let adr = 0x2000 + address % 8;
            self.ppu.write_register(&mut self.mapper, adr, value);
        } else if address == 0x4014 {
            self.ppu.write_register(&mut self.mapper, 0x4014, value);
            let ghost mid = *self;
            proof {
                let page = (value as u16) << 8;
                if dma_page_pure(*old(self), page) {
                    assert forall|k: int|
                        0 <= k < 256 implies #[trigger] cpu_read_pure(
                        mid,
                        (page + k) as u16,
                    ) is Some && dma_byte(mid, page, k) == dma_byte(*old(self), page, k) by {
                        assert(cpu_read_pure(*old(self), (page + k) as u16) is Some);
                        assert(cpu_read_pure(mid, (page + k) as u16) == cpu_read_pure(
                            *old(self),
                            (page + k) as u16,
                        ));
                    }
                    assert(dma_page_pure(mid, page));
                }
            }
            self.write_dma(value);
            proof {
                let page = (value as u16) << 8;
                if dma_page_pure(*old(self), page) {
                    let start = old(self).ppu.oam_address as int;
                    assert forall|k: int|
                        0 <= k < 256 implies self.ppu.oam@[(start + k) % 256] == #[trigger] dma_byte(
                        *old(self),
                        page,
                        k,
                    ) by {
                        assert(self.ppu.oam@[(mid.ppu.oam_address as int + k) % 256] == dma_byte(
                            mid,
                            page,
                            k,
                        ));
                    }
                }
            }
        } else if address == 0x4015 || address == 0x4017 || address < 0x4014 {
            self.apu.write_register(address, value);
        } else if address == 0x4016 {
            self.controller1.write(value);
            self.controller2.write(value);
        } else if address >= 0x6000 {
            self.mapper.write(address, value);
        }
    }

    /// Copies 256 bytes from the named CPU page into sprite memory,
    /// starting at the current OAM address and wrapping, and stalls the
    /// CPU for 513 cycles.
    fn write_dma(&mut self, value: u8)
        requires
            old(self).wf(),
        ensures
            final(self).wf(),
            irq_absorbed(old(self).cpu.interrupt, final(self).cpu.interrupt),
            final(self).cpu.stall == (if old(self).cpu.stall + 513 <= i32::MAX {
                old(self).cpu.stall + 513
            } else {
                i32::MAX as int
            }),
            final(self).ram == old(self).ram,
            final(self).mapper == old(self).mapper,
            final(self).apu == old(self).apu,
            final(self).ppu.oam_address == old(self).ppu.oam_address,
            final(self).ppu.register == old(self).ppu.register,
            dma_page_pure(*old(self), (value as u16) << 8) ==> ({
                let page = (value as u16) << 8;
                let start = old(self).ppu.oam_address as int;
                &&& forall|k: int|
                    0 <= k < 256 ==> final(self).ppu.oam@[(start + k) % 256] == #[trigger] dma_byte(
                        *old(self),
                        page,
                        k,
                    )
                &&& *final(self) == (MemoryBus {
                    ppu: PPUState { oam: final(self).ppu.oam, ..old(self).ppu },
                    cpu: CPUState { stall: final(self).cpu.stall, ..old(self).cpu },
                    ..*old(self)
                })
            }),
    {
        let page: u16 = (value as u16) << 8;
        proof {
            assert(page <= 0xFF00) by (bit_vector)
                requires
                    page == (value as u16) << 8,
            ;
        }
        self.cpu.add_stall(513);
        let ghost pure = dma_page_pure(*old(self), page);
        let ghost after_stall = *self;
        let mut k: usize = 0;
        while k < 256
            invariant
                0 <= k <= 256,
                page <= 0xFF00,
                self.wf(),
                self.cpu.stall == after_stall.cpu.stall,
                irq_absorbed(after_stall.cpu.interrupt, self.cpu.interrupt),
                self.ram == old(self).ram,
                self.mapper == old(self).mapper,
                self.apu == old(self).apu,
                self.ppu.oam_address as int == (after_stall.ppu.oam_address + k) % 256,
                self.ppu.register == old(self).ppu.register,
                after_stall == (MemoryBus {
                    cpu: after_stall.cpu,
                    ..*old(self)
                }),
                pure == dma_page_pure(*old(self), page),
                pure ==> *self == (MemoryBus {
                    ppu: PPUState {
                        oam: self.ppu.oam,
                        oam_address: self.ppu.oam_address,
                        ..old(self).ppu
                    },
                    cpu: after_stall.cpu,
                    ..*old(self)
                }),
                pure ==> forall|j: int|
                    0 <= j < k ==> self.ppu.oam@[(after_stall.ppu.oam_address + j) % 256]
                        == #[trigger] dma_byte(*old(self), page, j),
            decreases 256 - k,
        {
            let address = page + (k as u16);
            proof {
                if pure {
                    assert(cpu_read_pure(*old(self), address) is Some);
                    assert(cpu_read_pure(*self, address) == cpu_read_pure(*old(self), address));
                }
            }
            let byte = self.cpu_read(address);
            let oam_address = self.ppu.oam_address as usize;
            self.ppu.oam[oam_address] = byte;
            self.ppu.oam_address = self.ppu.oam_address.wrapping_add(1);
            k += 1;
        }
    }
}

} // verus!
