use ludus::cpu::CPU;
use ludus::memory::MemoryBus;

/// An iNES image with one program chunk (mapped at both 0x8000 and 0xC000),
/// one pattern chunk, and the given bytes patched into the program chunk.
/// The rest of the program is NOP opcodes and the reset vector points at
/// 0x8000 unless the patch overrides it.
fn prg_rom(patch: &[(usize, u8)]) -> Vec<u8> {
    let mut prg = vec![0xEAu8; 0x4000];
    prg[0x3FFC] = 0x00;
    prg[0x3FFD] = 0x80;
    for &(offset, byte) in patch {
        prg[offset] = byte;
    }
    let mut buffer = vec![0x4E, 0x45, 0x53, 0x1A, 1, 1, 0, 0, 0, 0, 0, 0, 0, 0, 0, 0];
    buffer.extend_from_slice(&prg);
    buffer.extend_from_slice(&[0u8; 0x2000]);
    buffer
}

fn cpu_with(patch: &[(usize, u8)]) -> CPU {
    let buffer = prg_rom(patch);
    let bus = MemoryBus::with_rom(&buffer).unwrap();
    CPU::new(bus)
}

#[test]
fn indirect_jmp_wraps_within_page() {
    // JMP ($02FF) with $02FF = $00 and $0200 = $80: the high byte of the
    // target comes from $0200, not $0300.
    let mut cpu = cpu_with(&[(0x0000, 0x6C), (0x0001, 0xFF), (0x0002, 0x02)]);
    cpu.mem.cpu_write(0x02FF, 0x00);
    cpu.mem.cpu_write(0x0200, 0x80);
    cpu.mem.cpu_write(0x0300, 0x55);
    let cycles = cpu.step();
    assert_eq!(cpu.pc, 0x8000);
    assert_eq!(cycles, 5);
}

#[test]
fn dma_write_stalls_513_cycles() {
    // LDA #$02 ; STA $4014 at $8000: the two instructions cost their base
    // cycles and the DMA adds 513 cycles of stall, consumed one per step.
    let mut cpu = cpu_with(&[
        (0x0000, 0xA9),
        (0x0001, 0x02),
        (0x0002, 0x8D),
        (0x0003, 0x14),
        (0x0004, 0x40),
    ]);
    let s1 = cpu.step();
    let s2 = cpu.step();
    assert_eq!(s1, 2);
    assert_eq!(s2, 4);
    assert_eq!(cpu.mem.cpu.stall, 513);
    let mut total = s1 + s2;
    loop {
        let s = cpu.step();
        total += s;
        if s != 1 {
            break;
        }
    }
    assert!(total >= 513 + 2 + 4);
    assert_eq!(cpu.mem.cpu.stall, 0);
}

#[test]
fn lda_immediate_advances_pc_by_size() {
    let mut cpu = cpu_with(&[(0x0000, 0xA9), (0x0001, 0x42)]);
    let cycles = cpu.step();
    assert_eq!(cycles, 2);
    assert_eq!(cpu.pc, 0x8002);
    assert_eq!(cpu.a, 0x42);
    assert_eq!(cpu.z, 0);
    assert_eq!(cpu.n, 0);
}

#[test]
fn taken_branch_costs_one_extra_cycle() {
    // LDA #$01 clears the zero flag, so BNE +2 is taken within the page.
    let mut cpu = cpu_with(&[(0x0000, 0xA9), (0x0001, 0x01), (0x0002, 0xD0), (0x0003, 0x02)]);
    cpu.step();
    let cycles = cpu.step();
    assert_eq!(cycles, 3);
    assert_eq!(cpu.pc, 0x8006);
}

#[test]
fn untaken_branch_costs_base_cycles() {
    // LDA #$00 sets the zero flag, so BNE is not taken.
    let mut cpu = cpu_with(&[(0x0000, 0xA9), (0x0001, 0x00), (0x0002, 0xD0), (0x0003, 0x02)]);
    cpu.step();
    let cycles = cpu.step();
    assert_eq!(cycles, 2);
    assert_eq!(cpu.pc, 0x8004);
}

#[test]
fn page_crossing_branch_costs_two_extra_cycles() {
    // A taken branch whose target lies in another page costs two extras.
    let mut cpu = cpu_with(&[
        (0x3FFC, 0xF0),
        (0x3FFD, 0x80),
        (0x00F0, 0xA9),
        (0x00F1, 0x01),
        (0x00F2, 0xD0),
        (0x00F3, 0x20),
    ]);
    cpu.step();
    let cycles = cpu.step();
    assert_eq!(cycles, 4);
    assert_eq!(cpu.pc, 0x8114);
}

#[test]
fn page_crossing_load_costs_one_extra_cycle() {
    // LDX #$01 ; LDA $80FF,X reads across a page boundary.
    let mut cpu = cpu_with(&[
        (0x0000, 0xA2),
        (0x0001, 0x01),
        (0x0002, 0xBD),
        (0x0003, 0xFF),
        (0x0004, 0x80),
    ]);
    cpu.step();
    let cycles = cpu.step();
    assert_eq!(cycles, 5);
}

#[test]
fn adc_sets_overflow_and_carry() {
    // $50 + $50 overflows signed but not unsigned.
    let mut cpu = cpu_with(&[(0x0000, 0xA9), (0x0001, 0x50), (0x0002, 0x69), (0x0003, 0x50)]);
    cpu.step();
    cpu.step();
    assert_eq!(cpu.a, 0xA0);
    assert_eq!(cpu.v, 1);
    assert_eq!(cpu.c, 0);
    assert_eq!(cpu.n, 1);
    // $FF + $01 carries out but does not overflow signed.
    let mut cpu = cpu_with(&[
        (0x0000, 0x18),
        (0x0001, 0xA9),
        (0x0002, 0xFF),
        (0x0003, 0x69),
        (0x0004, 0x01),
    ]);
    cpu.step();
    cpu.step();
    cpu.step();
    assert_eq!(cpu.a, 0x00);
    assert_eq!(cpu.c, 1);
    assert_eq!(cpu.v, 0);
    assert_eq!(cpu.z, 1);
}

#[test]
fn sbc_clears_carry_on_borrow() {
    // SEC ; LDA #$10 ; SBC #$20 borrows.
    let mut cpu = cpu_with(&[
        (0x0000, 0x38),
        (0x0001, 0xA9),
        (0x0002, 0x10),
        (0x0003, 0xE9),
        (0x0004, 0x20),
    ]);
    cpu.step();
    cpu.step();
    cpu.step();
    assert_eq!(cpu.a, 0xF0);
    assert_eq!(cpu.c, 0);
    assert_eq!(cpu.n, 1);
}

#[test]
fn php_pushes_break_bit_and_plp_clears_it() {
    // PHP pushes the status with bit 4 set; PLP restores it with bit 4
    // clear and bit 5 set.
    let mut cpu = cpu_with(&[(0x0000, 0x08), (0x0001, 0x28)]);
    cpu.step();
    let pushed = cpu.mem.cpu_read(0x01FD);
    assert_eq!(pushed, 0x34);
    cpu.step();
    assert_eq!(cpu.b, 0);
    assert_eq!(cpu.u, 1);
    assert_eq!(cpu.sp, 0xFD);
}

#[test]
fn zero_page_indexed_wraps_in_page_zero() {
    // LDX #$05 ; LDA $FE,X wraps to $03 within page zero.
    let mut cpu = cpu_with(&[
        (0x0000, 0xA2),
        (0x0001, 0x05),
        (0x0002, 0xB5),
        (0x0003, 0xFE),
    ]);
    cpu.mem.cpu_write(0x0003, 0x77);
    cpu.step();
    cpu.step();
    assert_eq!(cpu.a, 0x77);
}

#[test]
fn jsr_and_rts_roundtrip() {
    let mut cpu = cpu_with(&[(0x0000, 0x20), (0x0001, 0x06), (0x0002, 0x80), (0x0006, 0x60)]);
    let c1 = cpu.step();
    assert_eq!(c1, 6);
    assert_eq!(cpu.pc, 0x8006);
    let c2 = cpu.step();
    assert_eq!(c2, 6);
    assert_eq!(cpu.pc, 0x8003);
    assert_eq!(cpu.sp, 0xFD);
}

#[test]
fn undocumented_opcode_is_a_nop() {
    // Opcode $80 is undocumented: two bytes, two cycles, no effect.
    let mut cpu = cpu_with(&[(0x0000, 0x80), (0x0001, 0x00)]);
    let a = cpu.a;
    let cycles = cpu.step();
    assert_eq!(cycles, 2);
    assert_eq!(cpu.pc, 0x8002);
    assert_eq!(cpu.a, a);
}

#[test]
fn nmi_is_serviced_at_instruction_boundary() {
    let mut cpu = cpu_with(&[(0x3FFA, 0x20), (0x3FFB, 0x80)]);
    cpu.mem.cpu.set_nmi();
    let cycles = cpu.step();
    // Seven cycles for the interrupt, then the handler's first NOP.
    assert_eq!(cycles, 9);
    assert_eq!(cpu.pc, 0x8021);
    assert_eq!(cpu.i, 1);
    assert!(cpu.mem.cpu.interrupt.is_none());
}

#[test]
fn irq_is_masked_by_interrupt_disable() {
    // After reset the interrupt-disable flag is set, so a pending request
    // stays latched until the flag clears; CLI then lets the next step
    // service it through the vector at $FFFE.
    let mut cpu = cpu_with(&[
        (0x0000, 0xA9),
        (0x0001, 0x01), // LDA #$01
        (0x0002, 0x58), // CLI
        (0x3FFE, 0x30),
        (0x3FFF, 0x80),
    ]);
    assert_eq!(cpu.i, 1);
    cpu.mem.cpu.set_irq();
    let c1 = cpu.step();
    assert_eq!(c1, 2);
    assert_eq!(cpu.pc, 0x8002);
    assert!(cpu.mem.cpu.interrupt.is_some()); // still pending
    let c2 = cpu.step(); // CLI; the flag is checked before it clears
    assert_eq!(c2, 2);
    assert!(cpu.mem.cpu.interrupt.is_some());
    let c3 = cpu.step(); // serviced, then the handler's first NOP runs
    assert_eq!(c3, 9);
    assert_eq!(cpu.pc, 0x8031);
    assert_eq!(cpu.i, 1);
    assert!(cpu.mem.cpu.interrupt.is_none());
}

#[test]
fn brk_vectors_and_rti_returns() {
    // BRK pushes the program counter and the status with the break bit
    // set, vectors through $FFFE, and RTI comes back.
    let mut cpu = cpu_with(&[
        (0x0000, 0x00),
        (0x0010, 0x40),
        (0x3FFE, 0x10),
        (0x3FFF, 0x80),
    ]);
    let c1 = cpu.step();
    assert_eq!(c1, 7);
    assert_eq!(cpu.pc, 0x8010);
    assert_eq!(cpu.i, 1);
    assert_eq!(cpu.mem.cpu_read(0x01FB), 0x34); // status | break bit
    let c2 = cpu.step();
    assert_eq!(c2, 6);
    // BRK occupies two bytes: the return address skips its padding byte.
    assert_eq!(cpu.pc, 0x8002);
}

#[test]
fn status_read_acknowledges_frame_irq() {
    // Reading $4015 clears a pending frame-raised interrupt request; a
    // pending non-maskable interrupt survives the read.
    let mut cpu = cpu_with(&[(0x0000, 0xAD), (0x0001, 0x15), (0x0002, 0x40)]);
    cpu.mem.cpu.set_irq();
    let cycles = cpu.step(); // LDA $4015
    assert_eq!(cycles, 4);
    assert!(cpu.mem.cpu.interrupt.is_none());
    cpu.mem.cpu.set_nmi();
    cpu.mem.cpu_read(0x4015);
    assert!(cpu.mem.cpu.interrupt.is_some());
}
