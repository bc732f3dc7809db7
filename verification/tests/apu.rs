use ludus::cart::Cart;
use ludus::console::Console;
use ludus::memory::MemoryBus;

fn bus() -> MemoryBus {
    let mut buffer = vec![0x4E, 0x45, 0x53, 0x1A, 1, 1, 0, 0, 0, 0, 0, 0, 0, 0, 0, 0];
    buffer.extend_from_slice(&[0xEAu8; 0x4000]);
    buffer.extend_from_slice(&[0u8; 0x2000]);
    MemoryBus::with_rom(&buffer).unwrap()
}

#[test]
fn length_write_loads_from_the_length_table() {
    // The five high bits of a length write index the length table: index 1
    // loads 254, index 0 loads 10.
    let mut bus = bus();
    bus.cpu_write(0x4003, 0x08);
    assert_eq!(bus.apu.square1.length_value, 254);
    bus.cpu_write(0x4007, 0x00);
    assert_eq!(bus.apu.square2.length_value, 10);
}

#[test]
fn status_reports_live_length_counters() {
    let mut bus = bus();
    assert_eq!(bus.cpu_read(0x4015), 0);
    bus.cpu_write(0x4003, 0x08); // square 1
    bus.cpu_write(0x400B, 0x08); // triangle
    assert_eq!(bus.cpu_read(0x4015), 0b101);
    // Disabling a channel through the control port silences it.
    bus.cpu_write(0x4015, 0b100);
    assert_eq!(bus.cpu_read(0x4015), 0b100);
}

#[test]
fn noise_period_comes_from_the_lookup_table() {
    let mut bus = bus();
    bus.cpu_write(0x400E, 0x0F);
    assert_eq!(bus.apu.noise.timer_period, 4068);
    bus.cpu_write(0x400E, 0x80);
    assert_eq!(bus.apu.noise.timer_period, 4);
    assert!(bus.apu.noise.mode);
}

#[test]
fn dmc_level_write_is_masked_to_seven_bits() {
    let mut bus = bus();
    bus.cpu_write(0x4011, 0xFF);
    assert_eq!(bus.apu.dmc.value, 0x7F);
    bus.cpu_write(0x4012, 0x01);
    assert_eq!(bus.apu.dmc.sample_address, 0xC040);
    bus.cpu_write(0x4013, 0x02);
    assert_eq!(bus.apu.dmc.sample_length, 0x21);
}

#[test]
fn five_step_mode_clocks_once_immediately() {
    // Writing the five-step frame-counter mode performs an immediate
    // envelope, sweep and length clock.
    let mut bus = bus();
    bus.cpu_write(0x4000, 0x00); // length counting enabled
    bus.cpu_write(0x4003, 0x08); // length 254
    bus.cpu_write(0x4017, 0x80);
    assert_eq!(bus.apu.square1.length_value, 253);
    assert_eq!(bus.apu.frame_period, 5);
}

#[test]
fn sweep_adds_the_shifted_period() {
    let mut bus = bus();
    bus.cpu_write(0x4002, 0x40); // period 0x40
    bus.cpu_write(0x4001, 0x81); // sweep enabled, shift 1
    bus.cpu_write(0x4017, 0x80); // immediate half-frame clock
    assert_eq!(bus.apu.square1.timer_period, 0x60);
}

#[test]
fn sweep_write_sets_the_divider_period() {
    // The divider period is the three period bits plus one.
    let mut bus = bus();
    bus.cpu_write(0x4001, 0x81);
    assert_eq!(bus.apu.square1.sweep_period, 1);
    bus.cpu_write(0x4001, 0xF1);
    assert_eq!(bus.apu.square1.sweep_period, 8);
    bus.cpu_write(0x4001, 0x23);
    assert_eq!(bus.apu.square1.sweep_period, 3);
}

#[test]
fn negated_sweep_subtracts_one_more_on_the_first_channel() {
    let mut bus = bus();
    // First channel: 0x40 - 0x20 - 1.
    bus.cpu_write(0x4002, 0x40);
    bus.cpu_write(0x4001, 0x89); // enabled, negated, shift 1
    // Second channel: 0x40 - 0x20.
    bus.cpu_write(0x4006, 0x40);
    bus.cpu_write(0x4005, 0x89);
    bus.cpu_write(0x4017, 0x80);
    assert_eq!(bus.apu.square1.timer_period, 0x1F);
    assert_eq!(bus.apu.square2.timer_period, 0x20);
}

#[test]
fn square_control_sets_duty_and_volume() {
    let mut bus = bus();
    bus.cpu_write(0x4000, 0b1111_0110);
    assert_eq!(bus.apu.square1.duty_mode, 3);
    assert_eq!(bus.apu.square1.constant_volume, 6);
    assert_eq!(bus.apu.square1.envelope_period, 6);
    assert!(!bus.apu.square1.length_enabled);
    assert!(bus.apu.square1.envelope_loop);
    assert!(bus.apu.square1.envelope_start);
}

#[test]
fn sample_cap_follows_the_sample_rate() {
    let mut buffer = vec![0x4E, 0x45, 0x53, 0x1A, 1, 1, 0, 0, 0, 0, 0, 0, 0, 0, 0, 0];
    buffer.extend_from_slice(&[0xEAu8; 0x4000]);
    buffer.extend_from_slice(&[0u8; 0x2000]);
    let cart = Cart::from_bytes(&buffer).unwrap();
    let console = Console::new(cart, 44_100).unwrap();
    assert_eq!(console.apu.sample_cap, 1_790_000 / 44_100);
    assert_eq!(console.apu.sample_cap, 40);
}
