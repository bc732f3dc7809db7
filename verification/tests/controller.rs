use ludus::controller::{ButtonState, Controller};
use ludus::memory::MemoryBus;

fn pressed(a: bool, select: bool, right: bool) -> ButtonState {
    ButtonState {
        a,
        b: false,
        select,
        start: false,
        up: false,
        down: false,
        left: false,
        right,
    }
}

#[test]
fn serial_reads_return_buttons_in_order() {
    // After a rising-edge strobe, eight successive reads return the button
    // state in order A, B, Select, Start, Up, Down, Left, Right.
    let mut controller = Controller::new();
    controller.set_buttons(pressed(true, true, true));
    controller.write(1);
    controller.write(0);
    let expected = [1u8, 0, 1, 0, 0, 0, 0, 1];
    for (i, want) in expected.iter().enumerate() {
        let got = controller.read();
        assert_eq!(got, *want, "button {}", i);
    }
}

#[test]
fn reads_past_the_register_return_ones() {
    let mut controller = Controller::new();
    controller.set_buttons(pressed(false, false, false));
    controller.write(1);
    controller.write(0);
    for _ in 0..8 {
        controller.read();
    }
    assert_eq!(controller.read(), 1);
    assert_eq!(controller.read(), 1);
}

#[test]
fn held_strobe_keeps_returning_the_first_button() {
    let mut controller = Controller::new();
    controller.set_buttons(pressed(true, false, false));
    controller.write(1);
    assert_eq!(controller.read(), 1);
    assert_eq!(controller.read(), 1);
    assert_eq!(controller.read(), 1);
}

#[test]
fn controllers_answer_on_the_bus_ports() {
    let mut buffer = vec![0x4E, 0x45, 0x53, 0x1A, 1, 1, 0, 0, 0, 0, 0, 0, 0, 0, 0, 0];
    buffer.extend_from_slice(&[0xEAu8; 0x4000]);
    buffer.extend_from_slice(&[0u8; 0x2000]);
    let mut bus = MemoryBus::with_rom(&buffer).unwrap();
    bus.controller1.set_buttons(pressed(false, true, false));
    bus.cpu_write(0x4016, 1);
    bus.cpu_write(0x4016, 0);
    assert_eq!(bus.cpu_read(0x4016), 0); // A
    assert_eq!(bus.cpu_read(0x4016), 0); // B
    assert_eq!(bus.cpu_read(0x4016), 1); // Select
    // The second controller has no buttons pressed.
    assert_eq!(bus.cpu_read(0x4017), 0);
}
