use pnes::joypad::{Joypad, JoypadButton};

#[test]
fn reports_buttons_in_order_then_ones() {
    let mut pad = Joypad::new();
    pad.set_button_status(JoypadButton::A, true);
    pad.set_button_status(JoypadButton::Start, true);
    pad.set_button_status(JoypadButton::Right, true);
    pad.write(1);
    pad.write(0);
    let reads: Vec<u8> = (0..10).map(|_| pad.read()).collect();
    assert_eq!(reads, vec![1, 0, 0, 1, 0, 0, 0, 1, 1, 1]);
}

#[test]
fn strobe_keeps_reporting_a() {
    let mut pad = Joypad::new();
    pad.set_button_status(JoypadButton::A, true);
    pad.write(1);
    for _ in 0..5 {
        assert_eq!(pad.read(), 1);
    }
    assert_eq!(pad.index, 0);
}

#[test]
fn release_clears_the_button() {
    let mut pad = Joypad::new();
    pad.set_button_status(JoypadButton::B, true);
    pad.set_button_status(JoypadButton::Up, true);
    pad.set_button_status(JoypadButton::B, false);
    assert_eq!(pad.status, 0b0001_0000);
    assert_eq!(JoypadButton::Left.bits(), 0b0100_0000);
    assert_eq!(JoypadButton::Select.bits(), 0b0000_0100);
}
