use couchcast::debug::{button_label, dash, DebugOverlay};
use couchcast::router::PressedButtons;
use couchcast::PadButton;

#[test]
fn overlay_lists_held_buttons_in_display_order() {
    let mut overlay = DebugOverlay::new(false);
    assert!(!overlay.is_enabled());
    overlay.toggle();
    assert!(overlay.is_enabled());
    assert_eq!(overlay.buttons_line(), "—");
    let mut pressed = PressedButtons::new();
    pressed.insert(PadButton::Guide);
    pressed.insert(PadButton::South);
    pressed.insert(PadButton::DPadLeft);
    overlay.update(&pressed);
    assert_eq!(overlay.buttons_line(), "Left  A  Guide");
}

#[test]
fn overlay_text_lines() {
    let mut overlay = DebugOverlay::new(true);
    assert_eq!(overlay.pads_line(), "(none — Steam is not presenting a gamepad)");
    overlay.set_devices(&["Steam Virtual Gamepad".to_string(), "Xbox".to_string()]);
    assert_eq!(overlay.pads_line(), "Steam Virtual Gamepad, Xbox");
    assert_eq!(overlay.frame_line(), "—");
    overlay.on_capture_frame(1920, 1080, "NV12");
    assert_eq!(overlay.frame_line(), "1920×1080 NV12");
    overlay.set_capture_context("USB Capture".to_string(), String::new(), true);
    overlay.set_gpu("AMD".to_string());
    let (device, mode, audio, gpu, transport) = overlay.context_lines();
    assert_eq!(device, "USB Capture");
    assert_eq!(mode, "—");
    assert!(audio);
    assert_eq!(gpu, "AMD");
    assert_eq!(transport, "—");
    overlay.set_transport("adb 10.0.0.5".to_string());
    assert_eq!(overlay.context_lines().4, "adb 10.0.0.5");
}

#[test]
fn button_labels_and_dash() {
    assert_eq!(button_label(PadButton::South), "A");
    assert_eq!(button_label(PadButton::West), "X");
    assert_eq!(button_label(PadButton::LeftStick), "L3");
    assert_eq!(button_label(PadButton::RightTrigger), "RT");
    assert_eq!(dash(""), "—");
    assert_eq!(dash("x"), "x");
}
