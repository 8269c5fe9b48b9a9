use couchcast::{DeviceCapabilities, Direction, PadAxis, PadButton, RemoteAction};

#[test]
fn android_tv_supports_everything_common() {
    let caps = DeviceCapabilities::android_tv();
    assert!(caps.supports(&RemoteAction::Navigate(Direction::Up)));
    assert!(caps.supports(&RemoteAction::Text("hi".into())));
    assert!(caps.supports(&RemoteAction::GamepadButton {
        button: PadButton::South,
        pressed: true,
    }));
}

#[test]
fn basic_remote_drops_text_and_analog() {
    let caps = DeviceCapabilities::basic_remote();
    assert!(caps.supports(&RemoteAction::Select));
    assert!(!caps.supports(&RemoteAction::Text("hi".into())));
    assert!(!caps.supports(&RemoteAction::Analog {
        axis: PadAxis::LeftStickX,
        value_bits: 0.5f32.to_bits(),
    }));
}

#[test]
fn none_supports_nothing_and_flags_pick_categories() {
    let none = DeviceCapabilities::none();
    assert!(!none.supports(&RemoteAction::Select));
    assert!(!none.supports(&RemoteAction::Power));
    let mut caps = DeviceCapabilities::none();
    caps.volume = true;
    assert!(caps.supports(&RemoteAction::Mute));
    assert!(caps.supports(&RemoteAction::VolumeUp));
    assert!(!caps.supports(&RemoteAction::Play));
    assert!(!caps.supports(&RemoteAction::Back));
    caps.media_keys = true;
    assert!(caps.supports(&RemoteAction::Previous));
    let basic = DeviceCapabilities::basic_remote();
    assert!(basic.supports(&RemoteAction::Power));
    assert!(!basic.supports(&RemoteAction::GamepadButton {
        button: PadButton::North,
        pressed: false,
    }));
}
