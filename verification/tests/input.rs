use couchcast::input::{map_axis, map_button, nav_from_pad, pad_event_from, RawAxis, RawButton, RawPadEvent};
use couchcast::{NavEvent, PadAxis, PadButton, PadEvent};

#[test]
fn dpad_maps_to_nav() {
    let ev = PadEvent::Button {
        button: PadButton::DPadLeft,
        pressed: true,
    };
    assert_eq!(nav_from_pad(&ev), Some(NavEvent::Left));
}

#[test]
fn south_activates_east_goes_back() {
    assert_eq!(
        nav_from_pad(&PadEvent::Button {
            button: PadButton::South,
            pressed: true
        }),
        Some(NavEvent::Activate)
    );
    assert_eq!(
        nav_from_pad(&PadEvent::Button {
            button: PadButton::East,
            pressed: true
        }),
        Some(NavEvent::Back)
    );
}

#[test]
fn button_release_is_not_navigation() {
    let ev = PadEvent::Button {
        button: PadButton::DPadUp,
        pressed: false,
    };
    assert_eq!(nav_from_pad(&ev), None);
}

#[test]
fn gilrs_bumpers_map_to_our_bumpers() {
    assert_eq!(map_button(RawButton::LeftTrigger), Some(PadButton::LeftBumper));
    assert_eq!(
        map_button(RawButton::LeftTrigger2),
        Some(PadButton::LeftTrigger)
    );
    assert_eq!(map_button(RawButton::Mode), Some(PadButton::Guide));
}

#[test]
fn c_z_and_dpad_axes_are_not_mapped() {
    assert_eq!(map_button(RawButton::C), None);
    assert_eq!(map_button(RawButton::Z), None);
    assert_eq!(map_button(RawButton::Unknown), None);
    assert_eq!(map_axis(RawAxis::DPadX), None);
    assert_eq!(map_axis(RawAxis::LeftZ), Some(PadAxis::LeftTrigger));
}

#[test]
fn raw_events_normalize() {
    assert_eq!(
        pad_event_from(RawPadEvent::ButtonReleased(RawButton::South)),
        Some(PadEvent::Button {
            button: PadButton::South,
            pressed: false
        })
    );
    let bits = 0.25f32.to_bits();
    assert_eq!(
        pad_event_from(RawPadEvent::AxisChanged(RawAxis::RightStickY, bits)),
        Some(PadEvent::Axis {
            axis: PadAxis::RightStickY,
            value_bits: bits
        })
    );
    assert_eq!(
        pad_event_from(RawPadEvent::Connected("Steam Virtual Gamepad".to_string())),
        Some(PadEvent::Connected {
            name: "Steam Virtual Gamepad".to_string()
        })
    );
    assert_eq!(pad_event_from(RawPadEvent::Other), None);
    assert_eq!(pad_event_from(RawPadEvent::ButtonPressed(RawButton::C)), None);
}

#[test]
fn non_button_events_do_not_navigate() {
    assert_eq!(
        nav_from_pad(&PadEvent::Connected {
            name: "pad".to_string()
        }),
        None
    );
    assert_eq!(
        nav_from_pad(&PadEvent::Button {
            button: PadButton::North,
            pressed: true
        }),
        None
    );
}
