//! Controller input, normalized.
//!
//! The app reads the controller (under SteamOS Gaming Mode, the normalized
//! "Steam Virtual Gamepad") through a controller library and reports each of
//! its events here as a [`RawPadEvent`]. This module turns them into a small,
//! toolkit-free [`PadEvent`] stream in the transport vocabulary, and derives
//! the menu navigation intents from it.
use vstd::prelude::*;

use crate::event::{PadAxis, PadButton};

verus! {

/// Errors initializing the input subsystem.
#[derive(Debug)]
pub enum InputError {
    /// Failed to initialize gamepad input; the controller library's message.
    Init(String),
}

/// A normalized controller event.
///
/// Axis values are carried as the raw bits of their IEEE-754 single-precision
/// number (`f32::to_bits`), normalized to `[-1.0, 1.0]`.
#[derive(Debug, Clone, PartialEq)]
pub enum PadEvent {
    /// A face/shoulder/dpad button changed state.
    Button { button: PadButton, pressed: bool },
    /// An analog axis moved.
    Axis { axis: PadAxis, value_bits: u32 },
    /// A controller was connected.
    Connected { name: String },
    /// A controller was disconnected.
    Disconnected { name: String },
}

/// A high-level UI navigation intent derived from a [`PadEvent`], used to
/// drive focus when the settings overlay is open.
#[derive(Debug, Clone, Copy, PartialEq, Eq, Structural)]
pub enum NavEvent {
    Up,
    Down,
    Left,
    Right,
    /// Activate the focused widget (A / South).
    Activate,
    /// Close the overlay / go back (B / East).
    Back,
}

/// A directional step of the menu cursor (from the D-pad or the stick).
#[derive(Debug, Clone, Copy, PartialEq, Eq, Structural)]
pub enum NavDir {
    Up,
    Down,
    Left,
    Right,
}

/// A button as the controller library reports it, after its controller-DB
/// mapping: `LeftTrigger`/`RightTrigger` are the bumpers (L1/R1) and
/// `LeftTrigger2`/`RightTrigger2` the analog triggers (L2/R2).
#[derive(Debug, Clone, Copy, PartialEq, Eq, Structural)]
pub enum RawButton {
    South,
    East,
    North,
    West,
    C,
    Z,
    LeftTrigger,
    LeftTrigger2,
    RightTrigger,
    RightTrigger2,
    Select,
    Start,
    Mode,
    LeftThumb,
    RightThumb,
    DPadUp,
    DPadDown,
    DPadLeft,
    DPadRight,
    Unknown,
}

/// An axis as the controller library reports it.
#[derive(Debug, Clone, Copy, PartialEq, Eq, Structural)]
pub enum RawAxis {
    LeftStickX,
    LeftStickY,
    LeftZ,
    RightStickX,
    RightStickY,
    RightZ,
    DPadX,
    DPadY,
    Unknown,
}

/// A controller event as the controller library reports it. Controller names
/// are resolved by the app when the event arrives.
#[derive(Debug, Clone, PartialEq)]
pub enum RawPadEvent {
    ButtonPressed(RawButton),
    ButtonReleased(RawButton),
    AxisChanged(RawAxis, u32),
    Connected(String),
    Disconnected(String),
    /// Any other event (repeats, value changes, force feedback, ...).
    Other,
}

/// The navigation intent of a pad event: D-pad presses move, A activates, B
/// goes back; releases and everything else navigate nowhere.
pub open spec fn nav_spec(event: PadEvent) -> Option<NavEvent> {
    match event {
        PadEvent::Button { button, pressed } => if !pressed {
            None
        } else {
            match button {
                PadButton::DPadUp => Some(NavEvent::Up),
                PadButton::DPadDown => Some(NavEvent::Down),
                PadButton::DPadLeft => Some(NavEvent::Left),
                PadButton::DPadRight => Some(NavEvent::Right),
                PadButton::South => Some(NavEvent::Activate),
                PadButton::East => Some(NavEvent::Back),
                _ => None,
            }
        },
        _ => None,
    }
}

/// Derive a UI navigation intent from a pad event (button presses only).
pub fn nav_from_pad(event: &PadEvent) -> (r: Option<NavEvent>)
    ensures
        r == nav_spec(*event),
{
    match event {
        PadEvent::Button { button, pressed } => {
            if !*pressed {
                return None;
            }
            match button {
                PadButton::DPadUp => Some(NavEvent::Up),
                PadButton::DPadDown => Some(NavEvent::Down),
                PadButton::DPadLeft => Some(NavEvent::Left),
                PadButton::DPadRight => Some(NavEvent::Right),
                PadButton::South => Some(NavEvent::Activate),
                PadButton::East => Some(NavEvent::Back),
                _ => None,
            }
        },
        _ => None,
    }
}

/// Our normalized button for a library button; C, Z and unknown buttons have
/// no place in an Xbox layout.
pub open spec fn button_spec(button: RawButton) -> Option<PadButton> {
    match button {
        RawButton::South => Some(PadButton::South),
        RawButton::East => Some(PadButton::East),
        RawButton::North => Some(PadButton::North),
        RawButton::West => Some(PadButton::West),
        RawButton::LeftTrigger => Some(PadButton::LeftBumper),
        RawButton::RightTrigger => Some(PadButton::RightBumper),
        RawButton::LeftTrigger2 => Some(PadButton::LeftTrigger),
        RawButton::RightTrigger2 => Some(PadButton::RightTrigger),
        RawButton::Select => Some(PadButton::Select),
        RawButton::Start => Some(PadButton::Start),
        RawButton::Mode => Some(PadButton::Guide),
        RawButton::LeftThumb => Some(PadButton::LeftStick),
        RawButton::RightThumb => Some(PadButton::RightStick),
        RawButton::DPadUp => Some(PadButton::DPadUp),
        RawButton::DPadDown => Some(PadButton::DPadDown),
        RawButton::DPadLeft => Some(PadButton::DPadLeft),
        RawButton::DPadRight => Some(PadButton::DPadRight),
        RawButton::C | RawButton::Z | RawButton::Unknown => None,
    }
}

/// Map a library button to our normalized [`PadButton`].
pub fn map_button(button: RawButton) -> (r: Option<PadButton>)
    ensures
        r == button_spec(button),
{
    match button {
        RawButton::South => Some(PadButton::South),
        RawButton::East => Some(PadButton::East),
        RawButton::North => Some(PadButton::North),
        RawButton::West => Some(PadButton::West),
        RawButton::LeftTrigger => Some(PadButton::LeftBumper),
        RawButton::RightTrigger => Some(PadButton::RightBumper),
        RawButton::LeftTrigger2 => Some(PadButton::LeftTrigger),
        RawButton::RightTrigger2 => Some(PadButton::RightTrigger),
        RawButton::Select => Some(PadButton::Select),
        RawButton::Start => Some(PadButton::Start),
        RawButton::Mode => Some(PadButton::Guide),
        RawButton::LeftThumb => Some(PadButton::LeftStick),
        RawButton::RightThumb => Some(PadButton::RightStick),
        RawButton::DPadUp => Some(PadButton::DPadUp),
        RawButton::DPadDown => Some(PadButton::DPadDown),
        RawButton::DPadLeft => Some(PadButton::DPadLeft),
        RawButton::DPadRight => Some(PadButton::DPadRight),
        RawButton::C | RawButton::Z | RawButton::Unknown => None,
    }
}

/// Our normalized axis for a library axis; the D-pad axes are ignored because
/// the D-pad is surfaced as buttons.
pub open spec fn axis_spec(axis: RawAxis) -> Option<PadAxis> {
    match axis {
        RawAxis::LeftStickX => Some(PadAxis::LeftStickX),
        RawAxis::LeftStickY => Some(PadAxis::LeftStickY),
        RawAxis::RightStickX => Some(PadAxis::RightStickX),
        RawAxis::RightStickY => Some(PadAxis::RightStickY),
        RawAxis::LeftZ => Some(PadAxis::LeftTrigger),
        RawAxis::RightZ => Some(PadAxis::RightTrigger),
        RawAxis::DPadX | RawAxis::DPadY | RawAxis::Unknown => None,
    }
}

/// Map a library axis to our normalized [`PadAxis`].
pub fn map_axis(axis: RawAxis) -> (r: Option<PadAxis>)
    ensures
        r == axis_spec(axis),
{
    match axis {
        RawAxis::LeftStickX => Some(PadAxis::LeftStickX),
        RawAxis::LeftStickY => Some(PadAxis::LeftStickY),
        RawAxis::RightStickX => Some(PadAxis::RightStickX),
        RawAxis::RightStickY => Some(PadAxis::RightStickY),
        RawAxis::LeftZ => Some(PadAxis::LeftTrigger),
        RawAxis::RightZ => Some(PadAxis::RightTrigger),
        RawAxis::DPadX | RawAxis::DPadY | RawAxis::Unknown => None,
    }
}

/// The normalized event of a library event, if it has one.
pub open spec fn pad_event_spec(raw: RawPadEvent) -> Option<PadEvent> {
    match raw {
        RawPadEvent::ButtonPressed(b) => match button_spec(b) {
            Some(button) => Some(PadEvent::Button { button, pressed: true }),
            None => None,
        },
        RawPadEvent::ButtonReleased(b) => match button_spec(b) {
            Some(button) => Some(PadEvent::Button { button, pressed: false }),
            None => None,
        },
        RawPadEvent::AxisChanged(a, value_bits) => match axis_spec(a) {
            Some(axis) => Some(PadEvent::Axis { axis, value_bits }),
            None => None,
        },
        RawPadEvent::Connected(name) => Some(PadEvent::Connected { name }),
        RawPadEvent::Disconnected(name) => Some(PadEvent::Disconnected { name }),
        RawPadEvent::Other => None,
    }
}

/// Normalize one controller-library event; unmapped buttons and axes and
/// other event kinds yield nothing.
pub fn pad_event_from(raw: RawPadEvent) -> (r: Option<PadEvent>)
    ensures
        r == pad_event_spec(raw),
{
    match raw {
        RawPadEvent::ButtonPressed(b) => match map_button(b) {
            Some(button) => Some(PadEvent::Button { button, pressed: true }),
            None => None,
        },
        RawPadEvent::ButtonReleased(b) => match map_button(b) {
            Some(button) => Some(PadEvent::Button { button, pressed: false }),
            None => None,
        },
        RawPadEvent::AxisChanged(a, value_bits) => match map_axis(a) {
            Some(axis) => Some(PadEvent::Axis { axis, value_bits }),
            None => None,
        },
        RawPadEvent::Connected(name) => Some(PadEvent::Connected { name }),
        RawPadEvent::Disconnected(name) => Some(PadEvent::Disconnected { name }),
        RawPadEvent::Other => None,
    }
}

/// Every normalized button comes from exactly one library button, so no two
/// physical buttons are confused.
pub proof fn law_button_mapping_is_injective(a: RawButton, b: RawButton)
    ensures
        button_spec(a) is Some && button_spec(a) == button_spec(b) ==> a == b,
{
}

/// Only presses navigate; a release never does.
pub proof fn law_release_never_navigates(button: PadButton)
    ensures
        nav_spec(PadEvent::Button { button, pressed: false }) is None,
{
}

/// A pressed D-pad button navigates in the direction it names, A (South)
/// activates and B (East) goes back.
pub proof fn law_dpad_navigates_its_direction()
    ensures
        nav_spec(PadEvent::Button { button: PadButton::DPadUp, pressed: true }) == Some(
            NavEvent::Up,
        ),
        nav_spec(PadEvent::Button { button: PadButton::DPadDown, pressed: true }) == Some(
            NavEvent::Down,
        ),
        nav_spec(PadEvent::Button { button: PadButton::DPadLeft, pressed: true }) == Some(
            NavEvent::Left,
        ),
        nav_spec(PadEvent::Button { button: PadButton::DPadRight, pressed: true }) == Some(
            NavEvent::Right,
        ),
        nav_spec(PadEvent::Button { button: PadButton::South, pressed: true }) == Some(
            NavEvent::Activate,
        ),
        nav_spec(PadEvent::Button { button: PadButton::East, pressed: true }) == Some(
            NavEvent::Back,
        ),
{
}

/// Every library button that has a same-named normalized button becomes that
/// button: the face buttons, Select, Start and the D-pad keep their names
/// (the library's bumpers and triggers carry the L1/L2 names of its
/// controller database instead).
pub proof fn law_buttons_keep_their_names()
    ensures
        button_spec(RawButton::South) == Some(PadButton::South),
        button_spec(RawButton::East) == Some(PadButton::East),
        button_spec(RawButton::North) == Some(PadButton::North),
        button_spec(RawButton::West) == Some(PadButton::West),
        button_spec(RawButton::Select) == Some(PadButton::Select),
        button_spec(RawButton::Start) == Some(PadButton::Start),
        button_spec(RawButton::DPadUp) == Some(PadButton::DPadUp),
        button_spec(RawButton::DPadDown) == Some(PadButton::DPadDown),
        button_spec(RawButton::DPadLeft) == Some(PadButton::DPadLeft),
        button_spec(RawButton::DPadRight) == Some(PadButton::DPadRight),
        button_spec(RawButton::LeftTrigger) == Some(PadButton::LeftBumper),
        button_spec(RawButton::RightTrigger) == Some(PadButton::RightBumper),
        button_spec(RawButton::LeftTrigger2) == Some(PadButton::LeftTrigger),
        button_spec(RawButton::RightTrigger2) == Some(PadButton::RightTrigger),
        button_spec(RawButton::Mode) == Some(PadButton::Guide),
        button_spec(RawButton::LeftThumb) == Some(PadButton::LeftStick),
        button_spec(RawButton::RightThumb) == Some(PadButton::RightStick),
{
}

} // verus!
