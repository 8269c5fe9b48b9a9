//! The device-agnostic input vocabulary shared across the app.
use vstd::prelude::*;

verus! {

/// A directional navigation intent, the lowest common denominator every target
/// (Fire TV, Roku, a CEC TV, ...) understands.
#[derive(Debug, Clone, Copy, PartialEq, Eq, Hash, Structural)]
pub enum Direction {
    Up,
    Down,
    Left,
    Right,
}

/// Physical gamepad buttons, normalized to an Xbox-style layout, the way
/// controller libraries and Steam Input present a controller. This is the
/// source side of the button map.
#[derive(Debug, Clone, Copy, PartialEq, Eq, Hash, Structural)]
pub enum PadButton {
    /// A (bottom face button).
    South,
    /// B (right face button).
    East,
    /// Y (top face button).
    North,
    /// X (left face button).
    West,
    LeftBumper,
    RightBumper,
    LeftTrigger,
    RightTrigger,
    /// "View" / "Back" / minus.
    Select,
    /// "Menu" / "Start" / plus.
    Start,
    /// Guide / Steam / Home button.
    Guide,
    LeftStick,
    RightStick,
    DPadUp,
    DPadDown,
    DPadLeft,
    DPadRight,
}

/// Analog axes, normalized to `[-1.0, 1.0]` (triggers use `[0.0, 1.0]`).
#[derive(Debug, Clone, Copy, PartialEq, Eq, Hash, Structural)]
pub enum PadAxis {
    LeftStickX,
    LeftStickY,
    RightStickX,
    RightStickY,
    LeftTrigger,
    RightTrigger,
}

/// A device-agnostic action to forward to the target.
///
/// Backends downgrade gracefully according to their device capabilities: a
/// dpad-only CEC target simply ignores `Analog` and `GamepadButton`.
///
/// The analog value is carried as the raw bits of its IEEE-754 single-precision
/// number (`f32::to_bits`); no decision of the library depends on it.
#[derive(Debug, PartialEq)]
pub enum RemoteAction {
    // --- Navigation (universal) ---
    Navigate(Direction),
    Select,
    Back,
    Home,
    Menu,
    // --- Media transport ---
    PlayPause,
    Play,
    Pause,
    Stop,
    Rewind,
    FastForward,
    Next,
    Previous,
    // --- Volume / power ---
    VolumeUp,
    VolumeDown,
    Mute,
    Power,
    /// Text entry into an on-screen field (search boxes, logins, ...).
    Text(String),
    // --- Raw game-controller passthrough ---
    GamepadButton { button: PadButton, pressed: bool },
    Analog { axis: PadAxis, value_bits: u32 },
}

impl Clone for RemoteAction {
    fn clone(&self) -> (r: Self)
        ensures
            r == *self,
    {
        match self {
            RemoteAction::Navigate(d) => RemoteAction::Navigate(*d),
            RemoteAction::Select => RemoteAction::Select,
            RemoteAction::Back => RemoteAction::Back,
            RemoteAction::Home => RemoteAction::Home,
            RemoteAction::Menu => RemoteAction::Menu,
            RemoteAction::PlayPause => RemoteAction::PlayPause,
            RemoteAction::Play => RemoteAction::Play,
            RemoteAction::Pause => RemoteAction::Pause,
            RemoteAction::Stop => RemoteAction::Stop,
            RemoteAction::Rewind => RemoteAction::Rewind,
            RemoteAction::FastForward => RemoteAction::FastForward,
            RemoteAction::Next => RemoteAction::Next,
            RemoteAction::Previous => RemoteAction::Previous,
            RemoteAction::VolumeUp => RemoteAction::VolumeUp,
            RemoteAction::VolumeDown => RemoteAction::VolumeDown,
            RemoteAction::Mute => RemoteAction::Mute,
            RemoteAction::Power => RemoteAction::Power,
            RemoteAction::Text(t) => RemoteAction::Text(t.clone()),
            RemoteAction::GamepadButton { button, pressed } => RemoteAction::GamepadButton {
                button: *button,
                pressed: *pressed,
            },
            RemoteAction::Analog { axis, value_bits } => RemoteAction::Analog {
                axis: *axis,
                value_bits: *value_bits,
            },
        }
    }
}

} // verus!
