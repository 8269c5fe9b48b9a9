//! What a given target can actually do, so unsupported actions are dropped
//! rather than erroring.
use vstd::prelude::*;

use crate::event::RemoteAction;

verus! {

/// The set of [`RemoteAction`] categories a target understands.
#[derive(Debug, Clone, Copy, PartialEq, Eq, Structural)]
pub struct DeviceCapabilities {
    /// D-pad navigation + select/back/home/menu.
    pub navigation: bool,
    /// Play/pause/stop/seek/skip.
    pub media_keys: bool,
    /// Volume up/down/mute.
    pub volume: bool,
    /// Power on/off/toggle.
    pub power: bool,
    /// On-screen text entry.
    pub text_input: bool,
    /// Analog stick / trigger passthrough.
    pub analog: bool,
    /// Raw gamepad button passthrough (for games on the target).
    pub raw_gamepad: bool,
}

/// Whether a target with capabilities `caps` can express `action`: the
/// capability flag of the action's category.
pub open spec fn supports_spec(caps: DeviceCapabilities, action: RemoteAction) -> bool {
    match action {
        RemoteAction::Navigate(_) | RemoteAction::Select | RemoteAction::Back
        | RemoteAction::Home | RemoteAction::Menu => caps.navigation,
        RemoteAction::PlayPause | RemoteAction::Play | RemoteAction::Pause | RemoteAction::Stop
        | RemoteAction::Rewind | RemoteAction::FastForward | RemoteAction::Next
        | RemoteAction::Previous => caps.media_keys,
        RemoteAction::VolumeUp | RemoteAction::VolumeDown | RemoteAction::Mute => caps.volume,
        RemoteAction::Power => caps.power,
        RemoteAction::Text(_) => caps.text_input,
        RemoteAction::Analog { .. } => caps.analog,
        RemoteAction::GamepadButton { .. } => caps.raw_gamepad,
    }
}

/// Text entry, analog passthrough and raw gamepad buttons: the categories a
/// basic remote lacks.
pub open spec fn is_rich_action(action: RemoteAction) -> bool {
    action is Text || action is Analog || action is GamepadButton
}

impl DeviceCapabilities {
    /// Capabilities with every flag set to `on`.
    pub open spec fn uniform_spec(on: bool) -> Self {
        DeviceCapabilities {
            navigation: on,
            media_keys: on,
            volume: on,
            power: on,
            text_input: on,
            analog: on,
            raw_gamepad: on,
        }
    }

    /// The capabilities of a target that can do nothing.
    pub open spec fn none_spec() -> Self {
        Self::uniform_spec(false)
    }

    /// The capabilities of an Android TV / Fire TV target: everything.
    pub open spec fn android_tv_spec() -> Self {
        Self::uniform_spec(true)
    }

    /// The capabilities of a basic remote: navigation, media, volume and power.
    pub open spec fn basic_remote_spec() -> Self {
        DeviceCapabilities {
            navigation: true,
            media_keys: true,
            volume: true,
            power: true,
            text_input: false,
            analog: false,
            raw_gamepad: false,
        }
    }

    /// A target that can do nothing (useful as a base to build up from).
    pub fn none() -> (r: Self)
        ensures
            r == Self::none_spec(),
    {
        DeviceCapabilities {
            navigation: false,
            media_keys: false,
            volume: false,
            power: false,
            text_input: false,
            analog: false,
            raw_gamepad: false,
        }
    }

    /// A typical Android TV / Fire TV target reached over ADB: it accepts the
    /// full range of actions.
    pub fn android_tv() -> (r: Self)
        ensures
            r == Self::android_tv_spec(),
    {
        DeviceCapabilities {
            navigation: true,
            media_keys: true,
            volume: true,
            power: true,
            text_input: true,
            analog: true,
            raw_gamepad: true,
        }
    }

    /// A basic HDMI-CEC / infrared style remote: navigation, media and power,
    /// but no text or analog.
    pub fn basic_remote() -> (r: Self)
        ensures
            r == Self::basic_remote_spec(),
    {
        DeviceCapabilities {
            navigation: true,
            media_keys: true,
            volume: true,
            power: true,
            text_input: false,
            analog: false,
            raw_gamepad: false,
        }
    }

    /// Whether this target can express `action`.
    pub fn supports(&self, action: &RemoteAction) -> (r: bool)
        ensures
            r == supports_spec(*self, *action),
    {
        match action {
            RemoteAction::Navigate(_) | RemoteAction::Select | RemoteAction::Back
            | RemoteAction::Home | RemoteAction::Menu => self.navigation,
            RemoteAction::PlayPause | RemoteAction::Play | RemoteAction::Pause
            | RemoteAction::Stop | RemoteAction::Rewind | RemoteAction::FastForward
            | RemoteAction::Next | RemoteAction::Previous => self.media_keys,
            RemoteAction::VolumeUp | RemoteAction::VolumeDown | RemoteAction::Mute => self.volume,
            RemoteAction::Power => self.power,
            RemoteAction::Text(_) => self.text_input,
            RemoteAction::Analog { .. } => self.analog,
            RemoteAction::GamepadButton { .. } => self.raw_gamepad,
        }
    }
}

/// An Android TV target supports every action.
pub proof fn law_android_tv_supports_everything(action: RemoteAction)
    ensures
        supports_spec(DeviceCapabilities::android_tv_spec(), action),
{
}

/// A target with no capabilities supports no action.
pub proof fn law_none_supports_nothing(action: RemoteAction)
    ensures
        !supports_spec(DeviceCapabilities::none_spec(), action),
{
}

/// A basic remote supports exactly the actions that are neither text, analog
/// nor raw gamepad buttons.
pub proof fn law_basic_remote_drops_text_and_analog(action: RemoteAction)
    ensures
        supports_spec(DeviceCapabilities::basic_remote_spec(), action) <==> !is_rich_action(
            action,
        ),
{
}

} // verus!
