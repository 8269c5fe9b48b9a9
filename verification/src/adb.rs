//! The command language of the ADB-over-TCP backend for Fire TV / Android TV.
//!
//! The backend keeps one long-lived `adb shell` open and streams command lines
//! into its stdin instead of invoking `adb` per keypress. This module decides
//! what goes over that pipe: the `-s <serial>` a target resolves to, the shell
//! line an action becomes (or that it is dropped), how text is escaped so no
//! shell metacharacter reaches the device, and how `adb connect` output is
//! judged.
use vstd::prelude::*;

use crate::capabilities::DeviceCapabilities;
use crate::event::{Direction, PadButton, RemoteAction};
use crate::text::{ascii_lowercase, decimal, has_infix, lowercase_contains, push_decimal,
    opt_view, str_contains_char, trim, trimmed};
use crate::transport::{TargetAddr, TransportError};

verus! {

/// Default ADB-over-TCP port exposed by Fire TV / Android TV.
pub const DEFAULT_ADB_PORT: u16 = 5555;

/// The `-s` serial ADB expects for `target`: a network host gets the default
/// port appended unless it already names one (contains `:`); a USB serial is
/// used as is.
pub open spec fn serial_spec(target: TargetAddr) -> Seq<char> {
    match target {
        TargetAddr::Network(host) => if host@.contains(':') {
            host@
        } else {
            host@ + seq![':'] + decimal(DEFAULT_ADB_PORT as nat)
        },
        TargetAddr::UsbSerial(serial) => serial@,
    }
}

/// Resolve a [`TargetAddr`] into the `-s <serial>` string ADB expects.
pub fn serial_for(target: &TargetAddr) -> (r: String)
    ensures
        r@ == serial_spec(*target),
{
    match target {
        TargetAddr::Network(host) => {
            if str_contains_char(host.as_str(), ':') {
                host.clone()
            } else {
                let mut s = host.clone();
                proof {
                    reveal_strlit(":");
                }
                s.append(":");
                push_decimal(&mut s, DEFAULT_ADB_PORT as u64);
                s
            }
        },
        TargetAddr::UsbSerial(serial) => serial.clone(),
    }
}

/// The Android `KEYCODE_BUTTON_*` value of a normalized pad button.
pub open spec fn gamepad_keycode_spec(button: PadButton) -> u16 {
    match button {
        PadButton::South => 96,
        PadButton::East => 97,
        PadButton::West => 99,
        PadButton::North => 100,
        PadButton::LeftBumper => 102,
        PadButton::RightBumper => 103,
        PadButton::LeftTrigger => 104,
        PadButton::RightTrigger => 105,
        PadButton::Select => 109,
        PadButton::Start => 108,
        PadButton::Guide => 110,
        PadButton::LeftStick => 106,
        PadButton::RightStick => 107,
        PadButton::DPadUp => 19,
        PadButton::DPadDown => 20,
        PadButton::DPadLeft => 21,
        PadButton::DPadRight => 22,
    }
}

/// Map a normalized pad button to an Android `KEYCODE_BUTTON_*` value.
pub fn gamepad_keycode(button: PadButton) -> (r: u16)
    ensures
        r == gamepad_keycode_spec(button),
{
    match button {
        PadButton::South => 96,  // BUTTON_A
        PadButton::East => 97,  // BUTTON_B
        PadButton::West => 99,  // BUTTON_X
        PadButton::North => 100,  // BUTTON_Y
        PadButton::LeftBumper => 102,  // BUTTON_L1
        PadButton::RightBumper => 103,  // BUTTON_R1
        PadButton::LeftTrigger => 104,  // BUTTON_L2
        PadButton::RightTrigger => 105,  // BUTTON_R2
        PadButton::Select => 109,  // BUTTON_SELECT
        PadButton::Start => 108,  // BUTTON_START
        PadButton::Guide => 110,  // BUTTON_MODE
        PadButton::LeftStick => 106,  // BUTTON_THUMBL
        PadButton::RightStick => 107,  // BUTTON_THUMBR
        PadButton::DPadUp => 19,
        PadButton::DPadDown => 20,
        PadButton::DPadLeft => 21,
        PadButton::DPadRight => 22,
    }
}

/// The Android `KEYCODE_*` an action is sent as, for actions that are a
/// discrete key event. Raw gamepad buttons are sent on press only; text has
/// its own command and analog input has no `input` equivalent.
pub open spec fn keycode_spec(action: RemoteAction) -> Option<u16> {
    match action {
        RemoteAction::Navigate(Direction::Up) => Some(19),
        RemoteAction::Navigate(Direction::Down) => Some(20),
        RemoteAction::Navigate(Direction::Left) => Some(21),
        RemoteAction::Navigate(Direction::Right) => Some(22),
        RemoteAction::Select => Some(23),
        RemoteAction::Back => Some(4),
        RemoteAction::Home => Some(3),
        RemoteAction::Menu => Some(82),
        RemoteAction::PlayPause => Some(85),
        RemoteAction::Play => Some(126),
        RemoteAction::Pause => Some(127),
        RemoteAction::Stop => Some(86),
        RemoteAction::Rewind => Some(89),
        RemoteAction::FastForward => Some(90),
        RemoteAction::Next => Some(87),
        RemoteAction::Previous => Some(88),
        RemoteAction::VolumeUp => Some(24),
        RemoteAction::VolumeDown => Some(25),
        RemoteAction::Mute => Some(164),
        RemoteAction::Power => Some(26),
        RemoteAction::GamepadButton { button, pressed } => if pressed {
            Some(gamepad_keycode_spec(button))
        } else {
            None
        },
        RemoteAction::Text(_) => None,
        RemoteAction::Analog { .. } => None,
    }
}

/// Characters `input text` receives literally: ASCII letters and digits, `.`,
/// `-` and `_`.
pub open spec fn text_safe(c: char) -> bool {
    ('a' <= c && c <= 'z') || ('A' <= c && c <= 'Z') || ('0' <= c && c <= '9') || c == '.' || c
        == '-' || c == '_'
}

/// What one character of entered text becomes: a space becomes `%s`, a safe
/// character stays, anything else is dropped.
pub open spec fn escape_char(c: char) -> Seq<char> {
    if c == ' ' {
        seq!['%', 's']
    } else if text_safe(c) {
        seq![c]
    } else {
        Seq::empty()
    }
}

/// `text` escaped for Android's `input text`, character by character.
pub open spec fn escape_spec(text: Seq<char>) -> Seq<char>
    decreases text.len(),
{
    if text.len() == 0 {
        Seq::empty()
    } else {
        escape_spec(text.drop_last()) + escape_char(text.last())
    }
}

/// Escape a string for Android's `input text`, which treats spaces specially
/// and runs through the shell. Spaces become `%s`; a conservative allowlist
/// keeps everything else literal so no shell metacharacter is ever injected.
pub fn escape_text(text: &str) -> (r: String)
    ensures
        r@ == escape_spec(text@),
{
    let n = text.unicode_len();
    let mut out = String::new();
    let mut i: usize = 0;
    assert(text@.take(0) =~= Seq::<char>::empty());
    while i < n
        invariant
            n == text@.len(),
            i <= n,
            out@ == escape_spec(text@.take(i as int)),
        decreases n - i,
    {
        let c = text.get_char(i);
        let ghost before = out@;
        if c == ' ' {
            proof {
                reveal_strlit("%s");
            }
            out.append("%s");
        } else if ('a' <= c && c <= 'z') || ('A' <= c && c <= 'Z') || ('0' <= c && c <= '9') || c
            == '.' || c == '-' || c == '_' {
            let one = text.substring_char(i, i + 1);
            assert(one@ =~= seq![c]);
            out.append(one);
        }
        assert(text@.take(i + 1).drop_last() =~= text@.take(i as int));
        assert(text@.take(i + 1).last() == c);
        assert(out@ =~= before + escape_char(c));
        i = i + 1;
    }
    assert(text@.take(n as int) =~= text@);
    out
}

/// The shell line an action is sent as, or `None` if this backend cannot
/// express it (the action is dropped, not an error).
pub open spec fn action_line_spec(action: RemoteAction) -> Option<Seq<char>> {
    match action {
        RemoteAction::Text(t) => Some("input text "@ + escape_spec(t@)),
        _ => match keycode_spec(action) {
            Some(code) => Some("input keyevent "@ + decimal(code as nat)),
            None => None,
        },
    }
}

/// `input keyevent <code>`.
fn keyevent(code: u16) -> (r: Option<String>)
    ensures
        r matches Some(s) && s@ == "input keyevent "@ + decimal(code as nat),
{
    let mut s = String::from_str("input keyevent ");
    push_decimal(&mut s, code as u64);
    Some(s)
}

/// Translate an action into a line to feed the persistent shell, or `None`
/// if this backend cannot express it (dropped, not an error).
pub fn action_to_line(action: &RemoteAction) -> (r: Option<String>)
    ensures
        match action_line_spec(*action) {
            Some(line) => r matches Some(s) && s@ == line,
            None => r is None,
        },
{
    match action {
        RemoteAction::Navigate(Direction::Up) => keyevent(19),
        RemoteAction::Navigate(Direction::Down) => keyevent(20),
        RemoteAction::Navigate(Direction::Left) => keyevent(21),
        RemoteAction::Navigate(Direction::Right) => keyevent(22),
        RemoteAction::Select => keyevent(23),  // DPAD_CENTER
        RemoteAction::Back => keyevent(4),
        RemoteAction::Home => keyevent(3),
        RemoteAction::Menu => keyevent(82),
        RemoteAction::PlayPause => keyevent(85),
        RemoteAction::Play => keyevent(126),
        RemoteAction::Pause => keyevent(127),
        RemoteAction::Stop => keyevent(86),
        RemoteAction::Rewind => keyevent(89),
        RemoteAction::FastForward => keyevent(90),
        RemoteAction::Next => keyevent(87),
        RemoteAction::Previous => keyevent(88),
        RemoteAction::VolumeUp => keyevent(24),
        RemoteAction::VolumeDown => keyevent(25),
        RemoteAction::Mute => keyevent(164),
        RemoteAction::Power => keyevent(26),
        RemoteAction::Text(text) => {
            let mut s = String::from_str("input text ");
            let escaped = escape_text(text.as_str());
            s.append(escaped.as_str());
            Some(s)
        },
        // Raw gamepad passthrough: `input keyevent` is a discrete tap, so only
        // the press is sent; holding and analog need raw evdev packets.
        RemoteAction::GamepadButton { button, pressed } => {
            if *pressed {
                keyevent(gamepad_keycode(*button))
            } else {
                None
            }
        },
        RemoteAction::Analog { .. } => None,
    }
}

/// Whether the output of `adb connect` reports a failure: it mentions
/// "cannot", "unable" or "failed", in any ASCII letter case.
pub open spec fn connect_failed_spec(stdout: Seq<char>) -> bool {
    let lower = ascii_lowercase(stdout);
    has_infix(lower, "cannot"@) || has_infix(lower, "unable"@) || has_infix(lower, "failed"@)
}

/// Judge the standard output of `adb connect <serial>`.
pub fn connect_output_reports_failure(stdout: &str) -> (r: bool)
    ensures
        r == connect_failed_spec(stdout@),
{
    lowercase_contains(stdout, "cannot") || lowercase_contains(stdout, "unable")
        || lowercase_contains(stdout, "failed")
}

/// A process the ADB backend has the app run.
#[derive(Debug)]
pub enum AdbCommand {
    /// `<adb> connect <serial>`: establish the TCP connection; its standard
    /// output goes to [`AdbTransport::after_connect`].
    Connect { serial: String },
    /// `<adb> -s <serial> shell`, stdin piped: the persistent shell that
    /// command lines are streamed into.
    OpenShell { serial: String },
}

/// The ADB backend apart from its child process: the `adb` executable, the
/// serial of the open shell, and whether the shell's stdin is still writable.
/// The app runs the [`AdbCommand`]s and writes the lines this type hands out.
pub struct AdbTransport {
    adb_bin: String,
    serial: Option<String>,
    shell_open: bool,
}

/// The error `adb connect <serial>` is reported with when its output
/// `stdout` reports a failure.
pub open spec fn connect_failure_message(serial: Seq<char>, stdout: Seq<char>) -> Seq<char> {
    "adb connect "@ + serial + " failed: "@ + trim(stdout)
}

impl AdbTransport {
    /// The `adb` executable (path or name).
    pub closed spec fn bin_spec(&self) -> Seq<char> {
        self.adb_bin@
    }

    /// The serial of the opened shell, once connected.
    pub closed spec fn serial_spec(&self) -> Option<Seq<char>> {
        opt_view(self.serial)
    }

    /// Whether the persistent shell accepts lines.
    pub closed spec fn connected_spec(&self) -> bool {
        self.shell_open
    }

    /// A disconnected backend running `adb` from `PATH`.
    pub fn new() -> (r: Self)
        ensures
            r.bin_spec() == "adb"@,
            r.serial_spec() is None,
            !r.connected_spec(),
    {
        AdbTransport { adb_bin: String::from_str("adb"), serial: None, shell_open: false }
    }

    /// Override the `adb` executable (path or name).
    pub fn with_adb_binary(self, bin: String) -> (r: Self)
        ensures
            r.bin_spec() == bin@,
            r.serial_spec() == self.serial_spec(),
            r.connected_spec() == self.connected_spec(),
    {
        AdbTransport { adb_bin: bin, serial: self.serial, shell_open: self.shell_open }
    }

    /// The `adb` executable.
    pub fn adb_binary(&self) -> (r: &str)
        ensures
            r@ == self.bin_spec(),
    {
        self.adb_bin.as_str()
    }

    /// The serial of the opened shell, once connected.
    pub fn serial(&self) -> (r: Option<String>)
        ensures
            opt_view(r) == self.serial_spec(),
    {
        match &self.serial {
            Some(s) => Some(s.clone()),
            None => None,
        }
    }

    /// A stable identifier for the backend.
    pub fn name(&self) -> (r: &'static str)
        ensures
            r@ == "adb"@,
    {
        "adb"
    }

    /// An Android TV understands every action.
    pub fn capabilities(&self) -> (r: DeviceCapabilities)
        ensures
            r == DeviceCapabilities::android_tv_spec(),
    {
        DeviceCapabilities::android_tv()
    }

    /// Whether the persistent shell accepts lines.
    pub fn is_connected(&self) -> (r: bool)
        ensures
            r == self.connected_spec(),
    {
        self.shell_open
    }

    /// The first process to run when connecting to `target`: a network target
    /// is `adb connect`ed first, a USB serial gets its shell directly.
    pub fn connect_command(&self, target: &TargetAddr) -> (r: AdbCommand)
        ensures
            match *target {
                TargetAddr::Network(_) => r matches AdbCommand::Connect { serial } && serial@
                    == serial_spec(*target),
                TargetAddr::UsbSerial(_) => r matches AdbCommand::OpenShell { serial } && serial@
                    == serial_spec(*target),
            },
    {
        let serial = serial_for(target);
        match target {
            TargetAddr::Network(_) => AdbCommand::Connect { serial },
            TargetAddr::UsbSerial(_) => AdbCommand::OpenShell { serial },
        }
    }

    /// Judge the standard output of `adb connect <serial>`: a reported
    /// failure ends the connection attempt with its trimmed text, otherwise
    /// the shell is opened next.
    pub fn after_connect(serial: String, stdout: &str) -> (r: Result<AdbCommand, TransportError>)
        ensures
            connect_failed_spec(stdout@) ==> (r matches Err(TransportError::Other(m)) && m@
                == connect_failure_message(serial@, stdout@)),
            !connect_failed_spec(stdout@) ==> (r matches Ok(AdbCommand::OpenShell { serial: s })
                && s@ == serial@),
    {
        if connect_output_reports_failure(stdout) {
            let mut m = String::from_str("adb connect ");
            m.append(serial.as_str());
            m.append(" failed: ");
            m.append(trimmed(stdout));
            proof {
                reveal_strlit("adb connect ");
                reveal_strlit(" failed: ");
            }
            Err(TransportError::Other(m))
        } else {
            Ok(AdbCommand::OpenShell { serial })
        }
    }

    /// The shell for `serial` is open: lines are accepted from now on.
    pub fn shell_opened(&mut self, serial: String)
        ensures
            final(self).bin_spec() == old(self).bin_spec(),
            final(self).serial_spec() == Some(serial@),
            final(self).connected_spec(),
    {
        self.serial = Some(serial);
        self.shell_open = true;
    }

    /// The line to write for `action`: `Ok(None)` when this backend cannot
    /// express it (dropped, not an error, connected or not), the line when the
    /// shell is open, `NotConnected` otherwise.
    pub fn line_for(&self, action: &RemoteAction) -> (r: Result<Option<String>, TransportError>)
        ensures
            match action_line_spec(*action) {
                None => r matches Ok(None),
                Some(line) => if self.connected_spec() {
                    r matches Ok(Some(s)) && s@ == line
                } else {
                    r matches Err(TransportError::NotConnected)
                },
            },
    {
        match action_to_line(action) {
            None => Ok(None),
            Some(line) => {
                if self.shell_open {
                    Ok(Some(line))
                } else {
                    Err(TransportError::NotConnected)
                }
            },
        }
    }

    /// Writing to the shell failed: the pipe is broken, so no further line is
    /// accepted until the next connect.
    pub fn write_failed(&mut self)
        ensures
            final(self).bin_spec() == old(self).bin_spec(),
            final(self).serial_spec() == old(self).serial_spec(),
            !final(self).connected_spec(),
    {
        self.shell_open = false;
    }

    /// Tear the connection down (the app kills the shell process).
    pub fn disconnect(&mut self)
        ensures
            final(self).bin_spec() == old(self).bin_spec(),
            final(self).serial_spec() is None,
            !final(self).connected_spec(),
    {
        self.shell_open = false;
        self.serial = None;
    }
}

impl Default for AdbTransport {
    fn default() -> (r: Self)
        ensures
            r.bin_spec() == "adb"@,
            r.serial_spec() is None,
            !r.connected_spec(),
    {
        AdbTransport::new()
    }
}

/// A network target's serial always names a port, so resolving a resolved
/// serial again changes nothing.
pub proof fn law_network_serial_names_port(host: String, again: String)
    requires
        again@ == serial_spec(TargetAddr::Network(host)),
    ensures
        serial_spec(TargetAddr::Network(host)).contains(':'),
        serial_spec(TargetAddr::Network(again)) == serial_spec(TargetAddr::Network(host)),
{
    let s = serial_spec(TargetAddr::Network(host));
    if !host@.contains(':') {
        assert(s[host@.len() as int] == ':');
    }
}

/// Escaped text holds only characters that `input text` takes literally and
/// the `%` of `%s`: no space and no shell metacharacter survives.
pub proof fn law_escaped_text_is_shell_safe(text: Seq<char>)
    ensures
        forall|k: int|
            0 <= k < escape_spec(text).len() ==> text_safe(#[trigger] escape_spec(text)[k])
                || escape_spec(text)[k] == '%',
    decreases text.len(),
{
    if text.len() > 0 {
        law_escaped_text_is_shell_safe(text.drop_last());
        let prev = escape_spec(text.drop_last());
        let tail = escape_char(text.last());
        assert forall|k: int| 0 <= k < escape_spec(text).len() implies text_safe(
            #[trigger] escape_spec(text)[k],
        ) || escape_spec(text)[k] == '%' by {
            if k >= prev.len() {
                assert(escape_spec(text)[k] == tail[k - prev.len()]);
            } else {
                assert(escape_spec(text)[k] == prev[k]);
            }
        }
    }
}

/// Exactly analog input and gamepad-button releases are dropped; every other
/// action becomes a shell line.
pub proof fn law_only_analog_and_releases_are_dropped(action: RemoteAction)
    ensures
        action_line_spec(action) is None <==> (action is Analog || (action is GamepadButton
            && !action->pressed)),
{
}

/// Each navigation direction is sent as Android's `KEYCODE_DPAD_*` key event
/// of that direction (UP 19, DOWN 20, LEFT 21, RIGHT 22) — four different
/// keys — and the centre key (23) selects.
pub proof fn law_navigation_keycodes()
    ensures
        action_line_spec(RemoteAction::Navigate(Direction::Up)) == Some("input keyevent 19"@),
        action_line_spec(RemoteAction::Navigate(Direction::Down)) == Some("input keyevent 20"@),
        action_line_spec(RemoteAction::Navigate(Direction::Left)) == Some("input keyevent 21"@),
        action_line_spec(RemoteAction::Navigate(Direction::Right)) == Some("input keyevent 22"@),
        action_line_spec(RemoteAction::Select) == Some("input keyevent 23"@),
        action_line_spec(RemoteAction::Back) == Some("input keyevent 4"@),
{
    reveal_strlit("input keyevent ");
    reveal_strlit("input keyevent 19");
    reveal_strlit("input keyevent 20");
    reveal_strlit("input keyevent 21");
    reveal_strlit("input keyevent 22");
    reveal_strlit("input keyevent 23");
    reveal_strlit("input keyevent 4");
    reveal_with_fuel(decimal, 3);
    assert(decimal(19) =~= seq!['1', '9']);
    assert(decimal(20) =~= seq!['2', '0']);
    assert(decimal(21) =~= seq!['2', '1']);
    assert(decimal(22) =~= seq!['2', '2']);
    assert(decimal(23) =~= seq!['2', '3']);
    assert(decimal(4) =~= seq!['4']);
    assert("input keyevent "@ + decimal(19) =~= "input keyevent 19"@);
    assert("input keyevent "@ + decimal(20) =~= "input keyevent 20"@);
    assert("input keyevent "@ + decimal(21) =~= "input keyevent 21"@);
    assert("input keyevent "@ + decimal(22) =~= "input keyevent 22"@);
    assert("input keyevent "@ + decimal(23) =~= "input keyevent 23"@);
    assert("input keyevent "@ + decimal(4) =~= "input keyevent 4"@);
}

} // verus!
