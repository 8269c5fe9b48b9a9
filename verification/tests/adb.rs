use couchcast::adb::{
    action_to_line, connect_output_reports_failure, escape_text, gamepad_keycode, serial_for,
    AdbCommand, AdbTransport,
};
use couchcast::text::trimmed;
use couchcast::TransportError;
use couchcast::{Direction, PadAxis, PadButton, RemoteAction, TargetAddr};

#[test]
fn navigation_maps_to_dpad_keyevents() {
    assert_eq!(
        action_to_line(&RemoteAction::Navigate(Direction::Up)).as_deref(),
        Some("input keyevent 19")
    );
    assert_eq!(
        action_to_line(&RemoteAction::Select).as_deref(),
        Some("input keyevent 23")
    );
    assert_eq!(
        action_to_line(&RemoteAction::Back).as_deref(),
        Some("input keyevent 4")
    );
}

#[test]
fn analog_is_dropped_for_now() {
    assert!(
        action_to_line(&RemoteAction::Analog {
            axis: PadAxis::LeftStickX,
            value_bits: 0.9f32.to_bits(),
        })
        .is_none()
    );
}

#[test]
fn text_is_escaped() {
    assert_eq!(
        action_to_line(&RemoteAction::Text("hi there".into())).as_deref(),
        Some("input text hi%sthere")
    );
    // Shell metacharacters are stripped; the space still becomes `%s`.
    assert_eq!(
        action_to_line(&RemoteAction::Text("a;rm -rf".into())).as_deref(),
        Some("input text arm%s-rf")
    );
}

#[test]
fn network_target_gets_default_port() {
    assert_eq!(
        serial_for(&TargetAddr::Network("10.0.0.5".into())),
        "10.0.0.5:5555"
    );
    assert_eq!(
        serial_for(&TargetAddr::Network("10.0.0.5:5678".into())),
        "10.0.0.5:5678"
    );
}

#[test]
fn usb_serial_is_used_as_is() {
    assert_eq!(serial_for(&TargetAddr::UsbSerial("G070VM1234".into())), "G070VM1234");
    let once = serial_for(&TargetAddr::Network("tv.local".into()));
    assert_eq!(once, "tv.local:5555");
    assert_eq!(serial_for(&TargetAddr::Network(once.clone())), once);
}

#[test]
fn media_volume_and_power_keycodes() {
    let cases = [
        (RemoteAction::Home, "input keyevent 3"),
        (RemoteAction::Menu, "input keyevent 82"),
        (RemoteAction::PlayPause, "input keyevent 85"),
        (RemoteAction::Play, "input keyevent 126"),
        (RemoteAction::Pause, "input keyevent 127"),
        (RemoteAction::Stop, "input keyevent 86"),
        (RemoteAction::Rewind, "input keyevent 89"),
        (RemoteAction::FastForward, "input keyevent 90"),
        (RemoteAction::Next, "input keyevent 87"),
        (RemoteAction::Previous, "input keyevent 88"),
        (RemoteAction::VolumeUp, "input keyevent 24"),
        (RemoteAction::VolumeDown, "input keyevent 25"),
        (RemoteAction::Mute, "input keyevent 164"),
        (RemoteAction::Power, "input keyevent 26"),
        (RemoteAction::Navigate(Direction::Right), "input keyevent 22"),
    ];
    for (action, line) in cases {
        assert_eq!(action_to_line(&action).as_deref(), Some(line));
    }
}

#[test]
fn gamepad_buttons_send_on_press_only() {
    assert_eq!(
        action_to_line(&RemoteAction::GamepadButton {
            button: PadButton::South,
            pressed: true
        })
        .as_deref(),
        Some("input keyevent 96")
    );
    assert_eq!(
        action_to_line(&RemoteAction::GamepadButton {
            button: PadButton::South,
            pressed: false
        }),
        None
    );
    assert_eq!(gamepad_keycode(PadButton::Guide), 110);
    assert_eq!(gamepad_keycode(PadButton::Start), 108);
    assert_eq!(gamepad_keycode(PadButton::DPadRight), 22);
}

#[test]
fn escaping_keeps_only_safe_characters() {
    assert_eq!(escape_text("Ab9._-"), "Ab9._-");
    assert_eq!(escape_text("$(reboot) `x` 'q'\"|&"), "reboot%sx%sq");
    assert_eq!(escape_text(""), "");
    assert_eq!(escape_text("ünï cödé"), "n%scd");
}

#[test]
fn adb_connect_output_is_judged() {
    assert!(connect_output_reports_failure("failed to connect to '10.0.0.5:5555'"));
    assert!(connect_output_reports_failure("Cannot connect"));
    assert!(connect_output_reports_failure("UNABLE to connect"));
    assert!(!connect_output_reports_failure("connected to 10.0.0.5:5555"));
    assert!(!connect_output_reports_failure("already connected to 10.0.0.5:5555"));
    assert!(!connect_output_reports_failure(""));
}

#[test]
fn network_target_is_connected_before_its_shell_opens() {
    let adb = AdbTransport::new();
    match adb.connect_command(&TargetAddr::Network("10.0.0.5".to_string())) {
        AdbCommand::Connect { serial } => assert_eq!(serial, "10.0.0.5:5555"),
        other => panic!("unexpected {other:?}"),
    }
    match adb.connect_command(&TargetAddr::UsbSerial("G070VM".to_string())) {
        AdbCommand::OpenShell { serial } => assert_eq!(serial, "G070VM"),
        other => panic!("unexpected {other:?}"),
    }
}

#[test]
fn failed_adb_connect_is_reported_trimmed() {
    let r = AdbTransport::after_connect(
        "10.0.0.5:5555".to_string(),
        "  failed to connect to '10.0.0.5:5555': Connection refused\n",
    );
    match r {
        Err(TransportError::Other(m)) => assert_eq!(
            m,
            "adb connect 10.0.0.5:5555 failed: failed to connect to '10.0.0.5:5555': Connection refused"
        ),
        other => panic!("unexpected {other:?}"),
    }
    match AdbTransport::after_connect("h:1".to_string(), "connected to h:1\n") {
        Ok(AdbCommand::OpenShell { serial }) => assert_eq!(serial, "h:1"),
        other => panic!("unexpected {other:?}"),
    }
}

#[test]
fn lines_need_an_open_shell() {
    let mut adb = AdbTransport::new().with_adb_binary("/opt/adb".to_string());
    assert_eq!(adb.adb_binary(), "/opt/adb");
    assert_eq!(adb.name(), "adb");
    assert!(!adb.is_connected());
    assert!(matches!(
        adb.line_for(&RemoteAction::Select),
        Err(TransportError::NotConnected)
    ));
    // Unmappable actions are dropped even while disconnected.
    assert!(matches!(
        adb.line_for(&RemoteAction::Analog { axis: PadAxis::LeftStickX, value_bits: 0 }),
        Ok(None)
    ));
    adb.shell_opened("10.0.0.5:5555".to_string());
    assert!(adb.is_connected());
    assert_eq!(adb.serial().as_deref(), Some("10.0.0.5:5555"));
    match adb.line_for(&RemoteAction::Back) {
        Ok(Some(line)) => assert_eq!(line, "input keyevent 4"),
        other => panic!("unexpected {other:?}"),
    }
    adb.write_failed();
    assert!(!adb.is_connected());
    assert_eq!(adb.serial().as_deref(), Some("10.0.0.5:5555"));
    adb.shell_opened("10.0.0.5:5555".to_string());
    adb.disconnect();
    assert!(!adb.is_connected());
    assert_eq!(adb.serial(), None);
    assert_eq!(adb.adb_binary(), "/opt/adb");
}

#[test]
fn trimming_drops_unicode_white_space_at_both_ends() {
    assert_eq!(trimmed("  a b\t\n"), "a b");
    assert_eq!(trimmed("\u{3000}x\u{A0}"), "x");
    assert_eq!(trimmed(" \r\n "), "");
    assert_eq!(trimmed("plain"), "plain");
}
