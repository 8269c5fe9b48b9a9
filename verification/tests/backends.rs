use couchcast::worker::{worker_step, WorkerCmd, WorkerStep};
use couchcast::{PadAxis, PadButton};
use couchcast::config::{
    built_backend, initial_connection, initial_device_node, transport_choice,
    transport_choice_index, transport_for_choice,
};
use couchcast::{CaptureDevice, DeviceRef};
use couchcast::{BluetoothHidTransport, CecTransport, Config, DeviceCapabilities, LogTransport, RemoteAction, RokuTransport, TargetAddr, TargetConfig, TransportError, TransportKind};

#[test]
fn log_transport_connects_and_accepts_everything() {
    let mut t = LogTransport::new();
    assert_eq!(t.name(), "log");
    assert!(!t.is_connected());
    assert_eq!(t.capabilities(), DeviceCapabilities::android_tv());
    assert!(t.connect(&TargetAddr::network("unset")).is_ok());
    assert!(t.is_connected());
    assert!(t.send(RemoteAction::Select).is_ok());
    assert!(t.disconnect().is_ok());
    assert!(!t.is_connected());
}

#[test]
fn placeholder_backends_refuse() {
    let mut bt = BluetoothHidTransport;
    assert_eq!(bt.name(), "bluetooth-hid");
    assert!(!bt.is_connected());
    assert!(matches!(bt.connect(&TargetAddr::network("x")), Err(TransportError::NotImplemented("bluetooth-hid"))));
    assert!(matches!(bt.send(RemoteAction::Back), Err(TransportError::NotImplemented("bluetooth-hid"))));
    assert!(bt.disconnect().is_ok());
    let mut cec = CecTransport;
    assert_eq!(cec.capabilities(), DeviceCapabilities::basic_remote());
    assert!(matches!(cec.connect(&TargetAddr::network("x")), Err(TransportError::NotImplemented("cec"))));
    let mut roku = RokuTransport;
    assert_eq!(roku.name(), "roku");
    assert!(matches!(roku.send(RemoteAction::Home), Err(TransportError::NotImplemented("roku"))));
}

#[test]
fn config_defaults_and_target() {
    let cfg = Config::default();
    assert!(cfg.last_device.is_none());
    assert!(cfg.target.is_none());
    assert!(cfg.media.audio);
    assert!(cfg.media.codec.is_none() && cfg.media.width.is_none());
    assert_eq!(cfg.mapping.bindings.len(), 12);
    assert_eq!(TransportKind::default(), TransportKind::Adb);
    let target = TargetConfig {
        transport: TransportKind::Adb,
        address: "192.168.1.42".to_string(),
    };
    assert_eq!(target.to_target_addr(), TargetAddr::Network("192.168.1.42".to_string()));
}

#[test]
fn transport_choices_and_fallbacks() {
    assert_eq!(transport_choice(0), Some(("ADB — Fire TV / Android TV", TransportKind::Adb)));
    assert_eq!(transport_choice(1), Some(("Log (debug, no device)", TransportKind::Log)));
    assert_eq!(transport_choice(2), None);
    assert_eq!(transport_for_choice(7), TransportKind::Adb);
    assert_eq!(transport_choice_index(TransportKind::Log), Some(1));
    assert_eq!(transport_choice_index(TransportKind::Roku), None);
    assert_eq!(built_backend(TransportKind::Adb), TransportKind::Adb);
    assert_eq!(built_backend(TransportKind::Cec), TransportKind::Log);
    assert_eq!(built_backend(TransportKind::Log), TransportKind::Log);
}

#[test]
fn text_helpers() {
    let mut s = String::from("n=");
    couchcast::text::push_decimal(&mut s, 0);
    couchcast::text::push_decimal(&mut s, 1234567890);
    assert_eq!(s, "n=01234567890");
    assert!(couchcast::text::str_contains_char("a:b", ':'));
    assert!(!couchcast::text::str_contains_char("ab", ':'));
    assert!(couchcast::text::lowercase_contains("xxFaILedyy", "failed"));
    assert!(!couchcast::text::lowercase_contains("fail", "failed"));
}

fn device(name: &str, node: &str) -> CaptureDevice {
    CaptureDevice {
        name: name.to_string(),
        node: node.to_string(),
        caps: None,
        formats: Vec::new(),
    }
}

#[test]
fn startup_opens_the_remembered_device_else_the_first() {
    let devices = vec![device("A", "/dev/video2"), device("B", "/dev/video4")];
    let mut cfg = Config::default();
    assert_eq!(initial_device_node(&cfg, &devices).as_deref(), Some("/dev/video2"));
    assert_eq!(initial_device_node(&cfg, &[]), None);
    cfg.last_device = Some(DeviceRef {
        name: "Old".to_string(),
        node: "/dev/video9".to_string(),
    });
    // The remembered node wins even when it is not listed right now.
    assert_eq!(initial_device_node(&cfg, &devices).as_deref(), Some("/dev/video9"));
}

#[test]
fn startup_connects_the_saved_target_else_the_log_transport() {
    let mut cfg = Config::default();
    assert_eq!(
        initial_connection(&cfg),
        (TransportKind::Log, TargetAddr::Network("unset".to_string()))
    );
    cfg.target = Some(TargetConfig {
        transport: TransportKind::Roku,
        address: "10.1.1.1".to_string(),
    });
    assert_eq!(
        initial_connection(&cfg),
        (TransportKind::Roku, TargetAddr::Network("10.1.1.1".to_string()))
    );
}

#[test]
fn remote_grade_placeholders_drop_what_they_cannot_express() {
    let mut cec = CecTransport;
    let analog = RemoteAction::Analog { axis: PadAxis::LeftStickX, value_bits: 0.5f32.to_bits() };
    assert!(cec.send(analog.clone()).is_ok());
    assert!(cec.send(RemoteAction::Text("hi".to_string())).is_ok());
    assert!(cec
        .send(RemoteAction::GamepadButton { button: PadButton::South, pressed: true })
        .is_ok());
    assert!(matches!(cec.send(RemoteAction::Select), Err(TransportError::NotImplemented("cec"))));
    let mut roku = RokuTransport;
    assert!(roku.send(analog).is_ok());
    assert!(matches!(roku.send(RemoteAction::Power), Err(TransportError::NotImplemented("roku"))));
    // An HID target could express everything, so the placeholder refuses all.
    let mut bt = BluetoothHidTransport;
    assert!(matches!(
        bt.send(RemoteAction::Text("x".to_string())),
        Err(TransportError::NotImplemented("bluetooth-hid"))
    ));
}

#[test]
fn worker_forwards_only_while_connected() {
    assert!(matches!(
        worker_step(true, WorkerCmd::Send(RemoteAction::Back)),
        WorkerStep::Forward(RemoteAction::Back)
    ));
    assert!(matches!(
        worker_step(false, WorkerCmd::Send(RemoteAction::Back)),
        WorkerStep::Drop(RemoteAction::Back)
    ));
    match worker_step(
        true,
        WorkerCmd::Connect { kind: TransportKind::Cec, addr: TargetAddr::network("h") },
    ) {
        WorkerStep::Reconnect { backend, addr } => {
            assert_eq!(backend, TransportKind::Log);
            assert_eq!(addr, TargetAddr::Network("h".to_string()));
        }
        other => panic!("unexpected {other:?}"),
    }
    match worker_step(
        false,
        WorkerCmd::Connect { kind: TransportKind::Adb, addr: TargetAddr::network("h") },
    ) {
        WorkerStep::Reconnect { backend, .. } => assert_eq!(backend, TransportKind::Adb),
        other => panic!("unexpected {other:?}"),
    }
    assert!(matches!(worker_step(true, WorkerCmd::Disconnect), WorkerStep::Disconnect));
}
