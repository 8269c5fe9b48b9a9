//! The persistent configuration of Couchcast: the last-used capture device,
//! the video/audio preferences, the forwarding target and the button map.
//!
//! The app stores it as human-editable TOML under the XDG config directory and
//! rewrites it whenever the user changes a setting; this module holds the
//! values themselves and their defaults.
use vstd::prelude::*;

use crate::device::CaptureDevice;
use crate::mapping::{default_bindings, ButtonMap};
use crate::text::opt_view;
use crate::transport::TargetAddr;

pub use crate::device::CaptureCodec;

verus! {

/// A capture device the user selected, remembered across runs.
#[derive(Debug, Clone, PartialEq, Eq)]
pub struct DeviceRef {
    /// Human-readable name (e.g. "USB3 HDMI Capture").
    pub name: String,
    /// The V4L2 device node, e.g. `/dev/video0`.
    pub node: String,
}

/// Which transport backend to use for a target.
#[derive(Debug, Clone, Copy, PartialEq, Eq, Structural)]
pub enum TransportKind {
    /// ADB-over-TCP to a Fire TV / Android TV (the default).
    Adb,
    BluetoothHid,
    Cec,
    Roku,
    /// The logging no-op transport, for development without hardware.
    Log,
}

impl Default for TransportKind {
    fn default() -> (r: Self)
        ensures
            r == TransportKind::Adb,
    {
        TransportKind::Adb
    }
}

/// The device Couchcast forwards input to, and how to reach it.
#[derive(Debug, Clone, PartialEq, Eq)]
pub struct TargetConfig {
    pub transport: TransportKind,
    /// Host/IP (ADB, Roku): the address the transport connects to.
    pub address: String,
}

impl TargetConfig {
    /// Build the [`TargetAddr`] the transport layer expects.
    pub fn to_target_addr(&self) -> (r: TargetAddr)
        ensures
            r == TargetAddr::Network(self.address),
    {
        TargetAddr::Network(self.address.clone())
    }
}

/// Video/audio preferences for the capture pipeline.
#[derive(Debug, Clone, PartialEq, Eq)]
pub struct MediaPrefs {
    /// Preferred capture input format; `None` = let the pipeline auto-negotiate.
    pub codec: Option<CaptureCodec>,
    /// Preferred capture width in pixels; `None` = negotiate the device default.
    pub width: Option<u32>,
    /// Preferred capture height in pixels.
    pub height: Option<u32>,
    /// Preferred capture framerate in fps.
    pub framerate: Option<u32>,
    /// Whether to route the capture card's audio to the local output.
    pub audio: bool,
}

impl Default for MediaPrefs {
    fn default() -> (r: Self)
        ensures
            r.codec is None && r.width is None && r.height is None && r.framerate is None
                && r.audio,
    {
        MediaPrefs { codec: None, width: None, height: None, framerate: None, audio: true }
    }
}

/// The full application configuration.
#[derive(Debug, Clone)]
pub struct Config {
    /// The last capture device the user selected.
    pub last_device: Option<DeviceRef>,
    /// Video/audio preferences.
    pub media: MediaPrefs,
    /// The forwarding target (device + transport).
    pub target: Option<TargetConfig>,
    /// Controller -> action mapping.
    pub mapping: ButtonMap,
}

impl Default for Config {
    /// No remembered device or target, default media preferences (audio on,
    /// everything else negotiated) and the default button map.
    fn default() -> (r: Self)
        ensures
            r.last_device is None,
            r.target is None,
            r.media.codec is None && r.media.width is None && r.media.height is None
                && r.media.framerate is None && r.media.audio,
            r.mapping.bindings@ == default_bindings(),
    {
        Config {
            last_device: None,
            media: MediaPrefs::default(),
            target: None,
            mapping: ButtonMap::default(),
        }
    }
}

/// The number of transport options offered in the settings UI.
pub const TRANSPORT_CHOICE_COUNT: usize = 2;

/// The transport options offered in the settings UI, in display order: label
/// and kind.
pub open spec fn transport_choice_spec(idx: int) -> Option<(Seq<char>, TransportKind)> {
    if idx == 0 {
        Some(("ADB — Fire TV / Android TV"@, TransportKind::Adb))
    } else if idx == 1 {
        Some(("Log (debug, no device)"@, TransportKind::Log))
    } else {
        None
    }
}

/// The transport option at `idx` of the settings UI, if any.
pub fn transport_choice(idx: usize) -> (r: Option<(&'static str, TransportKind)>)
    ensures
        match transport_choice_spec(idx as int) {
            Some((label, kind)) => r matches Some((l, k)) && l@ == label && k == kind,
            None => r is None,
        },
{
    if idx == 0 {
        Some(("ADB — Fire TV / Android TV", TransportKind::Adb))
    } else if idx == 1 {
        Some(("Log (debug, no device)", TransportKind::Log))
    } else {
        None
    }
}

/// The kind of the transport option at `idx`, ADB when there is none.
pub open spec fn transport_for_choice_spec(idx: int) -> TransportKind {
    match transport_choice_spec(idx) {
        Some((_, kind)) => kind,
        None => TransportKind::Adb,
    }
}

/// The kind of the transport option at `idx`, ADB when there is none.
pub fn transport_for_choice(idx: usize) -> (r: TransportKind)
    ensures
        r == transport_for_choice_spec(idx as int),
{
    match transport_choice(idx) {
        Some((_, kind)) => kind,
        None => TransportKind::Adb,
    }
}

/// Whether the transport option at `idx` exists and is of kind `kind`.
pub open spec fn choice_is(idx: int, kind: TransportKind) -> bool {
    transport_choice_spec(idx) matches Some((_, k)) && k == kind
}

/// The index of the first transport option of kind `kind`, if it is offered.
pub fn transport_choice_index(kind: TransportKind) -> (r: Option<usize>)
    ensures
        match r {
            Some(i) => choice_is(i as int, kind) && forall|j: int|
                0 <= j < i ==> !#[trigger] choice_is(j, kind),
            None => forall|j: int| !#[trigger] choice_is(j, kind),
        },
{
    match kind {
        TransportKind::Adb => Some(0),
        TransportKind::Log => Some(1),
        _ => None,
    }
}

/// The backend actually used for `kind`: backends that are not built into
/// this binary fall back to the logging transport.
pub open spec fn built_backend_spec(kind: TransportKind) -> TransportKind {
    match kind {
        TransportKind::Adb => TransportKind::Adb,
        _ => TransportKind::Log,
    }
}

/// The backend actually used for `kind`.
pub fn built_backend(kind: TransportKind) -> (r: TransportKind)
    ensures
        r == built_backend_spec(kind),
{
    match kind {
        TransportKind::Adb => TransportKind::Adb,
        _ => TransportKind::Log,
    }
}

/// The capture device opened at startup: the remembered one, else the first
/// device found, else none.
pub open spec fn initial_node_spec(config: Config, devices: Seq<CaptureDevice>) -> Option<
    Seq<char>,
> {
    match config.last_device {
        Some(d) => Some(d.node@),
        None => if devices.len() > 0 {
            Some(devices[0].node@)
        } else {
            None
        },
    }
}

/// The node of the capture device to open at startup.
pub fn initial_device_node(config: &Config, devices: &[CaptureDevice]) -> (r: Option<String>)
    ensures
        opt_view(r) == initial_node_spec(*config, devices@),
{
    match &config.last_device {
        Some(d) => Some(d.node.clone()),
        None => if devices.len() > 0 {
            Some(devices[0].node.clone())
        } else {
            None
        },
    }
}

/// The connection made at startup: the saved target, else the logging
/// transport (to the placeholder address `unset`) so that forwarding is
/// observable without a device.
pub fn initial_connection(config: &Config) -> (r: (TransportKind, TargetAddr))
    ensures
        match config.target {
            Some(t) => r.0 == t.transport && r.1 == TargetAddr::Network(t.address),
            None => r.0 == TransportKind::Log && (r.1 matches TargetAddr::Network(h) && h@
                == "unset"@),
        },
{
    match &config.target {
        Some(t) => (t.transport, t.to_target_addr()),
        None => {
            proof {
                reveal_strlit("unset");
            }
            (TransportKind::Log, TargetAddr::network("unset"))
        },
    }
}

/// Choosing a transport option and looking its kind up again gives back the
/// same option: every offered kind is listed once.
pub proof fn law_transport_choice_round_trip(idx: int)
    requires
        0 <= idx < TRANSPORT_CHOICE_COUNT,
    ensures
        transport_choice_spec(idx) is Some,
        forall|j: int|
            0 <= j < TRANSPORT_CHOICE_COUNT && j != idx ==> transport_for_choice_spec(j)
                != transport_for_choice_spec(idx),
{
}

} // verus!
