//! Couchcast core library: the input vocabulary, button mapping, transport
//! command building, capture-format selection, pipeline description,
//! controller routing and settings-menu logic of the Couchcast HDMI-capture
//! viewer, with their contracts.
pub mod adb;
pub mod backends;
pub mod capabilities;
pub mod config;
pub mod debug;
pub mod device;
pub mod event;
pub mod frame;
pub mod input;
pub mod mapping;
pub mod menu;
pub mod pipeline;
pub mod router;
pub mod text;
pub mod transport;
pub mod worker;

pub use adb::AdbTransport;
pub use backends::{BluetoothHidTransport, CecTransport, LogTransport, RokuTransport};
pub use capabilities::DeviceCapabilities;
pub use config::{Config, DeviceRef, MediaPrefs, TargetConfig, TransportKind};
pub use device::{CaptureCodec, CaptureDevice, CaptureFormat};
pub use event::{Direction, PadAxis, PadButton, RemoteAction};
pub use frame::PixelFormat;
pub use input::{InputError, NavDir, NavEvent, PadEvent};
pub use mapping::{Binding, ButtonMap};
pub use menu::{Menu, MenuAction};
pub use pipeline::PipelineConfig;
pub use transport::{TargetAddr, TransportError};
