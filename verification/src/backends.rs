//! The transport backends whose behaviour needs no I/O: the logging no-op
//! transport used for development without hardware, and the placeholders for
//! the Bluetooth-HID, HDMI-CEC and Roku ECP backends, which are documented
//! extension points that refuse to connect and refuse every action they could
//! express (actions a target cannot express are dropped, as for any backend).
use vstd::prelude::*;

use crate::capabilities::{supports_spec, DeviceCapabilities};
use crate::event::RemoteAction;
use crate::transport::{TargetAddr, TransportError};

verus! {

/// Whether `r` is the "not implemented yet" error of backend `name`.
pub open spec fn not_implemented(r: Result<(), TransportError>, name: Seq<char>) -> bool {
    r matches Err(TransportError::NotImplemented(n)) && n@ == name
}

/// Accepts every forwarded action and otherwise does nothing. Reports the
/// capabilities of an Android TV so nothing is filtered out.
#[derive(Debug)]
pub struct LogTransport {
    connected: bool,
    target: Option<TargetAddr>,
}

impl LogTransport {
    /// Whether the transport counts as connected.
    pub closed spec fn spec_connected(&self) -> bool {
        self.connected
    }

    /// The target of the last `connect`, if any.
    pub closed spec fn spec_target(&self) -> Option<TargetAddr> {
        self.target
    }

    /// A disconnected transport with no target.
    pub fn new() -> (r: Self)
        ensures
            !r.spec_connected(),
            r.spec_target() is None,
    {
        LogTransport { connected: false, target: None }
    }

    /// A stable identifier for the backend.
    pub fn name(&self) -> (r: &'static str)
        ensures
            r@ == "log"@,
    {
        "log"
    }

    /// Everything: nothing is filtered out.
    pub fn capabilities(&self) -> (r: DeviceCapabilities)
        ensures
            r == DeviceCapabilities::android_tv_spec(),
    {
        DeviceCapabilities::android_tv()
    }

    /// Whether `connect` was called more recently than `disconnect`.
    pub fn is_connected(&self) -> (r: bool)
        ensures
            r == self.spec_connected(),
    {
        self.connected
    }

    /// Record `target` and count as connected. Never fails.
    pub fn connect(&mut self, target: &TargetAddr) -> (r: Result<(), TransportError>)
        ensures
            r is Ok,
            final(self).spec_connected(),
            final(self).spec_target() == Some(*target),
    {
        self.target = Some(target.clone());
        self.connected = true;
        Ok(())
    }

    /// Accept `action`. Never fails and changes nothing.
    pub fn send(&mut self, action: RemoteAction) -> (r: Result<(), TransportError>)
        ensures
            r is Ok,
            *final(self) == *old(self),
    {
        Ok(())
    }

    /// Count as disconnected (the last target is kept). Never fails.
    pub fn disconnect(&mut self) -> (r: Result<(), TransportError>)
        ensures
            r is Ok,
            !final(self).spec_connected(),
            final(self).spec_target() == old(self).spec_target(),
    {
        self.connected = false;
        Ok(())
    }
}

impl Default for LogTransport {
    fn default() -> (r: Self)
        ensures
            !r.spec_connected(),
            r.spec_target() is None,
    {
        LogTransport::new()
    }
}

/// Placeholder for the Bluetooth-HID backend: the host advertising itself as a
/// Bluetooth keyboard/gamepad.
#[derive(Debug, Default)]
pub struct BluetoothHidTransport;

impl BluetoothHidTransport {
    /// A stable identifier for the backend.
    pub fn name(&self) -> (r: &'static str)
        ensures
            r@ == "bluetooth-hid"@,
    {
        "bluetooth-hid"
    }

    /// What an HID keyboard/gamepad can express: everything.
    pub fn capabilities(&self) -> (r: DeviceCapabilities)
        ensures
            r == DeviceCapabilities::android_tv_spec(),
    {
        DeviceCapabilities::android_tv()
    }

    /// Never connected.
    pub fn is_connected(&self) -> (r: bool)
        ensures
            !r,
    {
        false
    }

    /// Not implemented yet.
    pub fn connect(&mut self, target: &TargetAddr) -> (r: Result<(), TransportError>)
        ensures
            not_implemented(r, "bluetooth-hid"@),
    {
        proof {
            reveal_strlit("bluetooth-hid");
        }
        Err(TransportError::NotImplemented("bluetooth-hid"))
    }

    /// Not implemented yet.
    pub fn send(&mut self, action: RemoteAction) -> (r: Result<(), TransportError>)
        ensures
            not_implemented(r, "bluetooth-hid"@),
    {
        Err(TransportError::NotImplemented("bluetooth-hid"))
    }

    /// Nothing to tear down.
    pub fn disconnect(&mut self) -> (r: Result<(), TransportError>)
        ensures
            r is Ok,
    {
        Ok(())
    }
}

/// Placeholder for the HDMI-CEC backend: navigation, media and power only.
#[derive(Debug, Default)]
pub struct CecTransport;

impl CecTransport {
    /// A stable identifier for the backend.
    pub fn name(&self) -> (r: &'static str)
        ensures
            r@ == "cec"@,
    {
        "cec"
    }

    /// The CEC user-control codes: no text, analog or gamepad.
    pub fn capabilities(&self) -> (r: DeviceCapabilities)
        ensures
            r == DeviceCapabilities::basic_remote_spec(),
    {
        DeviceCapabilities::basic_remote()
    }

    /// Never connected.
    pub fn is_connected(&self) -> (r: bool)
        ensures
            !r,
    {
        false
    }

    /// Not implemented yet.
    pub fn connect(&mut self, target: &TargetAddr) -> (r: Result<(), TransportError>)
        ensures
            not_implemented(r, "cec"@),
    {
        Err(TransportError::NotImplemented("cec"))
    }

    /// An action this target cannot express is dropped, not raised: `Ok`.
    /// Any other action is refused as not implemented yet.
    pub fn send(&mut self, action: RemoteAction) -> (r: Result<(), TransportError>)
        ensures
            !supports_spec(DeviceCapabilities::basic_remote_spec(), action) ==> r == Ok::<
                (),
                TransportError,
            >(()),
            supports_spec(DeviceCapabilities::basic_remote_spec(), action) ==> not_implemented(
                r,
                "cec"@,
            ),
    {
        if !self.capabilities().supports(&action) {
            return Ok(());
        }
        proof {
            reveal_strlit("cec");
        }
        Err(TransportError::NotImplemented("cec"))
    }

    /// Nothing to tear down.
    pub fn disconnect(&mut self) -> (r: Result<(), TransportError>)
        ensures
            r is Ok,
    {
        Ok(())
    }
}

/// Placeholder for the Roku ECP backend (an HTTP remote API).
#[derive(Debug, Default)]
pub struct RokuTransport;

impl RokuTransport {
    /// A stable identifier for the backend.
    pub fn name(&self) -> (r: &'static str)
        ensures
            r@ == "roku"@,
    {
        "roku"
    }

    /// A remote-grade button set: no text, analog or gamepad.
    pub fn capabilities(&self) -> (r: DeviceCapabilities)
        ensures
            r == DeviceCapabilities::basic_remote_spec(),
    {
        DeviceCapabilities::basic_remote()
    }

    /// Never connected.
    pub fn is_connected(&self) -> (r: bool)
        ensures
            !r,
    {
        false
    }

    /// Not implemented yet.
    pub fn connect(&mut self, target: &TargetAddr) -> (r: Result<(), TransportError>)
        ensures
            not_implemented(r, "roku"@),
    {
        Err(TransportError::NotImplemented("roku"))
    }

    /// An action this target cannot express is dropped, not raised: `Ok`.
    /// Any other action is refused as not implemented yet.
    pub fn send(&mut self, action: RemoteAction) -> (r: Result<(), TransportError>)
        ensures
            !supports_spec(DeviceCapabilities::basic_remote_spec(), action) ==> r == Ok::<
                (),
                TransportError,
            >(()),
            supports_spec(DeviceCapabilities::basic_remote_spec(), action) ==> not_implemented(
                r,
                "roku"@,
            ),
    {
        if !self.capabilities().supports(&action) {
            return Ok(());
        }
        proof {
            reveal_strlit("roku");
        }
        Err(TransportError::NotImplemented("roku"))
    }

    /// Nothing to tear down.
    pub fn disconnect(&mut self) -> (r: Result<(), TransportError>)
        ensures
            r is Ok,
    {
        Ok(())
    }
}

} // verus!
