//! How targets are addressed, and the errors a transport can raise.
use vstd::prelude::*;

use crate::event::RemoteAction;

verus! {

/// `std::io::Error`, carried by the transport errors of backends that talk to
/// processes or sockets. The library only stores it.
#[verifier::external_type_specification]
#[verifier::external_body]
pub struct ExIoError(std::io::Error);

/// How to reach a target device.
#[derive(Debug, PartialEq, Eq)]
pub enum TargetAddr {
    /// `host` or `host:port` for ADB-over-TCP (Fire TV / Android TV), Roku ECP,
    /// etc. Backends apply their own default port when one is omitted.
    Network(String),
    /// A USB device serial for ADB-over-USB.
    UsbSerial(String),
}

impl Clone for TargetAddr {
    fn clone(&self) -> (r: Self)
        ensures
            r == *self,
    {
        match self {
            TargetAddr::Network(h) => TargetAddr::Network(h.clone()),
            TargetAddr::UsbSerial(s) => TargetAddr::UsbSerial(s.clone()),
        }
    }
}

impl TargetAddr {
    /// Convenience constructor from a hostname/IP string.
    pub fn network(host: &str) -> (r: Self)
        ensures
            r matches TargetAddr::Network(h) && h@ == host@,
    {
        TargetAddr::Network(String::from_str(host))
    }
}

/// Errors a transport can raise.
#[derive(Debug)]
pub enum TransportError {
    /// The transport is not connected.
    NotConnected,
    /// The action is not supported by this target.
    Unsupported(RemoteAction),
    /// The named backend is not implemented yet.
    NotImplemented(&'static str),
    /// Failed to connect to `target`.
    Connect { target: String, source: std::io::Error },
    /// An I/O failure on an established connection.
    Io(std::io::Error),
    /// Any other failure, described.
    Other(String),
}

} // verus!
