//! The decisions of the transport worker, the thread that owns the active
//! transport: what each command from the UI thread turns into.
use vstd::prelude::*;

use crate::config::{built_backend, built_backend_spec, TransportKind};
use crate::event::RemoteAction;
use crate::transport::TargetAddr;

verus! {

/// A command sent from the UI thread to the transport worker.
#[derive(Debug)]
pub enum WorkerCmd {
    /// Switch to `kind` and connect it to `addr`.
    Connect { kind: TransportKind, addr: TargetAddr },
    /// Forward a single action to the connected target.
    Send(RemoteAction),
    /// Disconnect the current transport.
    Disconnect,
}

/// What the worker does with one command.
#[derive(Debug)]
pub enum WorkerStep {
    /// Disconnect the current transport, replace it by the `backend` built into
    /// this binary, and connect that to `addr`.
    Reconnect { backend: TransportKind, addr: TargetAddr },
    /// Forward the action through the current transport.
    Forward(RemoteAction),
    /// Drop the action: the current transport is not connected.
    Drop(RemoteAction),
    /// Disconnect the current transport.
    Disconnect,
}

/// The step for `cmd` when the current transport is `connected`: a connect
/// always disconnects first and then switches backends; an action is
/// forwarded only while connected.
pub fn worker_step(connected: bool, cmd: WorkerCmd) -> (r: WorkerStep)
    ensures
        match cmd {
            WorkerCmd::Connect { kind, addr } => r == WorkerStep::Reconnect {
                backend: built_backend_spec(kind),
                addr,
            },
            WorkerCmd::Send(action) => if connected {
                r == WorkerStep::Forward(action)
            } else {
                r == WorkerStep::Drop(action)
            },
            WorkerCmd::Disconnect => r == WorkerStep::Disconnect,
        },
{
    match cmd {
        WorkerCmd::Connect { kind, addr } => WorkerStep::Reconnect {
            backend: built_backend(kind),
            addr,
        },
        WorkerCmd::Send(action) => {
            if connected {
                WorkerStep::Forward(action)
            } else {
                WorkerStep::Drop(action)
            }
        },
        WorkerCmd::Disconnect => WorkerStep::Disconnect,
    }
}

} // verus!
