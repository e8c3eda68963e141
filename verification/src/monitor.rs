//! The background monitor's bookkeeping: turning each probe's status into
//! the event pushed outward, and remembering the last connectivity to
//! report transitions. The polling loop itself — sleeping, checking the
//! stop flag before and after, emitting — runs outside; every poll emits
//! an event, not only transitions.

use vstd::prelude::*;
use vstd::string::*;

use crate::status::{ConnectionStatus, DisconnectReason};

verus! {

/// Seconds between two polls of the connection detector.
pub const MONITOR_INTERVAL_SECS: u64 = 10;

/// The event pushed outward after every poll.
#[derive(Debug, Clone)]
pub struct StatusEvent {
    pub connected: bool,
    pub message: String,
    pub timestamp: u64,
    pub reason: Option<DisconnectReason>,
}

/// The monitor's only state: the connectivity of the previous poll, owned
/// by the monitor itself.
pub struct Monitor {
    pub last_connected: bool,
}

impl Monitor {
    /// A fresh monitor that has seen no successful poll yet.
    pub fn new() -> (r: Monitor)
        ensures
            !r.last_connected,
    {
        Monitor { last_connected: false }
    }

    /// Turn one probe's status into the outward event, remember its
    /// connectivity, and report whether it changed since the last poll.
    pub fn observe(&mut self, status: &ConnectionStatus, timestamp: u64) -> (r: (
        StatusEvent,
        bool,
    ))
        ensures
            status matches ConnectionStatus::Connected { message } ==> (r.0.connected
                && r.0.message == message && r.0.reason is None),
            status matches ConnectionStatus::Disconnected { reason, message } ==> (
            !r.0.connected && r.0.message == message && r.0.reason == Some(*reason)),
            r.0.timestamp == timestamp,
            r.1 == (old(self).last_connected != r.0.connected),
            final (self).last_connected == r.0.connected,
    {
        let event = match status {
            ConnectionStatus::Connected { message } => StatusEvent {
                connected: true,
                message: message.clone(),
                timestamp,
                reason: None,
            },
            ConnectionStatus::Disconnected { reason, message } => StatusEvent {
                connected: false,
                message: message.clone(),
                timestamp,
                reason: Some(reason.clone()),
            },
        };
        let changed = self.last_connected != event.connected;
        self.last_connected = event.connected;
        (event, changed)
    }
}

/// Relies on `std::time::SystemTime::now`: the current time in
/// milliseconds since the Unix epoch, zero should the clock read earlier
/// than the epoch.
#[verifier::external_body]
pub fn get_timestamp() -> u64 {
    match std::time::SystemTime::now().duration_since(std::time::UNIX_EPOCH) {
        Ok(d) => d.as_millis() as u64,
        Err(_) => 0,
    }
}

} // verus!
