//! Protocol data carried by connection-check messages.

use vstd::prelude::*;

verus! {

/// Outcome of a connection check reported by a connector.
#[derive(Debug, Clone, Copy, PartialEq, Eq, Structural)]
pub enum ConnectionStatus {
    Succeeded,
    Failed,
}

/// A connection-check message: the reported status plus a human-readable
/// explanation from the connector.
#[derive(Debug, Clone)]
pub struct AirbyteConnectionStatus {
    pub status: ConnectionStatus,
    pub message: String,
}

impl AirbyteConnectionStatus {
    /// Pairs a status with its explanation.
    pub fn new(status: ConnectionStatus, message: String) -> (r: AirbyteConnectionStatus)
        ensures
            r.status == status,
            r.message@ == message@,
    {
        AirbyteConnectionStatus { status, message }
    }

    /// True when the connector reported a working connection.
    pub fn succeeded(&self) -> (r: bool)
        ensures
            r == (self.status is Succeeded),
    {
        matches!(self.status, ConnectionStatus::Succeeded)
    }
}

} // verus!
