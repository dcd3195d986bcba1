//! Status of a client and of its worker thread.
use vstd::prelude::*;

verus! {

/// Status of the client connection.
#[derive(Debug, Clone, Copy, PartialEq, Eq, Structural)]
pub enum ClientStatus {
    /// Not connected to any server.
    Disconnected,
    /// Connection handed to the worker, not confirmed yet.
    Connecting,
    /// Connected to a server.
    Connected,
    /// Connection is being closed.
    Disconnecting,
    /// Worker thread ended; the client cannot be used anymore.
    Ended,
}

} // verus!
