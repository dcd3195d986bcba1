//! Errors of the server side.
use vstd::prelude::*;

use crate::server::ClientId;

verus! {

/// Error that happens to the server
#[derive(Debug, PartialEq, Clone, Copy)]
pub enum ErrorServer {
    /// Server maximum client allowed is below `MAXCLIENT_MINIMUM`.
    MaximumClientBelowMinimum,
    /// Server maximum client allowed is above `MAXCLIENT_MAXIMUM`.
    MaximumClientAboveMaximum,
    /// Server worker count is below `WORKER_COUNT_MINIMUM`.
    WorkerCountBelowMinimum,
    /// Server worker count is above maximum client allowed.
    WorkerCountAboveMaximum,
    /// Pool rate is below `POOL_RATE_PER_SECOND_MINIMUM`.
    PoolRateBelowMinimum,
    /// Pool rate is above `POOL_RATE_PER_SECOND_MAXIMUM`.
    PoolRateAboveMaximum,
    /// Incoming message size is below `INCOMING_SIZE_MINIMUM`.
    IncomingMessageSizeBelowMinimum,
    /// Incoming message size is above `INCOMING_SIZE_MAXIMUM`.
    IncomingMessageSizeAboveMaximum,
    /// Outgoing message size is below `OUTGOING_SIZE_MINIMUM`.
    OutgoingMessageSizeBelowMinimum,
    /// Outgoing message size is above `OUTGOING_SIZE_MAXIMUM`.
    OutgoingMessageSizeAboveMaximum,
    /// Server is currently inactive
    Inactive,
    /// Server is already active
    AlreadyActive,
    /// Provided socket for start is invalid
    SocketInvalid,
    /// Provided socket address is already used by another process
    SocketAddressAlreadyUsed,
    /// Unexpected error happened
    UnexpectedError,
    /// An unhandled IO error occurred
    UnhandledIOError(std::io::ErrorKind),
}

/// Error given by the server `Transceiver` and `Transmitter`.
#[derive(Debug, PartialEq, Eq, Clone, Copy, Structural)]
pub enum ErrorTransceiver {
    /// Channels are disconnected from the server (server dropped).
    ChannelDisconnected,
    /// `Transceiver::receive_timeout()` has expired.
    Timeout,
    /// Message has no destinations when using `send_vec`.
    NoDestination,
}

/// Error given by the server `Dispatcher`.
#[derive(Debug, PartialEq, Eq, Clone, Copy, Structural)]
pub enum ErrorDispatcher {
    /// Channel to the workers is lost (server dropped).
    ChannelDisconnected,
    /// Message has no destinations when using `send_vec`.
    NoDestination,
}

/// Error given by the `ServerMessageSender`.
#[derive(Debug, PartialEq, Eq, Clone, Copy, Structural)]
pub enum ErrorSender {
    /// Server is not active.
    Inactive,
    /// Server is paused.
    Paused,
    /// Message has no destinations when using `send_vec`.
    NoDestination,
    /// Server was dropped.
    Disconnected,
}

/// Error reported in a server update.
#[derive(Debug, PartialEq, Eq, Clone, Copy, Structural)]
pub enum ErrorUpdate {
    /// Client connection lost
    ConnectionLost(ClientId),
    /// Client not found
    ClientNotFound(ClientId),
    /// Outgoing message is bigger than maximum
    OutgoingMessageTooLarge,
    /// Outgoing message serialize ended in error
    OutgoingMessageSerializeError,
    /// Incoming message is too large.
    IncomingMessageTooLarge(ClientId),
    /// Incoming message deserialize ended in error
    IncomingMessageDeserializeError(ClientId),
    /// Sending a message to a client failed because its stream buffer is full.
    TcpStreamBufferFull(ClientId),
}

} // verus!
