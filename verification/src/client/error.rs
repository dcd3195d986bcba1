//! Errors of the client side.
use vstd::prelude::*;

verus! {

/// Possible client error.
#[derive(Debug, PartialEq)]
pub enum ErrorClient {
    /// Cant connect to given address. Server might be down.
    ServerNotFound,
    /// Client is already connected.
    AlreadyConnected,
    /// Socket given is invalid.
    InvalidSocket,
    /// Happens when server refused connection (ie server is full).
    ConnectionRefused,
    /// Happens when client is disconnected.
    Disconnected,
    /// Unhandled IO error.
    UnhandledIOError(std::io::ErrorKind),
    /// Unexpected error happened.
    UnexpectedError,
    /// Pool rate is below `MINIMUM_POOL_RATE_PER_SECOND`.
    PoolRateBelowMinimum,
    /// Pool rate is above `MAXIMUM_POOL_RATE_PER_SECOND`.
    PoolRateAboveMaximum,
    /// Outgoing message size is below `MINIMUM_OUTGOING_SIZE`.
    OutgoingMessageSizeBelowMinimum,
    /// Outgoing message size is above `MAXIMUM_OUTGOING_SIZE`.
    OutgoingMessageSizeAboveMaximum,
    /// Error happened while trying to join worker thread.
    CloseJoinError,
    /// Client took too much time closing connection.
    CloseTimeout,
}

/// Possible worker error.
#[derive(Debug, Clone, Copy, PartialEq, Eq, Structural)]
pub enum ErrorWorker {
    /// Outgoing message serialize failed.
    OutgoingSerializeError,
    /// Outgoing message is larger than the outgoing size limit.
    OutgoingMessageTooLarge,
    /// Connection to server lost.
    ConnectionLost,
    /// Incoming message from server is larger than the incoming size limit.
    IncomingMessageTooLarge,
    /// An error occurred while deserializing incoming message.
    IncomingMessageError,
}

/// Error given by the client `Dispatcher`.
#[derive(Debug, Clone, Copy, PartialEq, Eq, Structural)]
pub enum ErrorDispatcher {
    /// Client is not connected.
    Disconnected,
    /// Channel to the client is lost (client dropped).
    ChannelDisconnected,
}

/// Error given by the client `Transceiver` and `Transmitter`.
#[derive(Debug, Clone, Copy, PartialEq, Eq, Structural)]
pub enum ErrorTransceiver {
    /// Channels are disconnected from the client (client dropped).
    ChannelDisconnected,
    /// `Transceiver::receive_timeout()` has expired.
    Timeout,
}

} // verus!
