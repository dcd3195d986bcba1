//! Client end: connects to a server and exchanges messages through a worker thread.
use vstd::prelude::*;

use crate::MAXIMUM_MESSAGE_SIZE;

pub mod builder;
pub mod channel;
pub mod client;
pub mod dispatcher;
pub mod error;
pub mod message;
pub mod status;
pub mod transceiver;
pub mod transmitter;
pub mod worker;

pub use builder::ClientBuilder;
pub use error::{ErrorClient, ErrorDispatcher, ErrorTransceiver, ErrorWorker};
pub use message::ClientUpdate;
pub use status::ClientStatus;
pub use transceiver::Transceiver;
pub use transmitter::Transmitter;

verus! {

/// Default size limit of incoming messages (64 kilobytes).
pub const DEFAULT_INCOMING_SIZE: usize = MAXIMUM_MESSAGE_SIZE;

/// Minimum size limit of incoming messages (1 byte).
pub const MINIMUM_INCOMING_SIZE: usize = 1;

/// Maximum size limit of incoming messages (64 kilobytes).
pub const MAXIMUM_INCOMING_SIZE: usize = MAXIMUM_MESSAGE_SIZE;

/// Default size limit of outgoing messages (1024 bytes).
pub const DEFAULT_OUTGOING_SIZE: usize = 1024;

/// Minimum size limit of outgoing messages (1 byte).
pub const MINIMUM_OUTGOING_SIZE: usize = 1;

/// Maximum size limit of outgoing messages (64 kilobytes).
pub const MAXIMUM_OUTGOING_SIZE: usize = MAXIMUM_MESSAGE_SIZE;

/// Default pool rate of the client worker per second.
pub const DEFAULT_POOL_RATE_PER_SECOND: u64 = 30;

/// Minimum pool rate of the client worker per second.
pub const MINIMUM_POOL_RATE_PER_SECOND: u64 = 1;

/// Maximum pool rate of the client worker per second.
pub const MAXIMUM_POOL_RATE_PER_SECOND: u64 = 1000;

} // verus!
