//! Server end: accepts clients and exchanges messages with them through a
//! supervisor thread and a pool of worker threads.
use vstd::prelude::*;

use crate::MAXIMUM_MESSAGE_SIZE;

pub mod builder;
pub mod channel;
pub mod dispatcher;
pub mod error;
pub mod message;
pub mod sender;
pub mod server;
pub mod status;
pub mod supervisor;
pub mod task;
pub mod transceiver;
pub mod transmitter;
pub mod worker;

pub use builder::ServerBuilder;
pub use dispatcher::Dispatcher;
pub use error::{ErrorDispatcher, ErrorSender, ErrorServer, ErrorTransceiver, ErrorUpdate};
pub use message::ServerUpdate;

pub use sender::ServerMessageSender;
pub use status::ServerStatus;
pub use transceiver::Transceiver;
pub use transmitter::Transmitter;

verus! {

/// Identifier of a client of the server: its slot in the client list.
pub type ClientId = u16;

/// Minimum size of incoming message.
pub const INCOMING_SIZE_MINIMUM: usize = 1;

/// Default maximum size of incoming message. (1KB)
pub const INCOMING_SIZE_DEFAULT: usize = 1024;

/// Maximum size of incoming message.
pub const INCOMING_SIZE_MAXIMUM: usize = MAXIMUM_MESSAGE_SIZE;

/// Minimum size of outgoing message.
pub const OUTGOING_SIZE_MINIMUM: usize = 1;

/// Default maximum size of outgoing message. (64KB)
pub const OUTGOING_SIZE_DEFAULT: usize = MAXIMUM_MESSAGE_SIZE;

/// Maximum size of outgoing message.
pub const OUTGOING_SIZE_MAXIMUM: usize = MAXIMUM_MESSAGE_SIZE;

/// Current minimum client cap
pub const MAXCLIENT_MINIMUM: usize = 1;

/// Default maximum client for builder
pub const MAXCLIENT_DEFAULT: usize = 32;

/// Current maximum client cap (the largest `ClientId`).
pub const MAXCLIENT_MAXIMUM: usize = 65535;

/// Minimum worker count cap
pub const WORKER_COUNT_MINIMUM: usize = 1;

/// Default worker count
pub const WORKER_COUNT_DEFAULT: usize = 4;

/// Default pool rate of the supervisor per second.
pub const POOL_RATE_PER_SECOND_DEFAULT: u64 = 30;

/// Minimum pool rate that can be set.
pub const POOL_RATE_PER_SECOND_MINIMUM: u64 = 1;

/// Maximum pool rate that can be set.
pub const POOL_RATE_PER_SECOND_MAXIMUM: u64 = 1000;

} // verus!
