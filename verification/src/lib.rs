//! Thread-backed TCP client and server exchanging length-prefixed messages.
//!
//! Every message travels on the wire as a two-byte little-endian size header
//! followed by the serialized body. The verified part of the crate holds the
//! framing, the configuration rules, the message routing between threads and
//! the state machines of the client, the server and their workers.
use vstd::prelude::*;

pub mod channel;
pub mod client;
pub mod frame;
pub mod server;
pub mod io;

verus! {

/// Bytes length of the size header of every message (a `u16`).
pub const SIZE_OF_MESSAGE_SIZE: usize = 2;

/// Maximum message size is 65535 bytes (64ko).
///
/// Message bigger than that should be cut in smaller message.
pub const MAXIMUM_MESSAGE_SIZE: usize = 65535;

/// Message that are sent between server and client must implement this trait.
pub trait Message: Sized {
    /// Serialize the message into a provided buffer.
    ///
    /// Returns `Ok(n)` with the count of bytes written, or `Err(())` if the
    /// message could not be serialized (for example if the buffer is too small).
    fn serialize(&self, buffer: &mut [u8]) -> Result<usize, ()>;

    /// Deserialize the message from a provided buffer.
    ///
    /// Returns `Err(())` when the buffer is incomplete or corrupt.
    fn deserialize(buffer: &[u8]) -> Result<Self, ()>;
}

} // verus!
