//! Wire framing: the two-byte little-endian size header of each message.
use vstd::prelude::*;

use crate::{MAXIMUM_MESSAGE_SIZE, SIZE_OF_MESSAGE_SIZE};

verus! {

/// Outcome of reading an exact count of bytes from a stream.
#[derive(Debug, Clone, Copy, PartialEq, Eq, Structural)]
pub enum ReadOutcome {
    /// Every byte was read.
    Done,
    /// Not enough bytes are available yet; reading would block.
    WouldBlock,
    /// The stream failed: the connection is lost.
    Failed,
}

/// Outcome of writing a whole buffer to a stream.
#[derive(Debug, Clone, Copy, PartialEq, Eq, Structural)]
pub enum WriteOutcome {
    /// Every byte was written.
    Done,
    /// The stream cannot take the bytes now; writing would block.
    WouldBlock,
    /// The stream failed: the connection is lost.
    Failed,
}

/// The size a header of two bytes stands for (little endian).
pub open spec fn header_value(low: u8, high: u8) -> nat {
    (low as nat) + 256 * (high as nat)
}

/// Encode a message size as its little-endian header.
pub fn encode_message_size(size: usize) -> (header: [u8; 2])
    requires
        size <= MAXIMUM_MESSAGE_SIZE,
    ensures
        header_value(header[0], header[1]) == size,
        header[0] == size % 256,
        header[1] == size / 256,
{
    let low: u8 = (size % 256) as u8;
    let high: u8 = (size / 256) as u8;
    [low, high]
}

/// Decode the size of a message from the first two bytes of `buffer`.
pub fn decode_message_size(buffer: &[u8]) -> (size: usize)
    requires
        buffer.len() >= SIZE_OF_MESSAGE_SIZE,
    ensures
        size == header_value(buffer[0], buffer[1]),
        size <= MAXIMUM_MESSAGE_SIZE,
{
    let low: usize = buffer[0] as usize;
    let high: usize = buffer[1] as usize;
    low + 256 * high
}

/// Every size a header can hold decodes back from its encoding.
pub proof fn lemma_size_roundtrip(size: nat)
    requires
        size <= MAXIMUM_MESSAGE_SIZE,
    ensures
        header_value((size % 256) as u8, (size / 256) as u8) == size,
{
}

/// Every two-byte header is the encoding of the size it decodes to.
pub proof fn lemma_header_roundtrip(low: u8, high: u8)
    ensures
        header_value(low, high) <= MAXIMUM_MESSAGE_SIZE,
        header_value(low, high) % 256 == low,
        header_value(low, high) / 256 == high,
{
}

} // verus!
