//! Status of the server.
use vstd::prelude::*;

verus! {

/// Status of the server, as seen by its owner and its senders.
#[derive(Debug, Clone, Copy, PartialEq, Eq, Structural)]
pub enum ServerStatus {
    /// Server is not listening.
    Inactive,
    /// Start was requested; the supervisor has not confirmed yet.
    Starting,
    /// Server is listening and serving clients.
    Active,
    /// Server is paused: sending is refused for now.
    Paused,
    /// Stop was requested.
    Stopping,
    /// Server is ending.
    Ending,
}

/// Status of a server worker thread.
#[derive(Debug, Clone, Copy, PartialEq, Eq, Structural)]
pub enum WorkerStatus {
    /// The worker takes jobs.
    Active,
    /// The worker thread must end.
    Ended,
}

} // verus!
