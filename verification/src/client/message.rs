//! Messages exchanged between the client, its dispatchers and its worker thread.
use std::sync::mpsc::Sender;

use vstd::prelude::*;

use crate::client::{error::ErrorWorker, status::ClientStatus};
use crate::Message;

verus! {

/// Update sent to the client by its worker thread.
#[derive(Debug, Clone, Copy, PartialEq, Eq, Structural)]
pub enum ClientUpdate {
    /// The connection to the server is established.
    Connected,
    /// The connection to the server was closed.
    Disconnected,
    /// An error occurred in the worker thread.
    Error(ErrorWorker),
    /// The worker thread ended.
    Ended,
}

/// Message sent to a client by its worker.
pub enum ClientMessage<IN: Message> {
    /// Incoming message from server.
    Incoming(IN),
    /// An error occurred in the worker thread.
    Error(ErrorWorker),
    /// Worker status changed.
    StatusChanged(ClientStatus),
}

/// Message sent to a dispatcher by its client.
#[verifier::reject_recursive_types(OUT)]
pub enum DispatcherMessage<OUT: Message> {
    /// Client status changed.
    Status(ClientStatus),
    /// Newest sender to the worker thread.
    Reference(Sender<WorkerMessage<OUT>>),
    /// Ping the dispatcher to see if it is still alive.
    Ping,
}

/// Message sent to the worker thread.
///
/// The stream of a new connection travels beside `Connect`, on a channel of
/// the thread layer.
pub enum WorkerMessage<OUT: Message> {
    /// Send a message to the server.
    Send(OUT),
    /// Take the newly opened connection and serve it.
    Connect,
    /// Close the connection.
    Stop,
    /// End the worker thread.
    End,
}

} // verus!
