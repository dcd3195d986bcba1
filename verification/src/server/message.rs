//! Messages exchanged between the server, its supervisor, its workers and its senders.
use std::sync::mpsc::Sender;

use vstd::prelude::*;

use crate::server::{error::ErrorUpdate, status::ServerStatus, worker::WorkerId, ClientId};
use crate::Message;

verus! {

/// Address of a client, as plain values: its IP address as an integer (an
/// IPv4 address in the low 32 bits, when `v6` is false) and its port.
#[derive(Debug, Clone, Copy, PartialEq, Eq, Structural)]
pub struct ClientAddress {
    /// The IP address
    pub ip: u128,
    /// Whether the IP address is an IPv6 one
    pub v6: bool,
    /// The port
    pub port: u16,
}

/// Update sent to the server by its supervisor.
#[derive(Debug, Clone, Copy, PartialEq, Eq, Structural)]
pub enum ServerUpdate {
    /// Server is now active
    Active,
    /// New client connected with its id and address
    ClientConnected(ClientId, ClientAddress),
    /// A client disconnected with its id
    ClientDisconnected(ClientId),
    /// An error occurred
    Error(ErrorUpdate),
    /// Server is currently full
    Full,
    /// Server is currently inactive
    Inactive,
    /// Supervisor has ended
    Ended,
}

/// Message sent to and received by the supervisor; `L` is the shared listener.
pub enum SupervisorMessage<L> {
    /// Message sent from server
    FromServer(SupervisorServerMessage<L>),
    /// Message sent from worker
    FromWorker(SupervisorWorkerMessage),
}

/// Supervisor message sent from server; `L` is the shared listener.
pub enum SupervisorServerMessage<L> {
    /// Give listener to supervisor
    Start(L),
    /// Stop the supervisor
    Stop,
    /// End the supervisor thread
    End,
}

/// Supervisor message sent from worker
#[derive(Debug, Clone, Copy, PartialEq, Eq, Structural)]
pub enum SupervisorWorkerMessage {
    /// Client is now connected, with its address
    Connected(ClientId, ClientAddress),
    /// Worker finished incoming connection job
    IncomingJobDone,
    /// Worker finished receiving incoming message of client
    ReceiveJobDone(ClientId),
    /// Client connection closed
    Disconnected(ClientId),
    /// An error occurred
    Error(ErrorUpdate),
    /// Worker thread ended execution
    Finished(WorkerId),
}

/// Message sent to an inactive worker; `L` is the shared listener.
pub enum WorkerInactiveMessage<L> {
    /// Start the worker
    Start(L),
    /// Stop the worker
    Stop,
    /// End the worker thread
    End,
}

/// Message sent to and received by active workers
pub enum WorkerActiveMessage<OUT: Message> {
    /// Handle incoming connection to server
    Incoming,
    /// Receive message from client id
    Receive(ClientId),
    /// Send server message to clients
    Send(OutgoingMessage<OUT>),
    /// Clear the incoming stream of a client
    Clear(ClientId),
    /// Disconnect client
    Disconnect(ClientId),
    /// Stop working (set inactive)
    Stop,
    /// End worker thread
    End,
}

/// Message sent to a `ServerMessageSender` by the server.
#[verifier::reject_recursive_types(OUT)]
pub enum SenderMessage<OUT: Message> {
    /// Server status changed.
    Status(ServerStatus),
    /// Newest sender to the workers.
    Reference(Sender<WorkerActiveMessage<OUT>>),
    /// Ping the sender to see if it is still alive.
    Ping,
}

/// Outgoing message sent by server to clients.
pub struct OutgoingMessage<OUT: Message> {
    destinations: Vec<ClientId>,
    message: OUT,
}

impl<OUT: Message> OutgoingMessage<OUT> {
    /// Clients the message is for.
    pub closed spec fn spec_destinations(&self) -> Seq<ClientId> {
        self.destinations@
    }

    /// The message itself.
    pub closed spec fn spec_message(&self) -> OUT {
        self.message
    }

    /// Wrap an outgoing message for one client.
    pub fn new(client_id: ClientId, message: OUT) -> (outgoing: OutgoingMessage<OUT>)
        ensures
            outgoing.spec_destinations() == seq![client_id],
            outgoing.spec_message() == message,
    {
        let destinations = vec![client_id];
        OutgoingMessage { destinations, message }
    }

    /// Wrap an outgoing message for every client of `destinations`, in order.
    pub fn new_vec(destinations: &Vec<ClientId>, message: OUT) -> (outgoing: OutgoingMessage<OUT>)
        ensures
            outgoing.spec_destinations() == destinations@,
            outgoing.spec_message() == message,
    {
        let mut copy: Vec<ClientId> = Vec::with_capacity(destinations.len());
        let mut i: usize = 0;
        while i < destinations.len()
            invariant
                i <= destinations.len(),
                copy@ == destinations@.subrange(0, i as int),
            decreases destinations.len() - i,
        {
            copy.push(destinations[i]);
            i = i + 1;
        }
        OutgoingMessage { destinations: copy, message }
    }

    /// Clients the message is for.
    pub fn destinations(&self) -> (destinations: &Vec<ClientId>)
        ensures
            destinations@ == self.spec_destinations(),
    {
        &self.destinations
    }

    /// The message itself.
    pub fn message(&self) -> (message: &OUT)
        ensures
            *message == self.spec_message(),
    {
        &self.message
    }

    /// Split into destinations and message.
    pub fn into_parts(self) -> (parts: (Vec<ClientId>, OUT))
        ensures
            parts.0@ == self.spec_destinations(),
            parts.1 == self.spec_message(),
    {
        (self.destinations, self.message)
    }
}

/// Message received from a client.
pub struct IncomingMessage<IN: Message> {
    /// Client that sent the message
    pub client_id: ClientId,
    /// The message itself
    pub message: IN,
}

impl<IN: Message> IncomingMessage<IN> {
    /// Create a new server incoming message
    pub fn new(client: ClientId, message: IN) -> (incoming: IncomingMessage<IN>)
        ensures
            incoming.client_id == client,
            incoming.message == message,
    {
        IncomingMessage { client_id: client, message }
    }
}

} // verus!
