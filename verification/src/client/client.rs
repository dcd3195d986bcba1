//! Client: the rules by which it connects, follows its worker and closes.
use std::io::ErrorKind;

use vstd::prelude::*;

use crate::channel::{handed_over, last_taken, send_value, try_receive, TryReceive};
use crate::client::{
    channel::ClientChannel,
    error::{ErrorClient, ErrorWorker},
    message::{ClientUpdate, WorkerMessage},
    status::ClientStatus,
    transceiver::Transceiver,
};
use crate::Message;

verus! {

/// The error a failed connection attempt with this I/O error kind is
/// reported with.
pub open spec fn connect_error(kind: ErrorKind) -> ErrorClient {
    match kind {
        ErrorKind::InvalidInput | ErrorKind::InvalidData => ErrorClient::InvalidSocket,
        ErrorKind::HostUnreachable | ErrorKind::NetworkUnreachable | ErrorKind::NotFound | ErrorKind::AddrNotAvailable
        | ErrorKind::NetworkDown => ErrorClient::ServerNotFound,
        ErrorKind::PermissionDenied | ErrorKind::ConnectionRefused | ErrorKind::ConnectionReset
        | ErrorKind::ConnectionAborted | ErrorKind::NotConnected => ErrorClient::ConnectionRefused,
        _ => ErrorClient::UnhandledIOError(kind),
    }
}

/// The error a failed connection attempt with this I/O error kind is reported with.
pub fn connect_failure(kind: ErrorKind) -> (error: ErrorClient)
    ensures
        error == connect_error(kind),
{
    match kind {
        ErrorKind::InvalidInput | ErrorKind::InvalidData => ErrorClient::InvalidSocket,
        ErrorKind::HostUnreachable | ErrorKind::NetworkUnreachable | ErrorKind::NotFound | ErrorKind::AddrNotAvailable
        | ErrorKind::NetworkDown => ErrorClient::ServerNotFound,
        ErrorKind::PermissionDenied | ErrorKind::ConnectionRefused | ErrorKind::ConnectionReset
        | ErrorKind::ConnectionAborted | ErrorKind::NotConnected => ErrorClient::ConnectionRefused,
        _ => ErrorClient::UnhandledIOError(kind),
    }
}

/// The error a connection that could not be configured is reported with.
pub fn configure_failure(kind: ErrorKind) -> (error: ErrorClient)
    ensures
        error == ErrorClient::UnhandledIOError(kind),
{
    ErrorClient::UnhandledIOError(kind)
}

/// The status of a client after an update of its worker.
pub open spec fn status_after_update(status: ClientStatus, update: ClientUpdate) -> ClientStatus {
    match update {
        ClientUpdate::Connected => ClientStatus::Connected,
        ClientUpdate::Disconnected => ClientStatus::Disconnected,
        ClientUpdate::Error(ErrorWorker::ConnectionLost) => ClientStatus::Disconnecting,
        _ => status,
    }
}

/// The part of a client that decides: its status and its channels to the worker.
#[verifier::reject_recursive_types(IN)]
#[verifier::reject_recursive_types(OUT)]
pub struct ClientCore<IN: Message, OUT: Message> {
    channels: ClientChannel<IN, OUT>,
    status: ClientStatus,
    to_worker: Ghost<Seq<(WorkerMessage<OUT>, bool)>>,
}

impl<IN: Message, OUT: Message> ClientCore<IN, OUT> {
    /// Current status.
    pub closed spec fn current_status(&self) -> ClientStatus {
        self.status
    }

    /// Whether the transceiver is still held by the client.
    pub closed spec fn holds_transceiver(&self) -> bool {
        self.channels.transceiver is Some
    }

    /// The messages handed to the worker, in order, each with whether its
    /// channel took it.
    pub closed spec fn worker_commands(&self) -> Seq<(WorkerMessage<OUT>, bool)> {
        self.to_worker@
    }

    /// What an update of the worker hands to it: `Stop` for a lost
    /// connection, which is closed; nothing for the others.
    pub open spec fn commands_after_update(&self, update: ClientUpdate, after: &Self) -> bool {
        if update == ClientUpdate::Error(ErrorWorker::ConnectionLost) {
            handed_over(self.worker_commands(), after.worker_commands(), WorkerMessage::Stop)
        } else {
            after.worker_commands() == self.worker_commands()
        }
    }

    /// Create the core of a client; it starts disconnected.
    pub fn new(channels: ClientChannel<IN, OUT>) -> (core: ClientCore<IN, OUT>)
        ensures
            core.current_status() == ClientStatus::Disconnected,
            core.holds_transceiver() == channels.transceiver is Some,
            core.worker_commands() == Seq::<(WorkerMessage<OUT>, bool)>::empty(),
    {
        ClientCore { channels, status: ClientStatus::Disconnected, to_worker: Ghost(Seq::empty()) }
    }

    /// Current status.
    pub fn status(&self) -> (status: ClientStatus)
        ensures
            status == self.current_status(),
    {
        self.status
    }

    /// A connection may only be opened by a disconnected client.
    pub fn check_connect(&self) -> (result: Result<(), ErrorClient>)
        ensures
            result is Ok <==> self.current_status() == ClientStatus::Disconnected,
            result is Err ==> result == Err::<(), ErrorClient>(ErrorClient::AlreadyConnected),
    {
        match self.status {
            ClientStatus::Disconnected => Ok(()),
            _ => Err(ErrorClient::AlreadyConnected),
        }
    }

    /// Hand `command` to the worker, recording it; `true` when its channel took it.
    fn command_worker(&mut self, command: WorkerMessage<OUT>) -> (sent: bool)
        ensures
            handed_over(old(self).worker_commands(), final(self).worker_commands(), command),
            sent == last_taken(final(self).worker_commands()),
            final(self).current_status() == old(self).current_status(),
            final(self).holds_transceiver() == old(self).holds_transceiver(),
    {
        let ghost value = command;
        let sent = send_value(&self.channels.sdr_worker, command);
        self.to_worker = Ghost(self.to_worker@.push((value, sent)));
        sent
    }

    /// A connection was opened and handed over: the client is connecting and
    /// tells its worker. Returns `Err(ErrorClient::UnexpectedError)` if the
    /// worker is gone.
    pub fn connection_opened(&mut self) -> (result: Result<(), ErrorClient>)
        ensures
            handed_over(old(self).worker_commands(), final(self).worker_commands(), WorkerMessage::Connect),
            result == (if last_taken(final(self).worker_commands()) {
                Ok::<(), ErrorClient>(())
            } else {
                Err(ErrorClient::UnexpectedError)
            }),
            final(self).current_status() == ClientStatus::Connecting,
            final(self).holds_transceiver() == old(self).holds_transceiver(),
    {
        self.status = ClientStatus::Connecting;
        if self.command_worker(WorkerMessage::Connect) {
            Ok(())
        } else {
            Err(ErrorClient::UnexpectedError)
        }
    }

    /// Follow an update of the worker; a lost connection is closed.
    pub fn handle_client_update(&mut self, update: ClientUpdate) -> (handled: Option<ClientUpdate>)
        ensures
            handled == Some(update),
            final(self).current_status() == status_after_update(old(self).current_status(), update),
            old(self).commands_after_update(update, final(self)),
            final(self).holds_transceiver() == old(self).holds_transceiver(),
    {
        match update {
            ClientUpdate::Connected => self.status = ClientStatus::Connected,
            ClientUpdate::Error(ErrorWorker::ConnectionLost) => self.close(),
            ClientUpdate::Disconnected => self.status = ClientStatus::Disconnected,
            _ => {},
        }
        Some(update)
    }

    /// Get the next update of the worker, if any, and follow it.
    pub fn update(&mut self) -> (update: Option<ClientUpdate>)
        ensures
            final(self).holds_transceiver() == old(self).holds_transceiver(),
            match update {
                Some(u) => {
                    &&& final(self).current_status() == status_after_update(old(self).current_status(), u)
                    &&& old(self).commands_after_update(u, final(self))
                },
                None => *final(self) == *old(self),
            },
    {
        match try_receive(&self.channels.rcv_update) {
            TryReceive::Value(update) => self.handle_client_update(update),
            _ => None,
        }
    }

    /// Close the connection to the server: the worker is told to stop and the
    /// client is disconnecting.
    pub fn close(&mut self)
        ensures
            handed_over(old(self).worker_commands(), final(self).worker_commands(), WorkerMessage::Stop),
            final(self).current_status() == ClientStatus::Disconnecting,
            final(self).holds_transceiver() == old(self).holds_transceiver(),
    {
        let _ = self.command_worker(WorkerMessage::Stop);
        self.status = ClientStatus::Disconnecting;
    }

    /// Tell the worker to end its thread.
    pub fn request_end(&mut self)
        ensures
            handed_over(old(self).worker_commands(), final(self).worker_commands(), WorkerMessage::End),
            final(self).current_status() == old(self).current_status(),
            final(self).holds_transceiver() == old(self).holds_transceiver(),
    {
        let _ = self.command_worker(WorkerMessage::End);
    }

    /// The worker thread was joined, or given up on: the client ended.
    pub fn ended(&mut self)
        ensures
            final(self).current_status() == ClientStatus::Ended,
            final(self).worker_commands() == old(self).worker_commands(),
            final(self).holds_transceiver() == old(self).holds_transceiver(),
    {
        self.status = ClientStatus::Ended;
    }

    /// The transceiver used to receive and send messages, while the client holds it.
    pub fn transceiver(&mut self) -> (transceiver: &mut Option<Transceiver<IN, OUT>>)
        ensures
            (*transceiver is Some) == old(self).holds_transceiver(),
            final(self).holds_transceiver() == (*final(transceiver) is Some),
            final(self).current_status() == old(self).current_status(),
            final(self).worker_commands() == old(self).worker_commands(),
    {
        &mut self.channels.transceiver
    }
}

/// The client status follows the connection alone: `Connected` makes it
/// connected, `Disconnected` disconnected, and a lost connection makes it
/// disconnecting; every other update (any other error, the end of the worker)
/// leaves it as it was. So the client is disconnected only on a `Disconnected`
/// update, connected only on a `Connected` one, and an error other than a
/// lost connection never changes its status.
pub proof fn lemma_status_follows_connection(status: ClientStatus, update: ClientUpdate)
    ensures
        update == ClientUpdate::Connected ==> status_after_update(status, update) == ClientStatus::Connected,
        update == ClientUpdate::Disconnected ==> status_after_update(status, update) == ClientStatus::Disconnected,
        update == ClientUpdate::Error(ErrorWorker::ConnectionLost) ==> status_after_update(status, update) == ClientStatus::Disconnecting,
        update matches ClientUpdate::Error(error) && error != ErrorWorker::ConnectionLost ==> status_after_update(status, update) == status,
        update == ClientUpdate::Ended ==> status_after_update(status, update) == status,
        status_after_update(status, update) == ClientStatus::Disconnected && status != ClientStatus::Disconnected
            ==> update == ClientUpdate::Disconnected,
        status_after_update(status, update) == ClientStatus::Connected && status != ClientStatus::Connected
            ==> update == ClientUpdate::Connected,
{
}

} // verus!
