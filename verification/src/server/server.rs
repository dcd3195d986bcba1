//! Server: the rules by which it starts, follows its supervisor, closes
//! connections and stops.
use std::io::ErrorKind;

use vstd::prelude::*;

use crate::channel::{handed_over, last_taken, send_value, try_receive, TryReceive};
use crate::server::{
    channel::ServerChannel,
    error::ErrorServer,
    message::{ServerUpdate, SupervisorMessage, SupervisorServerMessage, WorkerActiveMessage},
    status::ServerStatus,
    transceiver::Transceiver,
    ClientId, MAXCLIENT_MAXIMUM,
};
use crate::Message;

verus! {

/// Milliseconds of wait time per thread when joining the server threads.
pub const MS_JOIN_WAIT_DURATION_PER_WORKER: u64 = 50;

/// Longest wait, in milliseconds, for the threads of a server of
/// `worker_count` workers to end: one period per worker and one for the
/// supervisor.
pub fn join_wait_millis(worker_count: usize) -> (millis: u64)
    requires
        worker_count <= MAXCLIENT_MAXIMUM,
    ensures
        millis == MS_JOIN_WAIT_DURATION_PER_WORKER * (1 + worker_count),
{
    let count: u64 = worker_count as u64;
    MS_JOIN_WAIT_DURATION_PER_WORKER * (1 + count)
}

/// The error a listener that could not be bound with this I/O error kind is
/// reported with.
pub open spec fn listener_error(kind: ErrorKind) -> ErrorServer {
    match kind {
        ErrorKind::AddrInUse => ErrorServer::SocketAddressAlreadyUsed,
        ErrorKind::InvalidInput => ErrorServer::SocketInvalid,
        _ => ErrorServer::UnhandledIOError(kind),
    }
}

/// The error a failed bind with this I/O error kind is reported with.
pub fn listener_failure(kind: ErrorKind) -> (error: ErrorServer)
    ensures
        error == listener_error(kind),
{
    match kind {
        ErrorKind::AddrInUse => ErrorServer::SocketAddressAlreadyUsed,
        ErrorKind::InvalidInput => ErrorServer::SocketInvalid,
        _ => ErrorServer::UnhandledIOError(kind),
    }
}

/// The status of a server after an update of its supervisor.
pub open spec fn status_after_update(status: ServerStatus, update: ServerUpdate) -> ServerStatus {
    match update {
        ServerUpdate::Active => ServerStatus::Active,
        ServerUpdate::Inactive => ServerStatus::Inactive,
        _ => status,
    }
}

/// The part of a server that decides: its status and its channels to the
/// supervisor and to the workers; `L` is the shared listener.
#[verifier::reject_recursive_types(IN)]
#[verifier::reject_recursive_types(OUT)]
#[verifier::reject_recursive_types(L)]
pub struct ServerCore<IN: Message, OUT: Message, L> {
    channels: ServerChannel<IN, OUT, L>,
    status: ServerStatus,
    to_supervisor: Ghost<Seq<(SupervisorServerMessage<L>, bool)>>,
    to_workers: Ghost<Seq<(WorkerActiveMessage<OUT>, bool)>>,
}

impl<IN: Message, OUT: Message, L> ServerCore<IN, OUT, L> {
    /// Current status.
    pub closed spec fn current_status(&self) -> ServerStatus {
        self.status
    }

    /// Whether the transceiver is still held by the server.
    pub closed spec fn holds_transceiver(&self) -> bool {
        self.channels.transceiver is Some
    }

    /// The requests handed to the supervisor, in order, each with whether its
    /// channel took it.
    pub closed spec fn supervisor_requests(&self) -> Seq<(SupervisorServerMessage<L>, bool)> {
        self.to_supervisor@
    }

    /// The messages handed to the workers, in order, each with whether their
    /// channel took it.
    pub closed spec fn worker_messages(&self) -> Seq<(WorkerActiveMessage<OUT>, bool)> {
        self.to_workers@
    }

    /// Create the core of a server; it starts inactive.
    pub fn new(channels: ServerChannel<IN, OUT, L>) -> (core: ServerCore<IN, OUT, L>)
        ensures
            core.current_status() == ServerStatus::Inactive,
            core.holds_transceiver() == channels.transceiver is Some,
            core.supervisor_requests() == Seq::<(SupervisorServerMessage<L>, bool)>::empty(),
            core.worker_messages() == Seq::<(WorkerActiveMessage<OUT>, bool)>::empty(),
    {
        ServerCore {
            channels,
            status: ServerStatus::Inactive,
            to_supervisor: Ghost(Seq::empty()),
            to_workers: Ghost(Seq::empty()),
        }
    }

    /// Current status.
    pub fn status(&self) -> (status: ServerStatus)
        ensures
            status == self.current_status(),
    {
        self.status
    }

    /// Only an inactive server may start.
    pub fn check_start(&self) -> (result: Result<(), ErrorServer>)
        ensures
            result is Ok <==> self.current_status() == ServerStatus::Inactive,
            result is Err ==> result == Err::<(), ErrorServer>(ErrorServer::AlreadyActive),
    {
        match self.status {
            ServerStatus::Inactive => Ok(()),
            _ => Err(ErrorServer::AlreadyActive),
        }
    }

    /// Hand `request` to the supervisor, recording it; `true` when its channel took it.
    fn request_supervisor(&mut self, request: SupervisorServerMessage<L>) -> (sent: bool)
        ensures
            handed_over(old(self).supervisor_requests(), final(self).supervisor_requests(), request),
            sent == last_taken(final(self).supervisor_requests()),
            final(self).worker_messages() == old(self).worker_messages(),
            final(self).current_status() == old(self).current_status(),
            final(self).holds_transceiver() == old(self).holds_transceiver(),
    {
        let ghost value = request;
        let sent = send_value(&self.channels.sdr_supervisor, SupervisorMessage::FromServer(request));
        self.to_supervisor = Ghost(self.to_supervisor@.push((value, sent)));
        sent
    }

    /// The listener was bound: hand it to the supervisor. The server is then
    /// starting; `Err(ErrorServer::UnexpectedError)` if the supervisor is gone.
    pub fn begin_start(&mut self, listener: L) -> (result: Result<(), ErrorServer>)
        ensures
            handed_over(old(self).supervisor_requests(), final(self).supervisor_requests(), SupervisorServerMessage::Start(listener)),
            final(self).worker_messages() == old(self).worker_messages(),
            final(self).holds_transceiver() == old(self).holds_transceiver(),
            if last_taken(final(self).supervisor_requests()) {
                result is Ok && final(self).current_status() == ServerStatus::Starting
            } else {
                result == Err::<(), ErrorServer>(ErrorServer::UnexpectedError)
                    && final(self).current_status() == old(self).current_status()
            },
    {
        if self.request_supervisor(SupervisorServerMessage::Start(listener)) {
            self.status = ServerStatus::Starting;
            Ok(())
        } else {
            Err(ErrorServer::UnexpectedError)
        }
    }

    /// Follow an update of the supervisor.
    pub fn handle_update(&mut self, update: ServerUpdate) -> (handled: Option<ServerUpdate>)
        ensures
            handled == Some(update),
            final(self).current_status() == status_after_update(old(self).current_status(), update),
            final(self).supervisor_requests() == old(self).supervisor_requests(),
            final(self).worker_messages() == old(self).worker_messages(),
            final(self).holds_transceiver() == old(self).holds_transceiver(),
    {
        match update {
            ServerUpdate::Active => self.status = ServerStatus::Active,
            ServerUpdate::Inactive => self.status = ServerStatus::Inactive,
            _ => {},
        }
        Some(update)
    }

    /// Get the next update of the supervisor, if any, and follow it.
    pub fn update(&mut self) -> (update: Option<ServerUpdate>)
        ensures
            match update {
                Some(u) => final(self).current_status() == status_after_update(old(self).current_status(), u),
                None => *final(self) == *old(self),
            },
    {
        match try_receive(&self.channels.rcv_server) {
            TryReceive::Value(update) => self.handle_update(update),
            _ => None,
        }
    }

    /// Only an active server lists its clients.
    pub fn check_active(&self) -> (result: Result<(), ErrorServer>)
        ensures
            result is Ok <==> self.current_status() == ServerStatus::Active,
            result is Err ==> result == Err::<(), ErrorServer>(ErrorServer::Inactive),
    {
        match self.status {
            ServerStatus::Active => Ok(()),
            _ => Err(ErrorServer::Inactive),
        }
    }

    /// Close the connection of a client: an active server hands the request to
    /// the workers. Returns `Err(ErrorServer::Inactive)` if the server is not
    /// active, `Err(ErrorServer::UnexpectedError)` if the workers are gone.
    pub fn close_connection(&mut self, client_id: ClientId) -> (result: Result<(), ErrorServer>)
        ensures
            final(self).current_status() == old(self).current_status(),
            final(self).supervisor_requests() == old(self).supervisor_requests(),
            final(self).holds_transceiver() == old(self).holds_transceiver(),
            if old(self).current_status() == ServerStatus::Active {
                &&& handed_over(old(self).worker_messages(), final(self).worker_messages(), WorkerActiveMessage::Disconnect(client_id))
                &&& result == (if last_taken(final(self).worker_messages()) {
                    Ok::<(), ErrorServer>(())
                } else {
                    Err(ErrorServer::UnexpectedError)
                })
            } else {
                &&& final(self).worker_messages() == old(self).worker_messages()
                &&& result == Err::<(), ErrorServer>(ErrorServer::Inactive)
            },
    {
        match self.status {
            ServerStatus::Active => {
                let sent = send_value(&self.channels.sdr_worker, WorkerActiveMessage::Disconnect(client_id));
                self.to_workers = Ghost(self.to_workers@.push((WorkerActiveMessage::Disconnect(client_id), sent)));
                if sent {
                    Ok(())
                } else {
                    Err(ErrorServer::UnexpectedError)
                }
            },
            _ => Err(ErrorServer::Inactive),
        }
    }

    /// Stop the server, disconnecting all clients: the supervisor is told to
    /// stop and the server is stopping; `Err(ErrorServer::UnexpectedError)`
    /// if the supervisor is gone.
    pub fn stop(&mut self) -> (result: Result<(), ErrorServer>)
        ensures
            handed_over(old(self).supervisor_requests(), final(self).supervisor_requests(), SupervisorServerMessage::Stop),
            final(self).worker_messages() == old(self).worker_messages(),
            final(self).holds_transceiver() == old(self).holds_transceiver(),
            if last_taken(final(self).supervisor_requests()) {
                result is Ok && final(self).current_status() == ServerStatus::Stopping
            } else {
                result == Err::<(), ErrorServer>(ErrorServer::UnexpectedError)
                    && final(self).current_status() == old(self).current_status()
            },
    {
        if self.request_supervisor(SupervisorServerMessage::Stop) {
            self.status = ServerStatus::Stopping;
            Ok(())
        } else {
            Err(ErrorServer::UnexpectedError)
        }
    }

    /// Tell the supervisor to end its thread.
    pub fn request_end(&mut self)
        ensures
            handed_over(old(self).supervisor_requests(), final(self).supervisor_requests(), SupervisorServerMessage::End),
            final(self).worker_messages() == old(self).worker_messages(),
            final(self).current_status() == old(self).current_status(),
            final(self).holds_transceiver() == old(self).holds_transceiver(),
    {
        let _ = self.request_supervisor(SupervisorServerMessage::End);
    }

    /// The transceiver used to receive and send messages, while the server holds it.
    pub fn transceiver(&mut self) -> (transceiver: &mut Option<Transceiver<IN, OUT>>)
        ensures
            (*transceiver is Some) == old(self).holds_transceiver(),
            final(self).holds_transceiver() == (*final(transceiver) is Some),
            final(self).current_status() == old(self).current_status(),
            final(self).supervisor_requests() == old(self).supervisor_requests(),
            final(self).worker_messages() == old(self).worker_messages(),
    {
        &mut self.channels.transceiver
    }
}

/// The server status follows the activity of its supervisor alone: `Active`
/// makes it active and `Inactive` inactive, and every other update (a client
/// connecting or disconnecting, an error, a full server, the supervisor
/// ending) leaves it as it was. So the server becomes inactive only on an
/// `Inactive` update, and active only on an `Active` one.
pub proof fn lemma_status_follows_supervisor(status: ServerStatus, update: ServerUpdate)
    ensures
        update == ServerUpdate::Active ==> status_after_update(status, update) == ServerStatus::Active,
        update == ServerUpdate::Inactive ==> status_after_update(status, update) == ServerStatus::Inactive,
        update != ServerUpdate::Active && update != ServerUpdate::Inactive ==> status_after_update(status, update) == status,
        status_after_update(status, update) == ServerStatus::Inactive && status != ServerStatus::Inactive ==> update == ServerUpdate::Inactive,
        status_after_update(status, update) == ServerStatus::Active && status != ServerStatus::Active ==> update == ServerUpdate::Active,
{
}

} // verus!
