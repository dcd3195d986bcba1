//! Server worker: the rules by which a worker thread reads from clients,
//! writes to them, finds free client slots and reports to the supervisor.
use std::sync::mpsc::Sender;

use vstd::prelude::*;

use crate::channel::{handed_over, last_taken, send_value};
use crate::frame::{decode_message_size, encode_message_size, header_value, ReadOutcome, WriteOutcome};
use crate::server::{
    error::ErrorUpdate,
    message::{ClientAddress, IncomingMessage, SupervisorMessage, SupervisorWorkerMessage, WorkerActiveMessage, WorkerInactiveMessage},
    status::WorkerStatus,
    task::MAXIMUM_SLOTS,
    ClientId,
};
use crate::{Message, MAXIMUM_MESSAGE_SIZE, SIZE_OF_MESSAGE_SIZE};

verus! {

/// Identifier of a worker thread.
pub type WorkerId = usize;

/// What the worker does next while receiving from a client.
#[derive(Debug, Clone, Copy, PartialEq, Eq, Structural)]
pub enum ServerReceiveStep {
    /// Read the body of a message of this size.
    ReadBody(usize),
    /// A message was delivered; read the next header.
    Continue,
    /// Nothing more to read for now.
    Stop,
    /// Clear the stream of the client, report the error with `reject`, then stop.
    Reject(ErrorUpdate),
    /// The connection is lost: shut the stream down, then call
    /// `handle_connection_lost`, then stop.
    Lost,
}

/// The size of an outgoing message the worker writes, under the outgoing
/// size limit `limit`, or the error it reports.
pub open spec fn server_outgoing_size(serialized: Result<usize, ()>, limit: usize) -> Result<usize, ErrorUpdate> {
    match serialized {
        Ok(size) => if size > limit {
            Err(ErrorUpdate::OutgoingMessageTooLarge)
        } else {
            Ok(size)
        },
        Err(()) => Err(ErrorUpdate::OutgoingMessageSerializeError),
    }
}

/// Whether slot `id` is the first free slot of `occupied`.
pub open spec fn is_first_free(occupied: Seq<bool>, id: int) -> bool {
    &&& 0 <= id < occupied.len()
    &&& !occupied[id]
    &&& forall|j: int| 0 <= j < id ==> occupied[j]
}

/// Find a free client id: the first slot of the client list that holds no
/// client, or `None` when the server is full.
pub fn fetch_new_client_id(occupied: &Vec<bool>) -> (client_id: Option<ClientId>)
    requires
        occupied@.len() <= MAXIMUM_SLOTS,
    ensures
        match client_id {
            Some(id) => is_first_free(occupied@, id as int),
            None => forall|j: int| 0 <= j < occupied@.len() ==> occupied@[j],
        },
{
    let mut client_id: usize = 0;
    while client_id < occupied.len()
        invariant
            client_id <= occupied@.len() <= MAXIMUM_SLOTS,
            forall|j: int| 0 <= j < client_id ==> occupied@[j],
        decreases occupied@.len() - client_id,
    {
        if !occupied[client_id] {
            return Some(client_id as ClientId);
        }
        client_id = client_id + 1;
    }
    None
}

/// Whether the server is full: no slot of the client list is free.
pub fn is_server_full(occupied: &Vec<bool>) -> (full: bool)
    requires
        occupied@.len() <= MAXIMUM_SLOTS,
    ensures
        full == forall|j: int| 0 <= j < occupied@.len() ==> occupied@[j],
{
    fetch_new_client_id(occupied).is_none()
}

/// A status that a failed report may have turned to `Ended`.
pub open spec fn kept_or_ended(before: WorkerStatus, after: WorkerStatus) -> bool {
    after == before || after == WorkerStatus::Ended
}

/// The status after a value was handed to a channel of the worker: kept when
/// the channel took it, else the worker ends.
pub open spec fn status_after_send(before: WorkerStatus, taken: bool) -> WorkerStatus {
    if taken {
        before
    } else {
        WorkerStatus::Ended
    }
}

/// The part of a server worker that decides: its status and its channels to
/// the supervisor and to the transceiver; `L` is the shared listener. Losing
/// one of these channels ends the worker.
#[verifier::reject_recursive_types(IN)]
#[verifier::reject_recursive_types(L)]
pub struct WorkerCore<IN: Message, L> {
    worker_id: WorkerId,
    incoming_max_size: usize,
    outgoing_max_size: usize,
    status: WorkerStatus,
    sdr_incoming: Sender<IncomingMessage<IN>>,
    sdr_supervisor: Sender<SupervisorMessage<L>>,
    reports: Ghost<Seq<(SupervisorWorkerMessage, bool)>>,
    handed: Ghost<Seq<(IncomingMessage<IN>, bool)>>,
}

impl<IN: Message, L> WorkerCore<IN, L> {
    /// Current status.
    pub closed spec fn current_status(&self) -> WorkerStatus {
        self.status
    }

    /// Identifier of the worker.
    pub closed spec fn id(&self) -> WorkerId {
        self.worker_id
    }

    /// Size limit of incoming messages.
    pub closed spec fn incoming_limit(&self) -> usize {
        self.incoming_max_size
    }

    /// Size limit of outgoing messages.
    pub closed spec fn outgoing_limit(&self) -> usize {
        self.outgoing_max_size
    }

    /// The outgoing size limit fits the wire format.
    #[verifier::type_invariant]
    spec fn wf(&self) -> bool {
        self.outgoing_max_size <= MAXIMUM_MESSAGE_SIZE
    }

    /// The messages handed to the supervisor, in order, each with whether
    /// its channel took it.
    pub closed spec fn supervisor_reports(&self) -> Seq<(SupervisorWorkerMessage, bool)> {
        self.reports@
    }

    /// The messages of clients handed to the transceiver, in order, each with
    /// whether its channel took it.
    pub closed spec fn handed_incoming(&self) -> Seq<(IncomingMessage<IN>, bool)> {
        self.handed@
    }

    /// `after` is `self` once `message` was handed to the supervisor: the
    /// report is recorded, an undelivered report ends the worker, and nothing
    /// else changes.
    pub open spec fn reported(&self, after: &Self, message: SupervisorWorkerMessage) -> bool {
        &&& handed_over(self.supervisor_reports(), after.supervisor_reports(), message)
        &&& after.current_status() == status_after_send(self.current_status(), last_taken(after.supervisor_reports()))
        &&& after.handed_incoming() == self.handed_incoming()
        &&& after.id() == self.id()
        &&& after.incoming_limit() == self.incoming_limit()
        &&& after.outgoing_limit() == self.outgoing_limit()
    }

    /// How a complete body of client `client_id` ends once deserialized: a
    /// message is handed to the transceiver with the id of its client; a body
    /// that did not deserialize is rejected with
    /// `IncomingMessageDeserializeError`, nothing changing.
    pub open spec fn deserialize_ends(&self, client_id: ClientId, deserialized: Result<IN, ()>, step: ServerReceiveStep, after: &Self) -> bool {
        match deserialized {
            Ok(message) => {
                &&& step == ServerReceiveStep::Continue
                &&& handed_over(self.handed_incoming(), after.handed_incoming(), (IncomingMessage { client_id, message }))
                &&& after.current_status() == status_after_send(self.current_status(), last_taken(after.handed_incoming()))
                &&& after.supervisor_reports() == self.supervisor_reports()
                &&& after.id() == self.id()
                &&& after.incoming_limit() == self.incoming_limit()
            },
            Err(()) => step == ServerReceiveStep::Reject(ErrorUpdate::IncomingMessageDeserializeError(client_id)) && *after == *self,
        }
    }

    /// Create a worker core; it starts active.
    pub fn new(
        worker_id: WorkerId,
        incoming_max_size: usize,
        outgoing_max_size: usize,
        sdr_incoming: Sender<IncomingMessage<IN>>,
        sdr_supervisor: Sender<SupervisorMessage<L>>,
    ) -> (core: WorkerCore<IN, L>)
        requires
            outgoing_max_size <= MAXIMUM_MESSAGE_SIZE,
        ensures
            core.current_status() == WorkerStatus::Active,
            core.id() == worker_id,
            core.incoming_limit() == incoming_max_size,
            core.outgoing_limit() == outgoing_max_size,
            core.supervisor_reports() == Seq::<(SupervisorWorkerMessage, bool)>::empty(),
            core.handed_incoming() == Seq::<(IncomingMessage<IN>, bool)>::empty(),
    {
        WorkerCore {
            worker_id,
            incoming_max_size,
            outgoing_max_size,
            status: WorkerStatus::Active,
            sdr_incoming,
            sdr_supervisor,
            reports: Ghost(Seq::empty()),
            handed: Ghost(Seq::empty()),
        }
    }

    /// Current status.
    pub fn status(&self) -> (status: WorkerStatus)
        ensures
            status == self.current_status(),
    {
        self.status
    }

    /// The worker must end its thread.
    pub fn end(&mut self)
        ensures
            final(self).current_status() == WorkerStatus::Ended,
            final(self).id() == old(self).id(),
            final(self).incoming_limit() == old(self).incoming_limit(),
    {
        proof {
            use_type_invariant(&*self);
        }
        self.status = WorkerStatus::Ended;
    }

    /// Follow a message received while inactive (`None` when the supervisor is
    /// gone): the listener of a start request is given back to work with; a
    /// stop request changes nothing; an end request, or a gone supervisor,
    /// ends the worker.
    pub fn on_inactive_message(&mut self, message: Option<WorkerInactiveMessage<L>>) -> (listener: Option<L>)
        ensures
            final(self).id() == old(self).id(),
            final(self).incoming_limit() == old(self).incoming_limit(),
            match message {
                Some(WorkerInactiveMessage::Start(l)) => listener == Some(l) && final(self).current_status() == old(self).current_status(),
                Some(WorkerInactiveMessage::Stop) => listener is None && final(self).current_status() == old(self).current_status(),
                _ => listener is None && final(self).current_status() == WorkerStatus::Ended,
            },
    {
        match message {
            Some(WorkerInactiveMessage::Start(listener)) => Some(listener),
            Some(WorkerInactiveMessage::Stop) => None,
            _ => {
                self.end();
                None
            },
        }
    }

    /// Follow a job taken while active (`None` when the jobs channel is gone):
    /// the job to do is given back; a stop request gives nothing, the worker
    /// going inactive; an end request, or a gone channel, ends the worker.
    pub fn on_job<OUT: Message>(&mut self, job: Option<WorkerActiveMessage<OUT>>) -> (work: Option<WorkerActiveMessage<OUT>>)
        ensures
            final(self).id() == old(self).id(),
            final(self).incoming_limit() == old(self).incoming_limit(),
            match job {
                Some(WorkerActiveMessage::Stop) => work is None && final(self).current_status() == old(self).current_status(),
                Some(WorkerActiveMessage::End) | None => work is None && final(self).current_status() == WorkerStatus::Ended,
                Some(j) => work == Some(j) && final(self).current_status() == old(self).current_status(),
            },
    {
        match job {
            Some(WorkerActiveMessage::Stop) => None,
            Some(WorkerActiveMessage::End) | None => {
                self.end();
                None
            },
            Some(job) => Some(job),
        }
    }

    /// Send a message to the supervisor; the worker ends if it is gone.
    pub fn send_message_to_supervisor(&mut self, message: SupervisorWorkerMessage)
        ensures
            old(self).reported(final(self), message),
    {
        proof {
            use_type_invariant(&*self);
        }
        let sent = send_value(&self.sdr_supervisor, SupervisorMessage::FromWorker(message));
        self.reports = Ghost(self.reports@.push((message, sent)));
        if !sent {
            self.status = WorkerStatus::Ended;
        }
    }

    /// Hand a message of a client to the transceiver; the worker ends if it is gone.
    pub fn send_incoming_message_to_server(&mut self, incoming: IncomingMessage<IN>)
        ensures
            handed_over(old(self).handed_incoming(), final(self).handed_incoming(), incoming),
            final(self).current_status() == status_after_send(old(self).current_status(), last_taken(final(self).handed_incoming())),
            final(self).supervisor_reports() == old(self).supervisor_reports(),
            final(self).id() == old(self).id(),
            final(self).incoming_limit() == old(self).incoming_limit(),
    {
        proof {
            use_type_invariant(&*self);
        }
        let ghost value = incoming;
        let sent = send_value(&self.sdr_incoming, incoming);
        self.handed = Ghost(self.handed@.push((value, sent)));
        if !sent {
            self.status = WorkerStatus::Ended;
        }
    }

    /// Report an error to the supervisor.
    pub fn reject(&mut self, error: ErrorUpdate)
        ensures
            old(self).reported(final(self), SupervisorWorkerMessage::Error(error)),
    {
        self.send_message_to_supervisor(SupervisorWorkerMessage::Error(error));
    }

    /// The connection of a client was lost (its stream was shut down): report it.
    pub fn handle_connection_lost(&mut self, client_id: ClientId)
        ensures
            old(self).reported(final(self), SupervisorWorkerMessage::Error(ErrorUpdate::ConnectionLost(client_id))),
    {
        self.reject(ErrorUpdate::ConnectionLost(client_id));
    }

    /// Follow the read of a size header of client `client_id`, whose pending
    /// size is `pending`.
    ///
    /// A complete header within the incoming limit makes its size pending and
    /// asks for the body; one above the limit is rejected with
    /// `IncomingMessageTooLarge`; a read that would block stops the reception;
    /// a failed read loses the connection.
    pub fn on_header(&mut self, client_id: ClientId, pending: &mut Option<usize>, outcome: ReadOutcome, header: &[u8]) -> (step: ServerReceiveStep)
        requires
            *old(pending) is None,
            outcome == ReadOutcome::Done ==> header@.len() >= SIZE_OF_MESSAGE_SIZE,
        ensures
            final(self).current_status() == old(self).current_status(),
            final(self).id() == old(self).id(),
            final(self).incoming_limit() == old(self).incoming_limit(),
            match outcome {
                ReadOutcome::Done => {
                    let size = header_value(header[0], header[1]);
                    if size <= old(self).incoming_limit() {
                        step == ServerReceiveStep::ReadBody(size as usize) && *final(pending) == Some(size as usize)
                    } else {
                        step == ServerReceiveStep::Reject(ErrorUpdate::IncomingMessageTooLarge(client_id))
                            && *final(pending) is None
                    }
                },
                ReadOutcome::WouldBlock => step == ServerReceiveStep::Stop && *final(pending) == *old(pending),
                ReadOutcome::Failed => step == ServerReceiveStep::Lost && *final(pending) == *old(pending),
            },
    {
        match outcome {
            ReadOutcome::Done => {
                let size = decode_message_size(header);
                if size <= self.incoming_max_size {
                    *pending = Some(size);
                    ServerReceiveStep::ReadBody(size)
                } else {
                    ServerReceiveStep::Reject(ErrorUpdate::IncomingMessageTooLarge(client_id))
                }
            },
            ReadOutcome::WouldBlock => ServerReceiveStep::Stop,
            ReadOutcome::Failed => ServerReceiveStep::Lost,
        }
    }

    /// Follow the deserialization of a complete body of client `client_id`:
    /// a message is handed to the transceiver, else the body is rejected.
    pub fn on_deserialized(&mut self, client_id: ClientId, deserialized: Result<IN, ()>) -> (step: ServerReceiveStep)
        ensures
            old(self).deserialize_ends(client_id, deserialized, step, final(self)),
    {
        match deserialized {
            Ok(message) => {
                self.send_incoming_message_to_server(IncomingMessage::new(client_id, message));
                ServerReceiveStep::Continue
            },
            Err(()) => ServerReceiveStep::Reject(ErrorUpdate::IncomingMessageDeserializeError(client_id)),
        }
    }

    /// Follow the read of the body of the pending message of client `client_id`.
    ///
    /// A complete body is no longer pending, and is deserialized and followed
    /// as `on_deserialized` says; a read that would block stops the
    /// reception, the size staying pending; a failed read loses the
    /// connection.
    pub fn on_body(&mut self, client_id: ClientId, pending: &mut Option<usize>, outcome: ReadOutcome, body: &[u8]) -> (step: ServerReceiveStep)
        requires
            *old(pending) is Some,
            outcome == ReadOutcome::Done ==> body@.len() == (*old(pending))->0,
        ensures
            match outcome {
                ReadOutcome::Done => {
                    &&& *final(pending) is None
                    &&& exists|deserialized: Result<IN, ()>| #[trigger] old(self).deserialize_ends(client_id, deserialized, step, final(self))
                },
                ReadOutcome::WouldBlock => step == ServerReceiveStep::Stop && *final(pending) == *old(pending) && *final(self) == *old(self),
                ReadOutcome::Failed => step == ServerReceiveStep::Lost && *final(pending) == *old(pending) && *final(self) == *old(self),
            },
    {
        match outcome {
            ReadOutcome::Done => {
                *pending = None;
                let deserialized = IN::deserialize(body);
                self.on_deserialized(client_id, deserialized)
            },
            ReadOutcome::WouldBlock => ServerReceiveStep::Stop,
            ReadOutcome::Failed => ServerReceiveStep::Lost,
        }
    }

    /// Follow the serialization of an outgoing message: the size header to
    /// write before the body to each destination, with nothing reported; or
    /// `None` once the error was reported to the supervisor
    /// (`OutgoingMessageTooLarge` above the outgoing size limit,
    /// `OutgoingMessageSerializeError` when it did not serialize).
    pub fn prepare_send(&mut self, serialized: Result<usize, ()>) -> (header: Option<[u8; 2]>)
        ensures
            match server_outgoing_size(serialized, old(self).outgoing_limit()) {
                Ok(size) => header matches Some(h) && header_value(h[0], h[1]) == size && *final(self) == *old(self),
                Err(error) => header is None && old(self).reported(final(self), SupervisorWorkerMessage::Error(error)),
            },
    {
        proof {
            use_type_invariant(&*self);
        }
        match serialized {
            Ok(size) => {
                if size > self.outgoing_max_size {
                    self.reject(ErrorUpdate::OutgoingMessageTooLarge);
                    None
                } else {
                    Some(encode_message_size(size))
                }
            },
            Err(()) => {
                self.reject(ErrorUpdate::OutgoingMessageSerializeError);
                None
            },
        }
    }

    /// Follow a write (of the header or of the body of an outgoing message)
    /// to client `client_id`: `true` when every byte was written, to go on
    /// with it; any other outcome loses the connection of that client, which
    /// is reported (the thread layer shuts its stream down).
    pub fn on_destination_write(&mut self, client_id: ClientId, outcome: WriteOutcome) -> (written: bool)
        ensures
            written == (outcome == WriteOutcome::Done),
            written ==> *final(self) == *old(self),
            !written ==> old(self).reported(final(self), SupervisorWorkerMessage::Error(ErrorUpdate::ConnectionLost(client_id))),
    {
        match outcome {
            WriteOutcome::Done => true,
            _ => {
                self.handle_connection_lost(client_id);
                false
            },
        }
    }

    /// Follow the lookup of the client a job names, among `slot_count` client
    /// slots; `occupied` tells whether its slot, when it exists, holds a
    /// client. `true` when the client is there, to do the job; else the
    /// client is not found, which is reported.
    pub fn on_lookup(&mut self, client_id: ClientId, slot_count: usize, occupied: bool) -> (found: bool)
        ensures
            found == ((client_id as usize) < slot_count && occupied),
            found ==> *final(self) == *old(self),
            !found ==> old(self).reported(final(self), SupervisorWorkerMessage::Error(ErrorUpdate::ClientNotFound(client_id))),
    {
        if (client_id as usize) < slot_count && occupied {
            true
        } else {
            self.client_not_found(client_id);
            false
        }
    }

    /// A job names a client that is not connected: report it.
    pub fn client_not_found(&mut self, client_id: ClientId)
        ensures
            old(self).reported(final(self), SupervisorWorkerMessage::Error(ErrorUpdate::ClientNotFound(client_id))),
    {
        self.reject(ErrorUpdate::ClientNotFound(client_id));
    }

    /// A client was accepted in slot `client_id`, from `address`: report it.
    pub fn connected(&mut self, client_id: ClientId, address: ClientAddress)
        ensures
            old(self).reported(final(self), SupervisorWorkerMessage::Connected(client_id, address)),
    {
        self.send_message_to_supervisor(SupervisorWorkerMessage::Connected(client_id, address));
    }

    /// The incoming connection job is done: report it.
    pub fn incoming_done(&mut self)
        ensures
            old(self).reported(final(self), SupervisorWorkerMessage::IncomingJobDone),
    {
        self.send_message_to_supervisor(SupervisorWorkerMessage::IncomingJobDone);
    }

    /// The reception job of a client is done: report it.
    pub fn receive_done(&mut self, client_id: ClientId)
        ensures
            old(self).reported(final(self), SupervisorWorkerMessage::ReceiveJobDone(client_id)),
    {
        self.send_message_to_supervisor(SupervisorWorkerMessage::ReceiveJobDone(client_id));
    }

    /// A client was disconnected on request: report it.
    pub fn disconnected(&mut self, client_id: ClientId)
        ensures
            old(self).reported(final(self), SupervisorWorkerMessage::Disconnected(client_id)),
    {
        self.send_message_to_supervisor(SupervisorWorkerMessage::Disconnected(client_id));
    }

    /// The worker thread is finishing: report it.
    pub fn finished(&mut self)
        ensures
            old(self).reported(final(self), SupervisorWorkerMessage::Finished(old(self).id())),
    {
        let id = self.worker_id;
        self.send_message_to_supervisor(SupervisorWorkerMessage::Finished(id));
    }
}

} // verus!
