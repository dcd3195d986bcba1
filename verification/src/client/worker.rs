//! Client worker: the rules by which the worker thread reads, writes and
//! reports on the connection to the server.
use std::sync::mpsc::Receiver;

use vstd::prelude::*;

use crate::channel::{handed_over, last_taken, send_value, TimedReceive};
use crate::client::{
    channel::WorkerChannel,
    error::ErrorWorker,
    message::{ClientUpdate, WorkerMessage},
    status::ClientStatus,
};
use crate::frame::{decode_message_size, encode_message_size, header_value, ReadOutcome, WriteOutcome};
use crate::{Message, MAXIMUM_MESSAGE_SIZE, SIZE_OF_MESSAGE_SIZE};

verus! {

/// Milliseconds between two pools at `pool_rate` pools per second.
pub fn pool_period_millis(pool_rate: u64) -> (millis: u64)
    requires
        pool_rate > 0,
    ensures
        millis == 1000u64 / pool_rate,
{
    1000 / pool_rate
}

/// What the worker does next while receiving.
#[derive(Debug, Clone, Copy, PartialEq, Eq, Structural)]
pub enum ReceiveStep {
    /// Read the body of a message of this size.
    ReadBody(usize),
    /// A message was delivered; read the next header.
    Continue,
    /// Nothing more to read for now.
    Stop,
    /// Clear the stream, report the error with `reject`, then stop.
    Reject(ErrorWorker),
}

/// What the worker does next while waiting for a connection.
#[derive(Debug, Clone, Copy, PartialEq, Eq, Structural)]
pub enum InactiveStep {
    /// Serve the connection handed over with `Connect`.
    Serve,
    /// Wait for the next message.
    Next,
    /// The client is gone: end the thread.
    Quit,
}

/// What the worker does next while connected.
pub enum ActiveStep<OUT> {
    /// Send this message to the server.
    Send(OUT),
    /// Receive the messages of the server.
    Receive,
    /// Nothing to do.
    Idle,
}

/// The size of an outgoing message the worker writes, or the error it reports.
pub open spec fn outgoing_size(serialized: Result<usize, ()>, limit: usize) -> Result<usize, ErrorWorker> {
    match serialized {
        Ok(size) => if size <= limit { Ok(size) } else { Err(ErrorWorker::OutgoingMessageTooLarge) },
        Err(()) => Err(ErrorWorker::OutgoingSerializeError),
    }
}

/// A status that a failed report may have turned to `Ended`.
pub open spec fn kept_or_ended(before: ClientStatus, after: ClientStatus) -> bool {
    after == before || after == ClientStatus::Ended
}

/// The status after a value was handed to a channel of the worker: kept when
/// the channel took it, else the worker ends.
pub open spec fn status_after_send(before: ClientStatus, taken: bool) -> ClientStatus {
    if taken {
        before
    } else {
        ClientStatus::Ended
    }
}

/// The part of the client worker that decides: its status, the size of the
/// message being received, its size limits, and its channels. Losing the
/// channel to the client ends the worker.
#[verifier::reject_recursive_types(IN)]
#[verifier::reject_recursive_types(OUT)]
pub struct WorkerCore<IN: Message, OUT: Message> {
    channels: WorkerChannel<IN, OUT>,
    status: ClientStatus,
    inc_size: Option<usize>,
    incoming_max_size: usize,
    outgoing_max_size: usize,
    updates: Ghost<Seq<(ClientUpdate, bool)>>,
    handed: Ghost<Seq<(IN, bool)>>,
    requeued: Ghost<Seq<(WorkerMessage<OUT>, bool)>>,
}

impl<IN: Message, OUT: Message> WorkerCore<IN, OUT> {
    /// Current status.
    pub closed spec fn current_status(&self) -> ClientStatus {
        self.status
    }

    /// Size of the message whose header was read and whose body was not, if any.
    pub closed spec fn pending_size(&self) -> Option<usize> {
        self.inc_size
    }

    /// Size limit of incoming messages.
    pub closed spec fn incoming_limit(&self) -> usize {
        self.incoming_max_size
    }

    /// Size limit of outgoing messages.
    pub closed spec fn outgoing_limit(&self) -> usize {
        self.outgoing_max_size
    }

    /// The updates handed to the client, in order, each with whether its
    /// channel took it.
    pub closed spec fn client_updates(&self) -> Seq<(ClientUpdate, bool)> {
        self.updates@
    }

    /// The received messages handed to the transceiver, in order, each with
    /// whether its channel took it.
    pub closed spec fn handed_incoming(&self) -> Seq<(IN, bool)> {
        self.handed@
    }

    /// The messages put back on the worker's own channel, in order, each with
    /// whether the channel took it.
    pub closed spec fn requeued_messages(&self) -> Seq<(WorkerMessage<OUT>, bool)> {
        self.requeued@
    }

    /// Receiver of the messages for the worker.
    pub closed spec fn command_receiver(&self) -> Receiver<WorkerMessage<OUT>> {
        self.channels.rcv_worker
    }

    /// `self` with `pending` as its pending size, all else unchanged.
    pub closed spec fn with_pending(self, pending: Option<usize>) -> Self {
        WorkerCore { inc_size: pending, ..self }
    }

    /// `self` at `status`, all else unchanged.
    pub closed spec fn with_status(self, status: ClientStatus) -> Self {
        WorkerCore { status, ..self }
    }

    /// `after` has the channels, limits and pending size of `self`.
    pub open spec fn same_frame(&self, after: &Self) -> bool {
        &&& after.command_receiver() == self.command_receiver()
        &&& after.pending_size() == self.pending_size()
        &&& after.incoming_limit() == self.incoming_limit()
        &&& after.outgoing_limit() == self.outgoing_limit()
    }

    /// `after` is `self`, at status `from`, once `update` was handed to the
    /// client: the update is recorded, an undelivered update ends the worker,
    /// and nothing else changes.
    pub open spec fn reported_from(&self, from: ClientStatus, after: &Self, update: ClientUpdate) -> bool {
        &&& handed_over(self.client_updates(), after.client_updates(), update)
        &&& after.current_status() == status_after_send(from, last_taken(after.client_updates()))
        &&& after.handed_incoming() == self.handed_incoming()
        &&& after.requeued_messages() == self.requeued_messages()
        &&& self.same_frame(after)
    }

    /// `after` is `self` once `update` was handed to the client.
    pub open spec fn reported(&self, after: &Self, update: ClientUpdate) -> bool {
        self.reported_from(self.current_status(), after, update)
    }

    /// `after` is `self` once the connection was lost: `ConnectionLost` is
    /// handed to the client and the worker is disconnecting.
    pub open spec fn lost(&self, after: &Self) -> bool {
        &&& handed_over(self.client_updates(), after.client_updates(), ClientUpdate::Error(ErrorWorker::ConnectionLost))
        &&& after.current_status() == ClientStatus::Disconnecting
        &&& after.handed_incoming() == self.handed_incoming()
        &&& after.requeued_messages() == self.requeued_messages()
        &&& self.same_frame(after)
    }

    /// How the pending message ends once its body was deserialized: a message
    /// is handed to the transceiver; a body that did not deserialize is
    /// rejected with `IncomingMessageError`, nothing being handed over. Either
    /// way the message is no longer pending, so the next read is a header.
    pub open spec fn deserialize_ends(&self, deserialized: Result<IN, ()>, step: ReceiveStep, after: &Self) -> bool {
        match deserialized {
            Ok(message) => {
                &&& step == ReceiveStep::Continue
                &&& handed_over(self.handed_incoming(), after.handed_incoming(), message)
                &&& after.current_status() == status_after_send(self.current_status(), last_taken(after.handed_incoming()))
                &&& after.pending_size() is None
                &&& after.client_updates() == self.client_updates()
                &&& after.requeued_messages() == self.requeued_messages()
                &&& after.command_receiver() == self.command_receiver()
                &&& after.incoming_limit() == self.incoming_limit()
                &&& after.outgoing_limit() == self.outgoing_limit()
            },
            Err(()) => {
                &&& step == ReceiveStep::Reject(ErrorWorker::IncomingMessageError)
                &&& after.pending_size() is None
                &&& after.current_status() == self.current_status()
                &&& after.handed_incoming() == self.handed_incoming()
                &&& after.client_updates() == self.client_updates()
                &&& after.requeued_messages() == self.requeued_messages()
                &&& after.command_receiver() == self.command_receiver()
                &&& after.incoming_limit() == self.incoming_limit()
                &&& after.outgoing_limit() == self.outgoing_limit()
            },
        }
    }

    /// The limits fit the wire format and a pending size is within its limit.
    #[verifier::type_invariant]
    spec fn wf(&self) -> bool {
        &&& self.incoming_max_size <= MAXIMUM_MESSAGE_SIZE
        &&& self.outgoing_max_size <= MAXIMUM_MESSAGE_SIZE
        &&& (self.inc_size matches Some(size) ==> size <= self.incoming_max_size)
    }

    /// Create a worker core, disconnected and with no pending message.
    pub fn new(incoming_max_size: usize, outgoing_max_size: usize, channels: WorkerChannel<IN, OUT>) -> (core: WorkerCore<IN, OUT>)
        requires
            incoming_max_size <= MAXIMUM_MESSAGE_SIZE,
            outgoing_max_size <= MAXIMUM_MESSAGE_SIZE,
        ensures
            core.current_status() == ClientStatus::Disconnected,
            core.pending_size() is None,
            core.incoming_limit() == incoming_max_size,
            core.outgoing_limit() == outgoing_max_size,
            core.command_receiver() == channels.rcv_worker,
            core.client_updates() == Seq::<(ClientUpdate, bool)>::empty(),
            core.handed_incoming() == Seq::<(IN, bool)>::empty(),
            core.requeued_messages() == Seq::<(WorkerMessage<OUT>, bool)>::empty(),
    {
        WorkerCore {
            channels,
            status: ClientStatus::Disconnected,
            inc_size: None,
            incoming_max_size,
            outgoing_max_size,
            updates: Ghost(Seq::empty()),
            handed: Ghost(Seq::empty()),
            requeued: Ghost(Seq::empty()),
        }
    }

    /// Receiver of the messages for the worker.
    pub fn commands(&self) -> (receiver: &Receiver<WorkerMessage<OUT>>)
        ensures
            *receiver == self.command_receiver(),
    {
        &self.channels.rcv_worker
    }

    /// Current status.
    pub fn status(&self) -> (status: ClientStatus)
        ensures
            status == self.current_status(),
    {
        self.status
    }

    /// Send an update to the client; the worker ends if the client is gone.
    pub fn update_client(&mut self, update: ClientUpdate)
        ensures
            old(self).reported(final(self), update),
    {
        proof {
            use_type_invariant(&*self);
        }
        let sent = send_value(&self.channels.sdr_update, update);
        self.updates = Ghost(self.updates@.push((update, sent)));
        if !sent {
            self.status = ClientStatus::Ended;
        }
    }

    /// Hand a received message to the transceiver; the worker ends if it is gone.
    pub fn send_incoming(&mut self, incoming: IN)
        ensures
            handed_over(old(self).handed_incoming(), final(self).handed_incoming(), incoming),
            final(self).current_status() == status_after_send(old(self).current_status(), last_taken(final(self).handed_incoming())),
            final(self).client_updates() == old(self).client_updates(),
            final(self).requeued_messages() == old(self).requeued_messages(),
            old(self).same_frame(final(self)),
    {
        proof {
            use_type_invariant(&*self);
        }
        let ghost value = incoming;
        let sent = send_value(&self.channels.sdr_incoming, incoming);
        self.handed = Ghost(self.handed@.push((value, sent)));
        if !sent {
            self.status = ClientStatus::Ended;
        }
    }

    /// Put a message whose write would block back on the worker's own channel,
    /// to be sent later; the worker ends if the channel is gone.
    pub fn requeue_message(&mut self, message: OUT)
        ensures
            handed_over(old(self).requeued_messages(), final(self).requeued_messages(), WorkerMessage::Send(message)),
            final(self).current_status() == status_after_send(old(self).current_status(), last_taken(final(self).requeued_messages())),
            final(self).client_updates() == old(self).client_updates(),
            final(self).handed_incoming() == old(self).handed_incoming(),
            old(self).same_frame(final(self)),
    {
        proof {
            use_type_invariant(&*self);
        }
        let ghost value = WorkerMessage::Send(message);
        let sent = send_value(&self.channels.sdr_worker, WorkerMessage::Send(message));
        self.requeued = Ghost(self.requeued@.push((value, sent)));
        if !sent {
            self.status = ClientStatus::Ended;
        }
    }

    /// The connection was lost: report it, and close the connection.
    pub fn handle_connection_lost(&mut self)
        ensures
            old(self).lost(final(self)),
    {
        proof {
            use_type_invariant(&*self);
        }
        self.update_client(ClientUpdate::Error(ErrorWorker::ConnectionLost));
        self.status = ClientStatus::Disconnecting;
    }

    /// Report an error of the incoming stream (after the stream was cleared).
    pub fn reject(&mut self, error: ErrorWorker)
        ensures
            old(self).reported(final(self), ClientUpdate::Error(error)),
    {
        self.update_client(ClientUpdate::Error(error));
    }

    /// Whether the next read is a size header (no message is pending).
    pub fn needs_header(&self) -> (needs: bool)
        ensures
            needs == self.pending_size() is None,
    {
        self.inc_size.is_none()
    }

    /// Size of the pending message, if any.
    pub fn pending(&self) -> (size: Option<usize>)
        ensures
            size == self.pending_size(),
            size matches Some(s) ==> s <= self.incoming_limit() <= MAXIMUM_MESSAGE_SIZE,
    {
        proof {
            use_type_invariant(self);
        }
        self.inc_size
    }

    /// Follow the read of a size header.
    ///
    /// A complete header within the incoming limit makes its size pending and
    /// asks for the body; one above the limit is rejected with
    /// `IncomingMessageTooLarge`; a read that would block stops the reception;
    /// a failed read loses the connection.
    pub fn on_header(&mut self, outcome: ReadOutcome, header: &[u8]) -> (step: ReceiveStep)
        requires
            old(self).pending_size() is None,
            outcome == ReadOutcome::Done ==> header@.len() >= SIZE_OF_MESSAGE_SIZE,
        ensures
            match outcome {
                ReadOutcome::Done => {
                    let size = header_value(header[0], header[1]);
                    if size <= old(self).incoming_limit() {
                        &&& step == ReceiveStep::ReadBody(size as usize)
                        &&& *final(self) == old(self).with_pending(Some(size as usize))
                        &&& final(self).pending_size() == Some(size as usize)
                        &&& final(self).current_status() == old(self).current_status()
                        &&& final(self).incoming_limit() == old(self).incoming_limit()
                        &&& final(self).outgoing_limit() == old(self).outgoing_limit()
                    } else {
                        step == ReceiveStep::Reject(ErrorWorker::IncomingMessageTooLarge) && *final(self) == *old(self)
                    }
                },
                ReadOutcome::WouldBlock => step == ReceiveStep::Stop && *final(self) == *old(self),
                ReadOutcome::Failed => step == ReceiveStep::Stop && old(self).lost(final(self)),
            },
    {
        proof {
            use_type_invariant(&*self);
        }
        match outcome {
            ReadOutcome::Done => {
                let size = decode_message_size(header);
                if size <= self.incoming_max_size {
                    self.inc_size = Some(size);
                    ReceiveStep::ReadBody(size)
                } else {
                    ReceiveStep::Reject(ErrorWorker::IncomingMessageTooLarge)
                }
            },
            ReadOutcome::WouldBlock => ReceiveStep::Stop,
            ReadOutcome::Failed => {
                self.handle_connection_lost();
                ReceiveStep::Stop
            },
        }
    }

    /// Follow the deserialization of the body of the pending message: a
    /// message is handed to the transceiver; a body that did not deserialize
    /// is rejected with `IncomingMessageError`. Either way the message is no
    /// longer pending.
    pub fn on_deserialized(&mut self, deserialized: Result<IN, ()>) -> (step: ReceiveStep)
        requires
            old(self).pending_size() is Some,
        ensures
            old(self).deserialize_ends(deserialized, step, final(self)),
    {
        proof {
            use_type_invariant(&*self);
        }
        match deserialized {
            Ok(message) => {
                self.inc_size = None;
                self.send_incoming(message);
                ReceiveStep::Continue
            },
            Err(()) => {
                self.inc_size = None;
                ReceiveStep::Reject(ErrorWorker::IncomingMessageError)
            },
        }
    }

    /// Follow the read of the body of the pending message.
    ///
    /// A complete body is deserialized and followed as `on_deserialized`
    /// says; a read that would block stops the reception, the size staying
    /// pending; a failed read loses the connection.
    pub fn on_body(&mut self, outcome: ReadOutcome, body: &[u8]) -> (step: ReceiveStep)
        requires
            old(self).pending_size() is Some,
            outcome == ReadOutcome::Done ==> body@.len() == old(self).pending_size()->0,
        ensures
            match outcome {
                ReadOutcome::Done => exists|deserialized: Result<IN, ()>| #[trigger] old(self).deserialize_ends(deserialized, step, final(self)),
                ReadOutcome::WouldBlock => step == ReceiveStep::Stop && *final(self) == *old(self),
                ReadOutcome::Failed => step == ReceiveStep::Stop && old(self).lost(final(self)),
            },
    {
        proof {
            use_type_invariant(&*self);
        }
        match outcome {
            ReadOutcome::Done => {
                let deserialized = IN::deserialize(body);
                self.on_deserialized(deserialized)
            },
            ReadOutcome::WouldBlock => ReceiveStep::Stop,
            ReadOutcome::Failed => {
                self.handle_connection_lost();
                ReceiveStep::Stop
            },
        }
    }

    /// Follow the serialization of an outgoing message: the size header to
    /// write before the body, with nothing reported; or `None` once the error
    /// was reported to the client (`OutgoingMessageTooLarge` above the
    /// outgoing limit, `OutgoingSerializeError` when it did not serialize).
    pub fn prepare_send(&mut self, serialized: Result<usize, ()>) -> (header: Option<[u8; 2]>)
        ensures
            match outgoing_size(serialized, old(self).outgoing_limit()) {
                Ok(size) => header matches Some(h) && header_value(h[0], h[1]) == size && *final(self) == *old(self),
                Err(error) => header is None && old(self).reported(final(self), ClientUpdate::Error(error)),
            },
    {
        proof {
            use_type_invariant(&*self);
        }
        match serialized {
            Ok(size) => {
                if size <= self.outgoing_max_size {
                    Some(encode_message_size(size))
                } else {
                    self.update_client(ClientUpdate::Error(ErrorWorker::OutgoingMessageTooLarge));
                    None
                }
            },
            Err(()) => {
                self.update_client(ClientUpdate::Error(ErrorWorker::OutgoingSerializeError));
                None
            },
        }
    }

    /// Follow a write of `message` (its header or its body) to the server:
    /// the message is given back when every byte was written, to go on with
    /// it. A write that would block puts the message back on the worker's
    /// channel to be sent later; a failed write loses the connection.
    pub fn on_write(&mut self, outcome: WriteOutcome, message: OUT) -> (written: Option<OUT>)
        ensures
            match outcome {
                WriteOutcome::Done => written == Some(message) && *final(self) == *old(self),
                WriteOutcome::WouldBlock => {
                    &&& written is None
                    &&& handed_over(old(self).requeued_messages(), final(self).requeued_messages(), WorkerMessage::Send(message))
                    &&& final(self).current_status() == status_after_send(old(self).current_status(), last_taken(final(self).requeued_messages()))
                    &&& final(self).client_updates() == old(self).client_updates()
                    &&& final(self).handed_incoming() == old(self).handed_incoming()
                    &&& old(self).same_frame(final(self))
                },
                WriteOutcome::Failed => written is None && old(self).lost(final(self)),
            },
    {
        match outcome {
            WriteOutcome::Done => Some(message),
            WriteOutcome::WouldBlock => {
                self.requeue_message(message);
                None
            },
            WriteOutcome::Failed => {
                self.handle_connection_lost();
                None
            },
        }
    }

    /// Start a round of waiting for a connection: `false` when the worker
    /// ended, else it is disconnected.
    pub fn begin_inactive_round(&mut self) -> (waiting: bool)
        ensures
            waiting == (old(self).current_status() != ClientStatus::Ended),
            *final(self) == old(self).with_status(if waiting { ClientStatus::Disconnected } else { ClientStatus::Ended }),
            final(self).current_status() == (if waiting { ClientStatus::Disconnected } else { ClientStatus::Ended }),
            final(self).pending_size() == old(self).pending_size(),
            final(self).incoming_limit() == old(self).incoming_limit(),
            final(self).outgoing_limit() == old(self).outgoing_limit(),
    {
        proof {
            use_type_invariant(&*self);
        }
        match self.status {
            ClientStatus::Ended => false,
            _ => {
                self.status = ClientStatus::Disconnected;
                true
            },
        }
    }
    /// Follow a message received while waiting for a connection (`None` when
    /// the client is gone): serve a connection, end on request, ignore the rest.
    pub fn on_inactive_command(&mut self, command: Option<WorkerMessage<OUT>>) -> (step: InactiveStep)
        ensures
            final(self).pending_size() == old(self).pending_size(),
            final(self).incoming_limit() == old(self).incoming_limit(),
            final(self).outgoing_limit() == old(self).outgoing_limit(),
            match command {
                Some(WorkerMessage::Connect) => step == InactiveStep::Serve && final(self).current_status() == old(self).current_status(),
                Some(WorkerMessage::End) => step == InactiveStep::Next && final(self).current_status() == ClientStatus::Ended,
                Some(_) => step == InactiveStep::Next && final(self).current_status() == old(self).current_status(),
                None => step == InactiveStep::Quit && final(self).current_status() == old(self).current_status(),
            },
    {
        proof {
            use_type_invariant(&*self);
        }
        match command {
            Some(WorkerMessage::Connect) => InactiveStep::Serve,
            Some(WorkerMessage::End) => {
                self.status = ClientStatus::Ended;
                InactiveStep::Next
            },
            Some(_) => InactiveStep::Next,
            None => InactiveStep::Quit,
        }
    }

    /// A connection is being served: the worker is connected and tells the client.
    pub fn begin_active(&mut self)
        ensures
            old(self).reported_from(ClientStatus::Connected, final(self), ClientUpdate::Connected),
    {
        proof {
            use_type_invariant(&*self);
        }
        self.status = ClientStatus::Connected;
        self.update_client(ClientUpdate::Connected);
    }

    /// Whether the worker keeps serving the connection.
    pub fn is_connected(&self) -> (connected: bool)
        ensures
            connected == (self.current_status() == ClientStatus::Connected),
    {
        match self.status {
            ClientStatus::Connected => true,
            _ => false,
        }
    }

    /// Follow what the wait for a message gave while connected: send on
    /// request, close on `Stop`, end on `End` or when the client is gone, and
    /// receive when the pool period expired.
    pub fn on_active_command(&mut self, command: TimedReceive<WorkerMessage<OUT>>) -> (step: ActiveStep<OUT>)
        ensures
            final(self).pending_size() == old(self).pending_size(),
            final(self).incoming_limit() == old(self).incoming_limit(),
            final(self).outgoing_limit() == old(self).outgoing_limit(),
            match command {
                TimedReceive::Value(WorkerMessage::Send(message)) => step == ActiveStep::Send(message) && final(self).current_status() == old(self).current_status(),
                TimedReceive::Value(WorkerMessage::Stop) => step is Idle && final(self).current_status() == ClientStatus::Disconnecting,
                TimedReceive::Value(WorkerMessage::Connect) => step is Idle && final(self).current_status() == old(self).current_status(),
                TimedReceive::Value(WorkerMessage::End) => step is Idle && final(self).current_status() == ClientStatus::Ended,
                TimedReceive::Timeout => step is Receive && final(self).current_status() == old(self).current_status(),
                TimedReceive::Disconnected => step is Idle && final(self).current_status() == ClientStatus::Ended,
            },
    {
        proof {
            use_type_invariant(&*self);
        }
        match command {
            TimedReceive::Value(WorkerMessage::Send(message)) => ActiveStep::Send(message),
            TimedReceive::Value(WorkerMessage::Stop) => {
                self.status = ClientStatus::Disconnecting;
                ActiveStep::Idle
            },
            TimedReceive::Value(WorkerMessage::Connect) => ActiveStep::Idle,
            TimedReceive::Value(WorkerMessage::End) => {
                self.status = ClientStatus::Ended;
                ActiveStep::Idle
            },
            TimedReceive::Timeout => ActiveStep::Receive,
            TimedReceive::Disconnected => {
                self.status = ClientStatus::Ended;
                ActiveStep::Idle
            },
        }
    }

    /// The connection was shut down; the client is told when the shutdown succeeded.
    pub fn end_active(&mut self, shutdown: bool)
        ensures
            shutdown ==> old(self).reported(final(self), ClientUpdate::Disconnected),
            !shutdown ==> *final(self) == *old(self),
    {
        if shutdown {
            self.update_client(ClientUpdate::Disconnected);
        }
    }
}

} // verus!
