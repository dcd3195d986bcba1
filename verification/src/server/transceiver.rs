//! Server transceiver: receives messages of clients and sends messages to them.
use std::sync::mpsc::{Receiver, Sender};
use std::time::Duration;

use vstd::prelude::*;

use crate::channel::{last_taken, receive, receive_timeout, try_receive, TimedReceive, TryReceive};
use crate::server::{
    error::ErrorTransceiver,
    message::{IncomingMessage, WorkerActiveMessage},
    transmitter::{handed_outgoing, transmit_result, Transmitter},
    ClientId,
};
use crate::Message;

verus! {

/// What a blocking wait gives once the channel has answered: the value, or
/// `ChannelDisconnected` when every sender was dropped.
pub open spec fn waited_result<T>(outcome: Option<T>) -> Result<T, ErrorTransceiver> {
    match outcome {
        Some(value) => Ok(value),
        None => Err(ErrorTransceiver::ChannelDisconnected),
    }
}

/// Map the answer of a blocking wait to the result of the receive.
pub fn waited_outcome<T>(outcome: Option<T>) -> (result: Result<T, ErrorTransceiver>)
    ensures
        result == waited_result(outcome),
{
    match outcome {
        Some(value) => Ok(value),
        None => Err(ErrorTransceiver::ChannelDisconnected),
    }
}

/// What a bounded wait gives once the channel has answered.
pub open spec fn timed_result<T>(outcome: TimedReceive<T>) -> Result<T, ErrorTransceiver> {
    match outcome {
        TimedReceive::Value(value) => Ok(value),
        TimedReceive::Timeout => Err(ErrorTransceiver::Timeout),
        TimedReceive::Disconnected => Err(ErrorTransceiver::ChannelDisconnected),
    }
}

/// Map the answer of a bounded wait to the result of the receive.
pub fn timed_outcome<T>(outcome: TimedReceive<T>) -> (result: Result<T, ErrorTransceiver>)
    ensures
        result == timed_result(outcome),
{
    match outcome {
        TimedReceive::Value(value) => Ok(value),
        TimedReceive::Timeout => Err(ErrorTransceiver::Timeout),
        TimedReceive::Disconnected => Err(ErrorTransceiver::ChannelDisconnected),
    }
}

/// Server transceiver used to receive messages of clients and to transmit
/// messages to them.
#[verifier::reject_recursive_types(IN)]
#[verifier::reject_recursive_types(OUT)]
pub struct Transceiver<IN: Message, OUT: Message> {
    rcv_incoming: Receiver<IncomingMessage<IN>>,
    transmitter: Transmitter<OUT>,
}

impl<IN: Message, OUT: Message> Transceiver<IN, OUT> {
    /// Receiver of incoming messages.
    pub closed spec fn incoming_receiver(&self) -> Receiver<IncomingMessage<IN>> {
        self.rcv_incoming
    }

    /// Sender to the workers.
    pub closed spec fn worker_sender(&self) -> Sender<WorkerActiveMessage<OUT>> {
        self.transmitter.worker_sender()
    }

    /// Create a new server transceiver.
    pub fn new(sdr_worker: Sender<WorkerActiveMessage<OUT>>, rcv_incoming: Receiver<IncomingMessage<IN>>) -> (transceiver: Transceiver<IN, OUT>)
        ensures
            transceiver.incoming_receiver() == rcv_incoming,
            transceiver.worker_sender() == sdr_worker,
            transceiver.worker_messages() == Seq::<(WorkerActiveMessage<OUT>, bool)>::empty(),
    {
        Transceiver { rcv_incoming, transmitter: Transmitter::new(sdr_worker) }
    }

    /// Receive a message of a client without blocking the thread.
    ///
    /// Returns `None` if no message is waiting or if the channel is disconnected.
    pub fn receive(&self) -> (message: Option<IncomingMessage<IN>>)
        ensures
            exists|outcome: TryReceive<IncomingMessage<IN>>| message == crate::client::transceiver::polled_value(outcome),
    {
        crate::client::transceiver::polled_outcome(try_receive(&self.rcv_incoming))
    }

    /// Block the thread until it receives a message.
    ///
    /// Returns `Err(ErrorTransceiver::ChannelDisconnected)` if the channel is disconnected.
    pub fn receive_wait(&self) -> (message: Result<IncomingMessage<IN>, ErrorTransceiver>)
        ensures
            exists|outcome: Option<IncomingMessage<IN>>| message == waited_result(outcome),
    {
        waited_outcome(receive(&self.rcv_incoming))
    }

    /// Block the thread until it receives a message or the duration expired.
    pub fn receive_timeout(&self, duration: Duration) -> (message: Result<IncomingMessage<IN>, ErrorTransceiver>)
        ensures
            exists|outcome: TimedReceive<IncomingMessage<IN>>| message == timed_result(outcome),
    {
        timed_outcome(receive_timeout(&self.rcv_incoming, duration))
    }

    /// Messages this transceiver handed to the workers, in order, each with
    /// whether their channel took it.
    pub closed spec fn worker_messages(&self) -> Seq<(WorkerActiveMessage<OUT>, bool)> {
        self.transmitter.worker_messages()
    }

    /// Send message to one client, as `Transmitter::send` does.
    pub fn send(&mut self, client_id: ClientId, message: OUT) -> (result: Result<(), ErrorTransceiver>)
        ensures
            handed_outgoing(old(self).worker_messages(), final(self).worker_messages(), seq![client_id], message),
            result == transmit_result(last_taken(final(self).worker_messages())),
            final(self).worker_sender() == old(self).worker_sender(),
            final(self).incoming_receiver() == old(self).incoming_receiver(),
    {
        self.transmitter.send(client_id, message)
    }

    /// Send message to every client of `destinations`, as
    /// `Transmitter::send_vec` does.
    pub fn send_vec(&mut self, destinations: &Vec<ClientId>, message: OUT) -> (result: Result<(), ErrorTransceiver>)
        ensures
            final(self).worker_sender() == old(self).worker_sender(),
            final(self).incoming_receiver() == old(self).incoming_receiver(),
            destinations@.len() == 0 ==> result == Err::<(), ErrorTransceiver>(ErrorTransceiver::NoDestination)
                && final(self).worker_messages() == old(self).worker_messages(),
            destinations@.len() > 0 ==> {
                &&& handed_outgoing(old(self).worker_messages(), final(self).worker_messages(), destinations@, message)
                &&& result == transmit_result(last_taken(final(self).worker_messages()))
            },
    {
        self.transmitter.send_vec(destinations, message)
    }

    /// Get a shareable transmitter, to send messages to clients from other
    /// threads; it has handed nothing yet.
    pub fn transmitter(&self) -> (transmitter: Transmitter<OUT>)
        ensures
            transmitter.worker_messages() == Seq::<(WorkerActiveMessage<OUT>, bool)>::empty(),
    {
        self.transmitter.clone()
    }
}

} // verus!
