//! Client transceiver: receives messages from the server and sends messages to it.
use std::sync::mpsc::{Receiver, Sender};
use std::time::Duration;

use vstd::prelude::*;

use crate::channel::{handed_over, last_taken, receive, receive_timeout, try_receive, TimedReceive, TryReceive};
use crate::client::{
    error::ErrorTransceiver,
    message::WorkerMessage,
    transmitter::{transmit_result, Transmitter},
};
use crate::Message;

verus! {

/// What a blocking wait gives once the channel has answered: the value, or
/// `ChannelDisconnected` when every sender was dropped.
pub open spec fn waited_result<T>(outcome: Option<T>) -> Result<T, ErrorTransceiver> {
    match outcome {
        Some(value) => Ok(value),
        None => Err(ErrorTransceiver::ChannelDisconnected),
    }
}

/// Map the answer of a blocking wait to the result of the receive.
pub fn waited_outcome<T>(outcome: Option<T>) -> (result: Result<T, ErrorTransceiver>)
    ensures
        result == waited_result(outcome),
{
    match outcome {
        Some(value) => Ok(value),
        None => Err(ErrorTransceiver::ChannelDisconnected),
    }
}

/// What a bounded wait gives once the channel has answered.
pub open spec fn timed_result<T>(outcome: TimedReceive<T>) -> Result<T, ErrorTransceiver> {
    match outcome {
        TimedReceive::Value(value) => Ok(value),
        TimedReceive::Timeout => Err(ErrorTransceiver::Timeout),
        TimedReceive::Disconnected => Err(ErrorTransceiver::ChannelDisconnected),
    }
}

/// Map the answer of a bounded wait to the result of the receive.
pub fn timed_outcome<T>(outcome: TimedReceive<T>) -> (result: Result<T, ErrorTransceiver>)
    ensures
        result == timed_result(outcome),
{
    match outcome {
        TimedReceive::Value(value) => Ok(value),
        TimedReceive::Timeout => Err(ErrorTransceiver::Timeout),
        TimedReceive::Disconnected => Err(ErrorTransceiver::ChannelDisconnected),
    }
}

/// What a non-blocking receive gives once the channel has answered: the value,
/// or `None` when the channel is empty or disconnected.
pub open spec fn polled_value<T>(outcome: TryReceive<T>) -> Option<T> {
    match outcome {
        TryReceive::Value(value) => Some(value),
        _ => None,
    }
}

/// Map the answer of a non-blocking receive to its value, if any.
pub fn polled_outcome<T>(outcome: TryReceive<T>) -> (value: Option<T>)
    ensures
        value == polled_value(outcome),
{
    match outcome {
        TryReceive::Value(value) => Some(value),
        _ => None,
    }
}

/// Client transceiver used to receive and transmit messages from the server.
///
/// The transmitter can be cloned and shared with multiple threads while the
/// receiver can only be owned by one thread.
#[verifier::reject_recursive_types(IN)]
#[verifier::reject_recursive_types(OUT)]
pub struct Transceiver<IN: Message, OUT: Message> {
    rcv_incoming: Receiver<IN>,
    transmitter: Transmitter<OUT>,
}

impl<IN: Message, OUT: Message> Transceiver<IN, OUT> {
    /// Receiver of incoming messages.
    pub closed spec fn incoming_receiver(&self) -> Receiver<IN> {
        self.rcv_incoming
    }

    /// Sender to the worker thread.
    pub closed spec fn worker_sender(&self) -> Sender<WorkerMessage<OUT>> {
        self.transmitter.worker_sender()
    }

    /// Create a new client transceiver.
    pub fn new(rcv_incoming: Receiver<IN>, sdr_worker: Sender<WorkerMessage<OUT>>) -> (transceiver: Transceiver<IN, OUT>)
        ensures
            transceiver.incoming_receiver() == rcv_incoming,
            transceiver.worker_sender() == sdr_worker,
            transceiver.worker_messages() == Seq::<(WorkerMessage<OUT>, bool)>::empty(),
    {
        let transmitter = Transmitter::new(sdr_worker);
        Transceiver { rcv_incoming, transmitter }
    }

    /// Receive a message from the server without blocking the thread.
    ///
    /// Returns `None` if no message is waiting or if the channel is disconnected.
    pub fn receive(&self) -> (message: Option<IN>)
        ensures
            exists|outcome: TryReceive<IN>| message == polled_value(outcome),
    {
        polled_outcome(try_receive(&self.rcv_incoming))
    }

    /// Block the thread until it receives a message.
    ///
    /// Returns `Err(ErrorTransceiver::ChannelDisconnected)` if the channel is disconnected.
    pub fn receive_wait(&self) -> (message: Result<IN, ErrorTransceiver>)
        ensures
            exists|outcome: Option<IN>| message == waited_result(outcome),
    {
        waited_outcome(receive(&self.rcv_incoming))
    }

    /// Block the thread until it receives a message or the duration expired.
    ///
    /// Returns `Err(ErrorTransceiver::Timeout)` if the duration expired, or
    /// `Err(ErrorTransceiver::ChannelDisconnected)` if the channel is disconnected.
    pub fn receive_timeout(&self, duration: Duration) -> (message: Result<IN, ErrorTransceiver>)
        ensures
            exists|outcome: TimedReceive<IN>| message == timed_result(outcome),
    {
        timed_outcome(receive_timeout(&self.rcv_incoming, duration))
    }

    /// Messages this transceiver handed to the worker, in order, each with
    /// whether its channel took it.
    pub closed spec fn worker_messages(&self) -> Seq<(WorkerMessage<OUT>, bool)> {
        self.transmitter.worker_messages()
    }

    /// Send message to server: `Send(message)` is handed to the worker, as
    /// `Transmitter::send` does.
    ///
    /// Returns `Err(ErrorTransceiver::ChannelDisconnected)` if the client was dropped.
    pub fn send(&mut self, message: OUT) -> (result: Result<(), ErrorTransceiver>)
        ensures
            handed_over(old(self).worker_messages(), final(self).worker_messages(), WorkerMessage::Send(message)),
            result == transmit_result(last_taken(final(self).worker_messages())),
            final(self).worker_sender() == old(self).worker_sender(),
            final(self).incoming_receiver() == old(self).incoming_receiver(),
    {
        self.transmitter.send(message)
    }

    /// Get a shareable transmitter, to send messages to the server from other
    /// threads; it has handed nothing yet.
    pub fn transmitter(&self) -> (transmitter: Transmitter<OUT>)
        ensures
            transmitter.worker_messages() == Seq::<(WorkerMessage<OUT>, bool)>::empty(),
    {
        self.transmitter.clone()
    }
}

} // verus!
