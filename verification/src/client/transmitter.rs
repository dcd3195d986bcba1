//! Client transmitter: sends messages to the server through the worker thread.
use std::sync::mpsc::Sender;

use vstd::prelude::*;

use crate::channel::{clone_sender, handed_over, last_taken, send_value};
use crate::client::{error::ErrorTransceiver, message::WorkerMessage};
use crate::Message;

verus! {

/// What a send gives once the channel has answered: `Ok` when the message was
/// handed to the worker, else the client was dropped.
pub open spec fn transmit_result(sent: bool) -> Result<(), ErrorTransceiver> {
    if sent {
        Ok(())
    } else {
        Err(ErrorTransceiver::ChannelDisconnected)
    }
}

/// Map the answer of the worker channel to the result of a send.
pub fn transmit_outcome(sent: bool) -> (result: Result<(), ErrorTransceiver>)
    ensures
        result == transmit_result(sent),
{
    if sent {
        Ok(())
    } else {
        Err(ErrorTransceiver::ChannelDisconnected)
    }
}

/// Sends messages to the server; can be cloned and shared among threads.
#[verifier::reject_recursive_types(OUT)]
pub struct Transmitter<OUT: Message> {
    /// Sender channel of worker messages
    sdr_worker: Sender<WorkerMessage<OUT>>,
    /// Messages this transmitter handed to the worker, each with whether its
    /// channel took it
    handed: Ghost<Seq<(WorkerMessage<OUT>, bool)>>,
}

impl<OUT: Message> Transmitter<OUT> {
    /// Sender to the worker thread.
    pub closed spec fn worker_sender(&self) -> Sender<WorkerMessage<OUT>> {
        self.sdr_worker
    }

    /// The messages this transmitter handed to the worker, in order, each
    /// with whether its channel took it.
    pub closed spec fn worker_messages(&self) -> Seq<(WorkerMessage<OUT>, bool)> {
        self.handed@
    }

    /// Create a new transmitter feeding the given worker channel.
    pub fn new(sdr_worker: Sender<WorkerMessage<OUT>>) -> (transmitter: Transmitter<OUT>)
        ensures
            transmitter.worker_sender() == sdr_worker,
            transmitter.worker_messages() == Seq::<(WorkerMessage<OUT>, bool)>::empty(),
    {
        Transmitter { sdr_worker, handed: Ghost(Seq::empty()) }
    }

    /// Send an outgoing message to the server: `Send(message)` is handed to
    /// the worker.
    ///
    /// Returns `Ok(())` if the message was handed to the worker, or
    /// `Err(ErrorTransceiver::ChannelDisconnected)` if the client was dropped.
    pub fn send(&mut self, message: OUT) -> (result: Result<(), ErrorTransceiver>)
        ensures
            handed_over(old(self).worker_messages(), final(self).worker_messages(), WorkerMessage::Send(message)),
            result == transmit_result(last_taken(final(self).worker_messages())),
            final(self).worker_sender() == old(self).worker_sender(),
    {
        let ghost value = WorkerMessage::Send(message);
        let sent = send_value(&self.sdr_worker, WorkerMessage::Send(message));
        self.handed = Ghost(self.handed@.push((value, sent)));
        transmit_outcome(sent)
    }
}

impl<OUT: Message> Clone for Transmitter<OUT> {
    /// A transmitter on a clone of the sender, which has handed nothing yet.
    fn clone(&self) -> (transmitter: Self)
        ensures
            transmitter.worker_messages() == Seq::<(WorkerMessage<OUT>, bool)>::empty(),
    {
        Transmitter { sdr_worker: clone_sender(&self.sdr_worker), handed: Ghost(Seq::empty()) }
    }
}

} // verus!
