//! Server transmitter: sends messages to clients through the workers.
use std::sync::mpsc::Sender;

use vstd::prelude::*;

use crate::channel::{clone_sender, last_taken, send_value};
use crate::server::{
    error::ErrorTransceiver,
    message::{OutgoingMessage, WorkerActiveMessage},
    ClientId,
};
use crate::Message;

verus! {

/// What a send gives once the worker channel has answered.
pub open spec fn transmit_result(sent: bool) -> Result<(), ErrorTransceiver> {
    if sent {
        Ok(())
    } else {
        Err(ErrorTransceiver::ChannelDisconnected)
    }
}

/// Map the answer of the worker channel to the result of a send.
pub fn transmit_outcome(sent: bool) -> (result: Result<(), ErrorTransceiver>)
    ensures
        result == transmit_result(sent),
{
    if sent {
        Ok(())
    } else {
        Err(ErrorTransceiver::ChannelDisconnected)
    }
}

/// `after` is `before` with one more message handed to the workers:
/// `Send` of an outgoing message for `destinations`, carrying `message`.
pub open spec fn handed_outgoing<OUT: Message>(
    before: Seq<(WorkerActiveMessage<OUT>, bool)>,
    after: Seq<(WorkerActiveMessage<OUT>, bool)>,
    destinations: Seq<ClientId>,
    message: OUT,
) -> bool {
    &&& after.len() == before.len() + 1
    &&& after.drop_last() == before
    &&& after.last().0 matches WorkerActiveMessage::Send(outgoing)
        && outgoing.spec_destinations() == destinations
        && outgoing.spec_message() == message
}

/// Sends messages to clients; can be cloned and shared among threads.
#[verifier::reject_recursive_types(OUT)]
pub struct Transmitter<OUT: Message> {
    sdr_worker: Sender<WorkerActiveMessage<OUT>>,
    handed: Ghost<Seq<(WorkerActiveMessage<OUT>, bool)>>,
}

impl<OUT: Message> Transmitter<OUT> {
    /// Sender to the workers.
    pub closed spec fn worker_sender(&self) -> Sender<WorkerActiveMessage<OUT>> {
        self.sdr_worker
    }

    /// The messages this transmitter handed to the workers, in order, each
    /// with whether their channel took it.
    pub closed spec fn worker_messages(&self) -> Seq<(WorkerActiveMessage<OUT>, bool)> {
        self.handed@
    }

    /// Create a new transmitter feeding the given worker channel.
    pub fn new(sdr_worker: Sender<WorkerActiveMessage<OUT>>) -> (transmitter: Transmitter<OUT>)
        ensures
            transmitter.worker_sender() == sdr_worker,
            transmitter.worker_messages() == Seq::<(WorkerActiveMessage<OUT>, bool)>::empty(),
    {
        Transmitter { sdr_worker, handed: Ghost(Seq::empty()) }
    }

    /// Hand `Send(outgoing)` to the workers, recording it; `true` when their
    /// channel took it.
    fn hand(&mut self, outgoing: OutgoingMessage<OUT>) -> (sent: bool)
        ensures
            handed_outgoing(old(self).worker_messages(), final(self).worker_messages(), outgoing.spec_destinations(), outgoing.spec_message()),
            sent == last_taken(final(self).worker_messages()),
            final(self).worker_sender() == old(self).worker_sender(),
    {
        let ghost value = WorkerActiveMessage::Send(outgoing);
        let sent = send_value(&self.sdr_worker, WorkerActiveMessage::Send(outgoing));
        self.handed = Ghost(self.handed@.push((value, sent)));
        assert(self.handed@.drop_last() =~= old(self).handed@);
        sent
    }

    /// Send message to one client: `Send` of an outgoing message for
    /// `client_id` is handed to the workers.
    ///
    /// Returns `Err(ErrorTransceiver::ChannelDisconnected)` if server was dropped.
    pub fn send(&mut self, client_id: ClientId, message: OUT) -> (result: Result<(), ErrorTransceiver>)
        ensures
            handed_outgoing(old(self).worker_messages(), final(self).worker_messages(), seq![client_id], message),
            result == transmit_result(last_taken(final(self).worker_messages())),
            final(self).worker_sender() == old(self).worker_sender(),
    {
        let outgoing = OutgoingMessage::new(client_id, message);
        transmit_outcome(self.hand(outgoing))
    }

    /// Send message to every client of `destinations`: `Send` of an outgoing
    /// message for them is handed to the workers.
    ///
    /// Returns `Err(ErrorTransceiver::NoDestination)` exactly when
    /// `destinations` is empty (nothing is handed over then), else
    /// `Err(ErrorTransceiver::ChannelDisconnected)` if server was dropped.
    pub fn send_vec(&mut self, destinations: &Vec<ClientId>, message: OUT) -> (result: Result<(), ErrorTransceiver>)
        ensures
            final(self).worker_sender() == old(self).worker_sender(),
            destinations@.len() == 0 ==> result == Err::<(), ErrorTransceiver>(ErrorTransceiver::NoDestination)
                && final(self).worker_messages() == old(self).worker_messages(),
            destinations@.len() > 0 ==> {
                &&& handed_outgoing(old(self).worker_messages(), final(self).worker_messages(), destinations@, message)
                &&& result == transmit_result(last_taken(final(self).worker_messages()))
            },
    {
        if destinations.len() > 0 {
            let outgoing = OutgoingMessage::new_vec(destinations, message);
            transmit_outcome(self.hand(outgoing))
        } else {
            Err(ErrorTransceiver::NoDestination)
        }
    }
}

impl<OUT: Message> Clone for Transmitter<OUT> {
    /// A transmitter on a clone of the sender, which has handed nothing yet.
    fn clone(&self) -> (transmitter: Self)
        ensures
            transmitter.worker_messages() == Seq::<(WorkerActiveMessage<OUT>, bool)>::empty(),
    {
        Transmitter { sdr_worker: clone_sender(&self.sdr_worker), handed: Ghost(Seq::empty()) }
    }
}

} // verus!
