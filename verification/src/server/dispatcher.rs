//! Server dispatcher: hands messages for clients to the workers.
use std::sync::mpsc::Sender;

use vstd::prelude::*;

use crate::channel::{clone_sender, last_taken, send_value};
use crate::server::transmitter::handed_outgoing;
use crate::server::{
    error::ErrorDispatcher,
    message::{OutgoingMessage, WorkerActiveMessage},
    ClientId,
};
use crate::Message;

verus! {

/// What a send gives once the worker channel has answered.
pub open spec fn dispatch_result(sent: bool) -> Result<(), ErrorDispatcher> {
    if sent {
        Ok(())
    } else {
        Err(ErrorDispatcher::ChannelDisconnected)
    }
}

/// Map the answer of the worker channel to the result of a dispatch.
pub fn dispatch_outcome(sent: bool) -> (result: Result<(), ErrorDispatcher>)
    ensures
        result == dispatch_result(sent),
{
    if sent {
        Ok(())
    } else {
        Err(ErrorDispatcher::ChannelDisconnected)
    }
}

/// The server dispatcher can send message to clients and can be shared to
/// multiple threads.
#[verifier::reject_recursive_types(OUT)]
pub struct Dispatcher<OUT: Message> {
    sdr_worker: Sender<WorkerActiveMessage<OUT>>,
    handed: Ghost<Seq<(WorkerActiveMessage<OUT>, bool)>>,
}

impl<OUT: Message> Dispatcher<OUT> {
    /// Sender to the workers.
    pub closed spec fn worker_sender(&self) -> Sender<WorkerActiveMessage<OUT>> {
        self.sdr_worker
    }

    /// The messages this dispatcher handed to the workers, in order, each
    /// with whether their channel took it.
    pub closed spec fn worker_messages(&self) -> Seq<(WorkerActiveMessage<OUT>, bool)> {
        self.handed@
    }

    /// Create a new dispatcher feeding the given worker channel.
    pub fn new(sdr_worker: Sender<WorkerActiveMessage<OUT>>) -> (dispatcher: Dispatcher<OUT>)
        ensures
            dispatcher.worker_sender() == sdr_worker,
            dispatcher.worker_messages() == Seq::<(WorkerActiveMessage<OUT>, bool)>::empty(),
    {
        Dispatcher { sdr_worker, handed: Ghost(Seq::empty()) }
    }

    /// Hand `Send(outgoing)` to the workers, recording it; `true` when their
    /// channel took it.
    fn hand(&mut self, outgoing: OutgoingMessage<OUT>) -> (sent: bool)
        ensures
            handed_outgoing(old(self).worker_messages(), final(self).worker_messages(), outgoing.spec_destinations(), outgoing.spec_message()),
            sent == last_taken(final(self).worker_messages()),
            final(self).worker_sender() == old(self).worker_sender(),
    {
        let ghost value = WorkerActiveMessage::Send(outgoing);
        let sent = send_value(&self.sdr_worker, WorkerActiveMessage::Send(outgoing));
        self.handed = Ghost(self.handed@.push((value, sent)));
        assert(self.handed@.drop_last() =~= old(self).handed@);
        sent
    }

    /// Send message to one client: `Send` of an outgoing message for
    /// `client_id` is handed to the workers.
    ///
    /// Returns `Err(ErrorDispatcher::ChannelDisconnected)` if server was dropped.
    pub fn send(&mut self, client_id: ClientId, message: OUT) -> (result: Result<(), ErrorDispatcher>)
        ensures
            handed_outgoing(old(self).worker_messages(), final(self).worker_messages(), seq![client_id], message),
            result == dispatch_result(last_taken(final(self).worker_messages())),
            final(self).worker_sender() == old(self).worker_sender(),
    {
        let outgoing = OutgoingMessage::new(client_id, message);
        dispatch_outcome(self.hand(outgoing))
    }

    /// Send message to every client of `destinations`: `Send` of an outgoing
    /// message for them is handed to the workers.
    ///
    /// Returns `Err(ErrorDispatcher::NoDestination)` exactly when
    /// `destinations` is empty (nothing is sent then), else
    /// `Err(ErrorDispatcher::ChannelDisconnected)` if server was dropped.
    pub fn send_vec(&mut self, destinations: &Vec<ClientId>, message: OUT) -> (result: Result<(), ErrorDispatcher>)
        ensures
            final(self).worker_sender() == old(self).worker_sender(),
            destinations@.len() == 0 ==> result == Err::<(), ErrorDispatcher>(ErrorDispatcher::NoDestination)
                && final(self).worker_messages() == old(self).worker_messages(),
            destinations@.len() > 0 ==> {
                &&& handed_outgoing(old(self).worker_messages(), final(self).worker_messages(), destinations@, message)
                &&& result == dispatch_result(last_taken(final(self).worker_messages()))
            },
    {
        if destinations.len() > 0 {
            let outgoing = OutgoingMessage::new_vec(destinations, message);
            dispatch_outcome(self.hand(outgoing))
        } else {
            Err(ErrorDispatcher::NoDestination)
        }
    }
}

impl<OUT: Message> Clone for Dispatcher<OUT> {
    /// A dispatcher on a clone of the sender, which has handed nothing yet.
    fn clone(&self) -> (dispatcher: Self)
        ensures
            dispatcher.worker_messages() == Seq::<(WorkerActiveMessage<OUT>, bool)>::empty(),
    {
        Dispatcher { sdr_worker: clone_sender(&self.sdr_worker), handed: Ghost(Seq::empty()) }
    }
}

} // verus!
