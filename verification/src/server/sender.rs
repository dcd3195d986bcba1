//! Server message sender: sends messages to clients while the server is active.
use std::sync::mpsc::{Receiver, Sender};

use vstd::prelude::*;

use crate::channel::{handed_over, last_taken, send_value, try_receive, TryReceive};
use crate::server::{
    error::ErrorSender,
    message::{OutgoingMessage, SenderMessage, WorkerActiveMessage},
    status::ServerStatus,
    ClientId,
};
use crate::Message;

verus! {

/// Server sender can send message to clients and can be shared to multiple threads.
///
/// It follows the server status through the messages the server sends it,
/// and only forwards messages to the workers while the server is active.
#[verifier::reject_recursive_types(OUT)]
pub struct ServerMessageSender<OUT: Message> {
    /// Unique receiver channel for sender
    rcv_sender: Receiver<SenderMessage<OUT>>,
    /// Sender channel to the workers, while the server is active
    sdr_worker: Option<Sender<WorkerActiveMessage<OUT>>>,
    /// Current server status
    server_status: ServerStatus,
    /// Messages handed to the workers, each with whether their channel took it
    forwarded: Ghost<Seq<(OutgoingMessage<OUT>, bool)>>,
}

impl<OUT: Message> ServerMessageSender<OUT> {
    /// Server status as last reported to the sender.
    pub closed spec fn current_status(&self) -> ServerStatus {
        self.server_status
    }

    /// Sender to the workers, if the sender holds one.
    pub closed spec fn worker(&self) -> Option<Sender<WorkerActiveMessage<OUT>>> {
        self.sdr_worker
    }

    /// Receiver of the messages of the server.
    pub closed spec fn receiver(&self) -> Receiver<SenderMessage<OUT>> {
        self.rcv_sender
    }

    /// The outgoing messages handed to the workers, in order, each with
    /// whether their channel took it.
    pub closed spec fn forwarded_messages(&self) -> Seq<(OutgoingMessage<OUT>, bool)> {
        self.forwarded@
    }

    /// Whether the receiver and the status are those of `other`, and the
    /// sender to the workers too, or none when `dropped`.
    pub open spec fn keeps(&self, other: Self, dropped: bool) -> bool {
        &&& self.receiver() == other.receiver()
        &&& self.current_status() == other.current_status()
        &&& self.worker() == (if dropped { None } else { other.worker() })
    }

    /// The sender after it took one message of the server into account.
    ///
    /// A status replaces the current one and, when the server is inactive or
    /// ending, drops the sender to the workers; a reference replaces the
    /// sender; a ping changes nothing.
    pub closed spec fn apply(self, message: SenderMessage<OUT>) -> Self {
        match message {
            SenderMessage::Status(status) => ServerMessageSender {
                sdr_worker: match status {
                    ServerStatus::Inactive | ServerStatus::Ending => None,
                    _ => self.sdr_worker,
                },
                server_status: status,
                ..self
            },
            SenderMessage::Reference(sender) => ServerMessageSender { sdr_worker: Some(sender), ..self },
            SenderMessage::Ping => self,
        }
    }

    /// The sender after it took a sequence of messages into account, in order.
    pub open spec fn apply_all(self, messages: Seq<SenderMessage<OUT>>) -> Self
        decreases messages.len(),
    {
        if messages.len() == 0 {
            self
        } else {
            self.apply_all(messages.drop_last()).apply(messages.last())
        }
    }

    /// What a send decides from the updated sender, before any channel
    /// answer: `None` when the message is handed to the workers, else the
    /// error returned at once.
    pub open spec fn refusal(&self, has_destination: bool) -> Option<ErrorSender> {
        match self.current_status() {
            ServerStatus::Active => match self.worker() {
                Some(_) => if has_destination { None } else { Some(ErrorSender::NoDestination) },
                None => Some(ErrorSender::Inactive),
            },
            ServerStatus::Paused => Some(ErrorSender::Paused),
            _ => Some(ErrorSender::Inactive),
        }
    }

    /// How a send of `message` to `destinations` that went through the update
    /// ends: `refusal` when there is one, nothing being handed over; else the
    /// message is handed to the workers with its destinations, and the send
    /// is `Ok` when they took it, or `Inactive` with the sender dropped when
    /// they are gone.
    pub open spec fn send_ends(
        self,
        has_destination: bool,
        destinations: Seq<ClientId>,
        message: OUT,
        result: Result<(), ErrorSender>,
        after: Self,
    ) -> bool {
        match self.refusal(has_destination) {
            Some(error) => result == Err::<(), ErrorSender>(error) && after == self,
            None => {
                &&& after.forwarded_messages().len() == self.forwarded_messages().len() + 1
                &&& after.forwarded_messages().drop_last() == self.forwarded_messages()
                &&& after.forwarded_messages().last().0.spec_destinations() == destinations
                &&& after.forwarded_messages().last().0.spec_message() == message
                &&& if last_taken(after.forwarded_messages()) {
                    result is Ok && after.keeps(self, false)
                } else {
                    result == Err::<(), ErrorSender>(ErrorSender::Inactive) && after.keeps(self, true)
                }
            },
        }
    }

    /// Create a new sender reading the messages of the server from `rcv_sender`,
    /// starting without a sender to the workers.
    pub fn new(rcv_sender: Receiver<SenderMessage<OUT>>, server_status: ServerStatus) -> (sender: ServerMessageSender<OUT>)
        ensures
            sender.receiver() == rcv_sender,
            sender.current_status() == server_status,
            sender.worker() is None,
            sender.forwarded_messages() == Seq::<(OutgoingMessage<OUT>, bool)>::empty(),
    {
        ServerMessageSender { rcv_sender, sdr_worker: None, server_status, forwarded: Ghost(Seq::empty()) }
    }

    /// Take one message of the server into account.
    pub fn apply_message(&mut self, message: SenderMessage<OUT>)
        ensures
            *final(self) == old(self).apply(message),
    {
        match message {
            SenderMessage::Status(server_status) => {
                match server_status {
                    ServerStatus::Inactive | ServerStatus::Ending => self.sdr_worker = None,
                    _ => {},
                }
                self.server_status = server_status;
            },
            SenderMessage::Reference(sender) => self.sdr_worker = Some(sender),
            SenderMessage::Ping => {},
        }
    }

    /// Follow one answer of the server channel while updating: a message is
    /// taken into account and the update goes on (`None`); an empty channel
    /// ends the update with `Ok`; a channel whose senders were all dropped
    /// ends it with `Err(ErrorSender::Disconnected)`.
    pub fn on_poll(&mut self, outcome: TryReceive<SenderMessage<OUT>>) -> (done: Option<Result<(), ErrorSender>>)
        ensures
            match outcome {
                TryReceive::Value(message) => done is None && *final(self) == old(self).apply(message),
                TryReceive::Empty => done == Some(Ok::<(), ErrorSender>(())) && *final(self) == *old(self),
                TryReceive::Disconnected => done == Some(Err::<(), ErrorSender>(ErrorSender::Disconnected))
                    && *final(self) == *old(self),
            },
    {
        match outcome {
            TryReceive::Value(message) => {
                self.apply_message(message);
                None
            },
            TryReceive::Empty => Some(Ok(())),
            TryReceive::Disconnected => Some(Err(ErrorSender::Disconnected)),
        }
    }

    /// Receive the messages of the server to update the sender, until the
    /// channel is empty, each answer of the channel followed as `on_poll`
    /// says.
    ///
    /// Returns `Err(ErrorSender::Disconnected)` if the server was dropped. At
    /// most `u64::MAX` messages are taken in one call.
    pub fn update(&mut self) -> (result: Result<(), ErrorSender>)
        ensures
            exists|messages: Seq<SenderMessage<OUT>>| *final(self) == #[trigger] old(self).apply_all(messages),
            result is Ok || result == Err::<(), ErrorSender>(ErrorSender::Disconnected),
    {
        let ghost start = *self;
        let ghost mut messages: Seq<SenderMessage<OUT>> = Seq::empty();
        let mut budget: u64 = u64::MAX;
        assert(start.apply_all(messages) == start);
        while budget > 0
            invariant
                start == *old(self),
                *self == start.apply_all(messages),
            decreases budget,
        {
            let outcome = try_receive(&self.rcv_sender);
            let ghost polled = outcome;
            match self.on_poll(outcome) {
                Some(result) => {
                    return result;
                },
                None => {
                    proof {
                        let message = polled->Value_0;
                        let next = messages.push(message);
                        assert(next.drop_last() =~= messages);
                        messages = next;
                    }
                },
            }
            budget = budget - 1;
        }
        Ok(())
    }

    /// Hand an outgoing message to the workers once the sender is updated.
    fn forward(&mut self, outgoing: OutgoingMessage<OUT>) -> (result: Result<(), ErrorSender>)
        requires
            old(self).refusal(true) is None,
        ensures
            handed_over(old(self).forwarded_messages(), final(self).forwarded_messages(), outgoing),
            old(self).send_ends(true, outgoing.spec_destinations(), outgoing.spec_message(), result, *final(self)),
    {
        let ghost value = outgoing;
        match &self.sdr_worker {
            Some(channel) => {
                let sent = send_value(channel, WorkerActiveMessage::Send(outgoing));
                self.forwarded = Ghost(self.forwarded@.push((value, sent)));
                assert(self.forwarded@.drop_last() =~= old(self).forwarded@);
                if sent {
                    Ok(())
                } else {
                    self.sdr_worker = None;
                    Err(ErrorSender::Inactive)
                }
            },
            None => {
                assert(false);
                Err(ErrorSender::Inactive)
            },
        }
    }

    /// Send message to one connected client.
    ///
    /// The sender first takes the pending messages of the server into account.
    /// Returns `Err(ErrorSender::Disconnected)` if the server was dropped,
    /// `Err(ErrorSender::Paused)` if it is paused, `Err(ErrorSender::Inactive)`
    /// if it is not active or its workers are gone, else `Ok(())`.
    pub fn send(&mut self, client_id: ClientId, message: OUT) -> (result: Result<(), ErrorSender>)
        ensures
            exists|messages: Seq<SenderMessage<OUT>>| {
                let updated = #[trigger] old(self).apply_all(messages);
                if result == Err::<(), ErrorSender>(ErrorSender::Disconnected) {
                    *final(self) == updated
                } else {
                    updated.send_ends(true, seq![client_id], message, result, *final(self))
                }
            },
    {
        match self.update() {
            Ok(()) => {},
            Err(err) => {
                return Err(err);
            },
        }
        match self.server_status {
            ServerStatus::Active => match &self.sdr_worker {
                Some(_) => self.forward(OutgoingMessage::new(client_id, message)),
                None => Err(ErrorSender::Inactive),
            },
            ServerStatus::Paused => Err(ErrorSender::Paused),
            _ => Err(ErrorSender::Inactive),
        }
    }

    /// Send message to every client of `destinations`.
    ///
    /// Like `send`, and returns `Err(ErrorSender::NoDestination)` when the
    /// server is active and `destinations` is empty.
    pub fn send_vec(&mut self, destinations: &Vec<ClientId>, message: OUT) -> (result: Result<(), ErrorSender>)
        ensures
            exists|messages: Seq<SenderMessage<OUT>>| {
                let updated = #[trigger] old(self).apply_all(messages);
                if result == Err::<(), ErrorSender>(ErrorSender::Disconnected) {
                    *final(self) == updated
                } else {
                    updated.send_ends(destinations@.len() > 0, destinations@, message, result, *final(self))
                }
            },
    {
        match self.update() {
            Ok(()) => {},
            Err(err) => {
                return Err(err);
            },
        }
        match self.server_status {
            ServerStatus::Active => match &self.sdr_worker {
                Some(_) => {
                    if destinations.len() > 0 {
                        self.forward(OutgoingMessage::new_vec(destinations, message))
                    } else {
                        Err(ErrorSender::NoDestination)
                    }
                },
                None => Err(ErrorSender::Inactive),
            },
            ServerStatus::Paused => Err(ErrorSender::Paused),
            _ => Err(ErrorSender::Inactive),
        }
    }

    /// Server status as last reported to the sender.
    pub fn status(&self) -> (status: ServerStatus)
        ensures
            status == self.current_status(),
    {
        self.server_status
    }

    /// Whether the sender holds a sender to the workers.
    pub fn has_worker(&self) -> (has: bool)
        ensures
            has == self.worker() is Some,
    {
        self.sdr_worker.is_some()
    }
}

/// What one message of the server does to the sender: a status replaces the
/// current one and, when the server is inactive or ending, drops the sender
/// to the workers; a reference replaces the sender; a ping changes nothing.
/// The receiver and what was forwarded stay.
pub proof fn lemma_apply<OUT: Message>(sender: ServerMessageSender<OUT>, message: SenderMessage<OUT>)
    ensures
        sender.apply(message).receiver() == sender.receiver(),
        sender.apply(message).forwarded_messages() == sender.forwarded_messages(),
        sender.apply(message).current_status() == (match message {
            SenderMessage::Status(status) => status,
            _ => sender.current_status(),
        }),
        sender.apply(message).worker() == (match message {
            SenderMessage::Status(ServerStatus::Inactive) | SenderMessage::Status(ServerStatus::Ending) => None,
            SenderMessage::Reference(workers) => Some(workers),
            _ => sender.worker(),
        }),
{
}

/// Taking messages of the server into account keeps the receiver and what
/// was forwarded.
pub proof fn lemma_apply_all_keeps<OUT: Message>(sender: ServerMessageSender<OUT>, messages: Seq<SenderMessage<OUT>>)
    ensures
        sender.apply_all(messages).receiver() == sender.receiver(),
        sender.apply_all(messages).forwarded_messages() == sender.forwarded_messages(),
    decreases messages.len(),
{
    if messages.len() > 0 {
        lemma_apply_all_keeps(sender, messages.drop_last());
    }
}

/// Two consecutive updates take the messages into account as one update of
/// all of them would: applying `first` then `second` is applying `first + second`.
pub proof fn lemma_apply_all_concat<OUT: Message>(
    sender: ServerMessageSender<OUT>,
    first: Seq<SenderMessage<OUT>>,
    second: Seq<SenderMessage<OUT>>,
)
    ensures
        sender.apply_all(first).apply_all(second) == sender.apply_all(first + second),
    decreases second.len(),
{
    if second.len() == 0 {
        assert(first + second =~= first);
    } else {
        lemma_apply_all_concat(sender, first, second.drop_last());
        assert((first + second).drop_last() =~= first + second.drop_last());
        assert((first + second).last() == second.last());
    }
}

/// Once the server reports it is inactive or ending, the sender drops its
/// sender to the workers and refuses every message with `Inactive`.
pub proof fn lemma_inactive_status_refuses<OUT: Message>(sender: ServerMessageSender<OUT>, status: ServerStatus, has_destination: bool)
    requires
        status == ServerStatus::Inactive || status == ServerStatus::Ending,
    ensures
        sender.apply(SenderMessage::Status(status)).worker() is None,
        sender.apply(SenderMessage::Status(status)).refusal(has_destination) == Some(ErrorSender::Inactive),
{
}

/// A paused server refuses every message with `Paused`, whatever sender is held.
pub proof fn lemma_paused_refuses<OUT: Message>(sender: ServerMessageSender<OUT>, has_destination: bool)
    ensures
        sender.apply(SenderMessage::Status(ServerStatus::Paused)).refusal(has_destination) == Some(ErrorSender::Paused),
{
}

/// An active server with a sender to the workers forwards every message that
/// has a destination, and refuses one without with `NoDestination`.
pub proof fn lemma_active_forwards<OUT: Message>(sender: ServerMessageSender<OUT>, workers: Sender<WorkerActiveMessage<OUT>>)
    ensures
        sender.apply(SenderMessage::Reference(workers)).apply(SenderMessage::Status(ServerStatus::Active)).refusal(true) is None,
        sender.apply(SenderMessage::Reference(workers)).apply(SenderMessage::Status(ServerStatus::Active)).refusal(false)
            == Some(ErrorSender::NoDestination),
{
}

/// The sender forwards only while the server is active: a send goes to the
/// workers only when the last reported status is `Active`, a sender to the
/// workers is held and there is a destination. A paused server refuses with
/// `Paused`, and any other status but `Active` (inactive, starting, stopping,
/// ending) refuses with `Inactive`; a refused send hands nothing over and
/// changes nothing.
pub proof fn lemma_forwards_only_when_active<OUT: Message>(
    sender: ServerMessageSender<OUT>,
    has_destination: bool,
    destinations: Seq<ClientId>,
    message: OUT,
    result: Result<(), ErrorSender>,
    after: ServerMessageSender<OUT>,
)
    ensures
        sender.refusal(has_destination) is None ==> {
            &&& sender.current_status() == ServerStatus::Active
            &&& sender.worker() is Some
            &&& has_destination
        },
        sender.current_status() == ServerStatus::Paused ==> sender.refusal(has_destination) == Some(ErrorSender::Paused),
        sender.current_status() != ServerStatus::Active && sender.current_status() != ServerStatus::Paused
            ==> sender.refusal(has_destination) == Some(ErrorSender::Inactive),
        sender.current_status() != ServerStatus::Active && sender.send_ends(has_destination, destinations, message, result, after) ==> {
            &&& result is Err
            &&& after == sender
            &&& after.forwarded_messages() == sender.forwarded_messages()
        },
{
}

} // verus!
