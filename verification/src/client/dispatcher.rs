//! Client dispatcher: sends messages to the server while the client is connected.
use std::sync::mpsc::{Receiver, Sender};

use vstd::prelude::*;

use crate::channel::{handed_over, last_taken, send_value, try_receive, TryReceive};
use crate::client::{
    error::ErrorDispatcher,
    message::{DispatcherMessage, WorkerMessage},
    status::ClientStatus,
};
use crate::Message;

verus! {

/// The client dispatcher can send message to server.
///
/// It follows the client status through the messages the client sends it, and
/// only forwards messages to the worker while the client is connected.
#[verifier::reject_recursive_types(OUT)]
pub struct Dispatcher<OUT: Message> {
    /// Unique receiver channel for dispatcher
    rcv_dispatcher: Receiver<DispatcherMessage<OUT>>,
    /// Sender channel to the worker, while the client is active
    sdr_worker: Option<Sender<WorkerMessage<OUT>>>,
    /// Current client status
    client_status: ClientStatus,
    /// Messages handed to the worker, each with whether its channel took it
    handed: Ghost<Seq<(WorkerMessage<OUT>, bool)>>,
}

impl<OUT: Message> Dispatcher<OUT> {
    /// Client status as last reported to the dispatcher.
    pub closed spec fn current_status(&self) -> ClientStatus {
        self.client_status
    }

    /// Sender to the worker, if the dispatcher holds one.
    pub closed spec fn worker(&self) -> Option<Sender<WorkerMessage<OUT>>> {
        self.sdr_worker
    }

    /// Receiver of the messages of the client.
    pub closed spec fn receiver(&self) -> Receiver<DispatcherMessage<OUT>> {
        self.rcv_dispatcher
    }

    /// The messages handed to the worker, in order, each with whether its
    /// channel took it.
    pub closed spec fn worker_messages(&self) -> Seq<(WorkerMessage<OUT>, bool)> {
        self.handed@
    }

    /// Whether the receiver, the status and the sender to the worker are
    /// those of `other`, or, when `dropped`, the same without the sender.
    pub open spec fn keeps(&self, other: Self, dropped: bool) -> bool {
        &&& self.receiver() == other.receiver()
        &&& self.current_status() == other.current_status()
        &&& self.worker() == (if dropped { None } else { other.worker() })
    }

    /// How a send ends once the dispatcher was updated to `self`: a
    /// dispatcher that can forward hands `Send(message)` to the worker and
    /// returns `Ok` when it was taken, else drops the sender and returns
    /// `Disconnected`; one that cannot forward returns `Disconnected`, handing
    /// nothing over and changing nothing.
    pub open spec fn dispatch_ends(self, message: OUT, result: Result<(), ErrorDispatcher>, after: Self) -> bool {
        if self.can_forward() {
            &&& handed_over(self.worker_messages(), after.worker_messages(), WorkerMessage::Send(message))
            &&& if last_taken(after.worker_messages()) {
                result is Ok && after.keeps(self, false)
            } else {
                result == Err::<(), ErrorDispatcher>(ErrorDispatcher::Disconnected) && after.keeps(self, true)
            }
        } else {
            result == Err::<(), ErrorDispatcher>(ErrorDispatcher::Disconnected) && after == self
        }
    }

    /// The dispatcher after it took one message of the client into account.
    ///
    /// A status replaces the current one and, when the client is disconnected
    /// or disconnecting, drops the sender to the worker; a reference replaces
    /// the sender; a ping changes nothing.
    pub closed spec fn apply(self, message: DispatcherMessage<OUT>) -> Self {
        match message {
            DispatcherMessage::Status(status) => Dispatcher {
                sdr_worker: match status {
                    ClientStatus::Disconnected | ClientStatus::Disconnecting => None,
                    _ => self.sdr_worker,
                },
                client_status: status,
                ..self
            },
            DispatcherMessage::Reference(sender) => Dispatcher { sdr_worker: Some(sender), ..self },
            DispatcherMessage::Ping => self,
        }
    }

    /// The dispatcher after it took a sequence of messages into account, in order.
    pub open spec fn apply_all(self, messages: Seq<DispatcherMessage<OUT>>) -> Self
        decreases messages.len(),
    {
        if messages.len() == 0 {
            self
        } else {
            self.apply_all(messages.drop_last()).apply(messages.last())
        }
    }

    /// Whether the dispatcher would forward a message right now.
    pub open spec fn can_forward(&self) -> bool {
        self.current_status() == ClientStatus::Connected && self.worker() is Some
    }

    /// Create a new dispatcher reading the messages of the client from
    /// `rcv_dispatcher`, starting without a sender to the worker.
    pub fn new(rcv_dispatcher: Receiver<DispatcherMessage<OUT>>, client_status: ClientStatus) -> (dispatcher: Dispatcher<OUT>)
        ensures
            dispatcher.receiver() == rcv_dispatcher,
            dispatcher.current_status() == client_status,
            dispatcher.worker() is None,
            dispatcher.worker_messages() == Seq::<(WorkerMessage<OUT>, bool)>::empty(),
    {
        Dispatcher { rcv_dispatcher, sdr_worker: None, client_status, handed: Ghost(Seq::empty()) }
    }

    /// Take one message of the client into account.
    pub fn apply_message(&mut self, message: DispatcherMessage<OUT>)
        ensures
            *final(self) == old(self).apply(message),
    {
        match message {
            DispatcherMessage::Status(client_status) => {
                match client_status {
                    ClientStatus::Disconnected | ClientStatus::Disconnecting => self.sdr_worker = None,
                    _ => {},
                }
                self.client_status = client_status;
            },
            DispatcherMessage::Reference(sender) => self.sdr_worker = Some(sender),
            DispatcherMessage::Ping => {},
        }
    }

    /// Follow one answer of the client channel while updating: a message is
    /// taken into account and the update goes on (`None`); an empty channel
    /// ends the update with `Ok`; a channel whose senders were all dropped
    /// ends it with `Err(ErrorDispatcher::ChannelDisconnected)`.
    pub fn on_poll(&mut self, outcome: TryReceive<DispatcherMessage<OUT>>) -> (done: Option<Result<(), ErrorDispatcher>>)
        ensures
            match outcome {
                TryReceive::Value(message) => done is None && *final(self) == old(self).apply(message),
                TryReceive::Empty => done == Some(Ok::<(), ErrorDispatcher>(())) && *final(self) == *old(self),
                TryReceive::Disconnected => done == Some(Err::<(), ErrorDispatcher>(ErrorDispatcher::ChannelDisconnected))
                    && *final(self) == *old(self),
            },
    {
        match outcome {
            TryReceive::Value(message) => {
                self.apply_message(message);
                None
            },
            TryReceive::Empty => Some(Ok(())),
            TryReceive::Disconnected => Some(Err(ErrorDispatcher::ChannelDisconnected)),
        }
    }

    /// Receive the messages of the client to update the dispatcher, until the
    /// channel is empty, each answer of the channel followed as `on_poll`
    /// says.
    ///
    /// Returns `Err(ErrorDispatcher::ChannelDisconnected)` if the client was
    /// dropped. At most `u64::MAX` messages are taken in one call.
    pub fn update(&mut self) -> (result: Result<(), ErrorDispatcher>)
        ensures
            exists|messages: Seq<DispatcherMessage<OUT>>| *final(self) == #[trigger] old(self).apply_all(messages),
            result is Ok || result == Err::<(), ErrorDispatcher>(ErrorDispatcher::ChannelDisconnected),
    {
        let ghost start = *self;
        let ghost mut messages: Seq<DispatcherMessage<OUT>> = Seq::empty();
        let mut budget: u64 = u64::MAX;
        assert(start.apply_all(messages) == start);
        while budget > 0
            invariant
                start == *old(self),
                *self == start.apply_all(messages),
            decreases budget,
        {
            let outcome = try_receive(&self.rcv_dispatcher);
            let ghost polled = outcome;
            match self.on_poll(outcome) {
                Some(result) => {
                    return result;
                },
                None => {
                    proof {
                        let message = polled->Value_0;
                        let next = messages.push(message);
                        assert(next.drop_last() =~= messages);
                        messages = next;
                    }
                },
            }
            budget = budget - 1;
        }
        Ok(())
    }

    /// Dispatch outgoing message to server.
    ///
    /// The dispatcher first takes the pending messages of the client into
    /// account. Returns `Err(ErrorDispatcher::ChannelDisconnected)` if the
    /// client was dropped, `Err(ErrorDispatcher::Disconnected)` if the client
    /// is not connected or its worker is gone (the sender is then dropped),
    /// else `Ok(())` once the message was handed to the worker.
    pub fn send(&mut self, message: OUT) -> (result: Result<(), ErrorDispatcher>)
        ensures
            exists|messages: Seq<DispatcherMessage<OUT>>| {
                let updated = #[trigger] old(self).apply_all(messages);
                if result == Err::<(), ErrorDispatcher>(ErrorDispatcher::ChannelDisconnected) {
                    *final(self) == updated
                } else {
                    updated.dispatch_ends(message, result, *final(self))
                }
            },
    {
        match self.update() {
            Ok(()) => {},
            Err(err) => {
                return Err(err);
            },
        }
        let ghost value = message;
        match self.client_status {
            ClientStatus::Connected => match &self.sdr_worker {
                Some(channel) => {
                    let sent = send_value(channel, WorkerMessage::Send(message));
                    self.handed = Ghost(self.handed@.push((WorkerMessage::Send(value), sent)));
                    if sent {
                        Ok(())
                    } else {
                        self.sdr_worker = None;
                        Err(ErrorDispatcher::Disconnected)
                    }
                },
                None => Err(ErrorDispatcher::Disconnected),
            },
            _ => Err(ErrorDispatcher::Disconnected),
        }
    }

    /// Returns the status of the client, after the pending messages of the
    /// client were taken into account.
    pub fn status(&mut self) -> (status: ClientStatus)
        ensures
            status == final(self).current_status(),
            exists|messages: Seq<DispatcherMessage<OUT>>| *final(self) == #[trigger] old(self).apply_all(messages),
    {
        let _ = self.update();
        self.client_status
    }

    /// Whether the dispatcher holds a sender to the worker.
    pub fn has_worker(&self) -> (has: bool)
        ensures
            has == self.worker() is Some,
    {
        self.sdr_worker.is_some()
    }
}

/// What one message of the client does to the dispatcher: a status replaces
/// the current one and, when the client is disconnected or disconnecting,
/// drops the sender to the worker; a reference replaces the sender; a ping
/// changes nothing. The receiver and what was handed to the worker stay.
pub proof fn lemma_apply<OUT: Message>(dispatcher: Dispatcher<OUT>, message: DispatcherMessage<OUT>)
    ensures
        dispatcher.apply(message).receiver() == dispatcher.receiver(),
        dispatcher.apply(message).worker_messages() == dispatcher.worker_messages(),
        dispatcher.apply(message).current_status() == (match message {
            DispatcherMessage::Status(status) => status,
            _ => dispatcher.current_status(),
        }),
        dispatcher.apply(message).worker() == (match message {
            DispatcherMessage::Status(ClientStatus::Disconnected) | DispatcherMessage::Status(ClientStatus::Disconnecting) => None,
            DispatcherMessage::Reference(sender) => Some(sender),
            _ => dispatcher.worker(),
        }),
{
}

/// Taking messages of the client into account keeps the receiver and what
/// was handed to the worker.
pub proof fn lemma_apply_all_keeps<OUT: Message>(dispatcher: Dispatcher<OUT>, messages: Seq<DispatcherMessage<OUT>>)
    ensures
        dispatcher.apply_all(messages).receiver() == dispatcher.receiver(),
        dispatcher.apply_all(messages).worker_messages() == dispatcher.worker_messages(),
    decreases messages.len(),
{
    if messages.len() > 0 {
        lemma_apply_all_keeps(dispatcher, messages.drop_last());
    }
}

/// Two consecutive updates take the messages into account as one update of
/// all of them would: applying `first` then `second` is applying `first + second`.
pub proof fn lemma_apply_all_concat<OUT: Message>(
    dispatcher: Dispatcher<OUT>,
    first: Seq<DispatcherMessage<OUT>>,
    second: Seq<DispatcherMessage<OUT>>,
)
    ensures
        dispatcher.apply_all(first).apply_all(second) == dispatcher.apply_all(first + second),
    decreases second.len(),
{
    if second.len() == 0 {
        assert(first + second =~= first);
    } else {
        lemma_apply_all_concat(dispatcher, first, second.drop_last());
        assert((first + second).drop_last() =~= first + second.drop_last());
        assert((first + second).last() == second.last());
    }
}

/// Once the client reports it is disconnected or disconnecting, the dispatcher
/// drops its sender and forwards nothing.
pub proof fn lemma_inactive_status_stops_forwarding<OUT: Message>(dispatcher: Dispatcher<OUT>, status: ClientStatus)
    requires
        status == ClientStatus::Disconnected || status == ClientStatus::Disconnecting,
    ensures
        dispatcher.apply(DispatcherMessage::Status(status)).worker() is None,
        !dispatcher.apply(DispatcherMessage::Status(status)).can_forward(),
        dispatcher.apply(DispatcherMessage::Status(status)).current_status() == status,
{
}

/// A sender to the worker followed by a connected status, in either order,
/// lets the dispatcher forward to that sender.
pub proof fn lemma_reference_and_connected_forward<OUT: Message>(dispatcher: Dispatcher<OUT>, sender: Sender<WorkerMessage<OUT>>)
    ensures
        dispatcher.apply(DispatcherMessage::Reference(sender)).apply(DispatcherMessage::Status(ClientStatus::Connected)).can_forward(),
        dispatcher.apply(DispatcherMessage::Reference(sender)).apply(DispatcherMessage::Status(ClientStatus::Connected)).worker() == Some(sender),
        dispatcher.apply(DispatcherMessage::Status(ClientStatus::Connected)).apply(DispatcherMessage::Reference(sender)).can_forward(),
        dispatcher.apply(DispatcherMessage::Status(ClientStatus::Connected)).apply(DispatcherMessage::Reference(sender)).worker() == Some(sender),
{
}

/// A ping changes nothing.
pub proof fn lemma_ping_changes_nothing<OUT: Message>(dispatcher: Dispatcher<OUT>)
    ensures
        dispatcher.apply(DispatcherMessage::Ping) == dispatcher,
{
}

/// The dispatcher forwards only while the client is connected: a message is
/// handed to the worker only when the last reported status is `Connected` and
/// a sender to the worker is held. In any other status (disconnected,
/// connecting, disconnecting, ended) a send is refused with `Disconnected`,
/// hands nothing over and changes nothing.
pub proof fn lemma_forwards_only_when_connected<OUT: Message>(
    dispatcher: Dispatcher<OUT>,
    message: OUT,
    result: Result<(), ErrorDispatcher>,
    after: Dispatcher<OUT>,
)
    ensures
        dispatcher.can_forward() ==> dispatcher.current_status() == ClientStatus::Connected && dispatcher.worker() is Some,
        dispatcher.current_status() == ClientStatus::Connected && dispatcher.worker() is Some ==> dispatcher.can_forward(),
        dispatcher.current_status() != ClientStatus::Connected && dispatcher.dispatch_ends(message, result, after) ==> {
            &&& result == Err::<(), ErrorDispatcher>(ErrorDispatcher::Disconnected)
            &&& after == dispatcher
            &&& after.worker_messages() == dispatcher.worker_messages()
        },
{
}

} // verus!
