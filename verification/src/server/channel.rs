//! Channels between the server, its supervisor and its workers.
use std::sync::mpsc::{Receiver, Sender};

use vstd::prelude::*;

use crate::channel::{clone_sender, new_channel};
use crate::server::{
    message::{IncomingMessage, ServerUpdate, SupervisorMessage, WorkerActiveMessage},
    transceiver::Transceiver,
};
use crate::Message;

verus! {

/// Channels of the server; `L` is the shared listener.
#[verifier::reject_recursive_types(IN)]
#[verifier::reject_recursive_types(OUT)]
#[verifier::reject_recursive_types(L)]
pub struct ServerChannel<IN: Message, OUT: Message, L> {
    /// Receiver of server updates
    pub rcv_server: Receiver<ServerUpdate>,
    /// Sender channel for supervisor messages
    pub sdr_supervisor: Sender<SupervisorMessage<L>>,
    /// Sender channel for worker messages
    pub sdr_worker: Sender<WorkerActiveMessage<OUT>>,
    /// Transceiver used to receive and send messages, until it is taken.
    pub transceiver: Option<Transceiver<IN, OUT>>,
}

/// Channels of the supervisor; `L` is the shared listener. The receiver of
/// worker messages is shared by the workers once the thread layer wraps it.
#[verifier::reject_recursive_types(IN)]
#[verifier::reject_recursive_types(OUT)]
#[verifier::reject_recursive_types(L)]
pub struct SupervisorChannel<IN: Message, OUT: Message, L> {
    /// Sender of server updates
    pub sdr_server: Sender<ServerUpdate>,
    /// Sender channel for supervisor messages
    pub sdr_supervisor: Sender<SupervisorMessage<L>>,
    /// Receiver channel for supervisor messages
    pub rcv_supervisor: Receiver<SupervisorMessage<L>>,
    /// Sender of messages received from clients
    pub sdr_incoming: Sender<IncomingMessage<IN>>,
    /// Sender channel for worker messages
    pub sdr_worker: Sender<WorkerActiveMessage<OUT>>,
    /// Receiver channel for worker messages
    pub rcv_worker: Receiver<WorkerActiveMessage<OUT>>,
}

impl<IN: Message, OUT: Message, L> ServerChannel<IN, OUT, L> {
    /// Create the linked channels of a server and of its supervisor; the
    /// server starts with its transceiver.
    pub fn create_server_supervisor_channels() -> (channels: (ServerChannel<IN, OUT, L>, SupervisorChannel<IN, OUT, L>))
        ensures
            channels.0.transceiver is Some,
    {
        let (sdr_server, rcv_server) = new_channel::<ServerUpdate>();
        let (sdr_supervisor, rcv_supervisor) = new_channel::<SupervisorMessage<L>>();
        let (sdr_worker, rcv_worker) = new_channel::<WorkerActiveMessage<OUT>>();
        let (sdr_incoming, rcv_incoming) = new_channel::<IncomingMessage<IN>>();
        let sdr_supervisor_clone = clone_sender(&sdr_supervisor);
        let sdr_worker_clone = clone_sender(&sdr_worker);
        let sdr_worker_trscv = clone_sender(&sdr_worker);
        (
            ServerChannel {
                rcv_server,
                sdr_supervisor,
                sdr_worker,
                transceiver: Some(Transceiver::new(sdr_worker_trscv, rcv_incoming)),
            },
            SupervisorChannel {
                sdr_server,
                sdr_supervisor: sdr_supervisor_clone,
                rcv_supervisor,
                sdr_incoming,
                sdr_worker: sdr_worker_clone,
                rcv_worker,
            },
        )
    }
}

} // verus!
