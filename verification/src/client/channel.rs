//! Channels between a client and its worker thread.
use std::sync::mpsc::{Receiver, Sender};

use vstd::prelude::*;

use crate::channel::{clone_sender, new_channel};
use crate::client::{
    message::{ClientUpdate, WorkerMessage},
    transceiver::Transceiver,
};
use crate::Message;

verus! {

/// Channels used by the client.
#[verifier::reject_recursive_types(IN)]
#[verifier::reject_recursive_types(OUT)]
pub struct ClientChannel<IN: Message, OUT: Message> {
    /// Receiver of worker updates
    pub rcv_update: Receiver<ClientUpdate>,
    /// Sender channel for worker messages
    pub sdr_worker: Sender<WorkerMessage<OUT>>,
    /// Transceiver used to receive and send messages, until it is taken.
    pub transceiver: Option<Transceiver<IN, OUT>>,
}

/// Channels used by the client worker.
#[verifier::reject_recursive_types(IN)]
#[verifier::reject_recursive_types(OUT)]
pub struct WorkerChannel<IN: Message, OUT: Message> {
    /// Sender of client updates
    pub sdr_update: Sender<ClientUpdate>,
    /// Sender of messages received from the server
    pub sdr_incoming: Sender<IN>,
    /// Receiver channel for worker messages
    pub rcv_worker: Receiver<WorkerMessage<OUT>>,
    /// Sender channel for worker messages
    pub sdr_worker: Sender<WorkerMessage<OUT>>,
}

impl<IN: Message, OUT: Message> ClientChannel<IN, OUT> {
    /// Create the linked channels of a client and of its worker; the client
    /// starts with its transceiver.
    pub fn create_client_worker_channels() -> (channels: (ClientChannel<IN, OUT>, WorkerChannel<IN, OUT>))
        ensures
            channels.0.transceiver is Some,
    {
        let (sdr_update, rcv_update) = new_channel::<ClientUpdate>();
        let (sdr_incoming, rcv_incoming) = new_channel::<IN>();
        let (sdr_worker, rcv_worker) = new_channel::<WorkerMessage<OUT>>();
        let sdr_worker_clone = clone_sender(&sdr_worker);
        let transceiver = Transceiver::new(rcv_incoming, clone_sender(&sdr_worker));
        (
            ClientChannel { rcv_update, sdr_worker, transceiver: Some(transceiver) },
            WorkerChannel { sdr_update, sdr_incoming, rcv_worker, sdr_worker: sdr_worker_clone },
        )
    }
}

} // verus!
