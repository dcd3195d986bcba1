use std::sync::mpsc::{self, Receiver, Sender};
use std::time::Duration;

use baphonet::frame::ReadOutcome;
use baphonet::server::builder::{ServerBuilder, ServerSettings};
use baphonet::server::channel::ServerChannel;
use baphonet::server::message::{
    ClientAddress,
    IncomingMessage, OutgoingMessage, SenderMessage, ServerUpdate, SupervisorMessage, SupervisorServerMessage,
    SupervisorWorkerMessage, WorkerActiveMessage,
};
use baphonet::server::server::{join_wait_millis, listener_failure, ServerCore};
use baphonet::server::supervisor::{workers_join_wait_millis, SupervisorCore, SupervisorStatus};
use baphonet::server::task::{TaskStatus, Tasks};
use baphonet::server::worker::{fetch_new_client_id, is_server_full, ServerReceiveStep, WorkerCore};
use baphonet::server::{
    ClientId, Dispatcher, ErrorDispatcher, ErrorSender, ErrorServer, ErrorTransceiver, ErrorUpdate,
    ServerMessageSender, ServerStatus, Transceiver, INCOMING_SIZE_DEFAULT, INCOMING_SIZE_MAXIMUM,
    INCOMING_SIZE_MINIMUM, MAXCLIENT_DEFAULT, MAXCLIENT_MAXIMUM, MAXCLIENT_MINIMUM, OUTGOING_SIZE_DEFAULT,
    OUTGOING_SIZE_MAXIMUM, OUTGOING_SIZE_MINIMUM, POOL_RATE_PER_SECOND_DEFAULT, POOL_RATE_PER_SECOND_MAXIMUM,
    POOL_RATE_PER_SECOND_MINIMUM, WORKER_COUNT_DEFAULT, WORKER_COUNT_MINIMUM,
};
use baphonet::{Message, MAXIMUM_MESSAGE_SIZE};
use std::io::ErrorKind;
use baphonet::channel::TimedReceive;
use baphonet::server::supervisor::SupervisorStep;
use baphonet::server::message::WorkerInactiveMessage;
use baphonet::server::status::WorkerStatus;

/// Address of a client on this machine: 127.0.0.1, port 4000.
const LOCAL: ClientAddress = ClientAddress { ip: 0x7f00_0001, v6: false, port: 4000 };

/// Message carrying raw bytes.
#[derive(Debug, PartialEq)]
struct TestMessage {
    bytes: Vec<u8>,
}

impl Message for TestMessage {
    fn serialize(&self, buffer: &mut [u8]) -> Result<usize, ()> {
        if buffer.len() < self.bytes.len() {
            return Err(());
        }
        buffer[..self.bytes.len()].copy_from_slice(&self.bytes);
        Ok(self.bytes.len())
    }

    fn deserialize(buffer: &[u8]) -> Result<Self, ()> {
        Ok(TestMessage { bytes: buffer.to_vec() })
    }
}

/// Message that never deserializes.
struct BrokenMessage {}

impl Message for BrokenMessage {
    fn serialize(&self, _buffer: &mut [u8]) -> Result<usize, ()> {
        Err(())
    }

    fn deserialize(_buffer: &[u8]) -> Result<Self, ()> {
        Err(())
    }
}

fn message() -> TestMessage {
    TestMessage { bytes: vec![1, 2, 3] }
}

/// A server, its supervisor and one worker, linked by their channels, with
/// the receivers of the supervisor messages and of the worker jobs.
struct Harness<IN: Message> {
    server: ServerCore<IN, TestMessage, ()>,
    supervisor: SupervisorCore<TestMessage>,
    worker: WorkerCore<IN, ()>,
    rcv_supervisor: Receiver<SupervisorMessage<()>>,
    rcv_worker: Receiver<WorkerActiveMessage<TestMessage>>,
}

fn harness<IN: Message>(maximum_client: usize, incoming_max_size: usize) -> Harness<IN> {
    harness_with_outgoing(maximum_client, incoming_max_size, OUTGOING_SIZE_MAXIMUM)
}

fn harness_with_outgoing<IN: Message>(maximum_client: usize, incoming_max_size: usize, outgoing_max_size: usize) -> Harness<IN> {
    let (server_channels, sup) = ServerChannel::<IN, TestMessage, ()>::create_server_supervisor_channels();
    let server = ServerCore::new(server_channels);
    let worker = WorkerCore::new(0, incoming_max_size, outgoing_max_size, sup.sdr_incoming.clone(), sup.sdr_supervisor.clone());
    let supervisor = SupervisorCore::new(maximum_client, 1, sup.sdr_server, sup.sdr_worker);
    Harness { server, supervisor, worker, rcv_supervisor: sup.rcv_supervisor, rcv_worker: sup.rcv_worker }
}

impl<IN: Message> Harness<IN> {
    /// Hand the pending worker messages to the supervisor.
    fn pump(&mut self) {
        while let Ok(message) = self.rcv_supervisor.try_recv() {
            match message {
                SupervisorMessage::FromWorker(message) => {
                    self.supervisor.handle_worker_message(message);
                }
                SupervisorMessage::FromServer(message) => self.supervisor.handle_server_message(&message),
            }
        }
    }

    /// The next update the server gets.
    fn next_update(&mut self) -> Option<ServerUpdate> {
        self.pump();
        self.server.update()
    }
}

fn assert_update_error(harness: &mut Harness<impl Message>, error: ErrorUpdate) {
    assert_eq!(harness.next_update(), Some(ServerUpdate::Error(error)));
}

#[test]
fn server_builder_new_default() {
    let builder = ServerBuilder::new();
    let settings = builder.settings();
    assert_eq!(settings.maximum_client, MAXCLIENT_DEFAULT);
    assert_eq!(settings.worker_count, WORKER_COUNT_DEFAULT);
    assert_eq!(settings.pool_rate, POOL_RATE_PER_SECOND_DEFAULT);
    assert_eq!(settings.incoming_max_size, INCOMING_SIZE_DEFAULT);
    assert_eq!(settings.outgoing_max_size, OUTGOING_SIZE_DEFAULT);
    let built = builder.build().unwrap();
    assert_eq!(built.worker_count, settings.worker_count);
}

#[test]
fn server_builder_new_modified() {
    let max_client = MAXCLIENT_MINIMUM + 1;
    let worker_count = WORKER_COUNT_MINIMUM + 1;
    let pool_rate = POOL_RATE_PER_SECOND_MINIMUM + 1;
    let incoming_max_size = INCOMING_SIZE_MINIMUM + 1;
    let builder = ServerBuilder::new()
        .maximum_client(max_client)
        .worker(worker_count)
        .pool_rate(pool_rate)
        .incoming_max_size(incoming_max_size);
    let settings = builder.settings();
    assert_eq!(settings.maximum_client, max_client);
    assert_eq!(settings.worker_count, worker_count);
    assert_eq!(settings.pool_rate, pool_rate);
    assert_eq!(settings.incoming_max_size, incoming_max_size);
    let built = builder.build().unwrap();
    assert_eq!(
        built,
        ServerSettings {
            maximum_client: max_client,
            worker_count,
            pool_rate,
            incoming_max_size,
            outgoing_max_size: OUTGOING_SIZE_DEFAULT
        }
    );
}

#[test]
fn server_builder_err_client_below_min() {
    let builder = ServerBuilder::new().maximum_client(MAXCLIENT_MINIMUM - 1);
    match builder.build() {
        Ok(_) => panic!("Shouldn't be Ok()!"),
        Err(err) => assert_eq!(err, ErrorServer::MaximumClientBelowMinimum),
    }
}

#[test]
fn server_builder_err_client_above_max() {
    let builder = ServerBuilder::new().maximum_client(MAXCLIENT_MAXIMUM + 1);
    match builder.build() {
        Ok(_) => panic!("Shouldn't be Ok()!"),
        Err(err) => assert_eq!(err, ErrorServer::MaximumClientAboveMaximum),
    }
}

#[test]
fn server_builder_err_worker_below_min() {
    let builder = ServerBuilder::new().worker(WORKER_COUNT_MINIMUM - 1);
    match builder.build() {
        Ok(_) => panic!("Shouldn't be Ok()!"),
        Err(err) => assert_eq!(err, ErrorServer::WorkerCountBelowMinimum),
    }
}

#[test]
fn server_builder_err_worker_above_max() {
    let builder = ServerBuilder::new().worker(MAXCLIENT_DEFAULT + 1);
    match builder.build() {
        Ok(_) => panic!("Shouldn't be Ok()!"),
        Err(err) => assert_eq!(err, ErrorServer::WorkerCountAboveMaximum),
    }
}

#[test]
fn server_builder_err_poolrate_below_min() {
    let builder = ServerBuilder::new().pool_rate(POOL_RATE_PER_SECOND_MINIMUM - 1);
    match builder.build() {
        Ok(_) => panic!("Shouldn't be Ok()!"),
        Err(err) => assert_eq!(err, ErrorServer::PoolRateBelowMinimum),
    }
}

#[test]
fn server_builder_err_poolrate_above_max() {
    let builder = ServerBuilder::new().pool_rate(POOL_RATE_PER_SECOND_MAXIMUM + 1);
    match builder.build() {
        Ok(_) => panic!("Shouldn't be Ok()!"),
        Err(err) => assert_eq!(err, ErrorServer::PoolRateAboveMaximum),
    }
}

#[test]
fn server_builder_err_incoming_max_below_min() {
    let builder = ServerBuilder::new().incoming_max_size(INCOMING_SIZE_MINIMUM - 1);
    match builder.build() {
        Ok(_) => panic!("Shouldn't be Ok()!"),
        Err(err) => assert_eq!(err, ErrorServer::IncomingMessageSizeBelowMinimum),
    }
}

#[test]
fn server_builder_err_incoming_max_above_max() {
    let builder = ServerBuilder::new().incoming_max_size(INCOMING_SIZE_MAXIMUM + 1);
    match builder.build() {
        Ok(_) => panic!("Shouldn't be Ok()!"),
        Err(err) => assert_eq!(err, ErrorServer::IncomingMessageSizeAboveMaximum),
    }
}

#[test]
fn server_builder_err_outgoing_max_below_min() {
    let builder = ServerBuilder::new().outgoing_max_size(OUTGOING_SIZE_MINIMUM - 1);
    match builder.build() {
        Ok(_) => panic!("Shouldn't be Ok()!"),
        Err(err) => assert_eq!(err, ErrorServer::OutgoingMessageSizeBelowMinimum),
    }
}

#[test]
fn server_builder_err_outgoing_max_above_max() {
    let builder = ServerBuilder::new().outgoing_max_size(OUTGOING_SIZE_MAXIMUM + 1);
    match builder.build() {
        Ok(_) => panic!("Shouldn't be Ok()!"),
        Err(err) => assert_eq!(err, ErrorServer::OutgoingMessageSizeAboveMaximum),
    }
}

#[test]
fn server_new_ok_minimum_client() {
    assert!(ServerBuilder::new().maximum_client(MAXCLIENT_MINIMUM).worker(1).build().is_ok());
}

#[test]
fn server_new_ok_maximum_client() {
    assert!(ServerBuilder::new().maximum_client(MAXCLIENT_MAXIMUM).build().is_ok());
}

#[test]
fn server_new_ok_maximum_worker() {
    assert!(ServerBuilder::new().maximum_client(64).worker(64).build().is_ok());
}

#[test]
fn dispatcher_dispatcher_send_ok() {
    let (sdr_worker, rcv_worker) = mpsc::channel::<WorkerActiveMessage<TestMessage>>();
    let mut dispatcher = Dispatcher::new(sdr_worker);
    dispatcher.send(32, message()).unwrap();
    match rcv_worker.recv_timeout(Duration::from_millis(100)) {
        Ok(message) => match message {
            WorkerActiveMessage::Send(outgoing_message) => {
                assert_eq!(outgoing_message.destinations()[0], 32);
            }
            _ => panic!("Wrong message sent!"),
        },
        Err(_) => panic!("Shouldn't be Err()!"),
    }
}

#[test]
fn dispatcher_send_vec_ok() {
    let (sdr_worker, rcv_worker) = mpsc::channel::<WorkerActiveMessage<TestMessage>>();
    let mut dispatcher = Dispatcher::new(sdr_worker);
    let client_vec: Vec<ClientId> = vec![1, 2, 3, 4, 5, 6];
    dispatcher.send_vec(&client_vec, message()).unwrap();
    match rcv_worker.recv_timeout(Duration::from_millis(100)) {
        Ok(message) => match message {
            WorkerActiveMessage::Send(outgoing_message) => {
                assert_eq!(outgoing_message.destinations().len(), client_vec.len());
                assert_eq!(*outgoing_message.destinations(), client_vec);
            }
            _ => panic!("Wrong message sent!"),
        },
        Err(_) => panic!("Shouldn't be Err()!"),
    }
}

#[test]
fn dispatcher_send_vec_error_no_destination() {
    let (sdr_worker, _rcv_worker) = mpsc::channel::<WorkerActiveMessage<TestMessage>>();
    let mut dispatcher = Dispatcher::new(sdr_worker);
    let destinations: Vec<ClientId> = Vec::new();
    match dispatcher.send_vec(&destinations, message()) {
        Ok(_) => panic!("Shouldn't be Ok()!"),
        Err(err) => assert_eq!(err, ErrorDispatcher::NoDestination),
    }
}

#[test]
fn server_dispatcher_send_error_channel_disconnected() {
    let (sdr_worker, rcv_worker) = mpsc::channel::<WorkerActiveMessage<TestMessage>>();
    let mut dispatcher = Dispatcher::new(sdr_worker);
    drop(rcv_worker);
    assert_eq!(dispatcher.send(1, message()), Err(ErrorDispatcher::ChannelDisconnected));
    assert_eq!(dispatcher.clone().send_vec(&vec![1], message()), Err(ErrorDispatcher::ChannelDisconnected));
}

#[test]
fn outgoing_message_new_vec_keeps_order() {
    let outgoing = OutgoingMessage::new_vec(&vec![9, 3, 9], message());
    let (destinations, inner) = outgoing.into_parts();
    assert_eq!(destinations, vec![9, 3, 9]);
    assert_eq!(inner, message());
    let single = OutgoingMessage::new(7, message());
    assert_eq!(*single.destinations(), vec![7]);
    assert_eq!(*single.message(), message());
    let incoming = IncomingMessage::new(4, message());
    assert_eq!(incoming.client_id, 4);
    assert_eq!(incoming.message, message());
}

fn create_sms() -> (Sender<SenderMessage<TestMessage>>, ServerMessageSender<TestMessage>) {
    let (sdr_sender, rcv_sender) = mpsc::channel::<SenderMessage<TestMessage>>();
    let sms = ServerMessageSender::<TestMessage>::new(rcv_sender, ServerStatus::Inactive);
    (sdr_sender, sms)
}

#[test]
fn server_sender_new() {
    let (_sdr_sender, sms) = create_sms();
    assert_eq!(sms.status(), ServerStatus::Inactive);
    assert!(!sms.has_worker());
}

fn update_assert_status(sdr: &mut Sender<SenderMessage<TestMessage>>, sms: &mut ServerMessageSender<TestMessage>, status: ServerStatus) {
    sdr.send(SenderMessage::Status(status)).unwrap();
    sms.update().unwrap();
    assert_eq!(sms.status(), status);
}

#[test]
fn server_sender_update_status() {
    let (mut sdr_sender, mut sms) = create_sms();
    update_assert_status(&mut sdr_sender, &mut sms, ServerStatus::Active);
    update_assert_status(&mut sdr_sender, &mut sms, ServerStatus::Ending);
    update_assert_status(&mut sdr_sender, &mut sms, ServerStatus::Inactive);
    update_assert_status(&mut sdr_sender, &mut sms, ServerStatus::Paused);
    update_assert_status(&mut sdr_sender, &mut sms, ServerStatus::Starting);
}

#[test]
fn server_sender_update_reference() {
    let (sdr_sender, mut sms) = create_sms();
    let (sdr_worker, _rcv_worker) = mpsc::channel::<WorkerActiveMessage<TestMessage>>();
    sdr_sender.send(SenderMessage::Reference(sdr_worker)).unwrap();
    sms.update().unwrap();
    assert!(sms.has_worker());
}

#[test]
fn server_sender_update_ping() {
    let (sdr_sender, mut sms) = create_sms();
    sdr_sender.send(SenderMessage::Ping).unwrap();
    sms.update().unwrap();
}

/// A sender that got a sender to the workers and the given status.
fn connected_sms(status: ServerStatus) -> (Sender<SenderMessage<TestMessage>>, ServerMessageSender<TestMessage>, Receiver<WorkerActiveMessage<TestMessage>>) {
    let (sdr_sender, sms) = create_sms();
    let (sdr_worker, rcv_worker) = mpsc::channel::<WorkerActiveMessage<TestMessage>>();
    sdr_sender.send(SenderMessage::Reference(sdr_worker)).unwrap();
    sdr_sender.send(SenderMessage::Status(status)).unwrap();
    (sdr_sender, sms, rcv_worker)
}

#[test]
fn server_sender_send_ok() {
    let (_sdr_sender, mut sms, rcv_worker) = connected_sms(ServerStatus::Active);
    sms.update().unwrap();
    sms.send(32, message()).unwrap();
    match rcv_worker.recv_timeout(Duration::from_millis(100)) {
        Ok(message) => match message {
            WorkerActiveMessage::Send(outgoing_message) => {
                assert_eq!(outgoing_message.destinations()[0], 32);
            }
            _ => panic!("Wrong message sent!"),
        },
        Err(_) => panic!("Shouldn't be Err()!"),
    }
}

#[test]
fn server_sender_send_vec_ok() {
    let (_sdr_sender, mut sms, rcv_worker) = connected_sms(ServerStatus::Active);
    sms.update().unwrap();
    let client_vec: Vec<ClientId> = vec![1, 2, 3, 4, 5, 6];
    sms.send_vec(&client_vec, message()).unwrap();
    match rcv_worker.recv_timeout(Duration::from_millis(100)) {
        Ok(message) => match message {
            WorkerActiveMessage::Send(outgoing_message) => {
                assert_eq!(outgoing_message.destinations().len(), client_vec.len());
                assert_eq!(*outgoing_message.destinations(), client_vec);
            }
            _ => panic!("Wrong message sent!"),
        },
        Err(_) => panic!("Shouldn't be Err()!"),
    }
}

#[test]
fn server_sender_send_error_inactive() {
    let (_sdr_sender, mut sms) = create_sms();
    match sms.send(0, message()) {
        Ok(_) => panic!("Shouldn't be Ok()!"),
        Err(err) => assert_eq!(err, ErrorSender::Inactive),
    }
}

#[test]
fn server_sender_send_error_paused() {
    let (_sdr_sender, mut sms, _rcv_worker) = connected_sms(ServerStatus::Paused);
    match sms.send(0, message()) {
        Ok(_) => panic!("Shouldn't be Ok()!"),
        Err(err) => assert_eq!(err, ErrorSender::Paused),
    }
}

#[test]
fn server_sender_send_error_disconnected() {
    let mut _sms: Option<ServerMessageSender<TestMessage>> = None;
    {
        let (sdr_sender, rcv_sender) = mpsc::channel::<SenderMessage<TestMessage>>();
        let (sdr_worker, _rcv_worker) = mpsc::channel::<WorkerActiveMessage<TestMessage>>();
        _sms = Some(ServerMessageSender::<TestMessage>::new(rcv_sender, ServerStatus::Inactive));
        sdr_sender.send(SenderMessage::Reference(sdr_worker)).unwrap();
        sdr_sender.send(SenderMessage::Status(ServerStatus::Active)).unwrap();
    } // This will drop the sdr_sender
    match _sms.unwrap().send(0, message()) {
        Ok(_) => panic!("Shouldn't be Ok()!"),
        Err(err) => assert_eq!(err, ErrorSender::Disconnected),
    }
}

#[test]
fn server_sender_send_vec_error_inactive() {
    let (_sdr_sender, mut sms) = create_sms();
    let destinations: Vec<ClientId> = vec![1, 2, 3, 4, 5, 6];
    match sms.send_vec(&destinations, message()) {
        Ok(_) => panic!("Shouldn't be Ok()!"),
        Err(err) => assert_eq!(err, ErrorSender::Inactive),
    }
}

#[test]
fn server_sender_send_vec_error_paused() {
    let (_sdr_sender, mut sms, _rcv_worker) = connected_sms(ServerStatus::Paused);
    let destinations: Vec<ClientId> = vec![1, 2, 3, 4, 5, 6];
    match sms.send_vec(&destinations, message()) {
        Ok(_) => panic!("Shouldn't be Ok()!"),
        Err(err) => assert_eq!(err, ErrorSender::Paused),
    }
}

#[test]
fn server_sender_send_vec_error_disconnected() {
    let mut _sms: Option<ServerMessageSender<TestMessage>> = None;
    {
        let (sdr_sender, rcv_sender) = mpsc::channel::<SenderMessage<TestMessage>>();
        let (sdr_worker, _rcv_worker) = mpsc::channel::<WorkerActiveMessage<TestMessage>>();
        _sms = Some(ServerMessageSender::<TestMessage>::new(rcv_sender, ServerStatus::Inactive));
        sdr_sender.send(SenderMessage::Reference(sdr_worker)).unwrap();
        sdr_sender.send(SenderMessage::Status(ServerStatus::Active)).unwrap();
    } // This will drop the sdr_sender
    let destinations: Vec<ClientId> = vec![1, 2, 3, 4, 5, 6];
    match _sms.unwrap().send_vec(&destinations, message()) {
        Ok(_) => panic!("Shouldn't be Ok()!"),
        Err(err) => assert_eq!(err, ErrorSender::Disconnected),
    }
}

#[test]
fn server_sender_send_vec_error_no_destination() {
    let (_sdr_sender, mut sms, _rcv_worker) = connected_sms(ServerStatus::Active);
    let destinations: Vec<ClientId> = Vec::new();
    match sms.send_vec(&destinations, message()) {
        Ok(_) => panic!("Shouldn't be Ok()!"),
        Err(err) => assert_eq!(err, ErrorSender::NoDestination),
    }
}

#[test]
fn server_sender_workers_gone() {
    let (_sdr_sender, mut sms, rcv_worker) = connected_sms(ServerStatus::Active);
    drop(rcv_worker);
    assert_eq!(sms.send(1, message()), Err(ErrorSender::Inactive));
    assert!(!sms.has_worker());
}

#[test]
fn server_message_none() {
    let mut harness = harness::<TestMessage>(4, INCOMING_SIZE_DEFAULT);
    assert!(harness.next_update().is_none());
    assert_eq!(harness.server.status(), ServerStatus::Inactive);
}

#[test]
fn server_update_none() {
    let mut harness = harness::<TestMessage>(4, INCOMING_SIZE_DEFAULT);
    assert!(harness.server.update().is_none());
}

#[test]
fn server_message_some_incoming() {
    let mut harness = harness::<TestMessage>(4, INCOMING_SIZE_DEFAULT);
    let transceiver: Transceiver<TestMessage, TestMessage> = harness.server.transceiver().take().unwrap();
    let mut pending: Option<usize> = None;
    let step = harness.worker.on_header(2, &mut pending, ReadOutcome::Done, &[3, 0]);
    assert_eq!(step, ServerReceiveStep::ReadBody(3));
    assert_eq!(pending, Some(3));
    let step = harness.worker.on_body(2, &mut pending, ReadOutcome::Done, &[1, 2, 3]);
    assert_eq!(step, ServerReceiveStep::Continue);
    assert_eq!(pending, None);
    let incoming = transceiver.receive().unwrap();
    assert_eq!(incoming.client_id, 2);
    assert_eq!(incoming.message, message());
}

#[test]
fn server_update_some_active() {
    let mut harness = harness::<TestMessage>(4, INCOMING_SIZE_DEFAULT);
    assert_eq!(harness.server.check_start(), Ok(()));
    harness.server.begin_start(()).unwrap();
    assert_eq!(harness.server.status(), ServerStatus::Starting);
    assert_eq!(harness.server.check_start(), Err(ErrorServer::AlreadyActive));
    harness.pump();
    harness.supervisor.activate();
    assert_eq!(harness.supervisor.status(), SupervisorStatus::Active);
    assert_eq!(harness.next_update(), Some(ServerUpdate::Active));
    assert_eq!(harness.server.status(), ServerStatus::Active);
}

#[test]
fn server_update_some_inactive() {
    let mut harness = harness::<TestMessage>(4, INCOMING_SIZE_DEFAULT);
    harness.supervisor.activate();
    assert_eq!(harness.next_update(), Some(ServerUpdate::Active));
    harness.server.stop().unwrap();
    assert_eq!(harness.server.status(), ServerStatus::Stopping);
    harness.pump();
    assert_eq!(harness.supervisor.status(), SupervisorStatus::Stopping);
    harness.supervisor.deactivate();
    assert!(matches!(harness.rcv_worker.try_recv(), Ok(WorkerActiveMessage::Stop)));
    assert_eq!(harness.next_update(), Some(ServerUpdate::Inactive));
    assert_eq!(harness.server.status(), ServerStatus::Inactive);
}

#[test]
fn server_update_some_client_connected() {
    let mut harness = harness::<TestMessage>(4, INCOMING_SIZE_DEFAULT);
    harness.worker.connected(3, LOCAL);
    assert_eq!(harness.next_update(), Some(ServerUpdate::ClientConnected(3, LOCAL)));
}

#[test]
fn server_message_update_client_disconnected() {
    let mut harness = harness::<TestMessage>(4, INCOMING_SIZE_DEFAULT);
    harness.worker.connected(1, LOCAL);
    assert_eq!(harness.next_update(), Some(ServerUpdate::ClientConnected(1, LOCAL)));
    harness.worker.disconnected(1);
    assert_eq!(harness.next_update(), Some(ServerUpdate::ClientDisconnected(1)));
}

#[test]
fn server_message_update_error_connection_lost() {
    let mut harness = harness::<TestMessage>(4, INCOMING_SIZE_DEFAULT);
    let mut pending: Option<usize> = None;
    assert_eq!(harness.worker.on_header(0, &mut pending, ReadOutcome::Failed, &[]), ServerReceiveStep::Lost);
    harness.worker.handle_connection_lost(0);
    assert_update_error(&mut harness, ErrorUpdate::ConnectionLost(0));
}

#[test]
fn server_update_some_error_connection_lost() {
    let mut harness = harness::<TestMessage>(4, INCOMING_SIZE_DEFAULT);
    harness.worker.connected(2, LOCAL);
    assert_eq!(harness.next_update(), Some(ServerUpdate::ClientConnected(2, LOCAL)));
    let mut pending: Option<usize> = Some(5);
    assert_eq!(harness.worker.on_body(2, &mut pending, ReadOutcome::Failed, &[]), ServerReceiveStep::Lost);
    harness.worker.handle_connection_lost(2);
    assert_update_error(&mut harness, ErrorUpdate::ConnectionLost(2));
    assert_eq!(harness.supervisor_jobs(), (true, vec![]));
}

impl<IN: Message> Harness<IN> {
    /// The jobs the supervisor hands out at its next pool.
    fn supervisor_jobs(&mut self) -> (bool, Vec<ClientId>) {
        self.supervisor.handle_server_tasks();
        let mut incoming = false;
        let mut receive = Vec::new();
        while let Ok(job) = self.rcv_worker.try_recv() {
            match job {
                WorkerActiveMessage::Incoming => incoming = true,
                WorkerActiveMessage::Receive(id) => receive.push(id),
                _ => panic!("Wrong job!"),
            }
        }
        (incoming, receive)
    }
}

#[test]
fn server_message_update_error_client_not_found() {
    let mut harness = harness::<TestMessage>(4, INCOMING_SIZE_DEFAULT);
    harness.worker.client_not_found(3);
    assert_update_error(&mut harness, ErrorUpdate::ClientNotFound(3));
}

#[test]
fn server_update_some_error_client_not_found() {
    let slots: usize = 4;
    let mut harness = harness::<TestMessage>(slots, INCOMING_SIZE_DEFAULT);
    let mut transceiver = harness.server.transceiver().take().unwrap();
    let base = slots as ClientId;
    let ids: Vec<ClientId> = (0..slots).map(|i| base + i as ClientId).collect();
    transceiver.send(base, message()).unwrap();
    transceiver.send_vec(&ids, message()).unwrap();
    let mut not_found = vec![0usize; slots];
    while let Ok(job) = harness.rcv_worker.try_recv() {
        match job {
            WorkerActiveMessage::Send(outgoing) => {
                for &client_id in outgoing.destinations() {
                    assert!(!harness.worker.on_lookup(client_id, slots, false));
                }
            }
            _ => panic!("only sends were handed over"),
        }
    }
    harness.pump();
    while let Some(update) = harness.server.update() {
        match update {
            ServerUpdate::Error(ErrorUpdate::ClientNotFound(id)) => not_found[(id - base) as usize] += 1,
            _ => panic!("unexpected update"),
        }
    }
    assert_eq!(not_found, vec![2, 1, 1, 1]);
}

#[test]
fn server_worker_lookup_found() {
    let mut harness = harness::<TestMessage>(4, INCOMING_SIZE_DEFAULT);
    assert!(harness.worker.on_lookup(2, 4, true));
    assert!(!harness.worker.on_lookup(3, 4, false));
    assert_update_error(&mut harness, ErrorUpdate::ClientNotFound(3));
    assert!(harness.rcv_supervisor.try_recv().is_err());
}

#[test]
fn server_message_update_error_outgoing_too_large() {
    let mut harness = harness::<TestMessage>(4, INCOMING_SIZE_DEFAULT);
    assert!(harness.worker.prepare_send(Ok(MAXIMUM_MESSAGE_SIZE + 1)).is_none());
    assert_update_error(&mut harness, ErrorUpdate::OutgoingMessageTooLarge);
}

#[test]
fn server_update_some_error_outgoing_too_large() {
    let mut harness = harness::<TestMessage>(4, INCOMING_SIZE_DEFAULT);
    assert_eq!(harness.worker.prepare_send(Ok(MAXIMUM_MESSAGE_SIZE)), Some([255, 255]));
    assert!(harness.worker.prepare_send(Ok(MAXIMUM_MESSAGE_SIZE + 1)).is_none());
    assert_update_error(&mut harness, ErrorUpdate::OutgoingMessageTooLarge);
}

#[test]
fn server_message_update_error_outgoing_serialize_error() {
    let mut harness = harness::<TestMessage>(4, INCOMING_SIZE_DEFAULT);
    let mut buffer = vec![0u8; MAXIMUM_MESSAGE_SIZE];
    let serialized = BrokenMessage {}.serialize(&mut buffer);
    assert!(harness.worker.prepare_send(serialized).is_none());
    assert_update_error(&mut harness, ErrorUpdate::OutgoingMessageSerializeError);
}

#[test]
fn server_update_some_error_outgoing_serialize_error() {
    let mut harness = harness::<TestMessage>(4, INCOMING_SIZE_DEFAULT);
    assert!(harness.worker.prepare_send(Err(())).is_none());
    assert_update_error(&mut harness, ErrorUpdate::OutgoingMessageSerializeError);
}

#[test]
fn server_update_some_error_incoming_too_large() {
    let mut harness = harness::<TestMessage>(4, 16);
    let mut pending: Option<usize> = None;
    let step = harness.worker.on_header(1, &mut pending, ReadOutcome::Done, &[17, 0]);
    assert_eq!(step, ServerReceiveStep::Reject(ErrorUpdate::IncomingMessageTooLarge(1)));
    assert_eq!(pending, None);
    harness.worker.reject(ErrorUpdate::IncomingMessageTooLarge(1));
    assert_update_error(&mut harness, ErrorUpdate::IncomingMessageTooLarge(1));
}

#[test]
fn server_message_update_error_incoming_deserialize_error() {
    let mut harness = harness::<BrokenMessage>(4, INCOMING_SIZE_DEFAULT);
    let mut pending: Option<usize> = Some(2);
    let step = harness.worker.on_body(3, &mut pending, ReadOutcome::Done, &[1, 2]);
    assert_eq!(step, ServerReceiveStep::Reject(ErrorUpdate::IncomingMessageDeserializeError(3)));
    assert_eq!(pending, None);
    harness.worker.reject(ErrorUpdate::IncomingMessageDeserializeError(3));
    assert_update_error(&mut harness, ErrorUpdate::IncomingMessageDeserializeError(3));
}

#[test]
fn server_update_some_error_incoming_deserialize_error() {
    let mut harness = harness::<BrokenMessage>(4, INCOMING_SIZE_DEFAULT);
    let mut pending: Option<usize> = None;
    assert_eq!(harness.worker.on_header(0, &mut pending, ReadOutcome::Done, &[1, 0]), ServerReceiveStep::ReadBody(1));
    let step = harness.worker.on_body(0, &mut pending, ReadOutcome::Done, &[1]);
    assert_eq!(step, ServerReceiveStep::Reject(ErrorUpdate::IncomingMessageDeserializeError(0)));
    harness.worker.reject(ErrorUpdate::IncomingMessageDeserializeError(0));
    assert_update_error(&mut harness, ErrorUpdate::IncomingMessageDeserializeError(0));
}

#[test]
fn server_message_update_ended() {
    let mut harness = harness::<TestMessage>(4, INCOMING_SIZE_DEFAULT);
    harness.server.request_end();
    harness.pump();
    assert_eq!(harness.supervisor.status(), SupervisorStatus::End);
    harness.supervisor.end_workers();
    assert!(matches!(harness.rcv_worker.try_recv(), Ok(WorkerActiveMessage::End)));
    harness.supervisor.report_ended();
    assert_eq!(harness.next_update(), Some(ServerUpdate::Ended));
}

#[test]
fn server_clients_err_inactive() {
    let harness = harness::<TestMessage>(4, INCOMING_SIZE_DEFAULT);
    match harness.server.check_active() {
        Ok(_) => panic!("Shouldn't be Ok()!"),
        Err(err) => assert_eq!(err, ErrorServer::Inactive),
    }
}

#[test]
fn server_close_connection_err_inactive() {
    let mut harness = harness::<TestMessage>(4, INCOMING_SIZE_DEFAULT);
    match harness.server.close_connection(0) {
        Ok(_) => panic!("Shouldn't be Ok()!"),
        Err(err) => assert_eq!(err, ErrorServer::Inactive),
    }
}

#[test]
fn server_close_connection_ok_one() {
    let mut harness = harness::<TestMessage>(4, INCOMING_SIZE_DEFAULT);
    harness.supervisor.activate();
    assert_eq!(harness.next_update(), Some(ServerUpdate::Active));
    harness.server.close_connection(2).unwrap();
    assert!(matches!(harness.rcv_worker.try_recv(), Ok(WorkerActiveMessage::Disconnect(2))));
}

#[test]
fn server_start_err_address_already_used() {
    assert_eq!(listener_failure(ErrorKind::AddrInUse), ErrorServer::SocketAddressAlreadyUsed);
    assert_eq!(listener_failure(ErrorKind::InvalidInput), ErrorServer::SocketInvalid);
    assert_eq!(listener_failure(ErrorKind::PermissionDenied), ErrorServer::UnhandledIOError(ErrorKind::PermissionDenied));
}

#[test]
fn server_transceiver_send_vec_no_destination() {
    let mut harness = harness::<TestMessage>(4, INCOMING_SIZE_DEFAULT);
    let mut transceiver = harness.server.transceiver().take().unwrap();
    match transceiver.send_vec(&Vec::new(), message()) {
        Ok(_) => panic!("Shouldn't be ok()!"),
        Err(err) => assert_eq!(err, ErrorTransceiver::NoDestination),
    }
}

#[test]
fn server_transceiver_same_thread_send_vec() {
    let mut harness = harness::<TestMessage>(4, INCOMING_SIZE_DEFAULT);
    let mut transceiver = harness.server.transceiver().take().unwrap();
    transceiver.send_vec(&vec![0, 1], message()).unwrap();
    transceiver.transmitter().send(3, message()).unwrap();
    match harness.rcv_worker.try_recv() {
        Ok(WorkerActiveMessage::Send(outgoing)) => assert_eq!(*outgoing.destinations(), vec![0, 1]),
        _ => panic!("Wrong message sent!"),
    }
    match harness.rcv_worker.try_recv() {
        Ok(WorkerActiveMessage::Send(outgoing)) => assert_eq!(*outgoing.destinations(), vec![3]),
        _ => panic!("Wrong message sent!"),
    }
}

#[test]
fn server_transceiver_receive_timeout_err_timeout() {
    let mut harness = harness::<TestMessage>(4, INCOMING_SIZE_DEFAULT);
    let transceiver = harness.server.transceiver().take().unwrap();
    match transceiver.receive_timeout(Duration::from_millis(50)) {
        Ok(_) => panic!("Shouldn't be ok()!"),
        Err(err) => assert_eq!(err, ErrorTransceiver::Timeout),
    }
}

#[test]
fn server_transceiver_receive_wait_err_disconnected() {
    let (mut server_channels, supervisor_channels) = ServerChannel::<TestMessage, TestMessage, ()>::create_server_supervisor_channels();
    let transceiver = server_channels.transceiver.take().unwrap();
    drop(supervisor_channels);
    match transceiver.receive_wait() {
        Ok(_) => panic!("Shouldn't be ok()!"),
        Err(err) => assert_eq!(err, ErrorTransceiver::ChannelDisconnected),
    }
}

#[test]
fn supervisor_schedules_ready_tasks() {
    let mut harness = harness::<TestMessage>(4, INCOMING_SIZE_DEFAULT);
    assert_eq!(harness.supervisor_jobs(), (true, vec![]));
    assert_eq!(harness.supervisor_jobs(), (false, vec![]));
    harness.worker.connected(3, LOCAL);
    harness.worker.connected(1, LOCAL);
    harness.worker.incoming_done();
    harness.pump();
    assert_eq!(harness.supervisor_jobs(), (true, vec![1, 3]));
    harness.worker.disconnected(3);
    harness.worker.receive_done(1);
    harness.pump();
    assert_eq!(harness.supervisor_jobs(), (false, vec![1]));
}

#[test]
fn supervisor_server_messages() {
    let mut harness = harness::<TestMessage>(4, INCOMING_SIZE_DEFAULT);
    harness.supervisor.handle_server_message(&SupervisorServerMessage::Start(()));
    assert_eq!(harness.supervisor.status(), SupervisorStatus::Inactive);
    harness.supervisor.handle_server_message(&SupervisorServerMessage::<()>::Stop);
    assert_eq!(harness.supervisor.status(), SupervisorStatus::Stopping);
    harness.supervisor.wait_for_server();
    assert_eq!(harness.supervisor.status(), SupervisorStatus::Inactive);
    harness.supervisor.handle_server_message(&SupervisorServerMessage::<()>::End);
    harness.supervisor.wait_for_server();
    assert_eq!(harness.supervisor.status(), SupervisorStatus::End);
}

#[test]
fn supervisor_released_clients() {
    assert_eq!(SupervisorCore::<TestMessage>::released_client(&SupervisorWorkerMessage::Disconnected(5)), Some(5));
    assert_eq!(
        SupervisorCore::<TestMessage>::released_client(&SupervisorWorkerMessage::Error(ErrorUpdate::ConnectionLost(6))),
        Some(6)
    );
    assert_eq!(
        SupervisorCore::<TestMessage>::released_client(&SupervisorWorkerMessage::Error(ErrorUpdate::ClientNotFound(6))),
        None
    );
    assert_eq!(SupervisorCore::<TestMessage>::update_for(&SupervisorWorkerMessage::IncomingJobDone), None);
}

#[test]
fn supervisor_ends_without_server() {
    let (server_channels, sup) = ServerChannel::<TestMessage, TestMessage, ()>::create_server_supervisor_channels();
    drop(server_channels);
    let mut supervisor = SupervisorCore::<TestMessage>::new(2, 1, sup.sdr_server, sup.sdr_worker);
    supervisor.activate();
    assert_eq!(supervisor.status(), SupervisorStatus::End);
}

#[test]
fn tasks_new_and_updates() {
    let mut tasks = Tasks::new(3);
    assert_eq!(tasks.slot_count(), 3);
    tasks.reception_ready(2);
    let jobs = tasks.schedule();
    assert!(jobs.incoming);
    assert_eq!(jobs.receive, vec![2]);
    tasks.remove_client(2);
    tasks.incoming_done();
    let jobs = tasks.schedule();
    assert!(jobs.incoming);
    assert!(jobs.receive.is_empty());
    let _ = TaskStatus::InProgress;
}

#[test]
fn server_fetch_new_client_id() {
    assert_eq!(fetch_new_client_id(&vec![true, false, false]), Some(1));
    assert_eq!(fetch_new_client_id(&vec![false]), Some(0));
    assert_eq!(fetch_new_client_id(&vec![true, true]), None);
    assert!(is_server_full(&vec![true, true]));
    assert!(!is_server_full(&vec![true, false]));
}

#[test]
fn server_join_waits() {
    assert_eq!(join_wait_millis(4), 250);
    assert_eq!(workers_join_wait_millis(4), 200);
}

#[test]
fn supervisor_waiting_messages() {
    let mut harness = harness::<TestMessage>(4, INCOMING_SIZE_DEFAULT);
    let start = SupervisorMessage::FromServer(SupervisorServerMessage::Start(()));
    assert_eq!(harness.supervisor.on_waiting_message(Some(start)), Some(()));
    let worker = SupervisorMessage::<()>::FromWorker(SupervisorWorkerMessage::IncomingJobDone);
    assert_eq!(harness.supervisor.on_waiting_message(Some(worker)), None);
    assert_eq!(harness.supervisor.status(), SupervisorStatus::Inactive);
    assert_eq!(harness.supervisor.on_waiting_message::<()>(None), None);
    assert_eq!(harness.supervisor.status(), SupervisorStatus::End);
}

#[test]
fn supervisor_active_events() {
    let mut harness = harness::<TestMessage>(4, INCOMING_SIZE_DEFAULT);
    harness.supervisor.activate();
    let event = TimedReceive::Value(SupervisorMessage::<()>::FromWorker(SupervisorWorkerMessage::Connected(2, LOCAL)));
    match harness.supervisor.on_active_event(event) {
        SupervisorStep::Worker(message) => assert_eq!(message, SupervisorWorkerMessage::Connected(2, LOCAL)),
        _ => panic!("Wrong step!"),
    }
    assert!(matches!(harness.supervisor.on_active_event(TimedReceive::<SupervisorMessage<()>>::Timeout), SupervisorStep::Pooled));
    assert!(matches!(harness.rcv_worker.try_recv(), Ok(WorkerActiveMessage::Incoming)));
    let stop = TimedReceive::Value(SupervisorMessage::FromServer(SupervisorServerMessage::<()>::Stop));
    assert!(matches!(harness.supervisor.on_active_event(stop), SupervisorStep::Done));
    assert_eq!(harness.supervisor.status(), SupervisorStatus::Stopping);
    assert!(matches!(harness.supervisor.on_active_event(TimedReceive::<SupervisorMessage<()>>::Disconnected), SupervisorStep::Done));
    assert_eq!(harness.supervisor.status(), SupervisorStatus::End);
}

#[test]
fn worker_inactive_messages_and_jobs() {
    let mut harness = harness::<TestMessage>(4, INCOMING_SIZE_DEFAULT);
    assert_eq!(harness.worker.on_inactive_message(Some(WorkerInactiveMessage::Start(()))), Some(()));
    assert_eq!(harness.worker.on_inactive_message(Some(WorkerInactiveMessage::Stop)), None);
    assert_eq!(harness.worker.status(), WorkerStatus::Active);
    assert!(matches!(harness.worker.on_job(Some(WorkerActiveMessage::<TestMessage>::Receive(1))), Some(WorkerActiveMessage::Receive(1))));
    assert!(harness.worker.on_job(Some(WorkerActiveMessage::<TestMessage>::Stop)).is_none());
    assert_eq!(harness.worker.status(), WorkerStatus::Active);
    assert!(harness.worker.on_job::<TestMessage>(None).is_none());
    assert_eq!(harness.worker.status(), WorkerStatus::Ended);
    assert_eq!(harness.worker.on_inactive_message(None), None);
}

#[test]
fn server_worker_destination_write_outcomes() {
    let mut harness = harness::<TestMessage>(8, INCOMING_SIZE_DEFAULT);
    assert!(harness.worker.on_destination_write(5, baphonet::frame::WriteOutcome::Done));
    assert!(harness.rcv_supervisor.try_recv().is_err());
    assert!(!harness.worker.on_destination_write(5, baphonet::frame::WriteOutcome::Failed));
    assert_update_error(&mut harness, ErrorUpdate::ConnectionLost(5));
    assert!(!harness.worker.on_destination_write(6, baphonet::frame::WriteOutcome::WouldBlock));
    assert_update_error(&mut harness, ErrorUpdate::ConnectionLost(6));
}

#[test]
fn server_stop_hands_stop_to_supervisor() {
    let mut harness = harness::<TestMessage>(4, INCOMING_SIZE_DEFAULT);
    harness.server.stop().unwrap();
    assert_eq!(harness.server.status(), ServerStatus::Stopping);
    assert!(matches!(harness.rcv_supervisor.try_recv(), Ok(SupervisorMessage::FromServer(SupervisorServerMessage::Stop))));
}

#[test]
fn server_worker_outgoing_limit_applies() {
    let mut harness = harness_with_outgoing::<TestMessage>(4, INCOMING_SIZE_DEFAULT, 1024);
    assert_eq!(harness.worker.prepare_send(Ok(1024)), Some([0, 4]));
    assert!(harness.rcv_supervisor.try_recv().is_err());
    assert!(harness.worker.prepare_send(Ok(1025)).is_none());
    assert_update_error(&mut harness, ErrorUpdate::OutgoingMessageTooLarge);
}

#[test]
fn server_dispatcher_hands_destinations() {
    let (sdr_worker, rcv_worker) = mpsc::channel::<WorkerActiveMessage<TestMessage>>();
    let mut dispatcher = Dispatcher::new(sdr_worker);
    dispatcher.send_vec(&vec![4, 9], message()).unwrap();
    match rcv_worker.try_recv() {
        Ok(WorkerActiveMessage::Send(outgoing)) => {
            assert_eq!(outgoing.destinations(), &vec![4, 9]);
            assert_eq!(outgoing.message(), &message());
        }
        _ => panic!("no outgoing message was handed over"),
    }
    assert_eq!(dispatcher.send_vec(&vec![], message()), Err(ErrorDispatcher::NoDestination));
    assert!(rcv_worker.try_recv().is_err());
}
