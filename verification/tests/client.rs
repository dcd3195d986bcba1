use std::sync::mpsc::{self, Receiver, Sender};
use std::time::Duration;

use baphonet::client::builder::{ClientBuilder, ClientSettings};
use baphonet::client::channel::ClientChannel;
use baphonet::client::client::ClientCore;
use baphonet::client::dispatcher::Dispatcher;
use baphonet::client::message::{DispatcherMessage, WorkerMessage};
use baphonet::client::worker::{pool_period_millis, ActiveStep, InactiveStep, ReceiveStep, WorkerCore};
use baphonet::client::{
    ClientStatus, ClientUpdate, ErrorClient, ErrorDispatcher, ErrorTransceiver, ErrorWorker, Transmitter,
    DEFAULT_OUTGOING_SIZE, DEFAULT_POOL_RATE_PER_SECOND, MAXIMUM_OUTGOING_SIZE, MAXIMUM_POOL_RATE_PER_SECOND,
    MINIMUM_OUTGOING_SIZE, MINIMUM_POOL_RATE_PER_SECOND,
};
use baphonet::channel::TimedReceive;
use baphonet::frame::{ReadOutcome, WriteOutcome};
use baphonet::Message;
use baphonet::client::client::connect_failure;
use std::io::ErrorKind;

/// Message carrying raw bytes.
#[derive(Debug, PartialEq)]
struct TestMessage {
    bytes: Vec<u8>,
}

impl Message for TestMessage {
    fn serialize(&self, buffer: &mut [u8]) -> Result<usize, ()> {
        if buffer.len() < self.bytes.len() {
            return Err(());
        }
        buffer[..self.bytes.len()].copy_from_slice(&self.bytes);
        Ok(self.bytes.len())
    }

    fn deserialize(buffer: &[u8]) -> Result<Self, ()> {
        Ok(TestMessage { bytes: buffer.to_vec() })
    }
}

/// Message that never deserializes.
struct BrokenMessage {}

impl Message for BrokenMessage {
    fn serialize(&self, _buffer: &mut [u8]) -> Result<usize, ()> {
        Err(())
    }

    fn deserialize(_buffer: &[u8]) -> Result<Self, ()> {
        Err(())
    }
}

fn create_sms() -> (Sender<DispatcherMessage<TestMessage>>, Dispatcher<TestMessage>) {
    let (sdr_sender, rcv_dispatcher) = mpsc::channel::<DispatcherMessage<TestMessage>>();
    let sms = Dispatcher::<TestMessage>::new(rcv_dispatcher, ClientStatus::Disconnected);
    (sdr_sender, sms)
}

/// A client core and a worker core linked by their channels.
fn client_and_worker<IN: Message, OUT: Message>() -> (ClientCore<IN, OUT>, WorkerCore<IN, OUT>) {
    let (client_channels, worker_channels) = ClientChannel::<IN, OUT>::create_client_worker_channels();
    let client = ClientCore::new(client_channels);
    let worker = WorkerCore::new(baphonet::MAXIMUM_MESSAGE_SIZE, DEFAULT_OUTGOING_SIZE, worker_channels);
    (client, worker)
}

#[test]
fn client_builder_new_default() {
    let builder = ClientBuilder::new();
    assert_eq!(builder.get_pool_rate(), DEFAULT_POOL_RATE_PER_SECOND);
    assert_eq!(builder.get_outgoing_max_size(), DEFAULT_OUTGOING_SIZE);
    let settings = builder.build().unwrap();
    assert_eq!(settings.pool_rate, builder.get_pool_rate());
    assert_eq!(settings.outgoing_max_size, builder.get_outgoing_max_size());
}

#[test]
fn client_builder_new_modified() {
    let pool_rate = MINIMUM_POOL_RATE_PER_SECOND + 1;
    let outgoing_max_size = MINIMUM_OUTGOING_SIZE + 1;
    let builder = ClientBuilder::new().pool_rate(pool_rate).outgoing_max_size(outgoing_max_size);
    assert_eq!(builder.get_pool_rate(), pool_rate);
    assert_eq!(builder.get_outgoing_max_size(), outgoing_max_size);
    let settings = builder.build().unwrap();
    assert_eq!(settings, ClientSettings { pool_rate, outgoing_max_size });
}

#[test]
fn client_builder_err_poolrate_below_min() {
    let builder = ClientBuilder::new().pool_rate(MINIMUM_POOL_RATE_PER_SECOND - 1);
    match builder.build() {
        Ok(_) => panic!("Shouldn't be Ok()!"),
        Err(err) => assert_eq!(err, ErrorClient::PoolRateBelowMinimum),
    }
}

#[test]
fn client_builder_err_poolrate_above_max() {
    let builder = ClientBuilder::new().pool_rate(MAXIMUM_POOL_RATE_PER_SECOND + 1);
    match builder.build() {
        Ok(_) => panic!("Shouldn't be Ok()!"),
        Err(err) => assert_eq!(err, ErrorClient::PoolRateAboveMaximum),
    }
}

#[test]
fn client_builder_err_outgoing_max_below_min() {
    let builder = ClientBuilder::new().outgoing_max_size(MINIMUM_OUTGOING_SIZE - 1);
    match builder.build() {
        Ok(_) => panic!("Shouldn't be Ok()!"),
        Err(err) => assert_eq!(err, ErrorClient::OutgoingMessageSizeBelowMinimum),
    }
}

#[test]
fn client_builder_err_outgoing_max_above_max() {
    let builder = ClientBuilder::new().outgoing_max_size(MAXIMUM_OUTGOING_SIZE + 1);
    match builder.build() {
        Ok(_) => panic!("Shouldn't be Ok()!"),
        Err(err) => assert_eq!(err, ErrorClient::OutgoingMessageSizeAboveMaximum),
    }
}

#[test]
fn client_builder_first_error_wins() {
    let builder = ClientBuilder::new().pool_rate(0).outgoing_max_size(0);
    assert_eq!(builder.build(), Err(ErrorClient::PoolRateBelowMinimum));
    let builder = ClientBuilder::new().pool_rate(MAXIMUM_POOL_RATE_PER_SECOND).outgoing_max_size(MAXIMUM_OUTGOING_SIZE);
    assert!(builder.build().is_ok());
}

#[test]
fn dispatcher_new() {
    let (_sdr_sender, mut sms) = create_sms();
    assert_eq!(sms.status(), ClientStatus::Disconnected);
    assert!(!sms.has_worker());
}

/// Update and assert new status
fn update_assert_status(sdr: &mut Sender<DispatcherMessage<TestMessage>>, sms: &mut Dispatcher<TestMessage>, status: ClientStatus) {
    sdr.send(DispatcherMessage::Status(status)).unwrap();
    sms.update().unwrap();
    assert_eq!(sms.status(), status);
}

#[test]
fn dispatcher_update_status() {
    let (mut sdr_sender, mut sms) = create_sms();
    update_assert_status(&mut sdr_sender, &mut sms, ClientStatus::Connected);
    update_assert_status(&mut sdr_sender, &mut sms, ClientStatus::Connecting);
    update_assert_status(&mut sdr_sender, &mut sms, ClientStatus::Disconnected);
    update_assert_status(&mut sdr_sender, &mut sms, ClientStatus::Disconnecting);
}

#[test]
fn dispatcher_update_reference() {
    let (sdr_sender, mut sms) = create_sms();
    let (sdr_worker, _rcv_worker) = mpsc::channel::<WorkerMessage<TestMessage>>();
    sdr_sender.send(DispatcherMessage::Reference(sdr_worker)).unwrap();
    sms.update().unwrap();
    assert!(sms.has_worker());
}

#[test]
fn dispatcher_update_ping() {
    let (sdr_sender, mut sms) = create_sms();
    sdr_sender.send(DispatcherMessage::Ping).unwrap();
    sms.update().unwrap();
}

#[test]
fn dispatcher_send_ok() {
    let (sdr_sender, mut sms) = create_sms();
    let (sdr_worker, rcv_worker) = mpsc::channel::<WorkerMessage<TestMessage>>();
    sdr_sender.send(DispatcherMessage::Reference(sdr_worker)).unwrap();
    sdr_sender.send(DispatcherMessage::Status(ClientStatus::Connected)).unwrap();
    sms.update().unwrap();
    sms.send(TestMessage { bytes: vec![] }).unwrap();
    match rcv_worker.recv_timeout(Duration::from_millis(100)) {
        Ok(message) => match message {
            WorkerMessage::Send(_) => {}
            _ => panic!("Wrong message sent!"),
        },
        Err(_) => panic!("Shouldn't be Err()!"),
    }
}

#[test]
fn dispatcher_send_error_disconnected() {
    let (_sdr_sender, mut sms) = create_sms();
    match sms.send(TestMessage { bytes: vec![] }) {
        Ok(_) => panic!("Shouldn't be Ok()!"),
        Err(err) => assert_eq!(err, ErrorDispatcher::Disconnected),
    }
}

#[test]
fn dispatcher_send_error_channel_disconnected() {
    let mut _sms: Option<Dispatcher<TestMessage>> = None;
    {
        let (sdr_sender, rcv_dispatcher) = mpsc::channel::<DispatcherMessage<TestMessage>>();
        let (sdr_worker, _rcv_worker) = mpsc::channel::<WorkerMessage<TestMessage>>();
        _sms = Some(Dispatcher::<TestMessage>::new(rcv_dispatcher, ClientStatus::Disconnected));
        sdr_sender.send(DispatcherMessage::Reference(sdr_worker)).unwrap();
        sdr_sender.send(DispatcherMessage::Status(ClientStatus::Connected)).unwrap();
    } // This will drop the sdr_sender
    match _sms.unwrap().send(TestMessage { bytes: vec![] }) {
        Ok(_) => panic!("Shouldn't be Ok()!"),
        Err(err) => assert_eq!(err, ErrorDispatcher::ChannelDisconnected),
    }
}

#[test]
fn dispatcher_disconnecting_drops_worker() {
    let (sdr_sender, mut sms) = create_sms();
    let (sdr_worker, _rcv_worker) = mpsc::channel::<WorkerMessage<TestMessage>>();
    sdr_sender.send(DispatcherMessage::Reference(sdr_worker)).unwrap();
    sdr_sender.send(DispatcherMessage::Status(ClientStatus::Connected)).unwrap();
    sdr_sender.send(DispatcherMessage::Status(ClientStatus::Disconnecting)).unwrap();
    assert_eq!(sms.send(TestMessage { bytes: vec![1] }), Err(ErrorDispatcher::Disconnected));
    assert!(!sms.has_worker());
    assert_eq!(sms.status(), ClientStatus::Disconnecting);
}

#[test]
fn dispatcher_send_worker_gone() {
    let (sdr_sender, mut sms) = create_sms();
    let (sdr_worker, rcv_worker) = mpsc::channel::<WorkerMessage<TestMessage>>();
    sdr_sender.send(DispatcherMessage::Reference(sdr_worker)).unwrap();
    sdr_sender.send(DispatcherMessage::Status(ClientStatus::Connected)).unwrap();
    drop(rcv_worker);
    assert_eq!(sms.send(TestMessage { bytes: vec![1] }), Err(ErrorDispatcher::Disconnected));
    assert!(!sms.has_worker());
}

/// Messages sent by each dispatcher thread
const MSG_PER_DISPATCHER_THREAD: usize = 64;

/// Connect `client_count` workers, give each `dispatcher_count` dispatchers,
/// and check every worker receives every message of every dispatcher.
fn send_with_dispatchers(client_count: usize, dispatcher_count: usize) {
    let mut workers = Vec::<Receiver<WorkerMessage<TestMessage>>>::new();
    let mut dispatchers = Vec::new();
    for _ in 0..client_count {
        let (sdr_worker, rcv_worker) = mpsc::channel::<WorkerMessage<TestMessage>>();
        workers.push(rcv_worker);
        for _ in 0..dispatcher_count {
            let (sdr_dispatcher, dispatcher) = create_sms();
            sdr_dispatcher.send(DispatcherMessage::Reference(sdr_worker.clone())).unwrap();
            sdr_dispatcher.send(DispatcherMessage::Status(ClientStatus::Connected)).unwrap();
            dispatchers.push((sdr_dispatcher, dispatcher));
        }
    }
    for i in 0..MSG_PER_DISPATCHER_THREAD {
        for (_, dispatcher) in dispatchers.iter_mut() {
            dispatcher.send(TestMessage { bytes: vec![i as u8] }).unwrap();
        }
    }
    for rcv_worker in workers {
        let mut count = 0;
        while let Ok(message) = rcv_worker.try_recv() {
            match message {
                WorkerMessage::Send(_) => count += 1,
                _ => panic!("Wrong message sent!"),
            }
        }
        assert_eq!(count, dispatcher_count * MSG_PER_DISPATCHER_THREAD);
    }
}

#[test]
fn dispatcher_send_one_dispatcher_one() {
    send_with_dispatchers(1, 1);
}

#[test]
fn dispatcher_send_one_dispatcher_some() {
    send_with_dispatchers(1, 4);
}

#[test]
fn dispatcher_send_one_dispatcher_all() {
    send_with_dispatchers(1, 16);
}

#[test]
fn dispatcher_send_some_dispatcher_one() {
    send_with_dispatchers(32, 1);
}

#[test]
fn dispatcher_send_some_dispatcher_some() {
    send_with_dispatchers(32, 4);
}

#[test]
fn dispatcher_send_some_dispatcher_all() {
    send_with_dispatchers(32, 16);
}

#[test]
fn dispatcher_send_all_dispatcher_one() {
    send_with_dispatchers(64, 1);
}

#[test]
fn dispatcher_send_all_dispatcher_some() {
    send_with_dispatchers(64, 4);
}

#[test]
fn dispatcher_send_all_dispatcher_all() {
    send_with_dispatchers(64, 16);
}

#[test]
fn dispatcher_error_disconnected() {
    let (sdr_sender, mut sms) = create_sms();
    let (sdr_worker, _rcv_worker) = mpsc::channel::<WorkerMessage<TestMessage>>();
    sdr_sender.send(DispatcherMessage::Reference(sdr_worker)).unwrap();
    sdr_sender.send(DispatcherMessage::Status(ClientStatus::Disconnected)).unwrap();
    match sms.send(TestMessage { bytes: vec![] }) {
        Ok(_) => panic!("Shouldn't be Ok()!"),
        Err(err) => assert_eq!(err, ErrorDispatcher::Disconnected),
    }
}

#[test]
fn dispatcher_error_channel_disconnected() {
    let (sdr_sender, mut sms) = create_sms();
    drop(sdr_sender);
    assert_eq!(sms.send(TestMessage { bytes: vec![] }), Err(ErrorDispatcher::ChannelDisconnected));
}

#[test]
fn transmitter_send_ok() {
    let (sdr_worker, rcv_worker) = mpsc::channel::<WorkerMessage<TestMessage>>();
    let mut transmitter = Transmitter::new(sdr_worker);
    transmitter.send(TestMessage { bytes: vec![] }).unwrap();
    match rcv_worker.recv_timeout(Duration::from_millis(100)) {
        Ok(message) => match message {
            WorkerMessage::Send(_) => {}
            _ => panic!("Wrong message sent!"),
        },
        Err(_) => panic!("Shouldn't be Err()!"),
    }
}

#[test]
fn transmitter_send_err_disconnected() {
    let (sdr_worker, rcv_worker) = mpsc::channel::<WorkerMessage<TestMessage>>();
    let mut transmitter = Transmitter::new(sdr_worker);
    drop(rcv_worker);
    assert_eq!(transmitter.send(TestMessage { bytes: vec![] }), Err(ErrorTransceiver::ChannelDisconnected));
}

#[test]
fn client_transceiver_same_thread_receive() {
    let (mut client, mut worker) = client_and_worker::<TestMessage, TestMessage>();
    let transceiver = client.transceiver().take().unwrap();
    assert!(transceiver.receive().is_none());
    worker.send_incoming(TestMessage { bytes: vec![7, 8] });
    assert_eq!(transceiver.receive(), Some(TestMessage { bytes: vec![7, 8] }));
    assert!(client.transceiver().is_none());
}

#[test]
fn client_transceiver_receive_timeout_err_timeout() {
    let (mut client, _worker) = client_and_worker::<TestMessage, TestMessage>();
    let transceiver = client.transceiver().take().unwrap();
    match transceiver.receive_timeout(Duration::from_millis(50)) {
        Ok(_) => panic!("Shouldn't be ok()!"),
        Err(err) => assert_eq!(err, ErrorTransceiver::Timeout),
    }
}

#[test]
fn client_transceiver_receive_wait_err_disconnected() {
    let (mut client, worker) = client_and_worker::<TestMessage, TestMessage>();
    let transceiver = client.transceiver().take().unwrap();
    drop(worker);
    match transceiver.receive_wait() {
        Ok(_) => panic!("Shouldn't be ok()!"),
        Err(err) => assert_eq!(err, ErrorTransceiver::ChannelDisconnected),
    }
}

#[test]
fn client_transceiver_same_thread_send() {
    let (mut client, mut worker) = client_and_worker::<TestMessage, TestMessage>();
    let mut transceiver = client.transceiver().take().unwrap();
    transceiver.send(TestMessage { bytes: vec![3] }).unwrap();
    transceiver.transmitter().send(TestMessage { bytes: vec![4] }).unwrap();
    for expected in [3u8, 4u8] {
        let command = match worker.commands().try_recv() {
            Ok(command) => TimedReceive::Value(command),
            Err(_) => TimedReceive::Timeout,
        };
        match worker.on_active_command(command) {
            ActiveStep::Send(message) => assert_eq!(message.bytes, vec![expected]),
            _ => panic!("Wrong message sent!"),
        }
    }
}

/// Make the worker of `client` report an error, and check the client sees it.
fn assert_client_error(client: &mut ClientCore<TestMessage, TestMessage>, error: ErrorWorker) {
    match client.update() {
        Some(ClientUpdate::Error(err)) => assert_eq!(err, error),
        _ => panic!("Wrong update!"),
    }
}

#[test]
fn client_update_some_error_outgoing_serialize() {
    let (mut client, mut worker) = client_and_worker::<TestMessage, TestMessage>();
    let mut buffer = vec![0u8; baphonet::MAXIMUM_MESSAGE_SIZE];
    let serialized = BrokenMessage {}.serialize(&mut buffer);
    assert!(worker.prepare_send(serialized).is_none());
    assert_client_error(&mut client, ErrorWorker::OutgoingSerializeError);
}

#[test]
fn client_update_some_error_outgoing_too_large() {
    let (mut client, mut worker) = client_and_worker::<TestMessage, TestMessage>();
    let mut buffer = vec![0u8; baphonet::MAXIMUM_MESSAGE_SIZE];
    let message = TestMessage { bytes: vec![1u8; DEFAULT_OUTGOING_SIZE + 1] };
    let serialized = message.serialize(&mut buffer);
    assert!(worker.prepare_send(serialized).is_none());
    assert_client_error(&mut client, ErrorWorker::OutgoingMessageTooLarge);
}

#[test]
fn client_send_error_too_large() {
    let (mut client, mut worker) = client_and_worker::<TestMessage, TestMessage>();
    assert!(worker.prepare_send(Ok(DEFAULT_OUTGOING_SIZE + 1)).is_none());
    assert_client_error(&mut client, ErrorWorker::OutgoingMessageTooLarge);
    assert_eq!(worker.prepare_send(Ok(DEFAULT_OUTGOING_SIZE)), Some([0, 4]));
    assert!(client.update().is_none());
}

#[test]
fn client_update_some_error_incoming_too_large() {
    let (client_channels, worker_channels) = ClientChannel::<TestMessage, TestMessage>::create_client_worker_channels();
    let mut client = ClientCore::new(client_channels);
    let mut worker = WorkerCore::new(16, DEFAULT_OUTGOING_SIZE, worker_channels);
    let step = worker.on_header(ReadOutcome::Done, &[17, 0]);
    assert_eq!(step, ReceiveStep::Reject(ErrorWorker::IncomingMessageTooLarge));
    worker.reject(ErrorWorker::IncomingMessageTooLarge);
    assert!(worker.needs_header());
    assert_client_error(&mut client, ErrorWorker::IncomingMessageTooLarge);
}

#[test]
fn client_update_some_error_incoming_message_error() {
    let (mut client, mut worker) = client_and_worker::<BrokenMessage, BrokenMessage>();
    assert_eq!(worker.on_header(ReadOutcome::Done, &[2, 0]), ReceiveStep::ReadBody(2));
    let step = worker.on_body(ReadOutcome::Done, &[9, 9]);
    assert_eq!(step, ReceiveStep::Reject(ErrorWorker::IncomingMessageError));
    worker.reject(ErrorWorker::IncomingMessageError);
    match client.update() {
        Some(ClientUpdate::Error(err)) => assert_eq!(err, ErrorWorker::IncomingMessageError),
        _ => panic!("Wrong update!"),
    }
}

#[test]
fn client_message_some_error_connection_lost() {
    let (mut client, mut worker) = client_and_worker::<TestMessage, TestMessage>();
    worker.begin_active();
    assert_eq!(client.update(), Some(ClientUpdate::Connected));
    assert_eq!(client.status(), ClientStatus::Connected);
    assert_eq!(worker.on_header(ReadOutcome::Failed, &[]), ReceiveStep::Stop);
    assert_eq!(worker.status(), ClientStatus::Disconnecting);
    assert_client_error(&mut client, ErrorWorker::ConnectionLost);
    assert_eq!(client.status(), ClientStatus::Disconnecting);
}

#[test]
fn client_message_some_error_outgoing_serialize() {
    let (mut client, mut worker) = client_and_worker::<TestMessage, TestMessage>();
    assert!(worker.prepare_send(Err(())).is_none());
    assert_client_error(&mut client, ErrorWorker::OutgoingSerializeError);
}

#[test]
fn client_message_some_error_outgoing_too_large() {
    let (mut client, mut worker) = client_and_worker::<TestMessage, TestMessage>();
    assert!(worker.prepare_send(Ok(baphonet::MAXIMUM_MESSAGE_SIZE)).is_none());
    assert_client_error(&mut client, ErrorWorker::OutgoingMessageTooLarge);
}

#[test]
fn client_message_some_error_incoming_deserialize() {
    let (mut client, mut worker) = client_and_worker::<BrokenMessage, BrokenMessage>();
    assert_eq!(worker.on_header(ReadOutcome::Done, &[1, 0]), ReceiveStep::ReadBody(1));
    assert_eq!(worker.on_body(ReadOutcome::Done, &[0]), ReceiveStep::Reject(ErrorWorker::IncomingMessageError));
    assert_eq!(worker.pending(), None);
    worker.reject(ErrorWorker::IncomingMessageError);
    match client.update() {
        Some(ClientUpdate::Error(err)) => assert_eq!(err, ErrorWorker::IncomingMessageError),
        _ => panic!("Wrong update!"),
    }
}

#[test]
fn client_message_some_status_active() {
    let (mut client, mut worker) = client_and_worker::<TestMessage, TestMessage>();
    assert_eq!(client.check_connect(), Ok(()));
    client.connection_opened().unwrap();
    assert_eq!(client.status(), ClientStatus::Connecting);
    assert_eq!(client.check_connect(), Err(ErrorClient::AlreadyConnected));
    assert!(worker.begin_inactive_round());
    let command = worker.commands().try_recv().ok();
    assert_eq!(worker.on_inactive_command(command), InactiveStep::Serve);
    worker.begin_active();
    assert!(worker.is_connected());
    assert_eq!(client.update(), Some(ClientUpdate::Connected));
    assert_eq!(client.status(), ClientStatus::Connected);
}

#[test]
fn client_message_some_status_ended() {
    let (mut client, mut worker) = client_and_worker::<TestMessage, TestMessage>();
    client.request_end();
    let command = worker.commands().try_recv().ok();
    assert_eq!(worker.on_inactive_command(command), InactiveStep::Next);
    assert!(!worker.begin_inactive_round());
    worker.update_client(ClientUpdate::Ended);
    assert_eq!(client.update(), Some(ClientUpdate::Ended));
    client.ended();
    assert_eq!(client.status(), ClientStatus::Ended);
}

#[test]
fn client_update_none() {
    let (mut client, _worker) = client_and_worker::<TestMessage, TestMessage>();
    assert!(client.update().is_none());
    assert_eq!(client.status(), ClientStatus::Disconnected);
}

#[test]
fn client_update_disconnected() {
    let (mut client, mut worker) = client_and_worker::<TestMessage, TestMessage>();
    worker.begin_active();
    assert_eq!(client.update(), Some(ClientUpdate::Connected));
    client.close();
    assert_eq!(client.status(), ClientStatus::Disconnecting);
    let command = match worker.commands().try_recv() {
        Ok(command) => TimedReceive::Value(command),
        Err(_) => TimedReceive::Timeout,
    };
    assert!(matches!(worker.on_active_command(command), ActiveStep::Idle));
    assert!(!worker.is_connected());
    worker.end_active(true);
    assert_eq!(client.update(), Some(ClientUpdate::Disconnected));
    assert_eq!(client.status(), ClientStatus::Disconnected);
}

#[test]
fn client_receive_whole_message() {
    let (mut client, mut worker) = client_and_worker::<TestMessage, TestMessage>();
    let transceiver = client.transceiver().take().unwrap();
    assert!(worker.needs_header());
    assert_eq!(worker.on_header(ReadOutcome::WouldBlock, &[]), ReceiveStep::Stop);
    assert!(worker.needs_header());
    assert_eq!(worker.on_header(ReadOutcome::Done, &[3, 0]), ReceiveStep::ReadBody(3));
    assert_eq!(worker.on_body(ReadOutcome::WouldBlock, &[]), ReceiveStep::Stop);
    assert_eq!(worker.pending(), Some(3));
    assert_eq!(worker.on_body(ReadOutcome::Done, &[5, 6, 7]), ReceiveStep::Continue);
    assert!(worker.needs_header());
    assert_eq!(transceiver.receive(), Some(TestMessage { bytes: vec![5, 6, 7] }));
}

#[test]
fn client_write_outcomes() {
    let (mut client, mut worker) = client_and_worker::<TestMessage, TestMessage>();
    worker.begin_active();
    let written = worker.on_write(WriteOutcome::Done, TestMessage { bytes: vec![1, 2] });
    assert_eq!(written, Some(TestMessage { bytes: vec![1, 2] }));
    assert!(worker.on_write(WriteOutcome::WouldBlock, TestMessage { bytes: vec![3] }).is_none());
    assert!(worker.is_connected());
    match worker.commands().try_recv() {
        Ok(WorkerMessage::Send(message)) => assert_eq!(message, TestMessage { bytes: vec![3] }),
        _ => panic!("the blocked message was not put back"),
    }
    assert!(worker.on_write(WriteOutcome::Failed, TestMessage { bytes: vec![4] }).is_none());
    assert!(worker.commands().try_recv().is_err());
    assert_eq!(worker.status(), ClientStatus::Disconnecting);
    assert_eq!(client.update(), Some(ClientUpdate::Connected));
    assert_client_error(&mut client, ErrorWorker::ConnectionLost);
}

#[test]
fn client_worker_ends_without_client() {
    let (client, mut worker) = client_and_worker::<TestMessage, TestMessage>();
    drop(client);
    worker.update_client(ClientUpdate::Connected);
    assert_eq!(worker.status(), ClientStatus::Ended);
}

#[test]
fn client_pool_period() {
    assert_eq!(pool_period_millis(DEFAULT_POOL_RATE_PER_SECOND), 33);
    assert_eq!(pool_period_millis(MAXIMUM_POOL_RATE_PER_SECOND), 1);
    assert_eq!(pool_period_millis(MINIMUM_POOL_RATE_PER_SECOND), 1000);
}

#[test]
fn client_connect_errors() {
    assert_eq!(connect_failure(ErrorKind::InvalidInput), ErrorClient::InvalidSocket);
    assert_eq!(connect_failure(ErrorKind::NotFound), ErrorClient::ServerNotFound);
    assert_eq!(connect_failure(ErrorKind::ConnectionRefused), ErrorClient::ConnectionRefused);
    assert_eq!(connect_failure(ErrorKind::AddrInUse), ErrorClient::UnhandledIOError(ErrorKind::AddrInUse));
    assert_eq!(connect_failure(ErrorKind::TimedOut), ErrorClient::UnhandledIOError(ErrorKind::TimedOut));
}

#[test]
fn client_connect_failure_kinds() {
    assert_eq!(connect_failure(ErrorKind::HostUnreachable), ErrorClient::ServerNotFound);
    assert_eq!(connect_failure(ErrorKind::NetworkDown), ErrorClient::ServerNotFound);
    assert_eq!(connect_failure(ErrorKind::InvalidData), ErrorClient::InvalidSocket);
    assert_eq!(connect_failure(ErrorKind::ConnectionReset), ErrorClient::ConnectionRefused);
    assert_eq!(connect_failure(ErrorKind::NotConnected), ErrorClient::ConnectionRefused);
}
