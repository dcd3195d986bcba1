//! Supervisor of the worker threads: the rules by which it hands out jobs and
//! follows the clients.
use std::sync::mpsc::Sender;

use vstd::prelude::*;

use crate::channel::{
    handed_over, handed_over_all, last_taken, lemma_handed_over_none, lemma_handed_over_push, send_value,
    taken_from, TimedReceive,
};
use crate::server::{
    error::ErrorUpdate,
    message::{ServerUpdate, SupervisorMessage, SupervisorServerMessage, SupervisorWorkerMessage, WorkerActiveMessage},
    task::{lemma_ready_ids_exact, ready_ids, TaskStatus, Tasks, MAXIMUM_SLOTS},
    ClientId,
};
use crate::Message;

verus! {

/// What the active supervisor does after waiting for a message.
pub enum SupervisorStep {
    /// Free the slot the worker message releases, if any, then handle it
    /// with `handle_worker_message`.
    Worker(SupervisorWorkerMessage),
    /// The jobs of a pool were handed out.
    Pooled,
    /// Nothing more to do for this message.
    Done,
}

/// Status of the supervisor thread.
#[derive(Debug, Clone, Copy, PartialEq, Eq, Structural)]
pub enum SupervisorStatus {
    /// Waiting for the server to start it.
    Inactive,
    /// Serving clients.
    Active,
    /// Stop was requested.
    Stopping,
    /// The thread must end.
    End,
}

/// Milliseconds of wait time per worker when joining the worker threads.
pub const MS_JOIN_WAIT_DURATION_PER_WORKER: u64 = 50;

/// Longest wait, in milliseconds, for `worker_count` worker threads to end.
pub fn workers_join_wait_millis(worker_count: usize) -> (millis: u64)
    requires
        worker_count <= MAXIMUM_SLOTS,
    ensures
        millis == worker_count * MS_JOIN_WAIT_DURATION_PER_WORKER,
{
    let count: u64 = worker_count as u64;
    count * MS_JOIN_WAIT_DURATION_PER_WORKER
}

/// Whether a worker message names a client slot that exists.
pub open spec fn worker_message_in_range(message: SupervisorWorkerMessage, slots: nat) -> bool {
    match message {
        SupervisorWorkerMessage::Connected(id, _) => id < slots,
        SupervisorWorkerMessage::ReceiveJobDone(id) => id < slots,
        SupervisorWorkerMessage::Disconnected(id) => id < slots,
        SupervisorWorkerMessage::Error(ErrorUpdate::ConnectionLost(id)) => id < slots,
        _ => true,
    }
}

/// The client slot a worker message frees, if any: a disconnected client or a
/// lost connection.
pub open spec fn released_slot(message: SupervisorWorkerMessage) -> Option<ClientId> {
    match message {
        SupervisorWorkerMessage::Disconnected(id) => Some(id),
        SupervisorWorkerMessage::Error(ErrorUpdate::ConnectionLost(id)) => Some(id),
        _ => None,
    }
}

/// The update a worker message is reported to the server with, if any.
pub open spec fn worker_update(message: SupervisorWorkerMessage) -> Option<ServerUpdate> {
    match message {
        SupervisorWorkerMessage::Connected(id, address) => Some(ServerUpdate::ClientConnected(id, address)),
        SupervisorWorkerMessage::Disconnected(id) => Some(ServerUpdate::ClientDisconnected(id)),
        SupervisorWorkerMessage::Error(error) => Some(ServerUpdate::Error(error)),
        _ => None,
    }
}

/// The reception tasks after a worker message.
pub open spec fn reception_after(reception: Seq<Option<TaskStatus>>, message: SupervisorWorkerMessage) -> Seq<Option<TaskStatus>> {
    match message {
        SupervisorWorkerMessage::Connected(id, _) => reception.update(id as int, Some(TaskStatus::Ready)),
        SupervisorWorkerMessage::ReceiveJobDone(id) => reception.update(id as int, Some(TaskStatus::Ready)),
        SupervisorWorkerMessage::Disconnected(id) => reception.update(id as int, None),
        SupervisorWorkerMessage::Error(ErrorUpdate::ConnectionLost(id)) => reception.update(id as int, None),
        _ => reception,
    }
}

/// The incoming task after a worker message.
pub open spec fn incoming_after(incoming: TaskStatus, message: SupervisorWorkerMessage) -> TaskStatus {
    match message {
        SupervisorWorkerMessage::IncomingJobDone => TaskStatus::Ready,
        _ => incoming,
    }
}

/// The status after a message of the server.
pub open spec fn status_after_server_message<L>(status: SupervisorStatus, message: SupervisorServerMessage<L>) -> SupervisorStatus {
    match message {
        SupervisorServerMessage::Start(_) => status,
        SupervisorServerMessage::Stop => SupervisorStatus::Stopping,
        SupervisorServerMessage::End => SupervisorStatus::End,
    }
}

/// A status that a failed send may have turned to `End`.
pub open spec fn kept_or_ended(before: SupervisorStatus, after: SupervisorStatus) -> bool {
    after == before || after == SupervisorStatus::End
}

/// The jobs of one pool, in the order they are handed to the workers: the
/// incoming job when its task was ready, then a reception job for each of
/// `ids`.
pub open spec fn pool_jobs<OUT: Message>(incoming_ready: bool, ids: Seq<ClientId>) -> Seq<WorkerActiveMessage<OUT>> {
    (if incoming_ready {
        seq![WorkerActiveMessage::<OUT>::Incoming]
    } else {
        Seq::<WorkerActiveMessage<OUT>>::empty()
    }) + ids.map_values(|id: ClientId| WorkerActiveMessage::<OUT>::Receive(id))
}

/// `message` once for each of `count` workers.
pub open spec fn each_worker<OUT: Message>(message: WorkerActiveMessage<OUT>, count: usize) -> Seq<WorkerActiveMessage<OUT>> {
    Seq::new(count as nat, |_i: int| message)
}

/// The status after values were handed to a channel of the supervisor: kept
/// when the channel took them all, else the supervisor ends.
pub open spec fn status_after_send(before: SupervisorStatus, taken: bool) -> SupervisorStatus {
    if taken {
        before
    } else {
        SupervisorStatus::End
    }
}

/// The part of the supervisor that decides: its status, the tasks of the
/// workers, and the channels to the server and to the workers. Losing one of
/// these channels ends the supervisor.
#[verifier::reject_recursive_types(OUT)]
pub struct SupervisorCore<OUT: Message> {
    status: SupervisorStatus,
    tasks: Tasks,
    worker_count: usize,
    sdr_server: Sender<ServerUpdate>,
    sdr_worker: Sender<WorkerActiveMessage<OUT>>,
    to_server: Ghost<Seq<(ServerUpdate, bool)>>,
    to_workers: Ghost<Seq<(WorkerActiveMessage<OUT>, bool)>>,
}

impl<OUT: Message> SupervisorCore<OUT> {
    /// Current status.
    pub closed spec fn current_status(&self) -> SupervisorStatus {
        self.status
    }

    /// Status of the incoming connection task.
    pub closed spec fn incoming_task(&self) -> TaskStatus {
        self.tasks.incoming_task()
    }

    /// Reception task of each client slot.
    pub closed spec fn reception_tasks(&self) -> Seq<Option<TaskStatus>> {
        self.tasks.reception_tasks()
    }

    /// Count of worker threads.
    pub closed spec fn workers(&self) -> usize {
        self.worker_count
    }

    /// The updates handed to the server, in order, each with whether its
    /// channel took it.
    pub closed spec fn server_updates(&self) -> Seq<(ServerUpdate, bool)> {
        self.to_server@
    }

    /// The messages handed to the workers, in order, each with whether their
    /// channel took it.
    pub closed spec fn worker_messages(&self) -> Seq<(WorkerActiveMessage<OUT>, bool)> {
        self.to_workers@
    }

    /// The tasks and the count of workers are those of `other`.
    pub open spec fn same_tasks(&self, other: &Self) -> bool {
        &&& self.incoming_task() == other.incoming_task()
        &&& self.reception_tasks() == other.reception_tasks()
        &&& self.workers() == other.workers()
    }

    /// Create the supervisor core of a server of `maximum_client` slots and
    /// `worker_count` workers; it starts inactive with every task ready and
    /// every slot free.
    pub fn new(
        maximum_client: usize,
        worker_count: usize,
        sdr_server: Sender<ServerUpdate>,
        sdr_worker: Sender<WorkerActiveMessage<OUT>>,
    ) -> (core: SupervisorCore<OUT>)
        requires
            maximum_client <= MAXIMUM_SLOTS,
        ensures
            core.current_status() == SupervisorStatus::Inactive,
            core.incoming_task() == TaskStatus::Ready,
            core.reception_tasks() == Seq::new(maximum_client as nat, |i: int| None::<TaskStatus>),
            core.workers() == worker_count,
            core.server_updates() == Seq::<(ServerUpdate, bool)>::empty(),
            core.worker_messages() == Seq::<(WorkerActiveMessage<OUT>, bool)>::empty(),
    {
        SupervisorCore {
            status: SupervisorStatus::Inactive,
            tasks: Tasks::new(maximum_client),
            worker_count,
            sdr_server,
            sdr_worker,
            to_server: Ghost(Seq::empty()),
            to_workers: Ghost(Seq::empty()),
        }
    }

    /// Current status.
    pub fn status(&self) -> (status: SupervisorStatus)
        ensures
            status == self.current_status(),
    {
        self.status
    }

    /// Back to waiting for the server, unless the supervisor must end.
    pub fn wait_for_server(&mut self)
        ensures
            final(self).worker_messages() == old(self).worker_messages(),
            final(self).server_updates() == old(self).server_updates(),
            final(self).current_status() == (if old(self).current_status() == SupervisorStatus::End {
                SupervisorStatus::End
            } else {
                SupervisorStatus::Inactive
            }),
            final(self).reception_tasks() == old(self).reception_tasks(),
            final(self).incoming_task() == old(self).incoming_task(),
            final(self).workers() == old(self).workers(),
    {
        match self.status {
            SupervisorStatus::End => {},
            _ => self.status = SupervisorStatus::Inactive,
        }
    }

    /// A channel of the supervisor was lost: it must end.
    pub fn channel_lost(&mut self)
        ensures
            final(self).worker_messages() == old(self).worker_messages(),
            final(self).server_updates() == old(self).server_updates(),
            final(self).current_status() == SupervisorStatus::End,
            final(self).reception_tasks() == old(self).reception_tasks(),
            final(self).incoming_task() == old(self).incoming_task(),
            final(self).workers() == old(self).workers(),
    {
        self.status = SupervisorStatus::End;
    }

    /// Send an update to the server; the supervisor ends if the server is gone.
    pub fn send_update_to_server(&mut self, update: ServerUpdate)
        ensures
            handed_over(old(self).server_updates(), final(self).server_updates(), update),
            final(self).current_status() == status_after_send(old(self).current_status(), last_taken(final(self).server_updates())),
            final(self).worker_messages() == old(self).worker_messages(),
            final(self).same_tasks(old(self)),
    {
        let sent = send_value(&self.sdr_server, update);
        self.to_server = Ghost(self.to_server@.push((update, sent)));
        if !sent {
            self.status = SupervisorStatus::End;
        }
    }

    /// Send a message to the workers; the supervisor ends if they are gone.
    pub fn send_message_to_worker(&mut self, message: WorkerActiveMessage<OUT>)
        ensures
            handed_over(old(self).worker_messages(), final(self).worker_messages(), message),
            final(self).current_status() == status_after_send(old(self).current_status(), last_taken(final(self).worker_messages())),
            final(self).server_updates() == old(self).server_updates(),
            final(self).same_tasks(old(self)),
    {
        let ghost value = message;
        let sent = send_value(&self.sdr_worker, message);
        self.to_workers = Ghost(self.to_workers@.push((value, sent)));
        if !sent {
            self.status = SupervisorStatus::End;
        }
    }

    /// Hand `message` to the workers once for each worker.
    fn send_to_each_worker(&mut self, message: WorkerActiveMessage<OUT>)
        requires
            message is Stop || message is End,
        ensures
            handed_over_all(old(self).worker_messages(), final(self).worker_messages(), each_worker(message, old(self).workers())),
            final(self).current_status() == status_after_send(
                old(self).current_status(),
                taken_from(final(self).worker_messages(), old(self).worker_messages().len() as int),
            ),
            final(self).server_updates() == old(self).server_updates(),
            final(self).same_tasks(old(self)),
    {
        let ghost start = old(self).worker_messages();
        proof {
            lemma_handed_over_none(start);
        }
        assert(each_worker(message, 0) =~= Seq::<WorkerActiveMessage<OUT>>::empty());
        let mut i: usize = 0;
        while i < self.worker_count
            invariant
                message is Stop || message is End,
                i <= self.workers(),
                start == old(self).worker_messages(),
                handed_over_all(start, self.worker_messages(), each_worker(message, i)),
                self.current_status() == status_after_send(old(self).current_status(), taken_from(self.worker_messages(), start.len() as int)),
                self.server_updates() == old(self).server_updates(),
                self.same_tasks(old(self)),
            decreases self.workers() - i,
        {
            let copy = match message {
                WorkerActiveMessage::Stop => WorkerActiveMessage::Stop,
                _ => WorkerActiveMessage::End,
            };
            let ghost before = self.worker_messages();
            self.send_message_to_worker(copy);
            proof {
                lemma_handed_over_push(start, before, self.worker_messages(), each_worker(message, i), message);
                assert(each_worker(message, i).push(message) =~= each_worker(message, (i + 1) as usize));
            }
            i = i + 1;
        }
    }

    /// The workers were started: the supervisor is active, and tells the server.
    pub fn activate(&mut self)
        ensures
            handed_over(old(self).server_updates(), final(self).server_updates(), ServerUpdate::Active),
            final(self).current_status() == status_after_send(SupervisorStatus::Active, last_taken(final(self).server_updates())),
            final(self).worker_messages() == old(self).worker_messages(),
            final(self).same_tasks(old(self)),
    {
        self.status = SupervisorStatus::Active;
        self.send_update_to_server(ServerUpdate::Active);
    }

    /// Follow a message of the server: stop or end on request.
    pub fn handle_server_message<L>(&mut self, message: &SupervisorServerMessage<L>)
        ensures
            final(self).worker_messages() == old(self).worker_messages(),
            final(self).server_updates() == old(self).server_updates(),
            final(self).current_status() == status_after_server_message(old(self).current_status(), *message),
            final(self).reception_tasks() == old(self).reception_tasks(),
            final(self).incoming_task() == old(self).incoming_task(),
            final(self).workers() == old(self).workers(),
    {
        match message {
            SupervisorServerMessage::Start(_) => {},
            SupervisorServerMessage::Stop => self.status = SupervisorStatus::Stopping,
            SupervisorServerMessage::End => self.status = SupervisorStatus::End,
        }
    }

    /// Hand out the jobs of one pool: the incoming job when its task is ready
    /// (it is then in progress), then a reception job for every client whose
    /// task is ready, by increasing id.
    pub fn handle_server_tasks(&mut self)
        requires
            old(self).reception_tasks().len() <= MAXIMUM_SLOTS,
        ensures
            handed_over_all(
                old(self).worker_messages(),
                final(self).worker_messages(),
                pool_jobs(
                    old(self).incoming_task() == TaskStatus::Ready,
                    ready_ids(old(self).reception_tasks(), old(self).reception_tasks().len() as int),
                ),
            ),
            final(self).current_status() == status_after_send(
                old(self).current_status(),
                taken_from(final(self).worker_messages(), old(self).worker_messages().len() as int),
            ),
            final(self).incoming_task() == TaskStatus::InProgress,
            final(self).reception_tasks() == old(self).reception_tasks(),
            final(self).workers() == old(self).workers(),
            final(self).server_updates() == old(self).server_updates(),
    {
        let ghost start = old(self).worker_messages();
        proof {
            lemma_handed_over_none(start);
        }
        let jobs = self.tasks.schedule();
        let ghost head: Seq<WorkerActiveMessage<OUT>> = Seq::empty();
        if jobs.incoming {
            let ghost before = self.worker_messages();
            self.send_message_to_worker(WorkerActiveMessage::Incoming);
            proof {
                lemma_handed_over_push(start, before, self.worker_messages(), head, WorkerActiveMessage::Incoming);
                head = head.push(WorkerActiveMessage::Incoming);
            }
        }
        assert(head =~= pool_jobs::<OUT>(jobs.incoming, Seq::empty()));
        let mut i: usize = 0;
        while i < jobs.receive.len()
            invariant
                i <= jobs.receive@.len(),
                start == old(self).worker_messages(),
                handed_over_all(start, self.worker_messages(), pool_jobs::<OUT>(jobs.incoming, jobs.receive@.take(i as int))),
                self.current_status() == status_after_send(old(self).current_status(), taken_from(self.worker_messages(), start.len() as int)),
                self.incoming_task() == TaskStatus::InProgress,
                self.reception_tasks() == old(self).reception_tasks(),
                self.workers() == old(self).workers(),
                self.server_updates() == old(self).server_updates(),
            decreases jobs.receive.len() - i,
        {
            let id = jobs.receive[i];
            let ghost before = self.worker_messages();
            let ghost done = pool_jobs::<OUT>(jobs.incoming, jobs.receive@.take(i as int));
            self.send_message_to_worker(WorkerActiveMessage::Receive(id));
            proof {
                lemma_handed_over_push(start, before, self.worker_messages(), done, WorkerActiveMessage::Receive(id));
                assert(jobs.receive@.take(i + 1) =~= jobs.receive@.take(i as int).push(id));
                assert(done.push(WorkerActiveMessage::Receive(id)) =~= pool_jobs::<OUT>(jobs.incoming, jobs.receive@.take(i + 1)));
            }
            i = i + 1;
        }
        assert(jobs.receive@.take(i as int) =~= jobs.receive@);
    }

    /// Whether a worker message names a client slot that exists.
    pub fn accepts(&self, message: &SupervisorWorkerMessage) -> (accepted: bool)
        ensures
            accepted == worker_message_in_range(*message, self.reception_tasks().len()),
    {
        let slots = self.tasks.slot_count();
        match message {
            SupervisorWorkerMessage::Connected(id, _) => (*id as usize) < slots,
            SupervisorWorkerMessage::ReceiveJobDone(id) => (*id as usize) < slots,
            SupervisorWorkerMessage::Disconnected(id) => (*id as usize) < slots,
            SupervisorWorkerMessage::Error(ErrorUpdate::ConnectionLost(id)) => (*id as usize) < slots,
            _ => true,
        }
    }

    /// Count of client slots.
    pub fn slot_count(&self) -> (count: usize)
        ensures
            count == self.reception_tasks().len(),
    {
        self.tasks.slot_count()
    }

    /// The client slot a worker message frees, if any; the thread layer empties
    /// that slot of the client list before the message is handled.
    pub fn released_client(message: &SupervisorWorkerMessage) -> (slot: Option<ClientId>)
        ensures
            slot == released_slot(*message),
    {
        match message {
            SupervisorWorkerMessage::Disconnected(id) => Some(*id),
            SupervisorWorkerMessage::Error(ErrorUpdate::ConnectionLost(id)) => Some(*id),
            _ => None,
        }
    }

    /// The update a worker message is reported to the server with, if any.
    pub fn update_for(message: &SupervisorWorkerMessage) -> (update: Option<ServerUpdate>)
        ensures
            update == worker_update(*message),
    {
        match message {
            SupervisorWorkerMessage::Connected(id, address) => Some(ServerUpdate::ClientConnected(*id, *address)),
            SupervisorWorkerMessage::Disconnected(id) => Some(ServerUpdate::ClientDisconnected(*id)),
            SupervisorWorkerMessage::Error(error) => Some(ServerUpdate::Error(*error)),
            _ => None,
        }
    }

    /// Follow a message of a worker: a connected client gets a ready reception
    /// task, a finished reception is ready again, a finished incoming job is
    /// ready again, a gone client frees its slot; connections, disconnections
    /// and errors are reported to the server.
    pub fn handle_worker_message(&mut self, message: SupervisorWorkerMessage)
        requires
            worker_message_in_range(message, old(self).reception_tasks().len()),
        ensures
            match worker_update(message) {
                Some(update) => {
                    &&& handed_over(old(self).server_updates(), final(self).server_updates(), update)
                    &&& final(self).current_status() == status_after_send(old(self).current_status(), last_taken(final(self).server_updates()))
                },
                None => {
                    &&& final(self).server_updates() == old(self).server_updates()
                    &&& final(self).current_status() == old(self).current_status()
                },
            },
            final(self).worker_messages() == old(self).worker_messages(),
            final(self).incoming_task() == incoming_after(old(self).incoming_task(), message),
            final(self).reception_tasks() == reception_after(old(self).reception_tasks(), message),
            final(self).workers() == old(self).workers(),
    {
        match message {
            SupervisorWorkerMessage::Connected(id, _) => self.tasks.reception_ready(id),
            SupervisorWorkerMessage::IncomingJobDone => self.tasks.incoming_done(),
            SupervisorWorkerMessage::ReceiveJobDone(id) => self.tasks.reception_ready(id),
            SupervisorWorkerMessage::Disconnected(id) => self.tasks.remove_client(id),
            SupervisorWorkerMessage::Error(ErrorUpdate::ConnectionLost(id)) => self.tasks.remove_client(id),
            _ => {},
        }
        match Self::update_for(&message) {
            Some(update) => self.send_update_to_server(update),
            None => {},
        }
    }

    /// Follow a message received while waiting for the server (`None` when the
    /// server is gone): the listener of a start request is given back to
    /// serve with; stop and end requests are followed; worker messages are
    /// ignored; a gone server ends the supervisor.
    pub fn on_waiting_message<L>(&mut self, message: Option<SupervisorMessage<L>>) -> (listener: Option<L>)
        ensures
            final(self).worker_messages() == old(self).worker_messages(),
            final(self).server_updates() == old(self).server_updates(),
            final(self).incoming_task() == old(self).incoming_task(),
            final(self).reception_tasks() == old(self).reception_tasks(),
            final(self).workers() == old(self).workers(),
            match message {
                Some(SupervisorMessage::FromServer(SupervisorServerMessage::Start(l))) => {
                    listener == Some(l) && final(self).current_status() == old(self).current_status()
                },
                Some(SupervisorMessage::FromServer(m)) => {
                    listener is None && final(self).current_status() == status_after_server_message(old(self).current_status(), m)
                },
                Some(SupervisorMessage::FromWorker(_)) => listener is None && final(self).current_status() == old(self).current_status(),
                None => listener is None && final(self).current_status() == SupervisorStatus::End,
            },
    {
        match message {
            Some(SupervisorMessage::FromServer(SupervisorServerMessage::Start(listener))) => Some(listener),
            Some(SupervisorMessage::FromServer(message)) => {
                self.handle_server_message(&message);
                None
            },
            Some(SupervisorMessage::FromWorker(_)) => None,
            None => {
                self.channel_lost();
                None
            },
        }
    }

    /// Follow what the wait for a message gave while active: requests of the
    /// server are followed, worker messages are handed back to be handled,
    /// the jobs of a pool are handed out when the pool period expired, and a
    /// lost channel ends the supervisor.
    pub fn on_active_event<L>(&mut self, event: TimedReceive<SupervisorMessage<L>>) -> (step: SupervisorStep)
        requires
            old(self).reception_tasks().len() <= MAXIMUM_SLOTS,
        ensures
            final(self).reception_tasks() == old(self).reception_tasks(),
            final(self).workers() == old(self).workers(),
            final(self).server_updates() == old(self).server_updates(),
            match event {
                TimedReceive::Value(SupervisorMessage::FromServer(m)) => {
                    &&& step is Done
                    &&& final(self).current_status() == status_after_server_message(old(self).current_status(), m)
                    &&& final(self).incoming_task() == old(self).incoming_task()
                    &&& final(self).worker_messages() == old(self).worker_messages()
                },
                TimedReceive::Value(SupervisorMessage::FromWorker(m)) => {
                    &&& step == SupervisorStep::Worker(m)
                    &&& final(self).current_status() == old(self).current_status()
                    &&& final(self).incoming_task() == old(self).incoming_task()
                    &&& final(self).worker_messages() == old(self).worker_messages()
                },
                TimedReceive::Timeout => {
                    &&& step is Pooled
                    &&& handed_over_all(
                        old(self).worker_messages(),
                        final(self).worker_messages(),
                        pool_jobs(
                            old(self).incoming_task() == TaskStatus::Ready,
                            ready_ids(old(self).reception_tasks(), old(self).reception_tasks().len() as int),
                        ),
                    )
                    &&& final(self).current_status() == status_after_send(
                        old(self).current_status(),
                        taken_from(final(self).worker_messages(), old(self).worker_messages().len() as int),
                    )
                    &&& final(self).incoming_task() == TaskStatus::InProgress
                },
                TimedReceive::Disconnected => {
                    &&& step is Done
                    &&& final(self).current_status() == SupervisorStatus::End
                    &&& final(self).incoming_task() == old(self).incoming_task()
                    &&& final(self).worker_messages() == old(self).worker_messages()
                },
            },
    {
        match event {
            TimedReceive::Value(SupervisorMessage::FromServer(message)) => {
                self.handle_server_message(&message);
                SupervisorStep::Done
            },
            TimedReceive::Value(SupervisorMessage::FromWorker(message)) => SupervisorStep::Worker(message),
            TimedReceive::Timeout => {
                self.handle_server_tasks();
                SupervisorStep::Pooled
            },
            TimedReceive::Disconnected => {
                self.channel_lost();
                SupervisorStep::Done
            },
        }
    }

    /// Tell every worker to stop, then tell the server the supervisor is inactive.
    pub fn deactivate(&mut self)
        ensures
            handed_over_all(old(self).worker_messages(), final(self).worker_messages(), each_worker(WorkerActiveMessage::Stop, old(self).workers())),
            handed_over(old(self).server_updates(), final(self).server_updates(), ServerUpdate::Inactive),
            final(self).current_status() == status_after_send(
                old(self).current_status(),
                taken_from(final(self).worker_messages(), old(self).worker_messages().len() as int)
                    && last_taken(final(self).server_updates()),
            ),
            final(self).same_tasks(old(self)),
    {
        self.send_to_each_worker(WorkerActiveMessage::Stop);
        self.send_update_to_server(ServerUpdate::Inactive);
    }

    /// Tell every active worker to end.
    pub fn end_workers(&mut self)
        ensures
            handed_over_all(old(self).worker_messages(), final(self).worker_messages(), each_worker(WorkerActiveMessage::End, old(self).workers())),
            final(self).current_status() == status_after_send(
                old(self).current_status(),
                taken_from(final(self).worker_messages(), old(self).worker_messages().len() as int),
            ),
            final(self).server_updates() == old(self).server_updates(),
            final(self).same_tasks(old(self)),
    {
        self.send_to_each_worker(WorkerActiveMessage::End);
    }

    /// The supervisor ended: tell the server.
    pub fn report_ended(&mut self)
        ensures
            handed_over(old(self).server_updates(), final(self).server_updates(), ServerUpdate::Ended),
            final(self).current_status() == status_after_send(old(self).current_status(), last_taken(final(self).server_updates())),
            final(self).worker_messages() == old(self).worker_messages(),
            final(self).same_tasks(old(self)),
    {
        self.send_update_to_server(ServerUpdate::Ended);
    }
}

/// Worker messages never change the count of client slots.
pub proof fn lemma_slots_kept(reception: Seq<Option<TaskStatus>>, message: SupervisorWorkerMessage)
    requires
        worker_message_in_range(message, reception.len()),
    ensures
        reception_after(reception, message).len() == reception.len(),
{
}

/// A client that disconnected, or whose connection was lost, gets no
/// reception job until it connects again; one that connected gets one at
/// every pool.
pub proof fn lemma_reception_follows_clients(
    reception: Seq<Option<TaskStatus>>,
    message: SupervisorWorkerMessage,
)
    requires
        worker_message_in_range(message, reception.len()),
        reception.len() <= MAXIMUM_SLOTS,
    ensures
        released_slot(message) matches Some(id) ==> !ready_ids(reception_after(reception, message), reception.len() as int).contains(id),
        message matches SupervisorWorkerMessage::Connected(id, _) ==> ready_ids(reception_after(reception, message), reception.len() as int).contains(id),
{
    let after = reception_after(reception, message);
    lemma_ready_ids_exact(after, reception.len() as int);
    match released_slot(message) {
        Some(id) => {
            assert(after[id as int] == None::<TaskStatus>);
            assert(((id as int) as ClientId) == id);
        },
        None => {},
    }
    match message {
        SupervisorWorkerMessage::Connected(id, _) => {
            assert(after[id as int] == Some(TaskStatus::Ready));
            assert(((id as int) as ClientId) == id);
        },
        _ => {},
    }
}

/// Once handed out, the incoming job is handed out again only after a worker
/// reported it done.
pub proof fn lemma_incoming_job_once(message: SupervisorWorkerMessage)
    ensures
        (incoming_after(TaskStatus::InProgress, message) == TaskStatus::Ready) <==> (message == SupervisorWorkerMessage::IncomingJobDone),
{
}

/// What the supervisor hands out at the next pool follows the clients: once a
/// client connected, the jobs of a pool include a reception job for it; once
/// it disconnected or its connection was lost, they include none.
pub proof fn lemma_pool_follows_clients<OUT: Message>(
    reception: Seq<Option<TaskStatus>>,
    message: SupervisorWorkerMessage,
    incoming_ready: bool,
)
    requires
        worker_message_in_range(message, reception.len()),
        reception.len() <= MAXIMUM_SLOTS,
    ensures
        message matches SupervisorWorkerMessage::Connected(id, _) ==> pool_jobs::<OUT>(
            incoming_ready,
            ready_ids(reception_after(reception, message), reception.len() as int),
        ).contains(WorkerActiveMessage::Receive(id)),
        released_slot(message) matches Some(id) ==> !pool_jobs::<OUT>(
            incoming_ready,
            ready_ids(reception_after(reception, message), reception.len() as int),
        ).contains(WorkerActiveMessage::Receive(id)),
{
    lemma_reception_follows_clients(reception, message);
    let ids = ready_ids(reception_after(reception, message), reception.len() as int);
    let head = if incoming_ready {
        seq![WorkerActiveMessage::<OUT>::Incoming]
    } else {
        Seq::<WorkerActiveMessage<OUT>>::empty()
    };
    let jobs = pool_jobs::<OUT>(incoming_ready, ids);
    let tail = ids.map_values(|id: ClientId| WorkerActiveMessage::<OUT>::Receive(id));
    assert(jobs == head + tail);
    match message {
        SupervisorWorkerMessage::Connected(id, _) => {
            let k = choose|k: int| 0 <= k < ids.len() && ids[k] == id;
            assert(jobs[head.len() + k] == tail[k]);
        },
        _ => {},
    }
    match released_slot(message) {
        Some(id) => {
            if jobs.contains(WorkerActiveMessage::Receive(id)) {
                let k = choose|k: int| 0 <= k < jobs.len() && jobs[k] == WorkerActiveMessage::<OUT>::Receive(id);
                assert(k >= head.len());
                assert(tail[k - head.len()] == WorkerActiveMessage::<OUT>::Receive(ids[k - head.len()]));
                assert(ids.contains(id));
            }
        },
        None => {},
    }
}

/// Only client events reach the server: a connection, a disconnection or an
/// error of a worker is reported to it, and nothing else is (a finished
/// reception or incoming job, or a finished worker, is not). A client is
/// reported disconnected exactly for a `Disconnected` message of that client,
/// and connected exactly for a `Connected` message with its address.
pub proof fn lemma_only_client_events_reported(message: SupervisorWorkerMessage)
    ensures
        worker_update(message) is Some <==> (message is Connected || message is Disconnected || message is Error),
        message is ReceiveJobDone || message is IncomingJobDone || message is Finished ==> worker_update(message) is None,
        worker_update(message) matches Some(ServerUpdate::ClientDisconnected(id)) ==> message == SupervisorWorkerMessage::Disconnected(id),
        message matches SupervisorWorkerMessage::Disconnected(id) ==> worker_update(message) == Some(ServerUpdate::ClientDisconnected(id)),
        worker_update(message) matches Some(ServerUpdate::ClientConnected(id, address)) ==> message == SupervisorWorkerMessage::Connected(id, address),
        message matches SupervisorWorkerMessage::Connected(id, address) ==> worker_update(message) == Some(ServerUpdate::ClientConnected(id, address)),
        worker_update(message) matches Some(ServerUpdate::Error(error)) ==> message == SupervisorWorkerMessage::Error(error),
{
}

} // verus!
