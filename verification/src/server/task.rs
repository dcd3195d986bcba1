//! Tasks handed by the supervisor to the workers.
use vstd::prelude::*;

use crate::server::ClientId;

verus! {

/// Status of a task
#[derive(Debug, Clone, Copy, PartialEq, Eq, Structural)]
pub enum TaskStatus {
    /// Task is ready to be executed
    Ready,
    /// Task is currently in progress
    InProgress,
}

/// Task that are executed by workers: accepting incoming connections, and
/// receiving the messages of each connected client (one slot per client id).
pub struct Tasks {
    /// Incoming connection task
    incoming: TaskStatus,
    /// Reception of clients message, by client id; `None` for a free slot.
    reception: Vec<Option<TaskStatus>>,
}

/// Jobs to hand to the workers at one pool of the supervisor.
pub struct ScheduledJobs {
    /// Whether a worker must accept incoming connections.
    pub incoming: bool,
    /// Clients whose messages must be received, by increasing id.
    pub receive: Vec<ClientId>,
}

/// The client ids, below `bound`, whose reception task is ready, by increasing id.
pub open spec fn ready_ids(reception: Seq<Option<TaskStatus>>, bound: int) -> Seq<ClientId>
    decreases bound,
{
    if bound <= 0 {
        Seq::empty()
    } else {
        let before = ready_ids(reception, bound - 1);
        if reception[bound - 1] == Some(TaskStatus::Ready) {
            before.push((bound - 1) as ClientId)
        } else {
            before
        }
    }
}

impl Tasks {
    /// Status of the incoming connection task.
    pub closed spec fn incoming_task(&self) -> TaskStatus {
        self.incoming
    }

    /// Reception task of each client slot.
    pub closed spec fn reception_tasks(&self) -> Seq<Option<TaskStatus>> {
        self.reception@
    }

    /// Create a new tasks registry with one free slot per possible client.
    pub fn new(maximum_client: usize) -> (tasks: Tasks)
        ensures
            tasks.incoming_task() == TaskStatus::Ready,
            tasks.reception_tasks() == Seq::new(maximum_client as nat, |i: int| None::<TaskStatus>),
    {
        let mut reception: Vec<Option<TaskStatus>> = Vec::with_capacity(maximum_client);
        let mut i: usize = 0;
        while i < maximum_client
            invariant
                i <= maximum_client,
                reception@ == Seq::new(i as nat, |j: int| None::<TaskStatus>),
            decreases maximum_client - i,
        {
            reception.push(None);
            i = i + 1;
            assert(reception@ =~= Seq::new(i as nat, |j: int| None::<TaskStatus>));
        }
        Tasks { incoming: TaskStatus::Ready, reception }
    }

    /// Count of client slots.
    pub fn slot_count(&self) -> (count: usize)
        ensures
            count == self.reception_tasks().len(),
    {
        self.reception.len()
    }

    /// Jobs of the next pool: the incoming job when its task is ready (it is
    /// then in progress), and a reception job for every client whose task is
    /// ready. Reception tasks are left as they are.
    pub fn schedule(&mut self) -> (jobs: ScheduledJobs)
        requires
            old(self).reception_tasks().len() <= MAXIMUM_SLOTS,
        ensures
            jobs.incoming == (old(self).incoming_task() == TaskStatus::Ready),
            final(self).incoming_task() == TaskStatus::InProgress,
            final(self).reception_tasks() == old(self).reception_tasks(),
            jobs.receive@ == ready_ids(old(self).reception_tasks(), old(self).reception_tasks().len() as int),
    {
        let incoming = match self.incoming {
            TaskStatus::Ready => true,
            TaskStatus::InProgress => false,
        };
        self.incoming = TaskStatus::InProgress;
        let mut receive: Vec<ClientId> = Vec::new();
        let mut client_id: usize = 0;
        while client_id < self.reception.len()
            invariant
                client_id <= self.reception@.len() <= MAXIMUM_SLOTS,
                receive@ == ready_ids(self.reception@, client_id as int),
            decreases self.reception@.len() - client_id,
        {
            match self.reception[client_id] {
                Some(TaskStatus::Ready) => receive.push(client_id as ClientId),
                _ => {},
            }
            client_id = client_id + 1;
        }
        ScheduledJobs { incoming, receive }
    }

    /// The incoming connection job is done: its task is ready again.
    pub fn incoming_done(&mut self)
        ensures
            final(self).incoming_task() == TaskStatus::Ready,
            final(self).reception_tasks() == old(self).reception_tasks(),
    {
        self.incoming = TaskStatus::Ready;
    }

    /// Mark the reception task of a client ready (client connected, or its
    /// reception job done).
    pub fn reception_ready(&mut self, client_id: ClientId)
        requires
            (client_id as int) < old(self).reception_tasks().len(),
        ensures
            final(self).incoming_task() == old(self).incoming_task(),
            final(self).reception_tasks() == old(self).reception_tasks().update(client_id as int, Some(TaskStatus::Ready)),
    {
        self.reception.set(client_id as usize, Some(TaskStatus::Ready));
    }

    /// Free the slot of a client (client gone).
    pub fn remove_client(&mut self, client_id: ClientId)
        requires
            (client_id as int) < old(self).reception_tasks().len(),
        ensures
            final(self).incoming_task() == old(self).incoming_task(),
            final(self).reception_tasks() == old(self).reception_tasks().update(client_id as int, None),
    {
        self.reception.set(client_id as usize, None);
    }
}

/// The largest count of client slots: one per `ClientId`.
pub const MAXIMUM_SLOTS: usize = 65536;

/// A reception job is scheduled for a client exactly when its reception task
/// is ready, and the jobs come by strictly increasing client id.
pub proof fn lemma_ready_ids_exact(reception: Seq<Option<TaskStatus>>, bound: int)
    requires
        0 <= bound <= reception.len(),
        reception.len() <= MAXIMUM_SLOTS,
    ensures
        forall|id: int| 0 <= id < bound ==> (ready_ids(reception, bound).contains(id as ClientId)
            <==> reception[id] == Some(TaskStatus::Ready)),
        forall|i: int, j: int| 0 <= i < j < ready_ids(reception, bound).len()
            ==> ready_ids(reception, bound)[i] < ready_ids(reception, bound)[j],
        forall|i: int| 0 <= i < ready_ids(reception, bound).len() ==> ready_ids(reception, bound)[i] < bound,
    decreases bound,
{
    if bound > 0 {
        lemma_ready_ids_exact(reception, bound - 1);
        let before = ready_ids(reception, bound - 1);
        if reception[bound - 1] == Some(TaskStatus::Ready) {
            let after = before.push((bound - 1) as ClientId);
            assert forall|id: int| 0 <= id < bound implies (after.contains(id as ClientId)
                <==> reception[id] == Some(TaskStatus::Ready)) by {
                if id < bound - 1 {
                    if after.contains(id as ClientId) {
                        let k = choose|k: int| 0 <= k < after.len() && after[k] == id as ClientId;
                        if k == after.len() - 1 {
                            assert(after[k] == (bound - 1) as ClientId);
                        } else {
                            assert(before[k] == id as ClientId);
                        }
                    }
                    if reception[id] == Some(TaskStatus::Ready) {
                        let k = choose|k: int| 0 <= k < before.len() && before[k] == id as ClientId;
                        assert(after[k] == id as ClientId);
                    }
                } else {
                    assert(after[after.len() - 1] == id as ClientId);
                }
            }
        } else {
            assert forall|id: int| 0 <= id < bound implies (before.contains(id as ClientId)
                <==> reception[id] == Some(TaskStatus::Ready)) by {
                if id == bound - 1 && before.contains(id as ClientId) {
                    let k = choose|k: int| 0 <= k < before.len() && before[k] == id as ClientId;
                    assert(before[k] < bound - 1);
                }
            }
        }
    }
}

} // verus!
