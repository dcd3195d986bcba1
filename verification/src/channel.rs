//! Thread channels of `std::sync::mpsc`, seen from verified code.
//!
//! Whether a value is delivered, or which value arrives next, depends on
//! the threads at the other end of a channel; the items below therefore
//! promise nothing about their outcome. Verified code takes every outcome
//! as an event and decides what to do with it.
use std::sync::mpsc::{Receiver, Sender};
use std::time::Duration;

use vstd::prelude::*;

verus! {

#[verifier::external_type_specification]
#[verifier::external_body]
#[verifier::reject_recursive_types(T)]
pub struct ExSender<T>(std::sync::mpsc::Sender<T>);

#[verifier::external_type_specification]
#[verifier::external_body]
#[verifier::reject_recursive_types(T)]
pub struct ExReceiver<T>(std::sync::mpsc::Receiver<T>);

/// Outcome of a non-blocking receive.
pub enum TryReceive<T> {
    /// A value was waiting in the channel.
    Value(T),
    /// The channel is empty.
    Empty,
    /// Every sender of the channel was dropped.
    Disconnected,
}

/// Outcome of a receive bounded by a duration.
pub enum TimedReceive<T> {
    /// A value arrived in time.
    Value(T),
    /// No value arrived before the duration expired.
    Timeout,
    /// Every sender of the channel was dropped.
    Disconnected,
}

/// A record of the values a component handed to a channel, in order, each
/// with whether the channel took it: `after` is `before` with `value` handed
/// over once more.
pub open spec fn handed_over<T>(before: Seq<(T, bool)>, after: Seq<(T, bool)>, value: T) -> bool {
    &&& after.len() == before.len() + 1
    &&& after == before.push((value, after.last().1))
}

/// Whether the channel took the value last handed to it.
pub open spec fn last_taken<T>(log: Seq<(T, bool)>) -> bool {
    log.last().1
}

/// `after` is `before` with each of `values` handed over, in order.
pub open spec fn handed_over_all<T>(before: Seq<(T, bool)>, after: Seq<(T, bool)>, values: Seq<T>) -> bool {
    &&& after.len() == before.len() + values.len()
    &&& after.subrange(0, before.len() as int) == before
    &&& forall|i: int| 0 <= i < values.len() ==> after[before.len() + i].0 == #[trigger] values[i]
}

/// Nothing handed over is handing over no value.
pub proof fn lemma_handed_over_none<T>(log: Seq<(T, bool)>)
    ensures
        handed_over_all(log, log, Seq::<T>::empty()),
        taken_from(log, log.len() as int),
{
    assert(log.subrange(0, log.len() as int) =~= log);
}

/// Handing over one more value extends the values handed over, and they were
/// all taken when they were before and the last one is.
pub proof fn lemma_handed_over_push<T>(start: Seq<(T, bool)>, before: Seq<(T, bool)>, after: Seq<(T, bool)>, values: Seq<T>, value: T)
    requires
        handed_over_all(start, before, values),
        handed_over(before, after, value),
    ensures
        handed_over_all(start, after, values.push(value)),
        taken_from(after, start.len() as int) == (taken_from(before, start.len() as int) && last_taken(after)),
{
    let from = start.len() as int;
    let pushed = values.push(value);
    assert(after.subrange(0, from) =~= before.subrange(0, from));
    assert forall|i: int| 0 <= i < pushed.len() implies after[from + i].0 == #[trigger] pushed[i] by {
        if i < values.len() {
            assert(after[from + i] == before[from + i]);
            assert(pushed[i] == values[i]);
        }
    }
    if taken_from(before, from) && last_taken(after) {
        assert forall|j: int| from <= j < after.len() implies #[trigger] after[j].1 by {
            if j < before.len() {
                assert(after[j] == before[j]);
            }
        }
    }
    if taken_from(after, from) {
        assert forall|j: int| from <= j < before.len() implies #[trigger] before[j].1 by {
            assert(after[j] == before[j]);
        }
        assert(after[after.len() - 1].1);
    }
}

/// Whether the channel took every value handed to it from position `from` of
/// `log` on.
pub open spec fn taken_from<T>(log: Seq<(T, bool)>, from: int) -> bool {
    forall|i: int| from <= i < log.len() ==> #[trigger] log[i].1
}

/// Creates a channel with `std::sync::mpsc::channel`.
///
/// Nothing is stated of the pair; the two ends are linked by the std runtime.
#[verifier::external_body]
pub(crate) fn new_channel<T>() -> (Sender<T>, Receiver<T>) {
    std::sync::mpsc::channel::<T>()
}

/// Sends `value` with `std::sync::mpsc::Sender::send`; returns `true` when the
/// value was handed to the channel.
///
/// The outcome depends on whether the receiving end is still alive, which is
/// not an argument of the call: nothing is stated of it.
#[verifier::external_body]
pub(crate) fn send_value<T>(sender: &Sender<T>, value: T) -> (sent: bool) {
    sender.send(value).is_ok()
}

/// Clones a sender with `std::sync::mpsc::Sender::clone`.
///
/// The clone feeds the same channel; verified code cannot observe channels,
/// so nothing is stated of it.
#[verifier::external_body]
pub(crate) fn clone_sender<T>(sender: &Sender<T>) -> Sender<T> {
    sender.clone()
}

/// Receives without blocking with `std::sync::mpsc::Receiver::try_recv`.
///
/// Which outcome comes depends on the other threads: nothing is stated of it.
#[verifier::external_body]
pub(crate) fn try_receive<T>(receiver: &Receiver<T>) -> TryReceive<T> {
    match receiver.try_recv() {
        Ok(value) => TryReceive::Value(value),
        Err(std::sync::mpsc::TryRecvError::Empty) => TryReceive::Empty,
        Err(std::sync::mpsc::TryRecvError::Disconnected) => TryReceive::Disconnected,
    }
}

/// Blocks until a value arrives with `std::sync::mpsc::Receiver::recv`;
/// `None` when every sender was dropped.
///
/// Which outcome comes depends on the other threads: nothing is stated of it.
#[verifier::external_body]
pub(crate) fn receive<T>(receiver: &Receiver<T>) -> Option<T> {
    receiver.recv().ok()
}

/// Blocks at most `duration` with `std::sync::mpsc::Receiver::recv_timeout`.
///
/// Which outcome comes depends on the other threads and on the clock:
/// nothing is stated of it.
#[verifier::external_body]
pub(crate) fn receive_timeout<T>(receiver: &Receiver<T>, duration: Duration) -> TimedReceive<T> {
    match receiver.recv_timeout(duration) {
        Ok(value) => TimedReceive::Value(value),
        Err(std::sync::mpsc::RecvTimeoutError::Timeout) => TimedReceive::Timeout,
        Err(std::sync::mpsc::RecvTimeoutError::Disconnected) => TimedReceive::Disconnected,
    }
}

} // verus!
