//! The worker that hands the window manager's messages on to the bar.

use vstd::prelude::*;

verus! {

/// What the worker does next: wait for a message, read the latest one, hand on the one
/// just read, or nothing any more.
#[derive(Clone, Copy, PartialEq, Eq, Debug, Structural)]
pub enum Phase {
    Waiting,
    Reading,
    Sending,
    Stopped,
}

/// What came of what the worker did.
#[derive(Clone, Copy, PartialEq, Eq, Debug, Structural)]
pub enum WorkerEvent {
    Ready,
    TimedOut,
    WaitFailed,
    Message { timestamp: u128 },
    NoMessage,
    Sent,
    SendFailed,
}

/// The worker: its phase, and the timestamp of the last message it took up.
#[derive(Clone, Copy, PartialEq, Eq, Debug, Structural)]
pub struct Worker {
    pub phase: Phase,
    pub prev_timestamp: u128,
}

impl Worker {
    /// The worker at its start.
    pub open spec fn started(has_buffer: bool, now_millis: u128) -> Worker {
        Worker {
            phase: if has_buffer {
                Phase::Waiting
            } else {
                Phase::Stopped
            },
            prev_timestamp: now_millis,
        }
    }

    /// The worker after an event. A message is handed on where its timestamp is another
    /// than that of the message before it. An event that does not belong to the phase
    /// changes nothing.
    pub open spec fn after(self, event: WorkerEvent) -> Worker {
        match (self.phase, event) {
            (Phase::Waiting, WorkerEvent::Ready) => Worker { phase: Phase::Reading, ..self },
            (Phase::Waiting, WorkerEvent::WaitFailed) => Worker { phase: Phase::Stopped, ..self },
            (Phase::Reading, WorkerEvent::Message { timestamp }) => if timestamp
                != self.prev_timestamp {
                Worker { phase: Phase::Sending, prev_timestamp: timestamp }
            } else {
                Worker { phase: Phase::Waiting, ..self }
            },
            (Phase::Reading, WorkerEvent::NoMessage) => Worker { phase: Phase::Waiting, ..self },
            (Phase::Sending, WorkerEvent::Sent) => Worker { phase: Phase::Waiting, ..self },
            (Phase::Sending, WorkerEvent::SendFailed) => Worker { phase: Phase::Stopped, ..self },
            _ => self,
        }
    }

    /// Starts the worker at a time. Without a buffer to read from it has nothing to do.
    pub fn start(has_buffer: bool, now_millis: u128) -> (worker: Worker)
        ensures
            worker == Worker::started(has_buffer, now_millis),
    {
        Worker {
            phase: if has_buffer {
                Phase::Waiting
            } else {
                Phase::Stopped
            },
            prev_timestamp: now_millis,
        }
    }

    /// Takes up an event.
    pub fn step(self, event: WorkerEvent) -> (worker: Worker)
        ensures
            worker == self.after(event),
    {
        match (self.phase, event) {
            (Phase::Waiting, WorkerEvent::Ready) => Worker { phase: Phase::Reading, ..self },
            (Phase::Waiting, WorkerEvent::WaitFailed) => Worker { phase: Phase::Stopped, ..self },
            (Phase::Reading, WorkerEvent::Message { timestamp }) => {
                if timestamp != self.prev_timestamp {
                    Worker { phase: Phase::Sending, prev_timestamp: timestamp }
                } else {
                    Worker { phase: Phase::Waiting, ..self }
                }
            },
            (Phase::Reading, WorkerEvent::NoMessage) => Worker { phase: Phase::Waiting, ..self },
            (Phase::Sending, WorkerEvent::Sent) => Worker { phase: Phase::Waiting, ..self },
            (Phase::Sending, WorkerEvent::SendFailed) => Worker { phase: Phase::Stopped, ..self },
            _ => self,
        }
    }
}

/// The timestamps of the messages that a worker hands on in the course of events.
pub open spec fn handed_on(worker: Worker, events: Seq<WorkerEvent>) -> Seq<u128>
    decreases events.len(),
{
    if events.len() == 0 {
        Seq::empty()
    } else {
        let next = worker.after(events[0]);
        let rest = handed_on(next, events.drop_first());
        if worker.phase == Phase::Reading && next.phase == Phase::Sending {
            seq![next.prev_timestamp] + rest
        } else {
            rest
        }
    }
}

/// No two messages that are handed on one after the other have the same timestamp, and
/// the first has another one than the worker held before.
pub proof fn lemma_no_repeats(worker: Worker, events: Seq<WorkerEvent>)
    ensures
        handed_on(worker, events).len() > 0 ==> handed_on(worker, events)[0]
            != worker.prev_timestamp,
        forall|i: int|
            0 < i < handed_on(worker, events).len() ==> #[trigger] handed_on(worker, events)[i]
                != handed_on(worker, events)[i - 1],
    decreases events.len(),
{
    if events.len() > 0 {
        let next = worker.after(events[0]);
        lemma_no_repeats(next, events.drop_first());
        let rest = handed_on(next, events.drop_first());
        let all = handed_on(worker, events);
        if worker.phase == Phase::Reading && next.phase == Phase::Sending {
            assert forall|i: int| 0 < i < all.len() implies #[trigger] all[i] != all[i - 1] by {
                assert(all[i] == rest[i - 1]);
                if i > 1 {
                    assert(all[i - 1] == rest[i - 2]);
                }
            }
        }
    }
}

/// A worker that has stopped hands nothing on any more, whatever happens. A worker
/// without a buffer is one from the start.
pub proof fn lemma_stopped_is_silent(worker: Worker, events: Seq<WorkerEvent>)
    requires
        worker.phase == Phase::Stopped,
    ensures
        handed_on(worker, events).len() == 0,
    decreases events.len(),
{
    if events.len() > 0 {
        lemma_stopped_is_silent(worker.after(events[0]), events.drop_first());
    }
}

/// A message with a new timestamp is handed on as soon as the worker reads it, and what
/// the worker then does depends on whether that worked.
pub proof fn lemma_new_message_is_handed_on(worker: Worker, timestamp: u128)
    requires
        worker.phase == Phase::Waiting,
        timestamp != worker.prev_timestamp,
    ensures
        handed_on(worker, seq![WorkerEvent::Ready, WorkerEvent::Message { timestamp }]) == seq![
            timestamp,
        ],
        worker.after(WorkerEvent::Ready).after(WorkerEvent::Message { timestamp }).after(
            WorkerEvent::Sent,
        ) == (Worker { phase: Phase::Waiting, prev_timestamp: timestamp }),
        worker.after(WorkerEvent::Ready).after(WorkerEvent::Message { timestamp }).after(
            WorkerEvent::SendFailed,
        ).phase == Phase::Stopped,
{
    reveal_with_fuel(handed_on, 3);
    let events = seq![WorkerEvent::Ready, WorkerEvent::Message { timestamp }];
    assert(events.drop_first() =~= seq![WorkerEvent::Message { timestamp }]);
    assert(events.drop_first().drop_first() =~= Seq::empty());
    assert(handed_on(worker, events) =~= seq![timestamp]);
}

/// Whether the thread that samples the system goes on.
pub open spec fn goes_on_after(handed: Option<bool>) -> bool {
    handed != Some(false)
}

/// Whether the thread that samples the system goes on, given what came of handing on its
/// last reading; it had none to hand on before the first one.
pub fn sampling_continues(handed: Option<bool>) -> (goes_on: bool)
    ensures
        goes_on == (handed != Some(false)),
        goes_on == goes_on_after(handed),
{
    match handed {
        Some(ok) => ok,
        None => true,
    }
}

} // verus!
