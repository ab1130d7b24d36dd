use std::collections::HashMap;
use std::collections::VecDeque;

use vstd::prelude::*;

use crate::channels::{
    broadcast_channel, broadcast_receiver_count, broadcast_receiver_channel, broadcast_send,
    broadcast_sender_channel, broadcast_subscribe, mpsc_receiver_channel, mpsc_send,
    mpsc_sender_channel,
};
use crate::message::SchedulerMessage;
use crate::state::{
    agrees_except_thread_errors, decrement_future_count_spec, set_exit_code_spec, SchedulerState,
};
use crate::thread::{SchedulerThread, SchedulerThreadId};
use crate::value::{ScheduleError, ScriptValue, ThreadResult};

verus! {

broadcast use vstd::std_specs::hash::group_hash_axioms, vstd::std_specs::vecdeque::group_vec_dequeue_axioms;

/// What became of one terminal thread result.
#[derive(Debug, Clone, Copy, PartialEq, Eq, Structural)]
pub enum Delivery {
    /// No observer ever registered interest: the result was discarded.
    NoChannel,
    /// A channel existed, but every subscriber had gone: discarded.
    NoReceivers,
    /// The result was broadcast to this many subscribers, exactly once.
    Sent(usize),
    /// A channel with live subscribers refused the send. This is a broken
    /// internal contract; a host that sees it must abort.
    SendFailed,
}

/// The full effect of delivering a result for thread `id` on the result
/// channel table: the entry, if any, is removed — so a result can be
/// delivered at most once per thread — and the delivery is reported as
/// discarded exactly when no observer had registered interest.
pub open spec fn deliver_result_spec(
    pre: Map<u64, tokio::sync::broadcast::Sender<ThreadResult>>,
    id: u64,
    post: Map<u64, tokio::sync::broadcast::Sender<ThreadResult>>,
    d: Delivery,
) -> bool {
    &&& post == pre.remove(id)
    &&& (d == Delivery::NoChannel <==> !pre.contains_key(id))
}

/// Scheduler for cooperative script threads and background futures.
///
/// It owns the FIFO ready queue, the table of per-thread result channels,
/// and the shared state both execution domains read. The host resumes
/// threads and awaits futures; every decision about what runs next, and all
/// bookkeeping, happens here.
pub struct Scheduler {
    /// Counters, flags, pending errors, and the message bus endpoints.
    pub state: SchedulerState,
    /// The FIFO queue of threads ready to be resumed.
    pub threads: VecDeque<SchedulerThread>,
    /// Fan-out result channels, keyed by thread identity; each entry is
    /// created lazily by the first observer and removed on delivery.
    pub thread_senders: HashMap<u64, tokio::sync::broadcast::Sender<ThreadResult>>,
    /// The next unused thread identity; identities are never reused.
    pub next_thread_id: u64,
}

impl Scheduler {
    /// Every thread identity the scheduler has handed out so far is below
    /// `next_thread_id`, wherever it is held.
    pub open spec fn wf(&self) -> bool {
        &&& forall|i: int|
            0 <= i < self.threads@.len() ==> (#[trigger] self.threads@[i]).id.0
                < self.next_thread_id
        &&& forall|k: u64|
            #[trigger] self.state.thread_errors@.contains_key(k) ==> k < self.next_thread_id
        &&& forall|k: u64|
            #[trigger] self.thread_senders@.contains_key(k) ==> k < self.next_thread_id
        &&& match self.state.current_thread_id {
            Some(id) => id.0 < self.next_thread_id,
            None => true,
        }
    }

    /// Whether the scheduler has handed out this thread identity.
    pub open spec fn valid_id(&self, id: SchedulerThreadId) -> bool {
        id.0 < self.next_thread_id
    }

    /// Creates a new scheduler: empty queue, no observers, fresh shared
    /// state, and a fresh message bus whose receiver is still available.
    pub fn new() -> (s: Scheduler)
        ensures
            s.wf(),
            s.state.exit_code is None,
            s.state.error_count == 0,
            s.state.future_count == 0,
            s.state.current_thread_id is None,
            s.state.thread_errors@ == Map::<u64, String>::empty(),
            (s.state.message_receiver matches Some(rx) && mpsc_sender_channel(
                s.state.message_sender,
            ) == mpsc_receiver_channel(rx)),
            s.threads@ == Seq::<SchedulerThread>::empty(),
            s.thread_senders@ == Map::<u64, tokio::sync::broadcast::Sender<ThreadResult>>::empty(),
            s.next_thread_id == 0,
    {
        Scheduler {
            state: SchedulerState::new(),
            threads: VecDeque::new(),
            thread_senders: HashMap::new(),
            next_thread_id: 0,
        }
    }

    /// Appends a brand-new thread, bound to its resumption arguments, at
    /// the tail of the FIFO queue, signals "thread pushed" on the message
    /// bus, and returns the thread's fresh identity.
    pub fn push_back(&mut self, args: Vec<ScriptValue>) -> (id: SchedulerThreadId)
        requires
            old(self).wf(),
            old(self).next_thread_id < u64::MAX,
        ensures
            final(self).wf(),
            id.0 == old(self).next_thread_id,
            final(self).next_thread_id == old(self).next_thread_id + 1,
            final(self).threads@ == old(self).threads@.push(SchedulerThread { id, args }),
            final(self).state == old(self).state,
            final(self).thread_senders == old(self).thread_senders,
            forall|i: int|
                0 <= i < old(self).threads@.len() ==> (#[trigger] old(self).threads@[i]).id != id,
    {
        let id = SchedulerThreadId(self.next_thread_id);
        self.next_thread_id = self.next_thread_id + 1;
        self.threads.push_back(SchedulerThread { id, args });
        mpsc_send(&self.state.message_sender, SchedulerMessage::PushedLuaThread);
        id
    }

    /// Re-enqueues a thread the scheduler already knows — one that yielded,
    /// or one woken by a completed future — at the tail of the queue, never
    /// ahead of already-queued threads, and signals "thread pushed".
    pub fn push_existing(&mut self, id: SchedulerThreadId, args: Vec<ScriptValue>)
        requires
            old(self).wf(),
            old(self).valid_id(id),
        ensures
            final(self).wf(),
            final(self).threads@ == old(self).threads@.push(SchedulerThread { id, args }),
            final(self).next_thread_id == old(self).next_thread_id,
            final(self).state == old(self).state,
            final(self).thread_senders == old(self).thread_senders,
    {
        self.threads.push_back(SchedulerThread { id, args });
        mpsc_send(&self.state.message_sender, SchedulerMessage::PushedLuaThread);
    }

    /// Removes and returns the head of the FIFO queue, or nothing when the
    /// queue is empty.
    pub fn pop_thread(&mut self) -> (r: Option<SchedulerThread>)
        requires
            old(self).wf(),
        ensures
            final(self).wf(),
            final(self).next_thread_id == old(self).next_thread_id,
            final(self).state == old(self).state,
            final(self).thread_senders == old(self).thread_senders,
            (match r {
                Some(t) => {
                    &&& old(self).threads@.len() > 0
                    &&& t == old(self).threads@[0]
                    &&& final(self).threads@ == old(self).threads@.subrange(
                        1,
                        old(self).threads@.len() as int,
                    )
                },
                None => {
                    &&& old(self).threads@.len() == 0
                    &&& final(self).threads@ == old(self).threads@
                },
            }),
    {
        self.threads.pop_front()
    }

    /// Whether any thread is waiting in the ready queue.
    pub fn has_thread(&self) -> (b: bool)
        ensures
            b == (self.threads@.len() > 0),
    {
        self.threads.len() > 0
    }

    /// Registers interest in a thread's outcome: creates the thread's
    /// result channel on demand and returns a fresh subscription to it —
    /// the returned receiver reads the very channel now stored for the
    /// thread, the one `deliver_result` will broadcast on. The receiver
    /// sees the terminal result if and only if it is delivered after this
    /// call; a subscription made after delivery receives nothing, a
    /// deliberate, documented race.
    pub fn subscribe_thread_result(&mut self, id: SchedulerThreadId) -> (rx: tokio::sync::broadcast::Receiver<ThreadResult>)
        requires
            old(self).wf(),
            old(self).valid_id(id),
        ensures
            final(self).wf(),
            final(self).thread_senders@.contains_key(id.0),
            broadcast_receiver_channel(rx) == broadcast_sender_channel(
                final(self).thread_senders@[id.0],
            ),
            final(self).thread_senders@.dom() == old(self).thread_senders@.dom().insert(id.0),
            forall|k: u64|
                k != id.0 && #[trigger] old(self).thread_senders@.contains_key(k)
                    ==> final(self).thread_senders@[k] == old(self).thread_senders@[k],
            old(self).thread_senders@.contains_key(id.0) ==> final(self).thread_senders@
                == old(self).thread_senders@,
            final(self).threads@ == old(self).threads@,
            final(self).state == old(self).state,
            final(self).next_thread_id == old(self).next_thread_id,
    {
        if !self.thread_senders.contains_key(&id.0) {
            let (tx, _first_rx) = broadcast_channel(1);
            self.thread_senders.insert(id.0, tx);
            proof {
                assert(self.thread_senders@.dom() =~= old(self).thread_senders@.dom().insert(
                    id.0,
                ));
            }
        } else {
            proof {
                assert(self.thread_senders@.dom() =~= self.thread_senders@.dom().insert(id.0));
            }
        }
        match self.thread_senders.get(&id.0) {
            Some(tx) => broadcast_subscribe(tx),
            None => {
                proof {
                    assert(false);
                }
                vstd::pervasive::unreached()
            },
        }
    }

    /// Delivers a thread's terminal result to its observers: removes the
    /// thread's channel entry — a result is delivered at most once — and
    /// broadcasts the result when the channel exists and still has a live
    /// subscriber; with no channel or no subscriber the result is
    /// discarded, which is not an error.
    pub fn deliver_result(&mut self, id: SchedulerThreadId, result: ThreadResult) -> (d: Delivery)
        requires
            old(self).wf(),
        ensures
            final(self).wf(),
            deliver_result_spec(old(self).thread_senders@, id.0, final(self).thread_senders@, d),
            d matches Delivery::Sent(n) ==> n >= 1,
            final(self).threads@ == old(self).threads@,
            final(self).state == old(self).state,
            final(self).next_thread_id == old(self).next_thread_id,
    {
        match self.thread_senders.remove(&id.0) {
            None => {
                proof {
                    assert(old(self).thread_senders@.remove(id.0) =~= old(self).thread_senders@);
                }
                Delivery::NoChannel
            },
            Some(tx) => {
                if broadcast_receiver_count(&tx) == 0 {
                    Delivery::NoReceivers
                } else {
                    match broadcast_send(&tx, result) {
                        Some(n) => Delivery::Sent(n),
                        None => Delivery::SendFailed,
                    }
                }
            },
        }
    }

    /// Stores the exit code and signals it on the message bus. The code is
    /// write-once: a second call fails deterministically, changes nothing,
    /// and must be treated as fatal by the host.
    pub fn set_exit_code(&mut self, code: u8) -> (r: Result<(), ScheduleError>)
        requires
            old(self).wf(),
        ensures
            final(self).wf(),
            set_exit_code_spec(old(self).state, code, final(self).state, r),
            final(self).threads@ == old(self).threads@,
            final(self).thread_senders == old(self).thread_senders,
            final(self).next_thread_id == old(self).next_thread_id,
    {
        match self.state.set_exit_code(code) {
            Ok(()) => {
                mpsc_send(&self.state.message_sender, SchedulerMessage::ExitCodeSet);
                Ok(())
            },
            Err(e) => Err(e),
        }
    }

    /// Counts a newly spawned future — incremented strictly on spawn — and
    /// signals "future spawned" on the message bus.
    pub fn future_spawned(&mut self)
        requires
            old(self).wf(),
            old(self).state.future_count < u64::MAX,
        ensures
            final(self).wf(),
            final(self).state == (SchedulerState {
                future_count: (old(self).state.future_count + 1) as u64,
                ..old(self).state
            }),
            final(self).threads@ == old(self).threads@,
            final(self).thread_senders == old(self).thread_senders,
            final(self).next_thread_id == old(self).next_thread_id,
    {
        self.state.increment_future_count();
        mpsc_send(&self.state.message_sender, SchedulerMessage::FutureSpawned);
    }

    /// Counts a completed future — decremented strictly on completion — and
    /// signals "future completed" on the message bus. A completion with no
    /// future outstanding is a broken contract and is reported as such.
    pub fn future_completed(&mut self) -> (r: Result<(), ScheduleError>)
        requires
            old(self).wf(),
        ensures
            final(self).wf(),
            decrement_future_count_spec(old(self).state, final(self).state, r),
            final(self).threads@ == old(self).threads@,
            final(self).thread_senders == old(self).thread_senders,
            final(self).next_thread_id == old(self).next_thread_id,
    {
        match self.state.decrement_future_count() {
            Ok(()) => {
                mpsc_send(&self.state.message_sender, SchedulerMessage::FutureCompleted);
                Ok(())
            },
            Err(e) => Err(e),
        }
    }

    /// Hands a bridged future's outcome back to its thread. On success the
    /// future's output becomes the thread's resumption arguments and the
    /// thread is re-enqueued at the tail; on failure the error is written
    /// to the thread's pending-error slot and the thread is still
    /// re-enqueued, with no arguments, so that it runs and observes the
    /// error at its next interrupt checkpoint.
    pub fn complete_bridged(&mut self, id: SchedulerThreadId, result: Result<Vec<ScriptValue>, String>)
        requires
            old(self).wf(),
            old(self).valid_id(id),
        ensures
            final(self).wf(),
            final(self).threads@ == old(self).threads@.push(final(self).threads@.last()),
            final(self).threads@.last().id == id,
            final(self).next_thread_id == old(self).next_thread_id,
            final(self).thread_senders == old(self).thread_senders,
            (match result {
                Ok(v) => {
                    &&& final(self).threads@.last().args == v
                    &&& final(self).state == old(self).state
                },
                Err(e) => {
                    &&& final(self).threads@.last().args@ == Seq::<ScriptValue>::empty()
                    &&& final(self).state.thread_errors@ == old(
                        self,
                    ).state.thread_errors@.insert(id.0, e)
                    &&& agrees_except_thread_errors(old(self).state, final(self).state)
                },
            }),
    {
        match result {
            Ok(v) => {
                self.push_existing(id, v);
            },
            Err(e) => {
                self.state.record_thread_error(id, e);
                self.push_existing(id, Vec::new());
            },
        }
    }

    /// The interrupt checkpoint: called by the host at every point where
    /// the VM allows the currently resuming thread to be inspected. If a
    /// thread is being resumed and an asynchronous error is pending for it,
    /// the error is consumed — each slot is read exactly once — and
    /// returned so the host aborts that thread's current step with it.
    pub fn check_interrupt(&mut self) -> (r: Option<String>)
        requires
            old(self).wf(),
        ensures
            final(self).wf(),
            final(self).threads@ == old(self).threads@,
            final(self).thread_senders == old(self).thread_senders,
            final(self).next_thread_id == old(self).next_thread_id,
            (match old(self).state.current_thread_id {
                Some(id) => {
                    &&& (r is Some <==> old(self).state.thread_errors@.contains_key(id.0))
                    &&& (r matches Some(e) ==> e == old(self).state.thread_errors@[id.0])
                    &&& final(self).state.thread_errors@ == old(self).state.thread_errors@.remove(
                        id.0,
                    )
                    &&& agrees_except_thread_errors(old(self).state, final(self).state)
                },
                None => {
                    &&& r is None
                    &&& *final(self) == *old(self)
                },
            }),
    {
        match self.state.get_current_thread_id() {
            Some(id) => self.state.take_thread_error(id),
            None => None,
        }
    }
}

} // verus!
