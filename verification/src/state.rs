use std::collections::HashMap;

use vstd::prelude::*;

use crate::channels::{mpsc_receiver_channel, mpsc_sender_channel, mpsc_unbounded_channel};
use crate::message::SchedulerMessage;
use crate::thread::SchedulerThreadId;
use crate::value::ScheduleError;

verus! {

broadcast use vstd::std_specs::hash::group_hash_axioms;

/// The counters, flags and per-thread error slots shared between the script
/// domain and the background domain, together with the endpoints of the
/// message bus that wakes the run loop.
pub struct SchedulerState {
    /// The write-once exit code requested from script code, if any.
    pub exit_code: Option<u8>,
    /// How many thread resumptions have ended in a script error.
    pub error_count: u64,
    /// How many spawned futures are still outstanding: incremented strictly
    /// on spawn, decremented strictly on completion, never negative.
    pub future_count: u64,
    /// The thread being resumed right now, if any; at most one resume is
    /// ever in flight system-wide.
    pub current_thread_id: Option<SchedulerThreadId>,
    /// Pending asynchronous errors, keyed by thread identity; each slot is
    /// consumed exactly once, by `take_thread_error`.
    pub thread_errors: HashMap<u64, String>,
    /// The producer side of the message bus; cloned freely.
    pub message_sender: tokio::sync::mpsc::UnboundedSender<SchedulerMessage>,
    /// The single consumer side of the message bus, until it is taken.
    pub message_receiver: Option<tokio::sync::mpsc::UnboundedReceiver<SchedulerMessage>>,
}

/// Holds when `post` agrees with `pre` on every field but the pending
/// thread-error slots.
pub open spec fn agrees_except_thread_errors(pre: SchedulerState, post: SchedulerState) -> bool {
    &&& post.exit_code == pre.exit_code
    &&& post.error_count == pre.error_count
    &&& post.future_count == pre.future_count
    &&& post.current_thread_id == pre.current_thread_id
    &&& post.message_sender == pre.message_sender
    &&& post.message_receiver == pre.message_receiver
}

/// The full effect of `set_exit_code`: the first call stores the code and
/// succeeds; any call on a state that already has one fails and changes
/// nothing.
pub open spec fn set_exit_code_spec(
    pre: SchedulerState,
    code: u8,
    post: SchedulerState,
    r: Result<(), ScheduleError>,
) -> bool {
    if pre.exit_code is None {
        &&& r == Ok::<(), ScheduleError>(())
        &&& post == (SchedulerState { exit_code: Some(code), ..pre })
    } else {
        &&& r == Err::<(), ScheduleError>(ScheduleError::ExitCodeAlreadySet)
        &&& post == pre
    }
}

/// The full effect of `decrement_future_count`: with a future outstanding
/// the count goes down by one; with none the call reports an underflow (a
/// completion that was never spawned) and changes nothing.
pub open spec fn decrement_future_count_spec(
    pre: SchedulerState,
    post: SchedulerState,
    r: Result<(), ScheduleError>,
) -> bool {
    if pre.future_count > 0 {
        &&& r == Ok::<(), ScheduleError>(())
        &&& post == (SchedulerState { future_count: (pre.future_count - 1) as u64, ..pre })
    } else {
        &&& r == Err::<(), ScheduleError>(ScheduleError::FutureCountUnderflow)
        &&& post == pre
    }
}

impl SchedulerState {
    /// A fresh state: no exit code, no errors, no outstanding futures, no
    /// resume in flight, no pending thread errors, and a newly created
    /// message bus — its sender and its not-yet-taken receiver being the
    /// two ends of one channel.
    pub fn new() -> (s: SchedulerState)
        ensures
            s.exit_code is None,
            s.error_count == 0,
            s.future_count == 0,
            s.current_thread_id is None,
            s.thread_errors@ == Map::<u64, String>::empty(),
            (s.message_receiver matches Some(rx) && mpsc_sender_channel(s.message_sender)
                == mpsc_receiver_channel(rx)),
    {
        let (tx, rx) = mpsc_unbounded_channel();
        SchedulerState {
            exit_code: None,
            error_count: 0,
            future_count: 0,
            current_thread_id: None,
            thread_errors: HashMap::new(),
            message_sender: tx,
            message_receiver: Some(rx),
        }
    }

    /// The exit code, if one was set.
    pub fn exit_code(&self) -> (c: Option<u8>)
        ensures
            c == self.exit_code,
    {
        self.exit_code
    }

    /// Whether an exit code was set.
    pub fn has_exit_code(&self) -> (b: bool)
        ensures
            b == (self.exit_code is Some),
    {
        self.exit_code.is_some()
    }

    /// Stores the exit code. The code is write-once: a second call fails
    /// deterministically and leaves the state unchanged.
    pub fn set_exit_code(&mut self, code: u8) -> (r: Result<(), ScheduleError>)
        ensures
            set_exit_code_spec(*old(self), code, *final(self), r),
    {
        if self.exit_code.is_some() {
            return Err(ScheduleError::ExitCodeAlreadySet);
        }
        self.exit_code = Some(code);
        Ok(())
    }

    /// Counts one failed resumption.
    pub fn increment_error_count(&mut self)
        requires
            old(self).error_count < u64::MAX,
        ensures
            *final(self) == (SchedulerState { error_count: (old(self).error_count + 1) as u64, ..*old(self) }),
    {
        self.error_count = self.error_count + 1;
    }

    /// Whether any resumption has failed so far.
    pub fn has_errored(&self) -> (b: bool)
        ensures
            b == (self.error_count > 0),
    {
        self.error_count > 0
    }

    /// Counts one spawned future.
    pub fn increment_future_count(&mut self)
        requires
            old(self).future_count < u64::MAX,
        ensures
            *final(self) == (SchedulerState { future_count: (old(self).future_count + 1) as u64, ..*old(self) }),
    {
        self.future_count = self.future_count + 1;
    }

    /// Counts one completed future. A completion with no future outstanding
    /// is a broken contract and is reported, not absorbed.
    pub fn decrement_future_count(&mut self) -> (r: Result<(), ScheduleError>)
        ensures
            decrement_future_count_spec(*old(self), *final(self), r),
    {
        if self.future_count == 0 {
            return Err(ScheduleError::FutureCountUnderflow);
        }
        self.future_count = self.future_count - 1;
        Ok(())
    }

    /// Whether any spawned future is still outstanding.
    pub fn has_futures(&self) -> (b: bool)
        ensures
            b == (self.future_count > 0),
    {
        self.future_count > 0
    }

    /// Marks which thread is being resumed right now (or that none is).
    pub fn set_current_thread_id(&mut self, id: Option<SchedulerThreadId>)
        ensures
            *final(self) == (SchedulerState { current_thread_id: id, ..*old(self) }),
    {
        self.current_thread_id = id;
    }

    /// The thread being resumed right now, if any.
    pub fn get_current_thread_id(&self) -> (id: Option<SchedulerThreadId>)
        ensures
            id == self.current_thread_id,
    {
        self.current_thread_id
    }

    /// Attaches an asynchronous error to a thread's pending-error slot,
    /// replacing whatever the slot held.
    pub fn record_thread_error(&mut self, id: SchedulerThreadId, err: String)
        ensures
            final(self).thread_errors@ == old(self).thread_errors@.insert(id.0, err),
            agrees_except_thread_errors(*old(self), *final(self)),
    {
        self.thread_errors.insert(id.0, err);
    }

    /// Reads and clears a thread's pending-error slot: the slot is consumed
    /// exactly once.
    pub fn take_thread_error(&mut self, id: SchedulerThreadId) -> (r: Option<String>)
        ensures
            final(self).thread_errors@ == old(self).thread_errors@.remove(id.0),
            r is Some <==> old(self).thread_errors@.contains_key(id.0),
            r matches Some(e) ==> e == old(self).thread_errors@[id.0],
            agrees_except_thread_errors(*old(self), *final(self)),
    {
        self.thread_errors.remove(&id.0)
    }
}

} // verus!
