//! The general laws of the scheduler, stated over the same spec functions
//! its executable contracts use and proved once and for all.

use vstd::prelude::*;

use crate::scheduler::{deliver_result_spec, Delivery};
use crate::state::{set_exit_code_spec, SchedulerState};
use crate::thread::SchedulerThread;
use crate::value::{ScheduleError, ThreadResult};

verus! {

/// One operation on the ready queue, as `push_back` / `push_existing`
/// (whose `ensures` append one thread at the tail) and `pop_thread` (whose
/// `ensures` removes the head) perform it.
pub enum QueueOp {
    /// Append this thread at the tail.
    Push(SchedulerThread),
    /// Remove the head, if any.
    Pop,
}

/// The threads pushed by a sequence of queue operations, in order.
pub open spec fn pushed_of(ops: Seq<QueueOp>) -> Seq<SchedulerThread>
    decreases ops.len(),
{
    if ops.len() == 0 {
        Seq::empty()
    } else {
        match ops[0] {
            QueueOp::Push(t) => seq![t] + pushed_of(ops.drop_first()),
            QueueOp::Pop => pushed_of(ops.drop_first()),
        }
    }
}

/// Replays a sequence of queue operations against a queue, exactly as the
/// contracts of `push_back` / `push_existing` and `pop_thread` describe
/// them, and returns the final queue and the popped threads in pop order.
pub open spec fn run_queue(q: Seq<SchedulerThread>, ops: Seq<QueueOp>) -> (Seq<SchedulerThread>, Seq<SchedulerThread>)
    decreases ops.len(),
{
    if ops.len() == 0 {
        (q, Seq::empty())
    } else {
        match ops[0] {
            QueueOp::Push(t) => run_queue(q.push(t), ops.drop_first()),
            QueueOp::Pop => {
                if q.len() == 0 {
                    run_queue(q, ops.drop_first())
                } else {
                    let rest = run_queue(q.drop_first(), ops.drop_first());
                    (rest.0, seq![q[0]] + rest.1)
                }
            },
        }
    }
}

/// Conservation behind the FIFO law: whatever the interleaving of pushes
/// and pops, the popped threads followed by the remaining queue are exactly
/// the initial queue followed by the pushed threads, in order.
pub proof fn lemma_fifo_conservation(q: Seq<SchedulerThread>, ops: Seq<QueueOp>)
    ensures
        run_queue(q, ops).1 + run_queue(q, ops).0 == q + pushed_of(ops),
    decreases ops.len(),
{
    if ops.len() == 0 {
        assert(run_queue(q, ops).1 + run_queue(q, ops).0 =~= q + pushed_of(ops));
    } else {
        match ops[0] {
            QueueOp::Push(t) => {
                lemma_fifo_conservation(q.push(t), ops.drop_first());
                assert(run_queue(q, ops).1 + run_queue(q, ops).0 =~= q + pushed_of(ops));
            },
            QueueOp::Pop => {
                if q.len() == 0 {
                    lemma_fifo_conservation(q, ops.drop_first());
                } else {
                    lemma_fifo_conservation(q.drop_first(), ops.drop_first());
                    let rest = run_queue(q.drop_first(), ops.drop_first());
                    assert(rest.1 + rest.0 == q.drop_first() + pushed_of(ops.drop_first()));
                    assert((seq![q[0]] + rest.1) + rest.0 =~= seq![q[0]] + (rest.1 + rest.0));
                    assert(seq![q[0]] + (q.drop_first() + pushed_of(ops.drop_first())) =~= q
                        + pushed_of(ops));
                }
            },
        }
    }
}

/// Law: resumption order equals enqueue order. For any interleaving of
/// pushes and pops starting from any queue, the threads popped for
/// resumption are a prefix of the initially queued threads followed by the
/// pushed threads in push order — FIFO, with nothing reordered, duplicated
/// or lost.
pub proof fn lemma_resumption_order_fifo(q: Seq<SchedulerThread>, ops: Seq<QueueOp>)
    ensures
        run_queue(q, ops).1 == (q + pushed_of(ops)).take(run_queue(q, ops).1.len() as int),
{
    lemma_fifo_conservation(q, ops);
    let popped = run_queue(q, ops).1;
    let total = q + pushed_of(ops);
    assert forall|i: int| 0 <= i < popped.len() implies total[i] == popped[i] by {
        assert((popped + run_queue(q, ops).0)[i] == popped[i]);
    }
    assert(popped =~= total.take(popped.len() as int));
}

/// One event touching the count of outstanding futures, as `future_spawned`
/// (increment) and `future_completed` (decrement) perform it.
pub enum FutureEvent {
    /// A future was spawned.
    Spawned,
    /// A spawned future completed.
    Completed,
}

/// The count of outstanding futures after a trace of events, starting from
/// `c0`: incremented strictly on spawn, decremented strictly on completion,
/// changed by no other event.
pub open spec fn future_count_after(c0: int, evs: Seq<FutureEvent>) -> int
    decreases evs.len(),
{
    if evs.len() == 0 {
        c0
    } else {
        match evs[0] {
            FutureEvent::Spawned => future_count_after(c0 + 1, evs.drop_first()),
            FutureEvent::Completed => future_count_after(c0 - 1, evs.drop_first()),
        }
    }
}

/// A valid execution trace: every completion is of a future spawned (and
/// still outstanding) earlier. Exactly these traces arise from the
/// scheduler, since a future can only complete after it was spawned, and
/// completes at most once.
pub open spec fn balanced_from(c0: int, evs: Seq<FutureEvent>) -> bool
    decreases evs.len(),
{
    if evs.len() == 0 {
        true
    } else {
        match evs[0] {
            FutureEvent::Spawned => balanced_from(c0 + 1, evs.drop_first()),
            FutureEvent::Completed => c0 > 0 && balanced_from(c0 - 1, evs.drop_first()),
        }
    }
}

/// Law: the count of outstanding futures is never negative at any point of
/// any valid execution trace. In particular `future_completed` never
/// reports an underflow along such a trace.
pub proof fn lemma_future_count_never_negative(c0: int, evs: Seq<FutureEvent>)
    requires
        0 <= c0,
        balanced_from(c0, evs),
    ensures
        forall|i: int| 0 <= i <= evs.len() ==> future_count_after(c0, #[trigger] evs.take(i)) >= 0,
    decreases evs.len(),
{
    assert(evs.take(0) =~= Seq::<FutureEvent>::empty());
    if evs.len() > 0 {
        let c1: int = match evs[0] {
            FutureEvent::Spawned => c0 + 1,
            FutureEvent::Completed => c0 - 1,
        };
        lemma_future_count_never_negative(c1, evs.drop_first());
        assert forall|i: int| 0 < i <= evs.len() implies future_count_after(
            c0,
            #[trigger] evs.take(i),
        ) >= 0 by {
            assert(evs.take(i).drop_first() =~= evs.drop_first().take(i - 1));
            assert(future_count_after(c0, evs.take(i)) == future_count_after(
                c1,
                evs.drop_first().take(i - 1),
            ));
        }
    }
}

/// How many futures a trace spawns.
pub open spec fn count_spawned(evs: Seq<FutureEvent>) -> int
    decreases evs.len(),
{
    if evs.len() == 0 {
        0
    } else {
        (match evs[0] {
            FutureEvent::Spawned => 1int,
            FutureEvent::Completed => 0int,
        }) + count_spawned(evs.drop_first())
    }
}

/// How many futures a trace completes.
pub open spec fn count_completed(evs: Seq<FutureEvent>) -> int
    decreases evs.len(),
{
    if evs.len() == 0 {
        0
    } else {
        (match evs[0] {
            FutureEvent::Spawned => 0int,
            FutureEvent::Completed => 1int,
        }) + count_completed(evs.drop_first())
    }
}

/// Law: the count of outstanding futures is exactly the spawns minus the
/// completions — no other event ever moves it.
pub proof fn lemma_future_count_is_balance(c0: int, evs: Seq<FutureEvent>)
    ensures
        future_count_after(c0, evs) == c0 + count_spawned(evs) - count_completed(evs),
    decreases evs.len(),
{
    if evs.len() > 0 {
        match evs[0] {
            FutureEvent::Spawned => lemma_future_count_is_balance(c0 + 1, evs.drop_first()),
            FutureEvent::Completed => lemma_future_count_is_balance(c0 - 1, evs.drop_first()),
        }
    }
}

/// Law: the exit code is write-once. After any successful set, every later
/// set — whatever code it carries — fails deterministically with
/// `ExitCodeAlreadySet` and leaves the state unchanged.
pub proof fn lemma_exit_code_write_once(
    s0: SchedulerState,
    s1: SchedulerState,
    s2: SchedulerState,
    c1: u8,
    c2: u8,
    r1: Result<(), ScheduleError>,
    r2: Result<(), ScheduleError>,
)
    requires
        set_exit_code_spec(s0, c1, s1, r1),
        r1 is Ok,
        set_exit_code_spec(s1, c2, s2, r2),
    ensures
        r2 == Err::<(), ScheduleError>(ScheduleError::ExitCodeAlreadySet),
        s2 == s1,
        s1.exit_code == Some(c1),
{
}

/// Law: a terminal result is delivered at most once per thread. Delivering
/// removes the thread's channel entry, so a second delivery for the same
/// thread finds no channel, discards its result and changes nothing.
pub proof fn lemma_result_delivered_at_most_once(
    pre: Map<u64, tokio::sync::broadcast::Sender<ThreadResult>>,
    mid: Map<u64, tokio::sync::broadcast::Sender<ThreadResult>>,
    post: Map<u64, tokio::sync::broadcast::Sender<ThreadResult>>,
    id: u64,
    d1: Delivery,
    d2: Delivery,
)
    requires
        deliver_result_spec(pre, id, mid, d1),
        deliver_result_spec(mid, id, post, d2),
    ensures
        d2 == Delivery::NoChannel,
        post == mid,
{
    assert(!mid.contains_key(id));
    assert(post =~= mid);
}

} // verus!
