use lune_scheduler::{
    Delivery, ExitStatus, ResumeOutcome, RunDirective, ScheduleError, Scheduler,
    SchedulerMessage, SchedulerMessageReceiver, SchedulerMessageSender, SchedulerThread,
    SchedulerThreadId, ScriptValue,
};

fn int_args(values: &[i64]) -> Vec<ScriptValue> {
    values.iter().map(|v| ScriptValue::Int(*v)).collect()
}

fn expect_resume(s: &mut Scheduler) -> SchedulerThread {
    match s.run_step() {
        RunDirective::ResumeThread(t) => t,
        other => panic!("expected a thread to resume, got {:?}", other),
    }
}

fn expect_done(s: &mut Scheduler) -> ExitStatus {
    match s.run_step() {
        RunDirective::Done(status) => status,
        other => panic!("expected the run to be done, got {:?}", other),
    }
}

#[test]
fn fifo_resumption_order() {
    let mut s = Scheduler::new();
    let id_a = s.push_back(int_args(&[1]));
    let id_b = s.push_back(int_args(&[2]));
    let id_c = s.push_back(int_args(&[3]));
    assert_ne!(id_a, id_b);
    assert_ne!(id_b, id_c);

    for (id, n) in [(id_a, 1), (id_b, 2), (id_c, 3)] {
        let t = expect_resume(&mut s);
        assert_eq!(t.id, id);
        assert_eq!(t.args, int_args(&[n]));
        s.begin_resume(t.id);
        s.finish_resume(t.id, ResumeOutcome::Completed(vec![]));
    }
    assert_eq!(expect_done(&mut s), ExitStatus::Success);
}

#[test]
fn fifo_holds_for_pushes_while_draining() {
    let mut s = Scheduler::new();
    let id_a = s.push_back(int_args(&[10]));
    let id_b = s.push_back(int_args(&[20]));

    let t = expect_resume(&mut s);
    assert_eq!(t.id, id_a);
    s.begin_resume(t.id);
    // The thread enqueues new work while the queue is draining: it must go
    // to the tail, behind the already-queued thread.
    let id_c = s.push_back(int_args(&[30]));
    s.finish_resume(t.id, ResumeOutcome::Completed(vec![]));

    let t = expect_resume(&mut s);
    assert_eq!(t.id, id_b);
    s.begin_resume(t.id);
    s.finish_resume(t.id, ResumeOutcome::Completed(vec![]));

    let t = expect_resume(&mut s);
    assert_eq!(t.id, id_c);
    assert_eq!(t.args, int_args(&[30]));
}

#[test]
fn future_count_tracks_spawns_and_completions() {
    let mut s = Scheduler::new();
    assert!(!s.state.has_futures());
    s.future_spawned();
    s.future_spawned();
    assert!(s.state.has_futures());
    assert_eq!(s.state.future_count, 2);
    assert_eq!(s.future_completed(), Ok(()));
    assert_eq!(s.state.future_count, 1);
    assert_eq!(s.future_completed(), Ok(()));
    assert!(!s.state.has_futures());
}

#[test]
fn completion_without_spawn_is_underflow() {
    let mut s = Scheduler::new();
    assert_eq!(s.future_completed(), Err(ScheduleError::FutureCountUnderflow));
    assert_eq!(s.state.future_count, 0);
    s.future_spawned();
    assert_eq!(s.future_completed(), Ok(()));
    assert_eq!(s.future_completed(), Err(ScheduleError::FutureCountUnderflow));
    assert_eq!(s.state.future_count, 0);
}

#[test]
fn exit_code_is_write_once() {
    let mut s = Scheduler::new();
    assert_eq!(s.state.exit_code(), None);
    assert!(!s.state.has_exit_code());
    assert_eq!(s.set_exit_code(7), Ok(()));
    assert_eq!(s.state.exit_code(), Some(7));
    assert_eq!(s.set_exit_code(9), Err(ScheduleError::ExitCodeAlreadySet));
    assert_eq!(s.set_exit_code(7), Err(ScheduleError::ExitCodeAlreadySet));
    assert_eq!(s.state.exit_code(), Some(7));
}

#[test]
fn fresh_scheduler_is_done_with_success() {
    let mut s = Scheduler::new();
    let status = expect_done(&mut s);
    assert_eq!(status, ExitStatus::Success);
    assert_eq!(status.code(), 0);
}

#[test]
fn never_resolving_future_keeps_run_waiting() {
    let mut s = Scheduler::new();
    s.future_spawned();
    // The future never completes: within this bounded window the run loop
    // never reports completion, it only ever asks to wait for a message.
    for _ in 0..16 {
        assert_eq!(s.run_step(), RunDirective::WaitForMessage);
    }
    assert_eq!(s.future_completed(), Ok(()));
    assert_eq!(expect_done(&mut s), ExitStatus::Success);
}

#[test]
fn exit_code_ends_run_before_futures_and_threads() {
    let mut s = Scheduler::new();
    s.push_back(vec![]);
    s.future_spawned();
    assert_eq!(s.set_exit_code(3), Ok(()));
    let status = expect_done(&mut s);
    assert_eq!(status, ExitStatus::ExplicitExit(3));
    assert_eq!(status.code(), 3);
    // The queue was not consumed: termination came from the exit code.
    assert!(s.has_thread());
}

#[test]
fn errored_resume_turns_into_generic_failure() {
    let mut s = Scheduler::new();
    let id = s.push_back(vec![]);
    let t = expect_resume(&mut s);
    assert_eq!(t.id, id);
    s.begin_resume(id);
    let d = s.finish_resume(id, ResumeOutcome::Errored(String::from("oops")));
    assert_eq!(d, Some(Delivery::NoChannel));
    assert_eq!(s.state.error_count, 1);
    assert!(s.state.has_errored());
    let status = expect_done(&mut s);
    assert_eq!(status, ExitStatus::GenericFailure);
    assert_eq!(status.code(), 1);
}

#[test]
fn explicit_exit_code_beats_generic_failure() {
    let mut s = Scheduler::new();
    let id = s.push_back(vec![]);
    let t = expect_resume(&mut s);
    s.begin_resume(t.id);
    s.finish_resume(id, ResumeOutcome::Errored(String::from("oops")));
    assert_eq!(s.set_exit_code(5), Ok(()));
    assert_eq!(expect_done(&mut s), ExitStatus::ExplicitExit(5));
}

#[test]
fn yield_is_not_terminal_and_requeue_goes_to_tail() {
    let mut s = Scheduler::new();
    let id_a = s.push_back(int_args(&[1]));
    let id_b = s.push_back(int_args(&[2]));

    let t = expect_resume(&mut s);
    assert_eq!(t.id, id_a);
    s.begin_resume(id_a);
    let d = s.finish_resume(id_a, ResumeOutcome::Yielded);
    assert_eq!(d, None);
    assert_eq!(s.state.error_count, 0);
    // Something wakes the yielded thread: it is appended at the tail,
    // never ahead of the thread that was already queued.
    s.push_existing(id_a, int_args(&[11]));

    let t = expect_resume(&mut s);
    assert_eq!(t.id, id_b);
    s.begin_resume(id_b);
    s.finish_resume(id_b, ResumeOutcome::Completed(vec![]));

    let t = expect_resume(&mut s);
    assert_eq!(t.id, id_a);
    assert_eq!(t.args, int_args(&[11]));
}

#[test]
fn message_receiver_exists_exactly_once() {
    let mut s = Scheduler::new();
    let first = SchedulerMessageReceiver::new(&mut s.state);
    assert!(first.is_ok());
    match SchedulerMessageReceiver::new(&mut s.state) {
        Err(ScheduleError::ReceiverAlreadyTaken) => {},
        other => panic!("a second receiver must be refused, got {:?}", other.is_ok()),
    }
}

#[test]
fn message_bus_carries_the_four_event_tags() {
    let mut s = Scheduler::new();
    let mut rx = SchedulerMessageReceiver::new(&mut s.state).unwrap();
    assert_eq!(rx.try_recv(), None);

    s.push_back(vec![]);
    s.future_spawned();
    s.future_completed().unwrap();
    s.set_exit_code(0).unwrap();

    assert_eq!(rx.try_recv(), Some(SchedulerMessage::PushedLuaThread));
    assert_eq!(rx.try_recv(), Some(SchedulerMessage::FutureSpawned));
    assert_eq!(rx.try_recv(), Some(SchedulerMessage::FutureCompleted));
    assert_eq!(rx.try_recv(), Some(SchedulerMessage::ExitCodeSet));
    assert_eq!(rx.try_recv(), None);
}

#[test]
fn message_sender_clones_feed_the_same_bus() {
    let mut s = Scheduler::new();
    let mut rx = SchedulerMessageReceiver::new(&mut s.state).unwrap();
    let sender = SchedulerMessageSender::new(&s.state);
    sender.send_exit_code_set();
    sender.send_pushed_lua_thread();
    sender.send_future_spawned();
    sender.send_future_completed();
    assert_eq!(rx.try_recv(), Some(SchedulerMessage::ExitCodeSet));
    assert_eq!(rx.try_recv(), Some(SchedulerMessage::PushedLuaThread));
    assert_eq!(rx.try_recv(), Some(SchedulerMessage::FutureSpawned));
    assert_eq!(rx.try_recv(), Some(SchedulerMessage::FutureCompleted));
    assert_eq!(rx.try_recv(), None);
}

#[test]
fn thread_parts_round_trip() {
    let id = SchedulerThreadId(4);
    let t = SchedulerThread::new(id, int_args(&[8, 9]));
    assert_eq!(t.id(), id);
    let (id_back, args) = t.into_inner();
    assert_eq!(id_back, id);
    assert_eq!(args, int_args(&[8, 9]));
}

#[test]
fn interrupt_without_pending_error_continues() {
    let mut s = Scheduler::new();
    let id = s.push_back(vec![]);
    assert_eq!(s.check_interrupt(), None);
    s.begin_resume(id);
    assert_eq!(s.check_interrupt(), None);
    s.finish_resume(id, ResumeOutcome::Yielded);
}

#[test]
fn pending_thread_error_is_consumed_exactly_once() {
    let mut s = Scheduler::new();
    let id = s.push_back(vec![]);
    s.state
        .record_thread_error(id, String::from("late failure"));
    // Not resuming anything: the checkpoint must not fire.
    assert_eq!(s.check_interrupt(), None);
    s.begin_resume(id);
    assert_eq!(s.check_interrupt(), Some(String::from("late failure")));
    assert_eq!(s.check_interrupt(), None);
    s.finish_resume(id, ResumeOutcome::Errored(String::from("late failure")));
}
