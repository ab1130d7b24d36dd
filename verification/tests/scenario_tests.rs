use lune_scheduler::{
    Delivery, ExitStatus, ResumeOutcome, RunDirective, Scheduler, SchedulerThread, ScriptValue,
};

fn expect_resume(s: &mut Scheduler) -> SchedulerThread {
    match s.run_step() {
        RunDirective::ResumeThread(t) => t,
        other => panic!("expected a thread to resume, got {:?}", other),
    }
}

fn expect_done(s: &mut Scheduler) -> ExitStatus {
    match s.run_step() {
        RunDirective::Done(status) => status,
        other => panic!("expected the run to be done, got {:?}", other),
    }
}

#[test]
fn bridged_future_result_becomes_resumption_args() {
    // Thread A spawns a background future F bridged back to A; F resolves
    // with 42; A observes 42 and the run finishes with success.
    let mut s = Scheduler::new();
    let id_a = s.push_back(vec![]);
    let mut observer = s.subscribe_thread_result(id_a);

    let t = expect_resume(&mut s);
    assert_eq!(t.id, id_a);
    s.begin_resume(id_a);
    // During its first slice, A registers F through the bridge and yields.
    s.future_spawned();
    s.finish_resume(id_a, ResumeOutcome::Yielded);

    // No thread is ready, one future is outstanding: the host waits.
    assert_eq!(s.run_step(), RunDirective::WaitForMessage);

    // F resolves with 42: the bridge re-enqueues A with that result.
    s.complete_bridged(id_a, Ok(vec![ScriptValue::Int(42)]));
    s.future_completed().unwrap();

    let t = expect_resume(&mut s);
    assert_eq!(t.id, id_a);
    assert_eq!(t.args, vec![ScriptValue::Int(42)]);
    s.begin_resume(id_a);
    assert_eq!(s.check_interrupt(), None);
    let d = s.finish_resume(id_a, ResumeOutcome::Completed(vec![ScriptValue::Int(42)]));
    assert_eq!(d, Some(Delivery::Sent(1)));

    let status = expect_done(&mut s);
    assert_eq!(status, ExitStatus::Success);
    assert_eq!(status.code(), 0);

    let received = observer.try_recv().expect("the observer must see A's result");
    assert_eq!(received, Ok(vec![ScriptValue::Int(42)]));
}

#[test]
fn exit_code_set_mid_resume_preempts_later_threads() {
    // Thread B sets exit code 7 partway through; thread C was enqueued
    // after B: the run returns 7 and C never resumes.
    let mut s = Scheduler::new();
    let id_b = s.push_back(vec![]);
    let id_c = s.push_back(vec![]);

    let t = expect_resume(&mut s);
    assert_eq!(t.id, id_b);
    s.begin_resume(id_b);
    assert_eq!(s.set_exit_code(7), Ok(()));
    s.finish_resume(id_b, ResumeOutcome::Yielded);

    let status = expect_done(&mut s);
    assert_eq!(status, ExitStatus::ExplicitExit(7));
    assert_eq!(status.code(), 7);
    // C is still queued, untouched: it never resumed.
    assert!(s.has_thread());
    let leftover = s.pop_thread().unwrap();
    assert_eq!(leftover.id, id_c);
}

#[test]
fn failed_bridged_future_aborts_thread_through_interrupt() {
    // A background future fails with "boom"; the thread bridged to it is
    // still re-enqueued, observes the error at its interrupt checkpoint,
    // and the run ends with a generic nonzero failure, distinct from any
    // explicit exit code.
    let mut s = Scheduler::new();
    let id_a = s.push_back(vec![]);

    let t = expect_resume(&mut s);
    s.begin_resume(id_a);
    s.future_spawned();
    s.finish_resume(id_a, ResumeOutcome::Yielded);
    assert_eq!(t.id, id_a);

    s.complete_bridged(id_a, Err(String::from("boom")));
    s.future_completed().unwrap();

    let t = expect_resume(&mut s);
    assert_eq!(t.id, id_a);
    assert_eq!(t.args, vec![]);
    s.begin_resume(id_a);
    // The VM hits a checkpoint: the pending error aborts this thread's step.
    assert_eq!(s.check_interrupt(), Some(String::from("boom")));
    let errors_before = s.state.error_count;
    s.finish_resume(id_a, ResumeOutcome::Errored(String::from("boom")));
    assert_eq!(s.state.error_count, errors_before + 1);

    let status = expect_done(&mut s);
    assert_eq!(status, ExitStatus::GenericFailure);
    assert_ne!(status, ExitStatus::ExplicitExit(status.code()));
    assert_ne!(status.code(), 0);
}

#[test]
fn two_observers_both_receive_result_exactly_once() {
    let mut s = Scheduler::new();
    let id = s.push_back(vec![]);
    let mut first = s.subscribe_thread_result(id);
    let mut second = s.subscribe_thread_result(id);

    let t = expect_resume(&mut s);
    s.begin_resume(t.id);
    let d = s.finish_resume(
        id,
        ResumeOutcome::Completed(vec![ScriptValue::Text(String::from("done"))]),
    );
    assert_eq!(d, Some(Delivery::Sent(2)));

    let expected = Ok(vec![ScriptValue::Text(String::from("done"))]);
    assert_eq!(first.try_recv().unwrap(), expected);
    assert_eq!(second.try_recv().unwrap(), expected);
    // Exactly once: there is no second delivery waiting on either channel.
    assert!(first.try_recv().is_err());
    assert!(second.try_recv().is_err());
}

#[test]
fn late_observer_receives_nothing() {
    let mut s = Scheduler::new();
    let id = s.push_back(vec![]);
    let mut early = s.subscribe_thread_result(id);

    let t = expect_resume(&mut s);
    s.begin_resume(t.id);
    s.finish_resume(id, ResumeOutcome::Completed(vec![ScriptValue::Bool(true)]));

    // Registering after completion creates a fresh channel that no result
    // will ever be sent on: the late observer receives nothing.
    let mut late = s.subscribe_thread_result(id);
    assert_eq!(early.try_recv().unwrap(), Ok(vec![ScriptValue::Bool(true)]));
    assert!(late.try_recv().is_err());
}

#[test]
fn delivery_happens_at_most_once_per_thread() {
    let mut s = Scheduler::new();
    let id = s.push_back(vec![]);
    let mut observer = s.subscribe_thread_result(id);
    let d = s.deliver_result(id, Ok(vec![ScriptValue::Int(1)]));
    assert_eq!(d, Delivery::Sent(1));
    // The channel entry is gone: a second delivery finds no channel.
    let d = s.deliver_result(id, Ok(vec![ScriptValue::Int(2)]));
    assert_eq!(d, Delivery::NoChannel);
    assert_eq!(observer.try_recv().unwrap(), Ok(vec![ScriptValue::Int(1)]));
    assert!(observer.try_recv().is_err());
}

#[test]
fn result_with_no_live_subscriber_is_discarded() {
    let mut s = Scheduler::new();
    let id = s.push_back(vec![]);
    let observer = s.subscribe_thread_result(id);
    drop(observer);
    let d = s.deliver_result(id, Ok(vec![]));
    assert_eq!(d, Delivery::NoReceivers);
}

#[test]
fn result_with_no_observer_at_all_is_discarded() {
    let mut s = Scheduler::new();
    let id = s.push_back(vec![]);
    let d = s.deliver_result(id, Err(String::from("nobody listens")));
    assert_eq!(d, Delivery::NoChannel);
}

#[test]
fn errored_thread_result_reaches_observers() {
    let mut s = Scheduler::new();
    let id = s.push_back(vec![]);
    let mut observer = s.subscribe_thread_result(id);
    let t = expect_resume(&mut s);
    s.begin_resume(t.id);
    let d = s.finish_resume(id, ResumeOutcome::Errored(String::from("boom")));
    assert_eq!(d, Some(Delivery::Sent(1)));
    assert_eq!(observer.try_recv().unwrap(), Err(String::from("boom")));
}
