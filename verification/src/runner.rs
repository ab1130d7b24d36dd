use vstd::prelude::*;

use crate::scheduler::{deliver_result_spec, Delivery, Scheduler};
use crate::state::SchedulerState;
use crate::thread::{SchedulerThread, SchedulerThreadId};
use crate::value::{ExitStatus, ScriptValue};

verus! {

/// How a single resume of a script thread ended, as reported by the VM.
#[derive(Debug, Clone, PartialEq, Eq)]
pub enum ResumeOutcome {
    /// The thread ran to completion, with these final values.
    Completed(Vec<ScriptValue>),
    /// The thread raised a script error with this text.
    Errored(String),
    /// The thread yielded mid-resume: not terminal. It runs again only when
    /// something re-enqueues it, at the tail of the queue.
    Yielded,
}

/// What the host must do next to drive the scheduler to completion.
#[derive(Debug, PartialEq, Eq)]
pub enum RunDirective {
    /// Resume this thread (unless the VM reports it is no longer resumable,
    /// in which case it is skipped silently), bracketing the resume with
    /// `begin_resume` and `finish_resume`.
    ResumeThread(SchedulerThread),
    /// No thread is ready but futures are outstanding: block on the message
    /// bus; receipt of any message is the cue to call `run_step` again.
    WaitForMessage,
    /// The run is over; this is its final status.
    Done(ExitStatus),
}

impl Scheduler {
    /// The final status of a run: an explicitly set exit code beats a
    /// generic failure, which beats success.
    pub open spec fn final_status_spec(&self) -> ExitStatus {
        match self.state.exit_code {
            Some(code) => ExitStatus::ExplicitExit(code),
            None => if self.state.error_count > 0 {
                ExitStatus::GenericFailure
            } else {
                ExitStatus::Success
            },
        }
    }

    /// The termination condition of the run loop: an exit code was set, or
    /// the ready queue is empty with no future outstanding.
    pub open spec fn run_done_spec(&self) -> bool {
        ||| self.state.exit_code is Some
        ||| (self.threads@.len() == 0 && self.state.future_count == 0)
    }

    /// The final status of the run so far, by precedence: explicit exit
    /// code, then generic failure if any resumption errored, then success.
    pub fn final_status(&self) -> (s: ExitStatus)
        ensures
            s == self.final_status_spec(),
    {
        match self.state.exit_code() {
            Some(code) => ExitStatus::ExplicitExit(code),
            None => if self.state.has_errored() {
                ExitStatus::GenericFailure
            } else {
                ExitStatus::Success
            },
        }
    }

    /// One decision of the run loop. Threads are always drained before any
    /// wait on futures: with an exit code set the run is over at once; else
    /// the head of the queue, if any, is handed out for resumption; else,
    /// with futures outstanding, the host must wait on the message bus; and
    /// otherwise the run is over. The run is over if and only if an exit
    /// code was set or the queue is empty with no future outstanding.
    pub fn run_step(&mut self) -> (d: RunDirective)
        requires
            old(self).wf(),
            old(self).state.current_thread_id is None,
        ensures
            final(self).wf(),
            (d is Done) <==> old(self).run_done_spec(),
            (match d {
                RunDirective::Done(status) => {
                    &&& *final(self) == *old(self)
                    &&& status == old(self).final_status_spec()
                },
                RunDirective::ResumeThread(t) => {
                    &&& old(self).state.exit_code is None
                    &&& old(self).threads@.len() > 0
                    &&& t == old(self).threads@[0]
                    &&& final(self).threads@ == old(self).threads@.subrange(
                        1,
                        old(self).threads@.len() as int,
                    )
                    &&& final(self).state == old(self).state
                    &&& final(self).thread_senders == old(self).thread_senders
                    &&& final(self).next_thread_id == old(self).next_thread_id
                },
                RunDirective::WaitForMessage => {
                    &&& *final(self) == *old(self)
                    &&& old(self).state.exit_code is None
                    &&& old(self).threads@.len() == 0
                    &&& old(self).state.future_count > 0
                },
            }),
    {
        if self.state.has_exit_code() {
            RunDirective::Done(self.final_status())
        } else if self.has_thread() {
            match self.pop_thread() {
                Some(t) => RunDirective::ResumeThread(t),
                None => {
                    proof {
                        assert(false);
                    }
                    vstd::pervasive::unreached()
                },
            }
        } else if self.state.has_futures() {
            RunDirective::WaitForMessage
        } else {
            RunDirective::Done(self.final_status())
        }
    }

    /// Marks the start of a resume of the given thread. At most one resume
    /// is ever in flight system-wide: the caller must not already be
    /// resuming, and must pair this with `finish_resume`.
    pub fn begin_resume(&mut self, id: SchedulerThreadId)
        requires
            old(self).wf(),
            old(self).state.current_thread_id is None,
            old(self).valid_id(id),
        ensures
            final(self).wf(),
            final(self).state == (SchedulerState {
                current_thread_id: Some(id),
                ..old(self).state
            }),
            final(self).threads@ == old(self).threads@,
            final(self).thread_senders == old(self).thread_senders,
            final(self).next_thread_id == old(self).next_thread_id,
    {
        self.state.set_current_thread_id(Some(id));
    }

    /// Marks the end of a resume and classifies its outcome. A yield is not
    /// terminal and changes nothing else. A terminal outcome is delivered
    /// to any registered observers — exactly once — and an error in
    /// addition counts toward the generic failure status. Returns how the
    /// terminal result was delivered, or nothing for a yield.
    pub fn finish_resume(&mut self, id: SchedulerThreadId, outcome: ResumeOutcome) -> (d: Option<Delivery>)
        requires
            old(self).wf(),
            old(self).state.current_thread_id == Some(id),
            old(self).state.error_count < u64::MAX,
        ensures
            final(self).wf(),
            final(self).state.current_thread_id is None,
            final(self).threads@ == old(self).threads@,
            final(self).next_thread_id == old(self).next_thread_id,
            (match outcome {
                ResumeOutcome::Yielded => {
                    &&& d is None
                    &&& final(self).state == (SchedulerState {
                        current_thread_id: None,
                        ..old(self).state
                    })
                    &&& final(self).thread_senders == old(self).thread_senders
                },
                ResumeOutcome::Completed(_) => {
                    &&& (d matches Some(del) && deliver_result_spec(
                        old(self).thread_senders@,
                        id.0,
                        final(self).thread_senders@,
                        del,
                    ))
                    &&& final(self).state == (SchedulerState {
                        current_thread_id: None,
                        ..old(self).state
                    })
                },
                ResumeOutcome::Errored(_) => {
                    &&& (d matches Some(del) && deliver_result_spec(
                        old(self).thread_senders@,
                        id.0,
                        final(self).thread_senders@,
                        del,
                    ))
                    &&& final(self).state == (SchedulerState {
                        current_thread_id: None,
                        error_count: (old(self).state.error_count + 1) as u64,
                        ..old(self).state
                    })
                },
            }),
    {
        self.state.set_current_thread_id(None);
        match outcome {
            ResumeOutcome::Yielded => None,
            ResumeOutcome::Completed(values) => Some(self.deliver_result(id, Ok(values))),
            ResumeOutcome::Errored(err) => {
                self.state.increment_error_count();
                Some(self.deliver_result(id, Err(err)))
            },
        }
    }
}

} // verus!
