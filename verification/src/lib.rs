//! Task scheduler for an embedded scripting runtime.
//!
//! The scheduler interleaves cooperative, resumable script threads with
//! asynchronous background work and brings completions of the latter back
//! into the former: it guarantees exactly-once resumption per thread, FIFO
//! ordering of enqueued threads, lossless error propagation across the
//! domain boundary, and termination detection over the count of outstanding
//! futures. The host (the scripting VM and the async runtime's blocking
//! loop) lives outside this crate and drives the scheduler through the
//! directives returned by `Scheduler::run_step`.

pub mod channels;
pub mod laws;
pub mod message;
pub mod runner;
pub mod scheduler;
pub mod state;
pub mod thread;
pub mod value;

pub use laws::{FutureEvent, QueueOp};
pub use message::{SchedulerMessage, SchedulerMessageReceiver, SchedulerMessageSender};
pub use runner::{ResumeOutcome, RunDirective};
pub use scheduler::{deliver_result_spec, Delivery, Scheduler};
pub use state::SchedulerState;
pub use thread::{SchedulerThread, SchedulerThreadId};
pub use value::{ExitStatus, ScheduleError, ScriptValue, ThreadResult};
