use vstd::prelude::*;

use crate::value::ScriptValue;

verus! {

/// An opaque, unique, stable identifier for a scheduled thread, valid for
/// the thread's entire lifetime. It is only ever used as a key; the actual
/// script coroutine it stands for is owned by the host.
#[derive(Debug, Clone, Copy, PartialEq, Eq, Hash, Structural)]
pub struct SchedulerThreadId(pub u64);

/// A script thread handle bound to its pending resumption arguments: one
/// entry of the scheduler's ready queue.
#[derive(Debug, Clone, PartialEq, Eq)]
pub struct SchedulerThread {
    /// The identity of the thread to resume.
    pub id: SchedulerThreadId,
    /// The values the thread is to be resumed with.
    pub args: Vec<ScriptValue>,
}

impl SchedulerThread {
    /// Binds a thread identity to its next resumption arguments.
    pub fn new(id: SchedulerThreadId, args: Vec<ScriptValue>) -> (t: SchedulerThread)
        ensures
            t.id == id,
            t.args == args,
    {
        SchedulerThread { id, args }
    }

    /// The identity of the thread.
    pub fn id(&self) -> (id: SchedulerThreadId)
        ensures
            id == self.id,
    {
        self.id
    }

    /// Deconstructs the entry into the thread identity and the arguments it
    /// is to be resumed with.
    pub fn into_inner(self) -> (parts: (SchedulerThreadId, Vec<ScriptValue>))
        ensures
            parts.0 == self.id,
            parts.1 == self.args,
    {
        (self.id, self.args)
    }
}

} // verus!
