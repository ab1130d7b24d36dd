use vstd::prelude::*;

verus! {

/// A plain script-domain value: the scheduler moves these between threads
/// (as resumption arguments and terminal results) without inspecting them.
#[derive(Debug, Clone, PartialEq, Eq)]
pub enum ScriptValue {
    Nil,
    Bool(bool),
    Int(i64),
    Text(String),
}

/// The terminal result of a script thread: its final values on success, or
/// the text of the error that ended it.
pub type ThreadResult = Result<Vec<ScriptValue>, String>;

/// A broken internal contract of the scheduler. These are programming
/// errors, not runtime-data conditions: a host that receives one must
/// abort rather than attempt recovery.
#[derive(Debug, Clone, Copy, PartialEq, Eq, Structural)]
pub enum ScheduleError {
    /// The exit code was already set; it is write-once.
    ExitCodeAlreadySet,
    /// A future completion was reported with no future outstanding.
    FutureCountUnderflow,
    /// The single message receiver was already taken; only one logical
    /// consumer of the message bus may exist.
    ReceiverAlreadyTaken,
}

/// The final status of a finished run. Precedence: an explicit exit code
/// beats a generic failure, which beats success.
#[derive(Debug, Clone, Copy, PartialEq, Eq, Structural)]
pub enum ExitStatus {
    /// An exit code was set explicitly from script code.
    ExplicitExit(u8),
    /// No explicit code, but at least one thread errored.
    GenericFailure,
    /// No explicit code and no errors.
    Success,
}

impl ExitStatus {
    /// The process exit code that this status maps to: the explicit code,
    /// or 1 for a generic failure, or 0 for success.
    pub fn code(&self) -> (c: u8)
        ensures
            c == self.code_spec(),
    {
        match self {
            ExitStatus::ExplicitExit(code) => *code,
            ExitStatus::GenericFailure => 1u8,
            ExitStatus::Success => 0u8,
        }
    }

    /// What `code` returns.
    pub open spec fn code_spec(&self) -> u8 {
        match self {
            ExitStatus::ExplicitExit(code) => *code,
            ExitStatus::GenericFailure => 1u8,
            ExitStatus::Success => 0u8,
        }
    }
}

} // verus!
