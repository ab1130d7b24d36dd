use vstd::prelude::*;

use crate::channels::{mpsc_send, mpsc_sender_clone, mpsc_try_recv};
use crate::state::SchedulerState;
use crate::value::ScheduleError;

verus! {

/// An event tag carried by the message bus. Receipt of any message is only
/// a cue for the run loop to re-evaluate global state; the consumer never
/// branches on which tag arrived, and no payload travels with a tag.
#[derive(Debug, Clone, Copy, Hash, PartialEq, Eq, Structural)]
pub enum SchedulerMessage {
    ExitCodeSet,
    PushedLuaThread,
    FutureSpawned,
    FutureCompleted,
}

/// A producer handle for the message bus. Senders may be cloned freely and
/// never block; if the consumer side is gone, sends are silently dropped.
pub struct SchedulerMessageSender {
    /// The bus endpoint this handle sends into.
    pub sender: tokio::sync::mpsc::UnboundedSender<SchedulerMessage>,
}

impl SchedulerMessageSender {
    /// A new producer handle feeding the given state's own message bus.
    pub fn new(state: &SchedulerState) -> (s: SchedulerMessageSender)
        ensures
            s.sender == state.message_sender,
    {
        SchedulerMessageSender { sender: mpsc_sender_clone(&state.message_sender) }
    }

    /// Signals that the exit code was set.
    pub fn send_exit_code_set(&self) {
        mpsc_send(&self.sender, SchedulerMessage::ExitCodeSet);
    }

    /// Signals that a thread was pushed onto the ready queue.
    pub fn send_pushed_lua_thread(&self) {
        mpsc_send(&self.sender, SchedulerMessage::PushedLuaThread);
    }

    /// Signals that a future was spawned.
    pub fn send_future_spawned(&self) {
        mpsc_send(&self.sender, SchedulerMessage::FutureSpawned);
    }

    /// Signals that a future completed.
    pub fn send_future_completed(&self) {
        mpsc_send(&self.sender, SchedulerMessage::FutureCompleted);
    }
}

/// The single consumer of the message bus. Only one logical consumer may
/// ever exist: constructing a second one is a broken contract.
pub struct SchedulerMessageReceiver {
    /// The bus endpoint this handle receives from.
    pub receiver: tokio::sync::mpsc::UnboundedReceiver<SchedulerMessage>,
}

impl SchedulerMessageReceiver {
    /// Takes the message receiver out of the state: the returned handle
    /// holds the state's own bus receiver, not some other one. The
    /// receiver exists exactly once: a second take fails deterministically
    /// and changes nothing.
    pub fn new(state: &mut SchedulerState) -> (r: Result<SchedulerMessageReceiver, ScheduleError>)
        ensures
            old(state).message_receiver is Some ==> {
                &&& r is Ok
                &&& (r matches Ok(rec) ==> old(state).message_receiver == Some(rec.receiver))
                &&& *final(state) == (SchedulerState { message_receiver: None, ..*old(state) })
            },
            old(state).message_receiver is None ==> {
                &&& r == Err::<SchedulerMessageReceiver, ScheduleError>(ScheduleError::ReceiverAlreadyTaken)
                &&& *final(state) == *old(state)
            },
    {
        match state.message_receiver.take() {
            Some(receiver) => Ok(SchedulerMessageReceiver { receiver }),
            None => Err(ScheduleError::ReceiverAlreadyTaken),
        }
    }

    /// A queued message, if one is pending; never blocks. The host's run
    /// loop instead awaits the inner receiver, through `into_inner`.
    pub fn try_recv(&mut self) -> Option<SchedulerMessage> {
        mpsc_try_recv(&mut self.receiver)
    }

    /// The raw bus endpoint this handle holds, for a host that wants to
    /// await messages.
    pub fn into_inner(self) -> (r: tokio::sync::mpsc::UnboundedReceiver<SchedulerMessage>)
        ensures
            r == self.receiver,
    {
        self.receiver
    }
}

} // verus!
