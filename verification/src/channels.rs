//! Trusted bindings to tokio's synchronization primitives.
//!
//! The scheduler's message bus is a tokio unbounded mpsc channel, and each
//! thread's result fan-out is a tokio broadcast channel. Both channel kinds
//! are opaque to the verifier: the declarations and wrappers below are the
//! only places where the crate relies on tokio, and everything stated here
//! is checked against tokio's source by a human, not by the verifier.
//!
//! Which channel an endpoint belongs to is itself opaque, so it gets a
//! name: `mpsc_sender_channel` / `mpsc_receiver_channel` and
//! `broadcast_sender_channel` / `broadcast_receiver_channel` stand for the
//! identity of the channel behind an endpoint. The wrappers state the facts
//! the source shows — a channel's two fresh endpoints share it, a
//! subscription reads its sender's channel, a clone is a handle to the same
//! channel — and the library's contracts tie every endpoint it hands out to
//! the channel it must feed or read.

use vstd::prelude::*;

use crate::message::SchedulerMessage;
use crate::value::ThreadResult;

verus! {

/// tokio's mpsc sender, declared opaquely so it can stand in fields.
#[verifier::external_type_specification]
#[verifier::external_body]
#[verifier::reject_recursive_types(T)]
pub struct ExUnboundedSender<T>(tokio::sync::mpsc::UnboundedSender<T>);

/// tokio's mpsc receiver, declared opaquely so it can stand in fields.
#[verifier::external_type_specification]
#[verifier::external_body]
#[verifier::reject_recursive_types(T)]
pub struct ExUnboundedReceiver<T>(tokio::sync::mpsc::UnboundedReceiver<T>);

/// tokio's broadcast sender, declared opaquely so it can stand in fields.
#[verifier::external_type_specification]
#[verifier::external_body]
#[verifier::reject_recursive_types(T)]
pub struct ExBroadcastSender<T>(tokio::sync::broadcast::Sender<T>);

/// tokio's broadcast receiver, declared opaquely so it can be handed to
/// observers.
#[verifier::external_type_specification]
#[verifier::external_body]
#[verifier::reject_recursive_types(T)]
pub struct ExBroadcastReceiver<T>(tokio::sync::broadcast::Receiver<T>);

/// The identity of the bus channel a message sender feeds.
pub uninterp spec fn mpsc_sender_channel(tx: tokio::sync::mpsc::UnboundedSender<SchedulerMessage>) -> int;

/// The identity of the bus channel a message receiver reads.
pub uninterp spec fn mpsc_receiver_channel(rx: tokio::sync::mpsc::UnboundedReceiver<SchedulerMessage>) -> int;

/// The identity of the result channel a broadcast sender feeds.
pub uninterp spec fn broadcast_sender_channel(tx: tokio::sync::broadcast::Sender<ThreadResult>) -> int;

/// The identity of the result channel a broadcast receiver reads.
pub uninterp spec fn broadcast_receiver_channel(rx: tokio::sync::broadcast::Receiver<ThreadResult>) -> int;

/// Relies on tokio::sync::mpsc::unbounded_channel: creates a channel whose
/// sends never block and returns its two endpoints, the sender feeding the
/// channel the receiver reads.
#[verifier::external_body]
pub(crate) fn mpsc_unbounded_channel() -> (r: (tokio::sync::mpsc::UnboundedSender<SchedulerMessage>, tokio::sync::mpsc::UnboundedReceiver<SchedulerMessage>))
    ensures
        mpsc_sender_channel(r.0) == mpsc_receiver_channel(r.1),
{
    tokio::sync::mpsc::unbounded_channel()
}

/// Relies on tokio::sync::mpsc::UnboundedSender::send: never blocks; fails
/// only when the receive half is gone, and that failure is deliberately
/// ignored here (a wake-up with no one left to wake).
#[verifier::external_body]
pub(crate) fn mpsc_send(tx: &tokio::sync::mpsc::UnboundedSender<SchedulerMessage>, message: SchedulerMessage) {
    let _ = tx.send(message);
}

/// Relies on Clone for tokio::sync::mpsc::UnboundedSender: the clone is a
/// handle to the very same channel, so it is modeled as an equal value.
#[verifier::external_body]
pub(crate) fn mpsc_sender_clone(tx: &tokio::sync::mpsc::UnboundedSender<SchedulerMessage>) -> (r: tokio::sync::mpsc::UnboundedSender<SchedulerMessage>)
    ensures
        r == *tx,
{
    tx.clone()
}

/// Relies on tokio::sync::mpsc::UnboundedReceiver::try_recv: returns a
/// queued message without blocking, or nothing when the queue is empty or
/// every sender is gone.
#[verifier::external_body]
pub(crate) fn mpsc_try_recv(rx: &mut tokio::sync::mpsc::UnboundedReceiver<SchedulerMessage>) -> Option<SchedulerMessage> {
    match rx.try_recv() {
        Ok(message) => Some(message),
        Err(_) => None,
    }
}

/// Relies on tokio::sync::broadcast::channel: creates a channel that clones
/// each sent value to every receiver subscribed at send time, returning its
/// two fresh endpoints, the sender feeding the channel the receiver reads.
/// Panics when the capacity is 0 or above usize::MAX / 2, so those are
/// excluded here.
#[verifier::external_body]
pub(crate) fn broadcast_channel(capacity: usize) -> (r: (tokio::sync::broadcast::Sender<ThreadResult>, tokio::sync::broadcast::Receiver<ThreadResult>))
    requires
        1 <= capacity <= usize::MAX / 2,
    ensures
        broadcast_sender_channel(r.0) == broadcast_receiver_channel(r.1),
{
    tokio::sync::broadcast::channel(capacity)
}

/// Relies on tokio::sync::broadcast::Sender::subscribe: the new receiver
/// reads the sender's own channel, seeing every value sent after this call
/// and none sent before.
#[verifier::external_body]
pub(crate) fn broadcast_subscribe(tx: &tokio::sync::broadcast::Sender<ThreadResult>) -> (r: tokio::sync::broadcast::Receiver<ThreadResult>)
    ensures
        broadcast_receiver_channel(r) == broadcast_sender_channel(*tx),
{
    tx.subscribe()
}

/// Relies on tokio::sync::broadcast::Sender::receiver_count: the number of
/// currently active receivers of the channel.
#[verifier::external_body]
pub(crate) fn broadcast_receiver_count(tx: &tokio::sync::broadcast::Sender<ThreadResult>) -> usize {
    tx.receiver_count()
}

/// Relies on tokio::sync::broadcast::Sender::send: delivers one clone of
/// the value to every receiver active at send time and returns how many
/// there were; fails, returning nothing, exactly when there were none.
#[verifier::external_body]
pub(crate) fn broadcast_send(tx: &tokio::sync::broadcast::Sender<ThreadResult>, value: ThreadResult) -> (delivered: Option<usize>)
    ensures
        delivered matches Some(n) ==> n >= 1,
{
    match tx.send(value) {
        Ok(count) => Some(count),
        Err(_) => None,
    }
}

} // verus!
