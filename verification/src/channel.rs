//! Trusted boundary around the task channel.
//!
//! The pool's coordination backbone is an unbounded multi-producer,
//! multi-consumer queue from the `crossbeam_channel` crate. The channel's
//! internal buffer is shared mutable state between threads, so nothing about
//! its contents can be promised of a single call: each wrapper below states
//! only what holds of every outcome, and the pool's own verified code says
//! what follows from each possible result.
//!
//! Tasks run entirely outside the channel's internal synchronization: a
//! worker only calls its handler after a receive has returned, holding no
//! lock of the channel. A failing task therefore cannot leave the channel in
//! a poisoned state for its sibling workers.

use vstd::prelude::*;

verus! {

#[verifier::external_type_specification]
#[verifier::external_body]
#[verifier::reject_recursive_types(T)]
pub struct ExSender<T>(crossbeam_channel::Sender<T>);

#[verifier::external_type_specification]
#[verifier::external_body]
#[verifier::reject_recursive_types(T)]
pub struct ExReceiver<T>(crossbeam_channel::Receiver<T>);

/// Relies on crossbeam_channel::unbounded: creates a connected channel whose
/// send side never blocks; messages sent through the returned sender become
/// available, in sending order, to the returned receiver and its clones.
#[verifier::external_body]
pub(crate) fn new_channel<T>() -> (endpoints: (
    crossbeam_channel::Sender<T>,
    crossbeam_channel::Receiver<T>,
))
{
    crossbeam_channel::unbounded()
}

/// Relies on crossbeam_channel::Receiver::clone: the clone receives from the
/// same channel as the original, and the channel counts as disconnected only
/// once every clone has been dropped.
#[verifier::external_body]
pub(crate) fn clone_receiver<T>(receiver: &crossbeam_channel::Receiver<T>) -> (clone:
    crossbeam_channel::Receiver<T>)
{
    receiver.clone()
}

/// Relies on crossbeam_channel::Sender::send: the call never blocks on an
/// unbounded channel; it fails only when every receiver has been dropped, and
/// the error then hands the unsent message back unchanged.
#[verifier::external_body]
pub(crate) fn send_task<T>(sender: &crossbeam_channel::Sender<T>, task: T) -> (r: Result<(), T>)
    ensures
        r matches Err(rejected) ==> rejected == task,
{
    match sender.send(task) {
        Ok(()) => Ok(()),
        Err(crossbeam_channel::SendError(rejected)) => Err(rejected),
    }
}

/// Relies on crossbeam_channel::Receiver::recv: the call blocks until a
/// message arrives or the channel is closed; it returns `None` exactly when
/// every sender has been dropped and the buffer is drained, and every message
/// is delivered to at most one receiver.
#[verifier::external_body]
pub(crate) fn recv_task<T>(receiver: &crossbeam_channel::Receiver<T>) -> (r: Option<T>)
{
    match receiver.recv() {
        Ok(task) => Some(task),
        Err(crossbeam_channel::RecvError) => None,
    }
}

} // verus!
