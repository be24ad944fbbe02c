//! One worker: the verified pull-execute loop, and the trusted boundary that
//! puts that loop on a background thread of its own.

use crate::channel::recv_task;
use vstd::prelude::*;

verus! {

#[verifier::external_type_specification]
#[verifier::external_body]
#[verifier::reject_recursive_types(T)]
pub struct ExJoinHandle<T>(jod_thread::JoinHandle<T>);

/// One worker's pull-execute loop: block on the shared receiving side, run
/// the handler on each received task, and exit once the channel is closed and
/// drained.
///
/// Returns how many of the tasks that ran signalled failure, saturating at
/// `u64::MAX`. A failed task only bumps that count: the loop always goes on
/// to the next task, so one bad task never takes the worker down.
///
/// A worker's service life is bounded by `u64::MAX` received tasks. No real
/// run comes near that bound; it exists to give the loop its termination
/// measure.
pub(crate) fn worker_loop<T, F: Fn(T) -> bool>(
    receiver: &crossbeam_channel::Receiver<T>,
    handler: F,
) -> (failed: u64)
    requires
        forall|task: T| call_requires(handler, (task,)),
{
    let mut failed: u64 = 0;
    let mut remaining: u64 = u64::MAX;
    while remaining > 0
        invariant
            forall|task: T| call_requires(handler, (task,)),
        decreases remaining,
    {
        match recv_task(receiver) {
            Some(task) => {
                let succeeded = handler(task);
                if !succeeded && failed < u64::MAX {
                    failed = failed + 1;
                }
            },
            None => {
                return failed;
            },
        }
        remaining = remaining - 1;
    }
    failed
}

/// Relies on jod_thread::spawn: starts one background thread that runs the
/// given closure to completion and hands back a handle to join it with. The
/// closure only calls the verified [`worker_loop`]. The call panics only if
/// the operating system refuses to start a thread at all.
#[verifier::external_body]
pub(crate) fn spawn_worker<T: Send + 'static, F: Fn(T) -> bool + Send + 'static>(
    receiver: crossbeam_channel::Receiver<T>,
    handler: F,
) -> (handle: jod_thread::JoinHandle<u64>)
    requires
        forall|task: T| call_requires(handler, (task,)),
{
    jod_thread::spawn(move || worker_loop(&receiver, handler))
}

/// Relies on jod_thread::JoinHandle::join: blocks until the thread behind the
/// handle has finished and hands back the value that its closure returned.
/// The pool only joins threads started by [`spawn_worker`], whose closure is
/// a verified call that returns normally whenever its contract is met.
#[verifier::external_body]
pub(crate) fn join_worker(handle: jod_thread::JoinHandle<u64>) -> (failed: u64)
{
    handle.join()
}

} // verus!
