//! The worker pool: a fixed set of worker threads, a shared task channel,
//! task submission, and blocking, idempotent teardown.

use crate::channel::{clone_receiver, new_channel, send_task};
use crate::worker::{join_worker, spawn_worker};
use vstd::prelude::*;

verus! {

/// Why a pool could not be built.
#[derive(Clone, Copy, Debug, PartialEq, Eq, Structural)]
pub enum BuildError {
    /// The requested worker count was zero. A pool with no workers would
    /// accept tasks that nothing ever runs, so construction refuses it
    /// before any thread is spawned.
    InvalidSize,
}

/// Why a task could not be submitted.
#[derive(Clone, Copy, Debug, PartialEq, Eq, Structural)]
pub enum SubmitError {
    /// Teardown has begun: the sending side of the task channel is gone, so
    /// the task was not enqueued and will never run.
    ChannelClosed,
}

/// A pool of worker threads that run tasks of payload type `T`.
///
/// Every worker blocks on the shared receiving side of one task channel and
/// applies the handler the pool was built with to each task it pulls. The
/// pool owns the only sending side; dropping that side during [`Self::shutdown`]
/// is what tells the workers to drain the queue and exit.
#[verifier::reject_recursive_types(T)]
pub struct ThreadPool<T> {
    /// The sending side of the task channel; `None` once teardown has begun.
    sender: Option<crossbeam_channel::Sender<T>>,
    /// One join handle per spawned worker; each worker reports how many of
    /// the tasks it ran signalled failure.
    workers: Vec<jod_thread::JoinHandle<u64>>,
}

impl<T: Send + 'static> ThreadPool<T> {
    /// The pool still holds the sending side, so submitted tasks can reach
    /// the workers.
    pub closed spec fn accepting(&self) -> bool {
        self.sender is Some
    }

    /// How many workers the pool currently owns a join handle for.
    pub closed spec fn worker_count(&self) -> nat {
        self.workers@.len()
    }

    /// Structural invariant: while the pool accepts tasks it owns at least
    /// one worker, so no accepted task can starve for want of a consumer.
    pub closed spec fn wf(&self) -> bool {
        self.accepting() ==> self.worker_count() >= crate::MIN_POOL_SIZE
    }

    /// Builds a pool of `size` workers, each running `handler` on every task
    /// it receives, or refuses a size of zero before spawning anything.
    ///
    /// The handler must accept every task value, and it signals a failed
    /// task by returning `false`; the worker then carries on with the next
    /// task, so one failing task never stops its siblings.
    pub fn new<F: Fn(T) -> bool + Copy + Send + 'static>(size: usize, handler: F) -> (r: Result<
        Self,
        BuildError,
    >)
        requires
            forall|task: T| call_requires(handler, (task,)),
        ensures
            r is Err <==> size == 0,
            r is Err ==> r == Err::<Self, BuildError>(BuildError::InvalidSize),
            r matches Ok(pool) ==> pool.wf() && pool.accepting() && pool.worker_count() == size,
    {
        if size < crate::MIN_POOL_SIZE {
            return Err(BuildError::InvalidSize);
        }
        let (sender, receiver) = new_channel::<T>();
        let mut workers: Vec<jod_thread::JoinHandle<u64>> = Vec::new();
        let mut spawned: usize = 0;
        while spawned < size
            invariant
                spawned <= size,
                workers@.len() == spawned,
                forall|task: T| call_requires(handler, (task,)),
            decreases size - spawned,
        {
            let worker_receiver = clone_receiver(&receiver);
            let handle = spawn_worker(worker_receiver, handler);
            workers.push(handle);
            spawned = spawned + 1;
        }
        Ok(ThreadPool { sender: Some(sender), workers })
    }

    /// Enqueues `task` for the next idle worker and returns without waiting
    /// for it to run.
    ///
    /// Once teardown has begun the pool no longer holds a sending side and
    /// the call fails with `ChannelClosed` without enqueueing anything; the
    /// rejected task is never run. While the pool is accepting, the call can
    /// only fail if every worker has already dropped its receiving side,
    /// which the channel alone decides; `Ok` means the task is in the queue.
    pub fn execute(&self, task: T) -> (r: Result<(), SubmitError>)
        ensures
            !self.accepting() ==> r == Err::<(), SubmitError>(SubmitError::ChannelClosed),
            r is Ok ==> self.accepting(),
    {
        match &self.sender {
            Some(sender) => match send_task(sender, task) {
                Ok(()) => Ok(()),
                Err(_rejected) => Err(SubmitError::ChannelClosed),
            },
            None => Err(SubmitError::ChannelClosed),
        }
    }

    /// Tears the pool down: drops the sending side, which lets the workers
    /// drain every queued task and exit, then joins each worker thread.
    ///
    /// The call returns only after every previously submitted task has
    /// finished, and it reports how many of the tasks that ran signalled
    /// failure (saturating at `u64::MAX`). Teardown is idempotent: on a pool
    /// that is already torn down it changes nothing and reports zero.
    pub fn shutdown(&mut self) -> (failed: u64)
        ensures
            !final(self).accepting(),
            final(self).worker_count() == 0,
            final(self).wf(),
            !old(self).accepting() && old(self).worker_count() == 0 ==> *final(self) == *old(self)
                && failed == 0,
    {
        self.sender = None;
        let mut failed: u64 = 0;
        while self.workers.len() > 0
            invariant
                self.sender is None,
                old(self).sender is None && old(self).workers@.len() == 0 ==> *self == *old(self)
                    && failed == 0,
            decreases self.workers@.len(),
        {
            let handle = self.workers.pop().unwrap();
            let worker_failed = join_worker(handle);
            if failed <= u64::MAX - worker_failed {
                failed = failed + worker_failed;
            } else {
                failed = u64::MAX;
            }
        }
        failed
    }
}

} // verus!
