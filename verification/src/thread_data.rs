//! The shared coordination state and the decision steps of the worker loop.
//!
//! The original role of this state is to be shared, behind locks and a
//! condition variable, between worker threads and the embedding program.
//! Everything the threads decide is here, verified as step functions on the
//! state; the blocking wait, the spawning and the panic containment are the
//! embedding program's, which drives these steps:
//!
//! - each worker repeatedly calls [`ThreadData::thread_work`] and obeys the
//!   returned [`WorkerCommand`]: stop, block on the condition variable until
//!   notified, or run the handed-out job inside a panic-containment boundary
//!   and then report the outcome through
//!   [`ThreadData::record_job_outcome`] (stopping if that reports failure);
//! - each flag transition (`set_end_work`, `set_error`) and each submission
//!   is followed by the matching condition-variable notification, so a
//!   blocked worker never misses a shutdown, poisoning, or new job.

use vstd::prelude::*;

use crate::protocol::JobOutcome;
use crate::protocol::PoolState;
use crate::protocol::dequeue_allowed;
use crate::protocol::dequeue_step;
use crate::protocol::dequeued_job;
use crate::protocol::exit_allowed;
use crate::protocol::fail_step;
use crate::protocol::record_step;
use crate::protocol::shutdown_step;

verus! {

/// The shared coordination state of the pool: the pending job queue, the
/// `error` and `end_work` flags, and the count of workers currently
/// executing a job. `F` is the type of a job's work function and `T` the
/// type of its owned input; both are opaque to the pool.
pub struct ThreadData<F, T> {
    end_work: bool,
    error: bool,
    jobs: Vec<(F, T)>,
    working_thread_count: u64,
}

/// What a worker should do next, as decided by one step of its run loop.
pub enum WorkerCommand<F, T> {
    /// Leave the run loop; the thread's function returns.
    Exit,
    /// Block on the condition variable until notified, then ask again.
    Wait,
    /// Run this job inside a panic-containment boundary, then report the
    /// outcome through `record_job_outcome`.
    Execute((F, T)),
}

impl<F, T> View for ThreadData<F, T> {
    type V = PoolState<F, T>;

    closed spec fn view(&self) -> PoolState<F, T> {
        PoolState {
            end_work: self.end_work,
            error: self.error,
            jobs: self.jobs@,
            working: self.working_thread_count as nat,
        }
    }
}

impl<F, T> ThreadData<F, T> {
    /// A fresh coordination state: accepting jobs, unpoisoned, empty queue,
    /// no worker busy.
    pub fn new() -> (d: ThreadData<F, T>)
        ensures
            !d@.end_work,
            !d@.error,
            d@.jobs.len() == 0,
            d@.working == 0,
    {
        ThreadData {
            end_work: false,
            error: false,
            jobs: Vec::new(),
            working_thread_count: 0,
        }
    }

    /// Appends a job to the queue. The caller wakes one waiting worker
    /// afterwards.
    pub fn add_job(&mut self, job: F, data: T) -> (r: Result<(), ()>)
        ensures
            r == Ok::<(), ()>(()),
            final(self)@.jobs == old(self)@.jobs.push((job, data)),
            final(self)@.end_work == old(self)@.end_work,
            final(self)@.error == old(self)@.error,
            final(self)@.working == old(self)@.working,
    {
        self.jobs.push((job, data));
        Ok(())
    }

    /// A worker's attempt to take a job, decided after it holds the queue
    /// (in the shared setting: after its wait on the condition variable
    /// ended). Once the pool is poisoned — or shutting down with the queue
    /// already drained — the worker is told to exit; an empty queue with no
    /// shutdown yields no job (the caller waits and asks again); otherwise
    /// the most recently submitted job is handed out and the busy-worker
    /// count rises by one. Shutdown alone does not stop the drain: jobs
    /// queued before it are still dispatched.
    pub fn get_job(&mut self) -> (r: Result<Option<(F, T)>, ()>)
        requires
            dequeue_allowed(old(self)@) ==> old(self)@.working < u64::MAX,
        ensures
            final(self)@ == dequeue_step(old(self)@),
            exit_allowed(old(self)@) ==> r == Err::<Option<(F, T)>, ()>(()),
            !exit_allowed(old(self)@) ==> r == Ok::<Option<(F, T)>, ()>(dequeued_job(old(self)@)),
    {
        if self.is_error() {
            return Err(());
        }
        if self.jobs.is_empty() {
            if self.is_end_work() {
                return Err(());
            }
            return Ok(None);
        }
        let job = self.jobs.pop().unwrap();
        self.adjust_working_thread_count(true);
        Ok(Some(job))
    }

    /// One decision step of the worker run loop. The blocking wait and the
    /// job execution stay with the thread that drives this. A worker exits
    /// only when the pool is poisoned, or when shutdown was requested and
    /// the queue is already drained — so pending jobs submitted before
    /// shutdown still run.
    pub fn thread_work(&mut self) -> (c: WorkerCommand<F, T>)
        requires
            dequeue_allowed(old(self)@) ==> old(self)@.working < u64::MAX,
        ensures
            final(self)@ == dequeue_step(old(self)@),
            exit_allowed(old(self)@) ==> c == WorkerCommand::<F, T>::Exit,
            !exit_allowed(old(self)@) && old(self)@.jobs.len() == 0 ==> c == WorkerCommand::<
                F,
                T,
            >::Wait,
            dequeue_allowed(old(self)@) ==> c == WorkerCommand::<F, T>::Execute(
                old(self)@.jobs.last(),
            ),
    {
        match self.get_job() {
            Err(_) => WorkerCommand::Exit,
            Ok(None) => WorkerCommand::Wait,
            Ok(Some(job)) => WorkerCommand::Execute(job),
        }
    }

    /// Records how a dispatched job's execution ended: the busy-worker count
    /// falls by one whatever the outcome, and a failure or contained panic
    /// poisons the pool and tells the worker to exit. The caller runs the
    /// job itself inside its panic-containment boundary before calling this.
    pub fn record_job_outcome(&mut self, outcome: JobOutcome) -> (r: Result<(), ()>)
        requires
            old(self)@.working > 0,
        ensures
            final(self)@ == record_step(old(self)@, outcome),
            outcome is Completed ==> r == Ok::<(), ()>(()),
            !(outcome is Completed) ==> r == Err::<(), ()>(()),
    {
        self.adjust_working_thread_count(false);
        match outcome {
            JobOutcome::Completed => Ok(()),
            JobOutcome::Failed => {
                self.set_error();
                Err(())
            },
            JobOutcome::Panicked => {
                self.set_error();
                Err(())
            },
        }
    }

    /// Poisons the pool. The caller wakes all waiting workers afterwards.
    pub fn set_error(&mut self)
        ensures
            final(self)@ == fail_step(old(self)@),
    {
        self.error = true;
    }

    /// Whether the pool is poisoned.
    pub fn is_error(&self) -> (r: bool)
        ensures
            r == self@.error,
    {
        self.error
    }

    /// Whether the job queue is empty.
    pub fn is_jobs_empty(&self) -> (r: bool)
        ensures
            r == (self@.jobs.len() == 0),
    {
        self.jobs.is_empty()
    }

    /// The number of workers currently executing a job.
    pub fn get_working_thread_count(&self) -> (r: u64)
        ensures
            r as nat == self@.working,
    {
        self.working_thread_count
    }

    /// Requests shutdown: no further job will be dispatched. The caller
    /// wakes all waiting workers afterwards.
    pub fn set_end_work(&mut self)
        ensures
            final(self)@ == shutdown_step(old(self)@),
    {
        self.end_work = true;
    }

    /// Whether shutdown has been requested.
    pub fn is_end_work(&self) -> (r: bool)
        ensures
            r == self@.end_work,
    {
        self.end_work
    }

    /// Moves the busy-worker count up (a worker begins executing a job) or
    /// down (that execution ended).
    pub fn adjust_working_thread_count(&mut self, value: bool)
        requires
            value ==> old(self)@.working < u64::MAX,
            !value ==> old(self)@.working > 0,
        ensures
            value ==> final(self)@.working == old(self)@.working + 1,
            !value ==> final(self)@.working == old(self)@.working - 1,
            final(self)@.end_work == old(self)@.end_work,
            final(self)@.error == old(self)@.error,
            final(self)@.jobs == old(self)@.jobs,
    {
        if value {
            self.working_thread_count = self.working_thread_count + 1;
        } else {
            self.working_thread_count = self.working_thread_count - 1;
        }
    }
}

} // verus!
