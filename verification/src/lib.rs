//! A worker-thread pool primitive: callers submit fallible jobs (a work
//! function paired with its owned input), worker threads drain a shared
//! LIFO queue, and the pool reports aggregate completion status and
//! supports cooperative shutdown.
//!
//! This crate verifies the coordination logic itself: the shared state that
//! workers and the embedding program mutate ([`ThreadData`]), the decision
//! steps of the worker run loop, and the lifecycle protocol from "accepting
//! jobs" through "draining" to "stopped" or "errored". The parts that Verus
//! cannot see — spawning OS threads, blocking on a condition variable, and
//! containing a panicking job — stay with the embedding program, which
//! shares one `ThreadData` (behind a mutex, with a condition variable bound
//! to it) between its worker threads and drives this library's verified
//! step functions.
//!
//! This module holds the facade's decision half: what a submission does
//! once shutdown may have been requested, what completion polling reports,
//! and the spawn policy. The facade that owns the thread handles lives with
//! the embedding program and delegates here.

use vstd::prelude::*;

pub mod protocol;
pub mod thread_data;

pub use protocol::JobOutcome;
pub use protocol::PoolState;
pub use thread_data::ThreadData;
pub use thread_data::WorkerCommand;

use protocol::poll_result;
use protocol::submit_step;

verus! {

/// Submits a job through the facade: rejected outright (without touching
/// the queue) once shutdown has been requested or the pool is poisoned,
/// otherwise appended to the queue. On success the caller wakes one
/// waiting worker.
pub fn add_job<F, T>(data: &mut ThreadData<F, T>, job: F, input: T) -> (r: Result<(), ()>)
    ensures
        final(data)@ == submit_step(old(data)@, (job, input)),
        r == (if old(data)@.end_work || old(data)@.error {
            Err::<(), ()>(())
        } else {
            Ok::<(), ()>(())
        }),
{
    if data.is_end_work() || data.is_error() {
        Err(())
    } else {
        data.add_job(job, input)
    }
}

/// What completion polling reports, given the coordination state and, for
/// each worker thread, whether its thread function has returned
/// (`threads_finished`, one entry per spawned worker).
///
/// A poisoned pool always reports failure. A worker that finished while
/// shutdown was never requested died outside the protocol and is reported
/// as a failure too. During shutdown, completion means every worker
/// finished (the terminal drain check); before shutdown, completion means
/// the pool is quiescent: empty queue and no busy worker.
pub fn jobs_finished<F, T>(data: &ThreadData<F, T>, threads_finished: &Vec<bool>) -> (r: Result<
    bool,
    (),
>)
    ensures
        r == poll_result(data@, threads_finished@),
{
    if data.is_error() {
        return Err(());
    }

    let mut all_threads_finished: bool = true;
    let mut i: usize = 0;
    while i < threads_finished.len()
        invariant
            i <= threads_finished@.len(),
            !data@.error,
            all_threads_finished == (forall|k: int| 0 <= k < i ==> threads_finished@[k]),
            forall|k: int| 0 <= k < i ==> (data@.end_work || !threads_finished@[k]),
        decreases threads_finished@.len() - i,
    {
        if threads_finished[i] && !data.is_end_work() {
            return Err(());
        } else if !threads_finished[i] {
            all_threads_finished = false;
        }
        i = i + 1;
    }

    if data.is_end_work() {
        return Ok(all_threads_finished);
    }

    if !data.is_jobs_empty() || data.get_working_thread_count() != 0 {
        return Ok(false);
    }

    Ok(true)
}

/// The spawn policy of pool construction: keep spawning while fewer than
/// `num_threads` workers exist — except that `num_threads == 0` is an
/// unbounded-spawn sentinel, a deliberate and unusual policy of this pool:
/// it means "spawn until the host refuses to create more threads", not
/// "spawn zero workers". A failed spawn always ends construction, so the
/// pool degrades gracefully to however many workers it got.
pub fn keep_spawning(num_threads: u64, spawned: u64) -> (r: bool)
    ensures
        r == (num_threads == 0 || spawned < num_threads),
{
    num_threads == 0 || spawned < num_threads
}

} // verus!
