//! The pool's lifecycle protocol, as a mathematical model.
//!
//! `PoolState` is the abstract value of the shared coordination state: the
//! pending job queue, the two monotonic flags (`error`, `end_work`) and the
//! count of workers currently executing a job. Each operation the pool
//! performs is a step function on `PoolState`; the laws at the end of this
//! module are proved over arbitrary sequences of such steps.
//!
//! A job is a pair `(F, T)`: a work function together with its owned input.
//! Jobs are opaque to the pool — it never looks inside either component —
//! so both are type parameters throughout.

use vstd::multiset::Multiset;
use vstd::prelude::*;

verus! {

/// Abstract value of the shared coordination state.
#[verifier::ext_equal]
pub ghost struct PoolState<F, T> {
    /// Shutdown was requested; monotonic false-to-true. No further
    /// submission is accepted, but jobs already queued still drain: workers
    /// keep dequeuing them until the queue is empty.
    pub end_work: bool,
    /// The pool is poisoned (a job failed or panicked, or a lock became
    /// unusable); monotonic false-to-true.
    pub error: bool,
    /// Pending jobs, oldest first; dispatch takes the most recent (LIFO).
    pub jobs: Seq<(F, T)>,
    /// Number of workers currently inside a job's execution.
    pub working: nat,
}

/// How a job's execution ended, as observed at the panic-containment
/// boundary by the thread that ran it.
#[derive(Clone, Copy, Debug)]
pub enum JobOutcome {
    /// The job's function returned success.
    Completed,
    /// The job's function returned a failure result.
    Failed,
    /// The job's function panicked; the panic was contained.
    Panicked,
}

/// A submission as the facade performs it: rejected outright once shutdown
/// was requested or the pool is poisoned, otherwise appended to the queue.
pub open spec fn submit_step<F, T>(s: PoolState<F, T>, job: (F, T)) -> PoolState<F, T> {
    if s.end_work || s.error {
        s
    } else {
        (PoolState { jobs: s.jobs.push(job), ..s })
    }
}

/// Whether a worker asking for a job is handed one: never once the pool is
/// poisoned, and only from a non-empty queue. Shutdown does not stop the
/// drain: jobs queued before it still run.
pub open spec fn dequeue_allowed<F, T>(s: PoolState<F, T>) -> bool {
    !s.error && s.jobs.len() > 0
}

/// Whether a worker's run loop is told to stop: the pool is poisoned, or
/// shutdown was requested and the queue is already drained.
pub open spec fn exit_allowed<F, T>(s: PoolState<F, T>) -> bool {
    s.error || (s.end_work && s.jobs.len() == 0)
}

/// The job a dequeue hands out: the most recently submitted one (LIFO).
pub open spec fn dequeued_job<F, T>(s: PoolState<F, T>) -> Option<(F, T)> {
    if dequeue_allowed(s) {
        Some(s.jobs.last())
    } else {
        None
    }
}

/// A worker's attempt to take a job: when allowed, the most recent job
/// leaves the queue and the busy-worker count rises by one; otherwise the
/// state is unchanged.
pub open spec fn dequeue_step<F, T>(s: PoolState<F, T>) -> PoolState<F, T> {
    if dequeue_allowed(s) {
        (PoolState { jobs: s.jobs.drop_last(), working: s.working + 1, ..s })
    } else {
        s
    }
}

/// Recording a finished job: the busy-worker count falls by one, and any
/// outcome other than success poisons the pool. (With no worker busy there
/// is nothing to record.)
pub open spec fn record_step<F, T>(s: PoolState<F, T>, outcome: JobOutcome) -> PoolState<F, T> {
    if s.working > 0 {
        (PoolState {
            working: (s.working - 1) as nat,
            error: s.error || !(outcome is Completed),
            ..s
        })
    } else {
        s
    }
}

/// Requesting shutdown: sets `end_work`, nothing else.
pub open spec fn shutdown_step<F, T>(s: PoolState<F, T>) -> PoolState<F, T> {
    (PoolState { end_work: true, ..s })
}

/// Poisoning from outside a job (an unusable lock): sets `error`.
pub open spec fn fail_step<F, T>(s: PoolState<F, T>) -> PoolState<F, T> {
    (PoolState { error: true, ..s })
}

/// What completion polling reports, given the coordination state and, for
/// each worker thread, whether its thread function has returned.
pub open spec fn poll_result<F, T>(s: PoolState<F, T>, finished: Seq<bool>) -> Result<bool, ()> {
    if s.error {
        Err(())
    } else if !s.end_work && (exists|i: int| 0 <= i < finished.len() && finished[i]) {
        // A worker died outside the error/shutdown protocol.
        Err(())
    } else if s.end_work {
        Ok(forall|i: int| 0 <= i < finished.len() ==> finished[i])
    } else {
        Ok(s.jobs.len() == 0 && s.working == 0)
    }
}

/// One operation of the lifecycle protocol.
pub ghost enum PoolOp<F, T> {
    /// The facade is asked to submit a job.
    Submit((F, T)),
    /// A worker asks for a job.
    Dequeue,
    /// A worker records how the job it ran ended.
    Record(JobOutcome),
    /// The caller requests shutdown.
    Shutdown,
    /// A synchronization primitive became unusable.
    Fail,
}

/// The state change one operation makes.
pub open spec fn step<F, T>(s: PoolState<F, T>, op: PoolOp<F, T>) -> PoolState<F, T> {
    match op {
        PoolOp::Submit(job) => submit_step(s, job),
        PoolOp::Dequeue => dequeue_step(s),
        PoolOp::Record(outcome) => record_step(s, outcome),
        PoolOp::Shutdown => shutdown_step(s),
        PoolOp::Fail => fail_step(s),
    }
}

/// The state after a sequence of operations.
pub open spec fn run_steps<F, T>(s: PoolState<F, T>, ops: Seq<PoolOp<F, T>>) -> PoolState<F, T>
    decreases ops.len(),
{
    if ops.len() == 0 {
        s
    } else {
        run_steps(step(s, ops[0]), ops.drop_first())
    }
}

/// The jobs the queue accepted along a sequence of operations (submissions
/// made while shutdown was already requested, or the pool poisoned, are
/// rejected and not counted).
pub open spec fn submitted_jobs<F, T>(s: PoolState<F, T>, ops: Seq<PoolOp<F, T>>) -> Multiset<
    (F, T),
>
    decreases ops.len(),
{
    if ops.len() == 0 {
        Multiset::empty()
    } else {
        let rest = submitted_jobs(step(s, ops[0]), ops.drop_first());
        match ops[0] {
            PoolOp::Submit(job) => if !s.end_work && !s.error {
                rest.insert(job)
            } else {
                rest
            },
            _ => rest,
        }
    }
}

/// The state after submitting each job of `js` in order, through the
/// facade's submission step.
pub open spec fn submit_all<F, T>(s: PoolState<F, T>, js: Seq<(F, T)>) -> PoolState<F, T>
    decreases js.len(),
{
    if js.len() == 0 {
        s
    } else {
        submit_all(submit_step(s, js[0]), js.drop_first())
    }
}

/// The jobs handed out to workers along a sequence of operations.
pub open spec fn dispatched_jobs<F, T>(s: PoolState<F, T>, ops: Seq<PoolOp<F, T>>) -> Multiset<
    (F, T),
>
    decreases ops.len(),
{
    if ops.len() == 0 {
        Multiset::empty()
    } else {
        let rest = dispatched_jobs(step(s, ops[0]), ops.drop_first());
        match ops[0] {
            PoolOp::Dequeue => if dequeue_allowed(s) {
                rest.insert(s.jobs.last())
            } else {
                rest
            },
            _ => rest,
        }
    }
}

/// Law (poisoning persistence): once the pool is poisoned, it stays
/// poisoned — no sequence of protocol operations clears `error`.
pub proof fn lemma_error_persists<F, T>(s: PoolState<F, T>, ops: Seq<PoolOp<F, T>>)
    requires
        s.error,
    ensures
        run_steps(s, ops).error,
    decreases ops.len(),
{
    if ops.len() > 0 {
        lemma_error_persists(step(s, ops[0]), ops.drop_first());
    }
}

/// Law (poisoning blocks dispatch): once the pool is poisoned, no job is
/// handed to any worker by any later operation.
pub proof fn lemma_error_blocks_dispatch<F, T>(s: PoolState<F, T>, ops: Seq<PoolOp<F, T>>)
    requires
        s.error,
    ensures
        dispatched_jobs(s, ops).len() == 0,
    decreases ops.len(),
{
    broadcast use vstd::multiset::group_multiset_axioms;

    if ops.len() > 0 {
        lemma_error_blocks_dispatch(step(s, ops[0]), ops.drop_first());
    }
}

/// Law (shutdown persistence): once shutdown has been requested, no
/// sequence of protocol operations clears `end_work`.
pub proof fn lemma_end_work_persists<F, T>(s: PoolState<F, T>, ops: Seq<PoolOp<F, T>>)
    requires
        s.end_work,
    ensures
        run_steps(s, ops).end_work,
    decreases ops.len(),
{
    if ops.len() > 0 {
        lemma_end_work_persists(step(s, ops[0]), ops.drop_first());
    }
}

/// Law (rejection after shutdown): once shutdown has been requested, every
/// later submission is rejected — none is accepted into the queue. (The
/// jobs already queued still drain; see `lemma_exit_implies_drained`.)
pub proof fn lemma_shutdown_rejects_submissions<F, T>(s: PoolState<F, T>, ops: Seq<PoolOp<F, T>>)
    requires
        s.end_work,
    ensures
        submitted_jobs(s, ops).len() == 0,
    decreases ops.len(),
{
    broadcast use vstd::multiset::group_multiset_axioms;

    if ops.len() > 0 {
        lemma_shutdown_rejects_submissions(step(s, ops[0]), ops.drop_first());
    }
}

/// Law (poisoning freezes the queue): once the pool is poisoned, every
/// later submission is rejected and the queue never changes again — queued
/// jobs are neither run nor dropped; the pool must be discarded.
pub proof fn lemma_error_rejects_submissions<F, T>(s: PoolState<F, T>, ops: Seq<PoolOp<F, T>>)
    requires
        s.error,
    ensures
        submitted_jobs(s, ops).len() == 0,
        run_steps(s, ops).jobs == s.jobs,
    decreases ops.len(),
{
    broadcast use vstd::multiset::group_multiset_axioms;

    if ops.len() > 0 {
        lemma_error_rejects_submissions(step(s, ops[0]), ops.drop_first());
    }
}

/// Law (drain completeness, no-abandonment half): an unpoisoned worker is
/// told to exit its run loop only when shutdown was requested and the queue
/// is already drained — shutdown never abandons a queued job.
pub proof fn lemma_exit_implies_drained<F, T>(s: PoolState<F, T>)
    requires
        exit_allowed(s),
        !s.error,
    ensures
        s.end_work,
        s.jobs.len() == 0,
{
}

/// Law (exclusivity): along any sequence of protocol operations, the jobs
/// still queued at the end together with the jobs handed out to workers are
/// exactly the jobs queued at the start together with the accepted
/// submissions. Each accepted job is therefore dispatched at most once,
/// never duplicated, and never silently dropped by a protocol step.
pub proof fn lemma_job_conservation<F, T>(s: PoolState<F, T>, ops: Seq<PoolOp<F, T>>)
    ensures
        run_steps(s, ops).jobs.to_multiset().add(dispatched_jobs(s, ops)) == s.jobs.to_multiset().add(
            submitted_jobs(s, ops),
        ),
    decreases ops.len(),
{
    broadcast use vstd::multiset::group_multiset_axioms;
    broadcast use vstd::seq_lib::group_to_multiset_ensures;

    if ops.len() == 0 {
        assert(run_steps(s, ops).jobs.to_multiset().add(dispatched_jobs(s, ops))
            =~= s.jobs.to_multiset().add(submitted_jobs(s, ops)));
    } else {
        let s2 = step(s, ops[0]);
        let rest = ops.drop_first();
        lemma_job_conservation(s2, rest);
        match ops[0] {
            PoolOp::Submit(job) => {
                if !s.end_work && !s.error {
                    assert(s2.jobs.to_multiset() =~= s.jobs.to_multiset().insert(job));
                    assert(run_steps(s, ops).jobs.to_multiset().add(dispatched_jobs(s, ops))
                        =~= s.jobs.to_multiset().add(submitted_jobs(s, ops)));
                }
            },
            PoolOp::Dequeue => {
                if dequeue_allowed(s) {
                    let x = s.jobs.last();
                    let last = s.jobs.len() - 1;
                    assert(s.jobs.drop_last() =~= s.jobs.remove(last));
                    assert(s.jobs.remove(last).to_multiset() == s.jobs.to_multiset().remove(x));
                    assert(s.jobs.contains(x));
                    assert(s.jobs.to_multiset().count(x) > 0);
                    assert(dispatched_jobs(s, ops) == dispatched_jobs(s2, rest).insert(x));
                    assert(run_steps(s, ops).jobs.to_multiset().add(
                        dispatched_jobs(s2, rest).insert(x),
                    ) =~= run_steps(s, ops).jobs.to_multiset().add(dispatched_jobs(s2, rest)).insert(
                        x,
                    ));
                    assert(s2.jobs.to_multiset().add(submitted_jobs(s2, rest)).insert(x)
                        =~= s2.jobs.to_multiset().insert(x).add(submitted_jobs(s2, rest)));
                    assert(s2.jobs.to_multiset().insert(x) =~= s.jobs.to_multiset());
                    assert(run_steps(s, ops).jobs.to_multiset().add(dispatched_jobs(s, ops))
                        =~= s.jobs.to_multiset().add(submitted_jobs(s, ops)));
                }
            },
            _ => {},
        }
    }
}

/// Law (LIFO order): after submitting the jobs of `js` in order, with no
/// intervening dequeue, the queue holds the old jobs followed by `js`, the
/// next job handed out is the last-submitted one, and the dequeue leaves
/// the earlier submissions queued in order.
pub proof fn lemma_lifo_order<F, T>(s: PoolState<F, T>, js: Seq<(F, T)>)
    requires
        !s.error,
        !s.end_work,
        js.len() > 0,
    ensures
        submit_all(s, js).jobs == s.jobs + js,
        dequeued_job(submit_all(s, js)) == Some(js.last()),
        dequeue_step(submit_all(s, js)).jobs == s.jobs + js.drop_last(),
{
    lemma_submit_all_appends(s, js);
    assert((s.jobs + js).last() == js.last());
    assert((s.jobs + js).drop_last() =~= s.jobs + js.drop_last());
}

/// After submitting the jobs of `js` in order (no shutdown requested, pool
/// unpoisoned), the queue holds the old jobs followed by `js`, and the
/// flags and busy-worker count are untouched.
pub proof fn lemma_submit_all_appends<F, T>(s: PoolState<F, T>, js: Seq<(F, T)>)
    requires
        !s.end_work,
        !s.error,
    ensures
        submit_all(s, js).jobs == s.jobs + js,
        submit_all(s, js).end_work == s.end_work,
        submit_all(s, js).error == s.error,
        submit_all(s, js).working == s.working,
    decreases js.len(),
{
    if js.len() == 0 {
        assert(s.jobs + js =~= s.jobs);
    } else {
        let s2 = submit_step(s, js[0]);
        lemma_submit_all_appends(s2, js.drop_first());
        assert(s2.jobs + js.drop_first() =~= s.jobs + js);
    }
}

/// Law (drain completeness, observation half): with shutdown requested, the
/// pool unpoisoned, and every worker thread finished, completion polling
/// reports completion.
pub proof fn lemma_drain_reports_complete<F, T>(s: PoolState<F, T>, finished: Seq<bool>)
    requires
        !s.error,
        s.end_work,
        forall|i: int| 0 <= i < finished.len() ==> finished[i],
    ensures
        poll_result(s, finished) == Ok::<bool, ()>(true),
{
}

/// Law (quiescence accuracy): with no shutdown requested, the pool
/// unpoisoned, and no worker thread dead, completion polling reports
/// completion exactly when the queue is empty and no worker is executing a
/// job.
pub proof fn lemma_quiescence_accuracy<F, T>(s: PoolState<F, T>, finished: Seq<bool>)
    requires
        !s.error,
        !s.end_work,
        forall|i: int| 0 <= i < finished.len() ==> !finished[i],
    ensures
        poll_result(s, finished) == Ok::<bool, ()>(s.jobs.len() == 0 && s.working == 0),
{
}

/// Law (poisoning is reported): a poisoned pool reports failure to every
/// completion poll, whatever the worker threads look like.
pub proof fn lemma_poisoned_poll_fails<F, T>(s: PoolState<F, T>, finished: Seq<bool>)
    requires
        s.error,
    ensures
        poll_result(s, finished) == Err::<bool, ()>(()),
{
}

} // verus!
