use std::sync::Arc;
use std::sync::Mutex;

use thread_pool::add_job;
use thread_pool::jobs_finished;
use thread_pool::JobOutcome;
use thread_pool::ThreadData;
use thread_pool::WorkerCommand;

/// Drives one sequential worker over the coordination state until it is
/// told to exit or finds the queue empty: the worker run loop with the
/// blocking wait and the panic-containment boundary collapsed, since no
/// other thread exists to refill the queue. Returns how many jobs it
/// executed.
fn drive_worker<T>(data: &mut ThreadData<fn(T) -> Result<(), ()>, T>) -> u64 {
    let mut executed: u64 = 0;
    loop {
        match data.thread_work() {
            WorkerCommand::Exit => return executed,
            WorkerCommand::Wait => return executed,
            WorkerCommand::Execute((work, input)) => {
                let outcome = match work(input) {
                    Ok(()) => JobOutcome::Completed,
                    Err(()) => JobOutcome::Failed,
                };
                executed += 1;
                if data.record_job_outcome(outcome).is_err() {
                    return executed;
                }
            }
        }
    }
}

fn increment_job(counter: Arc<Mutex<u64>>) -> Result<(), ()> {
    *counter.lock().unwrap() += 1;
    Ok(())
}

fn fail_at_target(state: Arc<Mutex<(u64, u64)>>) -> Result<(), ()> {
    // state = (jobs executed so far, number of the job that must fail).
    let mut guard = state.lock().unwrap();
    guard.0 += 1;
    if guard.0 == guard.1 {
        Err(())
    } else {
        Ok(())
    }
}

fn noop(_data: u64) -> Result<(), ()> {
    Ok(())
}

#[test]
fn counter_scenario_runs_every_job_once() {
    // 200 jobs, each incrementing a shared guarded counter; shutdown is
    // requested while all of them are still queued. The drain runs every
    // one of them: after shutdown and drain, the counter holds exactly 200.
    let counter: Arc<Mutex<u64>> = Arc::new(Mutex::new(0));
    let mut data: ThreadData<fn(Arc<Mutex<u64>>) -> Result<(), ()>, Arc<Mutex<u64>>> =
        ThreadData::new();
    for _ in 0..200 {
        assert!(add_job(&mut data, increment_job, Arc::clone(&counter)).is_ok());
    }
    data.set_end_work();
    let executed = drive_worker(&mut data);
    assert_eq!(executed, 200);
    assert_eq!(*counter.lock().unwrap(), 200);
    assert!(data.is_jobs_empty());

    let all_finished: Vec<bool> = vec![true; 10];
    assert_eq!(jobs_finished(&data, &all_finished), Ok(true));
}

#[test]
fn failing_job_scenario_poisons_pool() {
    // 50 jobs where the 25th executed job deliberately fails: polling
    // reports failure from then on, and the not-yet-dequeued jobs stay
    // queued (they need not run, but none is silently dropped).
    type St = Arc<Mutex<(u64, u64)>>;
    let state: St = Arc::new(Mutex::new((0, 25)));
    let mut data: ThreadData<fn(St) -> Result<(), ()>, St> = ThreadData::new();
    for _ in 0..50 {
        assert!(add_job(&mut data, fail_at_target, Arc::clone(&state)).is_ok());
    }
    let executed = drive_worker(&mut data);
    assert_eq!(executed, 25);
    assert!(data.is_error());
    // No job ran after the failing one, and the 25 undequeued jobs remain.
    assert_eq!(state.lock().unwrap().0, 25);
    assert!(!data.is_jobs_empty());

    let finished: Vec<bool> = vec![false; 5];
    assert_eq!(jobs_finished(&data, &finished), Err(()));
    // Poisoning persists: polling keeps failing and nothing is dispatched.
    assert_eq!(jobs_finished(&data, &finished), Err(()));
    assert!(matches!(data.thread_work(), WorkerCommand::Exit));
    assert_eq!(drive_worker(&mut data), 0);
}

#[test]
fn submit_rejected_after_shutdown() {
    // Five submissions after shutdown was requested: all five fail and the
    // queue is unaffected.
    let mut data: ThreadData<fn(u64) -> Result<(), ()>, u64> = ThreadData::new();
    data.set_end_work();
    for _ in 0..5 {
        assert_eq!(add_job(&mut data, noop, 1), Err(()));
    }
    assert!(data.is_jobs_empty());
    assert_eq!(drive_worker(&mut data), 0);
    let finished: Vec<bool> = vec![true; 3];
    assert_eq!(jobs_finished(&data, &finished), Ok(true));
}

#[test]
fn jobs_run_in_lifo_order() {
    // Jobs submitted strictly before any dequeue run most-recent-first.
    let mut data: ThreadData<fn(u64) -> Result<(), ()>, u64> = ThreadData::new();
    for tag in 1..=4u64 {
        assert!(add_job(&mut data, noop, tag).is_ok());
    }
    let mut order: Vec<u64> = Vec::new();
    loop {
        match data.thread_work() {
            WorkerCommand::Execute((work, input)) => {
                order.push(input);
                assert_eq!(work(input), Ok(()));
                assert_eq!(data.record_job_outcome(JobOutcome::Completed), Ok(()));
            }
            _ => break,
        }
    }
    assert_eq!(order, vec![4, 3, 2, 1]);
}

#[test]
fn drain_after_quiescence_completes() {
    // Submit, let the worker drain everything, then request shutdown and
    // observe the terminal drain check.
    let counter: Arc<Mutex<u64>> = Arc::new(Mutex::new(0));
    let mut data: ThreadData<fn(Arc<Mutex<u64>>) -> Result<(), ()>, Arc<Mutex<u64>>> =
        ThreadData::new();
    for _ in 0..50 {
        assert!(add_job(&mut data, increment_job, Arc::clone(&counter)).is_ok());
    }
    assert_eq!(drive_worker(&mut data), 50);
    assert_eq!(*counter.lock().unwrap(), 50);
    data.set_end_work();
    // Workers still running: the drain is not complete yet.
    let still_running: Vec<bool> = vec![true, false];
    assert_eq!(jobs_finished(&data, &still_running), Ok(false));
    // Every worker exited: the drain is complete.
    let all_finished: Vec<bool> = vec![true, true];
    assert_eq!(jobs_finished(&data, &all_finished), Ok(true));
}
