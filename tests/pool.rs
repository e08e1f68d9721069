use rust_book::pool::{teardown_report, Dispatcher, PoolError, WorkerAction, WorkerState};

fn drive_until_idle(d: &mut Dispatcher, worker: usize, log: &mut Vec<u64>) {
    loop {
        match d.next_action(worker) {
            WorkerAction::Run(t) => {
                log.push(t);
                d.finish_job(worker, false);
            }
            WorkerAction::Wait | WorkerAction::Exit => break,
        }
    }
}

#[test]
fn new_creates_exactly_the_requested_workers() {
    for n in 1..=8usize {
        let d = Dispatcher::new(n).unwrap();
        assert_eq!(d.worker_count(), n);
        for w in 0..n {
            assert_eq!(d.worker_state(w), WorkerState::Idle);
        }
        assert!(d.accepting());
        assert_eq!(d.pending_count(), 0);
        assert_eq!(d.submitted_count(), 0);
    }
}

#[test]
fn zero_workers_is_a_configuration_error() {
    assert!(matches!(Dispatcher::new(0), Err(PoolError::InvalidSize)));
}

#[test]
fn single_worker_runs_jobs_in_submission_order() {
    let mut d = Dispatcher::new(1).unwrap();
    for i in 0..5u64 {
        assert_eq!(d.submit(), Ok(i));
    }
    let mut log = Vec::new();
    drive_until_idle(&mut d, 0, &mut log);
    let to_join = d.shutdown();
    assert_eq!(to_join, vec![0]);
    assert_eq!(d.next_action(0), WorkerAction::Exit);
    assert_eq!(log, vec![0, 1, 2, 3, 4]);
}

#[test]
fn four_workers_run_a_hundred_jobs_once_each() {
    let mut d = Dispatcher::new(4).unwrap();
    for _ in 0..100 {
        d.submit().unwrap();
    }
    let mut counter = 0u32;
    let mut seen = vec![0u32; 100];
    let mut running: Vec<Option<u64>> = vec![None; 4];
    let to_join = d.shutdown();
    assert_eq!(to_join, vec![0, 1, 2, 3]);
    let mut exited = [false; 4];
    while exited.iter().any(|e| !e) {
        for w in 0..4 {
            if exited[w] {
                continue;
            }
            if let Some(t) = running[w].take() {
                counter += 1;
                seen[t as usize] += 1;
                d.finish_job(w, false);
                continue;
            }
            match d.next_action(w) {
                WorkerAction::Run(t) => running[w] = Some(t),
                WorkerAction::Exit => exited[w] = true,
                WorkerAction::Wait => panic!("a closed channel never waits"),
            }
        }
    }
    assert_eq!(counter, 100);
    assert!(seen.iter().all(|&n| n == 1));
}

#[test]
fn a_slow_job_does_not_hold_back_the_next_one() {
    let mut d = Dispatcher::new(2).unwrap();
    let slow = d.submit().unwrap();
    assert_eq!(d.next_action(0), WorkerAction::Run(slow));
    let quick = d.submit().unwrap();
    assert_eq!(d.next_action(1), WorkerAction::Run(quick));
    let mut increments = Vec::new();
    increments.push(quick);
    d.finish_job(1, false);
    assert_eq!(d.worker_state(0), WorkerState::Running(slow));
    increments.push(slow);
    d.finish_job(0, false);
    assert_eq!(increments, vec![1, 0]);
}

#[test]
fn submit_after_shutdown_is_refused_and_nothing_runs() {
    let mut d = Dispatcher::new(2).unwrap();
    d.submit().unwrap();
    d.shutdown();
    assert_eq!(d.submit(), Err(PoolError::Closed));
    assert_eq!(d.pending_count(), 1);
    assert_eq!(d.submitted_count(), 1);
    assert_eq!(d.next_action(0), WorkerAction::Run(0));
    assert_eq!(d.next_action(1), WorkerAction::Exit);
}

#[test]
fn shutdown_twice_hands_out_workers_once() {
    let mut d = Dispatcher::new(3).unwrap();
    assert_eq!(d.shutdown(), vec![0, 1, 2]);
    assert_eq!(d.shutdown(), Vec::<usize>::new());
    assert!(!d.accepting());
}

#[test]
fn an_open_empty_channel_makes_workers_wait() {
    let mut d = Dispatcher::new(1).unwrap();
    assert_eq!(d.next_action(0), WorkerAction::Wait);
    assert_eq!(d.worker_state(0), WorkerState::Idle);
}

#[test]
fn queued_jobs_still_run_after_shutdown() {
    let mut d = Dispatcher::new(1).unwrap();
    d.submit().unwrap();
    d.submit().unwrap();
    d.shutdown();
    let mut log = Vec::new();
    drive_until_idle(&mut d, 0, &mut log);
    assert_eq!(log, vec![0, 1]);
    assert_eq!(d.worker_state(0), WorkerState::Terminated);
}

#[test]
fn a_failed_job_only_loses_its_worker() {
    let mut d = Dispatcher::new(2).unwrap();
    d.submit().unwrap();
    d.submit().unwrap();
    assert_eq!(d.next_action(0), WorkerAction::Run(0));
    d.finish_job(0, true);
    assert_eq!(d.worker_state(0), WorkerState::Failed);
    assert_eq!(d.worker_state(1), WorkerState::Idle);
    assert_eq!(d.submit(), Ok(2));
    assert_eq!(d.next_action(1), WorkerAction::Run(1));
    d.finish_job(1, false);
    assert_eq!(d.next_action(1), WorkerAction::Run(2));
}

#[test]
fn teardown_reports_each_failure_once() {
    assert_eq!(teardown_report(&vec![0, 1, 2], &vec![false, false, false]), Ok(()));
    let failure = teardown_report(&vec![0, 1, 2], &vec![true, false, true]).unwrap_err();
    assert_eq!(failure.failed, vec![0, 2]);
    assert_eq!(teardown_report(&vec![], &vec![]), Ok(()));
}
