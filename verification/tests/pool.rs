use webserver::{ThreadPool, ThreadWorker};

#[test]
fn new_worker_starts_idle() {
    let worker = ThreadWorker::new(7);
    assert_eq!(worker.id, 7);
    let pool = ThreadPool::new(1);
    assert!(pool.worker_is_idle(0));
}

#[test]
fn new_creates_exactly_size_workers() {
    for size in [1usize, 2, 3, 8] {
        let pool = ThreadPool::new(size);
        assert_eq!(pool.worker_count(), size);
        for wid in 0..size {
            assert!(pool.worker_is_idle(wid));
        }
        assert_eq!(pool.queued_count(), 0);
        assert_eq!(pool.submitted_count(), 0);
        assert_eq!(pool.finished_count(), 0);
    }
}

#[test]
fn try_new_rejects_zero_workers() {
    assert!(ThreadPool::try_new(0).is_none());
}

#[test]
fn try_new_accepts_any_positive_size() {
    for size in [1usize, 4, 100] {
        let pool = ThreadPool::try_new(size).unwrap();
        assert_eq!(pool.worker_count(), size);
    }
}

#[test]
fn queue_keeps_submission_order() {
    let mut pool = ThreadPool::new(2);
    for expected in 0u64..6 {
        let job = pool.execute();
        assert_eq!(job, expected);
    }
    assert_eq!(pool.queued_count(), 6);
    for i in 0..6usize {
        assert_eq!(pool.queued_job(i), i as u64);
    }
    // The front of the queue — the job taken next — is the earliest submission.
    assert_eq!(pool.worker_take(0), Some(0));
    assert_eq!(pool.worker_take(1), Some(1));
}

#[test]
fn execute_succeeds_while_every_worker_is_busy() {
    // One worker takes a job that never finishes; submissions keep landing.
    let mut pool = ThreadPool::new(1);
    pool.execute();
    assert_eq!(pool.worker_take(0), Some(0));
    assert!(!pool.worker_is_idle(0));
    for expected in 1u64..11 {
        let job = pool.execute();
        assert_eq!(job, expected);
    }
    assert_eq!(pool.queued_count(), 10);
    assert_eq!(pool.finished_count(), 0);
}

#[test]
fn take_on_empty_queue_changes_nothing() {
    let mut pool = ThreadPool::new(2);
    assert_eq!(pool.worker_take(0), None);
    assert!(pool.worker_is_idle(0));
    assert_eq!(pool.submitted_count(), 0);
    assert_eq!(pool.finished_count(), 0);
}

#[test]
fn extra_job_waits_until_a_worker_is_idle() {
    // Pool of 3, all workers occupied by long-running jobs: a fourth job
    // stays queued, and starts only after one of the first three finishes.
    let mut pool = ThreadPool::new(3);
    for _ in 0..4 {
        pool.execute();
    }
    assert_eq!(pool.worker_take(0), Some(0));
    assert_eq!(pool.worker_take(1), Some(1));
    assert_eq!(pool.worker_take(2), Some(2));
    for wid in 0..3 {
        assert!(!pool.worker_is_idle(wid));
    }
    assert_eq!(pool.queued_count(), 1);
    assert_eq!(pool.queued_job(0), 3);
    pool.worker_finish(1);
    assert!(pool.worker_is_idle(1));
    assert_eq!(pool.worker_take(1), Some(3));
    assert_eq!(pool.queued_count(), 0);
}

#[test]
fn five_jobs_three_workers_each_runs_exactly_once() {
    // Pool of 3, five jobs, each "incrementing a shared counter" when its
    // worker finishes it: the counter ends at exactly 5, and the finished
    // record holds every job id exactly once.
    let mut pool = ThreadPool::new(3);
    for _ in 0..5 {
        pool.execute();
    }
    let mut counter = 0u64;
    loop {
        let mut progressed = false;
        for wid in 0..3 {
            if pool.worker_is_idle(wid) {
                if pool.worker_take(wid).is_some() {
                    progressed = true;
                }
            } else {
                pool.worker_finish(wid);
                counter += 1;
                progressed = true;
            }
        }
        if !progressed {
            break;
        }
    }
    assert_eq!(counter, 5);
    assert_eq!(pool.finished_count(), 5);
    let mut seen = [false; 5];
    for i in 0..5 {
        let job = pool.finished_job(i) as usize;
        assert!(job < 5);
        assert!(!seen[job], "job finished twice");
        seen[job] = true;
    }
    assert!(seen.iter().all(|&s| s));
}

#[test]
fn single_worker_runs_jobs_sequentially() {
    // Pool of 1: job A is submitted before job B, so the lone worker
    // completes A before it can even start B.
    let mut pool = ThreadPool::new(1);
    let job_a = pool.execute();
    let job_b = pool.execute();
    let mut completion_order: Vec<u64> = Vec::new();
    assert_eq!(pool.worker_take(0), Some(job_a));
    pool.worker_finish(0);
    completion_order.push(pool.finished_job(0));
    assert_eq!(pool.worker_take(0), Some(job_b));
    pool.worker_finish(0);
    completion_order.push(pool.finished_job(1));
    assert_eq!(completion_order, vec![job_a, job_b]);
}

#[test]
fn no_job_is_taken_twice() {
    let mut pool = ThreadPool::new(4);
    for _ in 0..8 {
        pool.execute();
    }
    let mut taken: Vec<u64> = Vec::new();
    for _ in 0..2 {
        for wid in 0..4 {
            let job = pool.worker_take(wid).unwrap();
            assert!(!taken.contains(&job), "job handed to two workers");
            taken.push(job);
            pool.worker_finish(wid);
        }
    }
    assert_eq!(taken.len(), 8);
}
