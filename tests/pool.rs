use thread_pool::{Action, PoolError, ThreadPool, WorkerState};

/// Hands worker `id` its next job, runs it and reports it done; returns the
/// ticket, or `None` when the worker was told to wait or exit.
fn serve_one(pool: &mut ThreadPool<Box<dyn FnOnce()>>, id: usize) -> Option<u64> {
    match pool.next_action(id) {
        Action::Run(ticket, job) => {
            job();
            pool.finish(id);
            Some(ticket)
        }
        Action::Wait | Action::Exit => None,
    }
}

#[test]
fn new_pool_has_every_worker_waiting() {
    for size in [1usize, 2, 4, 8] {
        let pool: ThreadPool<u32> = ThreadPool::new(size);
        assert_eq!(pool.size(), size);
        for id in 0..size {
            assert_eq!(pool.worker_state(id), WorkerState::Waiting);
        }
        assert!(pool.accepts_jobs());
        assert_eq!(pool.pending_count(), 0);
        assert_eq!(pool.submitted_count(), 0);
        assert_eq!(pool.completed_count(), 0);
        assert!(!pool.is_finished());
    }
}

#[test]
fn tickets_follow_submission_order() {
    let mut pool: ThreadPool<&str> = ThreadPool::new(3);
    assert_eq!(pool.execute("a"), Ok(0));
    assert_eq!(pool.execute("b"), Ok(1));
    assert_eq!(pool.execute("c"), Ok(2));
    assert_eq!(pool.pending_count(), 3);
    assert!(matches!(pool.next_action(2), Action::Run(0, "a")));
    assert!(matches!(pool.next_action(0), Action::Run(1, "b")));
    assert_eq!(pool.worker_state(2), WorkerState::Running(0));
    assert_eq!(pool.worker_state(0), WorkerState::Running(1));
    assert_eq!(pool.pending_count(), 1);
}

#[test]
fn idle_worker_waits_while_open() {
    let mut pool: ThreadPool<u32> = ThreadPool::new(2);
    assert!(matches!(pool.next_action(0), Action::Wait));
    assert_eq!(pool.worker_state(0), WorkerState::Waiting);
}

#[test]
fn submit_after_shutdown_is_refused() {
    let mut pool: ThreadPool<u32> = ThreadPool::new(2);
    assert_eq!(pool.execute(1), Ok(0));
    pool.shutdown();
    assert!(!pool.accepts_jobs());
    assert_eq!(pool.execute(2), Err(PoolError::Closed));
    assert_eq!(pool.submitted_count(), 1);
    assert_eq!(pool.pending_count(), 1);
}

#[test]
fn shutdown_twice_changes_nothing() {
    let mut pool: ThreadPool<u32> = ThreadPool::new(1);
    pool.shutdown();
    pool.shutdown();
    assert!(!pool.accepts_jobs());
    assert_eq!(pool.execute(5), Err(PoolError::Closed));
}

#[test]
fn queued_jobs_run_before_workers_exit() {
    let mut pool: ThreadPool<u32> = ThreadPool::new(1);
    assert_eq!(pool.execute(10), Ok(0));
    assert_eq!(pool.execute(20), Ok(1));
    pool.shutdown();
    assert!(matches!(pool.next_action(0), Action::Run(0, 10)));
    pool.finish(0);
    assert!(matches!(pool.next_action(0), Action::Run(1, 20)));
    pool.finish(0);
    assert!(matches!(pool.next_action(0), Action::Exit));
    assert_eq!(pool.worker_state(0), WorkerState::Terminated);
    assert!(pool.is_finished());
    assert_eq!(pool.completed_count(), 2);
}

#[test]
fn each_marker_is_delivered_once() {
    let mut pool: ThreadPool<u32> = ThreadPool::new(3);
    for marker in 0..30u32 {
        assert_eq!(pool.execute(marker), Ok(marker as u64));
    }
    pool.shutdown();
    let mut seen = vec![0u32; 30];
    let mut exited = vec![false; 3];
    let mut id: usize = 0;
    while exited.iter().any(|e| !e) {
        if !exited[id] {
            match pool.next_action(id) {
                Action::Run(ticket, marker) => {
                    assert_eq!(ticket, marker as u64);
                    seen[marker as usize] += 1;
                    pool.finish(id);
                }
                Action::Exit => exited[id] = true,
                Action::Wait => panic!("a closed pool never asks a worker to wait"),
            }
        }
        id = (id + 1) % 3;
    }
    assert!(seen.iter().all(|&n| n == 1));
    assert_eq!(pool.completed_count(), 30);
}

#[test]
fn hundred_jobs_on_four_workers_all_count() {
    let counter = std::rc::Rc::new(std::cell::Cell::new(0u32));
    let mut pool: ThreadPool<Box<dyn FnOnce()>> = ThreadPool::new(4);
    for _ in 0..100 {
        let c = counter.clone();
        assert!(pool.execute(Box::new(move || c.set(c.get() + 1))).is_ok());
    }
    let mut id: usize = 0;
    while pool.pending_count() > 0 {
        serve_one(&mut pool, id);
        id = (id + 1) % 4;
    }
    pool.shutdown();
    for id in 0..4 {
        assert!(matches!(pool.next_action(id), Action::Exit));
    }
    assert!(pool.is_finished());
    assert_eq!(counter.get(), 100);
    assert_eq!(pool.completed_count(), 100);
}

#[test]
fn single_worker_runs_second_job_after_first() {
    let log = std::rc::Rc::new(std::cell::RefCell::new(Vec::new()));
    let counter = std::rc::Rc::new(std::cell::Cell::new(0u32));
    let mut pool: ThreadPool<Box<dyn FnOnce()>> = ThreadPool::new(1);
    let la = log.clone();
    assert_eq!(pool.execute(Box::new(move || la.borrow_mut().push("A"))), Ok(0));
    let (lb, c) = (log.clone(), counter.clone());
    assert_eq!(
        pool.execute(Box::new(move || {
            lb.borrow_mut().push("B");
            c.set(c.get() + 1);
        })),
        Ok(1)
    );
    let first = match pool.next_action(0) {
        Action::Run(ticket, job) => {
            // while A runs, the only worker is busy and B stays queued
            assert_eq!(pool.worker_state(0), WorkerState::Running(0));
            assert_eq!(pool.pending_count(), 1);
            job();
            pool.finish(0);
            ticket
        }
        _ => panic!("job A must be handed out"),
    };
    assert_eq!(first, 0);
    assert_eq!(serve_one(&mut pool, 0), Some(1));
    pool.shutdown();
    assert!(matches!(pool.next_action(0), Action::Exit));
    assert_eq!(*log.borrow(), vec!["A", "B"]);
    assert_eq!(counter.get(), 1);
}

#[test]
fn two_workers_run_two_jobs_at_once() {
    let mut pool: ThreadPool<u32> = ThreadPool::new(2);
    assert_eq!(pool.execute(1), Ok(0));
    assert_eq!(pool.execute(2), Ok(1));
    assert!(matches!(pool.next_action(0), Action::Run(0, 1)));
    assert!(matches!(pool.next_action(1), Action::Run(1, 2)));
    assert_eq!(pool.worker_state(0), WorkerState::Running(0));
    assert_eq!(pool.worker_state(1), WorkerState::Running(1));
    assert_eq!(pool.pending_count(), 0);
    pool.finish(1);
    pool.finish(0);
    assert_eq!(pool.completed_count(), 2);
}

#[test]
fn empty_pool_of_eight_tears_down_at_once() {
    let mut pool: ThreadPool<u32> = ThreadPool::new(8);
    pool.shutdown();
    for id in 0..8 {
        assert!(!pool.is_finished());
        assert!(matches!(pool.next_action(id), Action::Exit));
    }
    assert!(pool.is_finished());
    assert_eq!(pool.completed_count(), 0);
    assert_eq!(pool.submitted_count(), 0);
}
