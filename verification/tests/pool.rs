use simple_rust_server::pool::{BuildError, SubmitError, ThreadPool};
use std::sync::atomic::{AtomicUsize, Ordering};
use std::sync::Arc;
use std::time::{Duration, Instant};

fn count_up(counter: Arc<AtomicUsize>) -> bool {
    counter.fetch_add(1, Ordering::SeqCst);
    true
}

fn busy_wait_millis(millis: u64) -> bool {
    let start = Instant::now();
    while start.elapsed() < Duration::from_millis(millis) {
        std::hint::spin_loop();
    }
    true
}

fn fail_or_count(task: (bool, Arc<AtomicUsize>)) -> bool {
    let (should_fail, counter) = task;
    if should_fail {
        false
    } else {
        counter.fetch_add(1, Ordering::SeqCst);
        true
    }
}

#[test]
fn every_task_runs_exactly_once() {
    for (size, submitted) in [(1, 1), (1, 8), (2, 5), (3, 3), (4, 20)] {
        let counter = Arc::new(AtomicUsize::new(0));
        let mut pool = ThreadPool::new(size, count_up).unwrap();
        for _ in 0..submitted {
            pool.execute(Arc::clone(&counter)).unwrap();
        }
        let failed = pool.shutdown();
        assert_eq!(failed, 0);
        assert_eq!(counter.load(Ordering::SeqCst), submitted);
    }
}

#[test]
fn zero_size_is_refused() {
    match ThreadPool::new(0, count_up) {
        Err(error) => assert_eq!(error, BuildError::InvalidSize),
        Ok(_) => panic!("a pool of size zero must not be built"),
    }
}

#[test]
fn submit_after_teardown_is_refused() {
    let counter = Arc::new(AtomicUsize::new(0));
    let mut pool = ThreadPool::new(2, count_up).unwrap();
    pool.shutdown();
    let refused = pool.execute(Arc::clone(&counter));
    assert_eq!(refused, Err(SubmitError::ChannelClosed));
    pool.shutdown();
    assert_eq!(counter.load(Ordering::SeqCst), 0);
}

#[test]
fn teardown_waits_for_queued_tasks() {
    let mut pool = ThreadPool::new(2, busy_wait_millis).unwrap();
    let started = Instant::now();
    for _ in 0..6 {
        pool.execute(50).unwrap();
    }
    pool.shutdown();
    // Six 50 ms tasks on two workers need at least three rounds.
    assert!(started.elapsed() >= Duration::from_millis(140));
}

#[test]
fn failing_task_spares_its_siblings() {
    let counter = Arc::new(AtomicUsize::new(0));
    let mut pool = ThreadPool::new(1, fail_or_count).unwrap();
    pool.execute((true, Arc::clone(&counter))).unwrap();
    pool.execute((false, Arc::clone(&counter))).unwrap();
    let failed = pool.shutdown();
    assert_eq!(failed, 1);
    assert_eq!(counter.load(Ordering::SeqCst), 1);
}

#[test]
fn teardown_twice_is_harmless() {
    let counter = Arc::new(AtomicUsize::new(0));
    let mut pool = ThreadPool::new(3, count_up).unwrap();
    pool.execute(Arc::clone(&counter)).unwrap();
    pool.shutdown();
    let second = pool.shutdown();
    assert_eq!(second, 0);
    assert_eq!(counter.load(Ordering::SeqCst), 1);
}

#[test]
fn dropping_the_pool_still_runs_every_task() {
    let counter = Arc::new(AtomicUsize::new(0));
    let pool = ThreadPool::new(2, count_up).unwrap();
    for _ in 0..10 {
        pool.execute(Arc::clone(&counter)).unwrap();
    }
    drop(pool);
    assert_eq!(counter.load(Ordering::SeqCst), 10);
}
