use relay::pool::{JobState, PoolError, ThreadPool, WorkerStep};

#[test]
fn pool_of_zero_workers_refused() {
    assert_eq!(ThreadPool::new(0).err(), Some(PoolError::ZeroSize));
}

#[test]
fn pool_of_one_worker_accepted() {
    let p = ThreadPool::new(1).unwrap();
    assert_eq!(p.size, 1);
    assert!(!p.closed);
}

#[test]
fn submit_after_close_refused() {
    let mut p = ThreadPool::new(2).unwrap();
    assert_eq!(p.execute(), Ok(0));
    p.close();
    assert_eq!(p.execute(), Err(PoolError::ShutDown));
    // the refused submission left the queue as it was
    assert_eq!(p.jobs.len(), 1);
}

#[test]
fn close_twice_is_harmless() {
    let mut p = ThreadPool::new(1).unwrap();
    p.close();
    p.close();
    assert!(p.closed);
}

#[test]
fn dequeue_is_fifo() {
    let mut p = ThreadPool::new(2).unwrap();
    assert_eq!(p.execute(), Ok(0));
    assert_eq!(p.execute(), Ok(1));
    assert_eq!(p.worker_dequeue(0), WorkerStep::Run(0));
    assert_eq!(p.worker_dequeue(1), WorkerStep::Run(1));
    assert_eq!(p.jobs[0], JobState::Running(0));
    assert_eq!(p.jobs[1], JobState::Running(1));
}

#[test]
fn idle_worker_waits_while_queue_open() {
    let mut p = ThreadPool::new(1).unwrap();
    assert_eq!(p.worker_dequeue(0), WorkerStep::Wait);
    assert!(p.alive[0]);
}

#[test]
fn every_job_done_when_shutdown_completes() {
    let mut p = ThreadPool::new(2).unwrap();
    for expected in 0..3usize {
        assert_eq!(p.execute(), Ok(expected));
    }
    // both workers pull, finish, and pull again until the queue drains
    assert_eq!(p.worker_dequeue(0), WorkerStep::Run(0));
    assert_eq!(p.worker_dequeue(1), WorkerStep::Run(1));
    p.worker_complete(1);
    assert_eq!(p.worker_dequeue(1), WorkerStep::Run(2));
    p.worker_complete(0);
    p.worker_complete(1);
    p.close();
    assert!(!p.is_shutdown_complete());
    assert_eq!(p.worker_dequeue(0), WorkerStep::Exit);
    assert_eq!(p.worker_dequeue(1), WorkerStep::Exit);
    assert!(p.is_shutdown_complete());
    for j in 0..3 {
        assert_eq!(p.jobs[j], JobState::Done);
    }
}

#[test]
fn crashed_worker_loses_its_job_and_shrinks_the_pool() {
    let mut p = ThreadPool::new(2).unwrap();
    assert_eq!(p.execute(), Ok(0));
    assert_eq!(p.execute(), Ok(1));
    assert_eq!(p.worker_dequeue(0), WorkerStep::Run(0));
    p.worker_crash(0);
    assert_eq!(p.jobs[0], JobState::Lost(0));
    assert!(!p.alive[0]);
    assert!(p.crashed[0]);
    // the other worker still drains the queue
    assert_eq!(p.worker_dequeue(1), WorkerStep::Run(1));
    p.worker_complete(1);
    p.close();
    assert_eq!(p.worker_dequeue(1), WorkerStep::Exit);
    assert!(p.is_shutdown_complete());
    assert_eq!(p.jobs[1], JobState::Done);
}
