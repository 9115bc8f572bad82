use simple_rt::driver::{drive, Parker, Polled};
use simple_rt::sched::{Scheduler, TaskState};

#[test]
fn driver_ready_first_poll_no_suspension() {
    let script: Vec<Polled<u32>> = vec![Polled::Ready(5)];
    let r = drive(&script);
    match r {
        Some((v, suspensions)) => {
            assert_eq!(v, 5);
            assert_eq!(suspensions, 0);
        },
        None => panic!("a ready computation must complete"),
    }
}

#[test]
fn driver_single_yield_completes_on_second_poll() {
    let script: Vec<Polled<u32>> = vec![Polled::Pending, Polled::Ready(7)];
    let r = drive(&script);
    match r {
        Some((v, suspensions)) => {
            assert_eq!(v, 7);
            assert_eq!(suspensions, 1);
        },
        None => panic!("the second poll is ready, so the drive must complete"),
    }
}

#[test]
fn driver_never_ready_exhausts() {
    let script: Vec<Polled<u32>> = vec![Polled::Pending, Polled::Pending];
    assert!(drive(&script).is_none());
}

#[test]
fn parker_wake_before_park_returns_immediately() {
    let mut p = Parker::new();
    p.unpark();
    assert!(p.park_try());
    assert!(!p.park_try());
}

#[test]
fn parker_fresh_would_block() {
    let mut p = Parker::new();
    assert!(!p.park_try());
}

#[test]
fn sched_fifo_order() {
    let mut s = Scheduler::new();
    let a = s.spawn();
    let b = s.spawn();
    let c = s.spawn();
    assert_eq!((a, b, c), (0, 1, 2));
    assert_eq!(s.take_next(), Some(0));
    assert_eq!(s.take_next(), Some(1));
    assert_eq!(s.take_next(), Some(2));
    assert_eq!(s.take_next(), None);
}

#[test]
fn sched_no_lost_wakeups_counter() {
    let n: usize = 10_000;
    let mut s = Scheduler::new();
    for _ in 0..n {
        s.spawn();
    }
    let mut counter: usize = 0;
    while let Some(id) = s.take_next() {
        counter += 1;
        s.finish(id, true);
    }
    assert_eq!(counter, n);
    assert_eq!(s.queue_len(), 0);
    for id in 0..n {
        assert_eq!(s.state_of(id), TaskState::Completed);
    }
}

#[test]
fn sched_runnable_handed_out_once() {
    let mut s = Scheduler::new();
    let n: usize = 8;
    for _ in 0..n {
        s.spawn();
    }
    let mut running = vec![false; n];
    while let Some(id) = s.take_next() {
        assert!(!running[id], "the same runnable reached two workers");
        running[id] = true;
        s.finish(id, true);
    }
    assert!(running.iter().all(|r| *r));
}

#[test]
fn sched_wake_exactly_once() {
    let mut s = Scheduler::new();
    let id = s.spawn();
    assert_eq!(s.take_next(), Some(id));
    s.finish(id, false);
    assert_eq!(s.state_of(id), TaskState::Suspended);
    assert!(s.wake(id));
    assert_eq!(s.queue_len(), 1);
    assert!(!s.wake(id));
    assert_eq!(s.queue_len(), 1);
}

#[test]
fn sched_detach_still_completes() {
    let mut s = Scheduler::new();
    let id = s.spawn();
    s.detach(id);
    assert_eq!(s.state_of(id), TaskState::Scheduled);
    assert_eq!(s.take_next(), Some(id));
    s.finish(id, true);
    assert_eq!(s.state_of(id), TaskState::Completed);
    assert!(s.is_detached(id));
}

#[test]
fn sched_yield_is_polled_exactly_twice() {
    let mut s = Scheduler::new();
    let id = s.spawn();
    let mut polls: usize = 0;
    assert_eq!(s.take_next(), Some(id));
    polls += 1;
    s.finish(id, false);
    assert!(s.wake(id));
    assert_eq!(s.take_next(), Some(id));
    polls += 1;
    s.finish(id, true);
    assert_eq!(s.take_next(), None);
    assert_eq!(polls, 2);
    assert_eq!(s.state_of(id), TaskState::Completed);
}

#[test]
fn sched_cancel_suspended_stops_at_once() {
    let mut s = Scheduler::new();
    let id = s.spawn();
    assert_eq!(s.take_next(), Some(id));
    s.finish(id, false);
    assert_eq!(s.state_of(id), TaskState::Suspended);
    assert!(s.cancel(id));
    assert_eq!(s.state_of(id), TaskState::Cancelled);
    assert!(s.is_cancel_requested(id));
    assert!(!s.wake(id), "a cancelled task can never be woken again");
    assert_eq!(s.queue_len(), 0);
}

#[test]
fn sched_cancel_scheduled_is_honoured_by_the_worker() {
    let mut s = Scheduler::new();
    let id = s.spawn();
    assert!(!s.cancel(id), "the queued runnable is still owed to a worker");
    assert_eq!(s.state_of(id), TaskState::Scheduled);
    assert!(s.is_cancel_requested(id));
    assert_eq!(s.take_next(), Some(id));
    s.finish_cancelled(id);
    assert_eq!(s.state_of(id), TaskState::Cancelled);
    assert_eq!(s.take_next(), None);
}

#[test]
fn sched_cancel_after_completion_changes_no_state() {
    let mut s = Scheduler::new();
    let id = s.spawn();
    assert_eq!(s.take_next(), Some(id));
    s.finish(id, true);
    assert!(!s.cancel(id));
    assert_eq!(s.state_of(id), TaskState::Completed);
}
