use kernel_core::scheduler::{add_process, run_processes, Scheduler};
use kernel_core::thread::{Process, State, Thread};

fn thread(id: u64, state: State, start_tick: u64, last_tick: u64) -> Thread {
    Thread { id, state, start_tick, last_tick }
}

#[test]
fn running_thread_goes_to_ready_queue() {
    let mut s = Scheduler::new();
    s.add_thread(thread(1, State::Running, 0, 0), 10);
    assert!(s.ready_contains(1));
    assert!(!s.blocked_contains(1));
    assert_eq!(s.ready_len(), 1);
    assert_eq!(s.blocked_len(), 0);
}

#[test]
fn not_started_thread_goes_to_blocked_queue() {
    let mut s = Scheduler::new();
    s.add_thread(thread(1, State::NotStarted, 0, 0), 10);
    assert!(!s.ready_contains(1));
    assert!(s.blocked_contains(1));
    assert_eq!(s.blocked_len(), 1);
}

#[test]
fn due_sleeper_is_runnable_immediately_after_submit() {
    // tick = 100, last_tick = 0 (sentinel: use start_tick = 90), sleeping 5:
    // 100 - 90 = 10 >= 5, so the thread wakes.
    let mut s = Scheduler::new();
    s.add_thread(thread(7, State::Sleeping(5), 90, 0), 100);
    assert!(s.ready_contains(7));
    assert!(!s.blocked_contains(7));
}

#[test]
fn sleeper_wakes_exactly_when_elapsed_reaches_duration() {
    // 100 - 95 = 5 >= 5: due on the boundary.
    let mut s = Scheduler::new();
    s.add_thread(thread(7, State::Sleeping(5), 95, 0), 100);
    assert!(s.ready_contains(7));
}

#[test]
fn not_due_sleeper_stays_blocked() {
    // tick = 100, last_tick = 98, sleeping 5: 100 - 98 = 2 < 5.
    let mut s = Scheduler::new();
    s.add_thread(thread(7, State::Sleeping(5), 90, 98), 100);
    assert!(!s.ready_contains(7));
    assert!(s.blocked_contains(7));
}

#[test]
fn nonzero_last_tick_is_preferred_over_start_tick() {
    // Were start_tick (0) the reference, the thread would be long due; the
    // nonzero last_tick (98) must win, keeping it blocked.
    let mut s = Scheduler::new();
    s.add_thread(thread(7, State::Sleeping(5), 0, 98), 100);
    assert!(s.blocked_contains(7));
    assert!(!s.ready_contains(7));
}

#[test]
fn promoted_sleeper_is_stored_as_running() {
    // The wake must mutate the stored state, not a local copy: the thread
    // handed out by schedule() carries state Running and the wake tick.
    let mut s = Scheduler::new();
    s.add_thread(thread(7, State::Sleeping(5), 90, 0), 100);
    let t = s.schedule().expect("a woken thread must be runnable");
    assert_eq!(t.id, 7);
    assert_eq!(t.state, State::Running);
    assert_eq!(t.last_tick, 100);
    assert_eq!(t.start_tick, 90);
}

#[test]
fn fifo_order_is_submission_order() {
    let mut s = Scheduler::new();
    s.add_thread(thread(1, State::Running, 0, 0), 5);
    s.add_thread(thread(2, State::Running, 0, 0), 6);
    s.add_thread(thread(3, State::Running, 0, 0), 7);
    assert_eq!(s.schedule().unwrap().id, 1);
    assert_eq!(s.schedule().unwrap().id, 2);
    assert_eq!(s.schedule().unwrap().id, 3);
    assert!(s.schedule().is_none());
}

#[test]
fn empty_ready_queue_schedules_nothing() {
    let mut s = Scheduler::new();
    assert!(s.schedule().is_none());
    // Blocked threads do not make anything runnable.
    s.add_thread(thread(1, State::NotStarted, 0, 0), 10);
    assert!(s.schedule().is_none());
    assert!(s.blocked_contains(1));
}

#[test]
fn schedule_removes_the_thread_from_scheduler_ownership() {
    let mut s = Scheduler::new();
    s.add_thread(thread(1, State::Running, 0, 0), 5);
    let t = s.schedule().unwrap();
    assert_eq!(t.id, 1);
    assert!(!s.ready_contains(1));
    assert!(!s.blocked_contains(1));
    // The caller resubmits it, here after it asked to sleep at tick 20.
    s.add_thread(thread(1, State::Sleeping(30), t.start_tick, 20), 25);
    assert!(s.blocked_contains(1));
}

#[test]
fn no_thread_is_in_both_queues() {
    let mut s = Scheduler::new();
    s.add_thread(thread(1, State::Running, 0, 0), 100);
    s.add_thread(thread(2, State::NotStarted, 0, 0), 100);
    s.add_thread(thread(3, State::Sleeping(5), 90, 0), 100);
    s.add_thread(thread(4, State::Sleeping(50), 90, 0), 100);
    for id in 1..=4 {
        assert!(s.ready_contains(id) != s.blocked_contains(id));
    }
    assert_eq!(s.ready_len(), 2);
    assert_eq!(s.blocked_len(), 2);
}

#[test]
fn registering_a_process_classifies_each_thread() {
    let mut s = Scheduler::new();
    let p = Process {
        id: 40,
        threads: vec![thread(1, State::Running, 0, 0), thread(2, State::NotStarted, 0, 0)],
    };
    let pid = s.add_process(p, 10);
    assert_eq!(pid, 40);
    assert!(s.ready_contains(1));
    assert!(!s.blocked_contains(1));
    assert!(s.blocked_contains(2));
    assert!(!s.ready_contains(2));
    assert!(s.has_process(40));
    assert!(!s.has_process(41));
}

#[test]
fn kernel_entry_points_drive_the_scheduler() {
    let mut s = Scheduler::new();
    assert!(run_processes(&mut s).is_none());
    let p = Process {
        id: 9,
        threads: vec![thread(1, State::Running, 0, 0), thread(2, State::Sleeping(5), 0, 0)],
    };
    let pid = add_process(&mut s, p, 100);
    assert_eq!(pid, 9);
    assert!(s.has_process(9));
    // Both threads are runnable at tick 100 (the sleeper is long due).
    assert_eq!(run_processes(&mut s).unwrap().id, 1);
    assert_eq!(run_processes(&mut s).unwrap().id, 2);
    assert!(run_processes(&mut s).is_none());
}

#[test]
fn thread_constructor_starts_not_started() {
    let t = Thread::new(3, 17);
    assert_eq!(t.id, 3);
    assert_eq!(t.state, State::NotStarted);
    assert_eq!(t.start_tick, 17);
    assert_eq!(t.last_tick, 0);
    let mut s = Scheduler::new();
    s.add_thread(t, 1000);
    assert!(s.blocked_contains(3));
}

#[test]
fn due_evaluation_matches_the_wake_rule() {
    assert!(thread(1, State::Sleeping(5), 90, 0).due(100));
    assert!(!thread(1, State::Sleeping(5), 90, 98).due(100));
    assert!(!thread(1, State::Running, 90, 0).due(100));
    assert!(!thread(1, State::NotStarted, 90, 0).due(100));
    // A reference tick in the future never counts as due.
    assert!(!thread(1, State::Sleeping(5), 200, 0).due(100));
}
