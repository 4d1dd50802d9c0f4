use ds3231_clock::scheduler::UpdateScheduler;

#[test]
fn starts_idle() {
    let mut sched = UpdateScheduler::new();
    assert!(!sched.poll());
}

#[test]
fn firings_coalesce_into_one_pending_edge() {
    let mut sched = UpdateScheduler::new();
    for _ in 0..5 {
        sched.fire();
    }
    assert!(sched.poll());
    assert!(!sched.poll());
}

#[test]
fn single_firing_gives_single_edge() {
    let mut sched = UpdateScheduler::new();
    sched.fire();
    assert!(sched.poll());
    assert!(!sched.poll());
    sched.fire();
    assert!(sched.poll());
    assert!(!sched.poll());
}

#[test]
fn poll_without_firing_stays_false() {
    let mut sched = UpdateScheduler::new();
    assert!(!sched.poll());
    assert!(!sched.poll());
}
