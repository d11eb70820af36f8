use server_handle::handle::{Addr, DrainEvent, DrainWait, Handle, ListenPoll};

fn addr(ip: u128, port: u16) -> Addr {
    Addr { ip, port }
}

#[test]
fn new_state_is_idle() {
    let h = Handle::new();
    assert_eq!(h.connection_count(), 0);
    assert!(!h.wait_shutdown());
    assert!(!h.wait_graceful_shutdown());
    assert!(!h.wait_drained());
    assert_eq!(h.listening(), ListenPoll::Pending);
    assert_eq!(h.listening_resolved(), None);
}

#[test]
fn default_is_new() {
    let d: Handle = Default::default();
    assert_eq!(d, Handle::new());
}

#[test]
fn shutdown_resolves_waits() {
    let mut h = Handle::new();
    h.shutdown();
    assert!(h.wait_shutdown());
    assert!(!h.wait_graceful_shutdown());
}

#[test]
fn shutdown_is_idempotent() {
    let mut once = Handle::new();
    once.shutdown();
    let mut many = Handle::new();
    many.shutdown();
    many.shutdown();
    many.shutdown();
    assert_eq!(once, many);
    assert!(many.wait_shutdown());
}

#[test]
fn wait_started_before_or_after_shutdown_sees_it() {
    // A wait that polled before the request is pending; after the request
    // any poll, old or new, observes the fired signal.
    let mut h = Handle::new();
    assert!(!h.wait_shutdown());
    h.shutdown();
    assert!(h.wait_shutdown());
    assert!(h.wait_shutdown());
}

#[test]
fn last_graceful_deadline_wins() {
    let mut h = Handle::new();
    h.guard_created();
    h.graceful_shutdown(Some(5));
    h.graceful_shutdown(Some(100));
    assert_eq!(h.wait_connections_end(), DrainWait::UntilDrainOrTimer(100));
    h.graceful_shutdown(None);
    assert_eq!(h.wait_connections_end(), DrainWait::UntilDrain);
}

#[test]
fn graceful_with_no_connections_drains_immediately() {
    let mut h = Handle::new();
    h.graceful_shutdown(None);
    assert_eq!(h.wait_connections_end(), DrainWait::AlreadyDrained);
}

#[test]
fn three_guards_dropped_in_time_drain_without_shutdown() {
    let mut h = Handle::new();
    h.guard_created();
    h.guard_created();
    h.guard_created();
    h.graceful_shutdown(Some(100));
    assert_eq!(h.wait_connections_end(), DrainWait::UntilDrainOrTimer(100));
    assert!(!h.guard_dropped());
    assert!(!h.guard_dropped());
    assert!(h.guard_dropped());
    // The drain signal fired; the race resolves through it, not the timer.
    assert!(h.wait_drained());
    h.drain_step(DrainEvent::Drained);
    assert!(!h.wait_shutdown());
    assert_eq!(h.wait_connections_end(), DrainWait::AlreadyDrained);
}

#[test]
fn timeout_escalates_to_shutdown() {
    let mut h = Handle::new();
    h.guard_created();
    h.graceful_shutdown(Some(10));
    assert_eq!(h.wait_connections_end(), DrainWait::UntilDrainOrTimer(10));
    // The guard is never dropped, so the timer wins the race.
    assert!(!h.wait_drained());
    h.drain_step(DrainEvent::TimerExpired);
    assert!(h.wait_shutdown());
    assert_eq!(h.connection_count(), 1);
}

#[test]
fn listening_before_and_after_publish() {
    let mut h = Handle::new();
    assert_eq!(h.listening(), ListenPoll::Pending);
    h.notify_listening(Some(addr(7, 8080)));
    // The suspended waiter resolves with the published address...
    assert_eq!(h.listening_resolved(), Some(addr(7, 8080)));
    // ...and a wait started afterwards resolves immediately with the same.
    assert_eq!(h.listening(), ListenPoll::Ready(Some(addr(7, 8080))));
}

#[test]
fn failed_bind_publishes_no_address() {
    let mut h = Handle::new();
    h.notify_listening(None);
    assert_eq!(h.listening_resolved(), None);
    assert_eq!(h.listening(), ListenPoll::Pending);
}

#[test]
fn rebind_overwrites_address() {
    let mut h = Handle::new();
    h.notify_listening(Some(addr(1, 80)));
    h.notify_listening(Some(addr(2, 443)));
    assert_eq!(h.listening(), ListenPoll::Ready(Some(addr(2, 443))));
    assert_eq!(h.listening_resolved(), Some(addr(2, 443)));
}

#[test]
fn connection_count_tracks_guards() {
    let mut h = Handle::new();
    assert_eq!(h.connection_count(), 0);
    h.guard_created();
    h.guard_created();
    h.guard_created();
    assert_eq!(h.connection_count(), 3);
    h.guard_dropped();
    assert_eq!(h.connection_count(), 2);
    h.guard_dropped();
    h.guard_dropped();
    assert_eq!(h.connection_count(), 0);
}

#[test]
fn transient_zero_before_graceful_fires_nothing() {
    let mut h = Handle::new();
    h.guard_created();
    // The count touches zero before any graceful request: no drain signal.
    assert!(!h.guard_dropped());
    assert!(!h.wait_drained());
    // The graceful request itself then observes the zero count through its
    // own drain wait, so the drain is not lost.
    h.graceful_shutdown(Some(100));
    assert_eq!(h.wait_connections_end(), DrainWait::AlreadyDrained);
}

#[test]
fn drop_after_graceful_fires_drain_even_if_created_after() {
    let mut h = Handle::new();
    h.graceful_shutdown(None);
    h.guard_created();
    assert_eq!(h.wait_connections_end(), DrainWait::UntilDrain);
    assert!(h.guard_dropped());
    assert!(h.wait_drained());
}

#[test]
fn zero_deadline_still_races_timer() {
    let mut h = Handle::new();
    h.guard_created();
    h.graceful_shutdown(Some(0));
    assert_eq!(h.wait_connections_end(), DrainWait::UntilDrainOrTimer(0));
}

#[test]
fn graceful_does_not_fire_hard_shutdown() {
    let mut h = Handle::new();
    h.graceful_shutdown(Some(50));
    assert!(h.wait_graceful_shutdown());
    assert!(!h.wait_shutdown());
}
