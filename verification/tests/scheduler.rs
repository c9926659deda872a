use embedder_shim::scheduler::{mode_for_animation, SchedulingMode, WakeFlag};

#[test]
fn poll_iff_animating() {
    assert_eq!(mode_for_animation(true), SchedulingMode::Poll);
    assert_eq!(mode_for_animation(false), SchedulingMode::Wait);
}

#[test]
fn wakes_coalesce_to_one_pump() {
    let mut w = WakeFlag::new();
    assert!(!w.take());
    w.wake();
    w.wake();
    w.wake();
    assert!(w.take());
    assert!(!w.take());
}

#[test]
fn wake_after_retire_is_a_noop() {
    let mut w = WakeFlag::new();
    w.retire();
    w.wake();
    assert!(!w.take());
    // And it never panics, however often it is called.
    w.wake();
    w.wake();
    assert!(!w.take());
}

#[test]
fn retire_keeps_a_pending_wake() {
    let mut w = WakeFlag::new();
    w.wake();
    w.retire();
    assert!(w.pending);
    assert!(!w.live);
}
