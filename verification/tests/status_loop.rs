use botcore::status::{StatusLoop, REFRESH_INTERVAL_SECS};

#[test]
fn interval_is_sixty_seconds() {
    assert_eq!(REFRESH_INTERVAL_SECS, 60);
}

#[test]
fn each_tick_waits_one_interval_and_advances_schedule() {
    let mut s = StatusLoop::new();
    assert_eq!(s.ticks, 0);
    assert_eq!(s.elapsed_secs, 0);
    for k in 1..=10u64 {
        let wait = s.on_tick(true);
        assert_eq!(wait, 60);
        assert_eq!(s.ticks, k);
        assert_eq!(s.elapsed_secs, 60 * k);
    }
}

#[test]
fn failed_refresh_does_not_stop_later_ticks() {
    let mut s = StatusLoop::new();
    let w1 = s.on_tick(false);
    assert_eq!(w1, 60);
    let w2 = s.on_tick(false);
    assert_eq!(w2, 60);
    let w3 = s.on_tick(true);
    assert_eq!(w3, 60);
    assert_eq!(s.ticks, 3);
    assert_eq!(s.elapsed_secs, 180);
}

#[test]
fn mixed_outcomes_give_same_schedule_as_successes() {
    let mut all_ok = StatusLoop::new();
    let mut mixed = StatusLoop::new();
    for k in 0..8u64 {
        all_ok.on_tick(true);
        mixed.on_tick(k % 3 == 0);
    }
    assert_eq!(all_ok.ticks, mixed.ticks);
    assert_eq!(all_ok.elapsed_secs, mixed.elapsed_secs);
}
