use support_core::refresh::RefreshScheduler;
use support_core::refresh::ReloadFlag;

#[test]
fn reload_flag_consumed_once_per_set() {
    let mut f = ReloadFlag::new();
    assert!(!f.peek());
    assert!(!f.consume());
    f.set();
    f.set();
    assert!(f.peek());
    assert!(f.consume());
    assert!(!f.consume());
    assert!(!f.peek());
}

#[test]
fn auto_refresh_fires_once_per_interval() {
    let mut s = RefreshScheduler::new(30);
    s.set_enabled(true);
    let mut fired: u32 = 0;
    for _ in 0..60 {
        if s.tick(1) {
            fired += 1;
        }
    }
    // Sixty one-unit frames cover two full 30-unit windows: one reload
    // each, not one per frame.
    assert_eq!(fired, 2);
}

#[test]
fn auto_refresh_overshoot_fires_once() {
    let mut s = RefreshScheduler::new(30);
    s.set_enabled(true);
    // One long frame far past the countdown still fires a single reload
    // and starts a full fresh window.
    assert!(s.tick(75));
    assert_eq!(s.countdown, 30);
    assert!(!s.tick(29));
    assert!(s.tick(1));
}

#[test]
fn disabled_scheduler_never_fires() {
    let mut s = RefreshScheduler::new(30);
    assert!(!s.enabled);
    for _ in 0..100 {
        assert!(!s.tick(7));
    }
    assert_eq!(s.countdown, 30);
}

#[test]
fn manual_refresh_resets_countdown() {
    let mut s = RefreshScheduler::new(30);
    s.set_enabled(true);
    assert!(!s.tick(12));
    assert_eq!(s.countdown, 18);
    s.reset();
    assert_eq!(s.countdown, 30);
    // Reset with a full countdown is just as valid.
    s.reset();
    assert_eq!(s.countdown, 30);
    // The canceled partial cycle is really gone: a full window is needed.
    assert!(!s.tick(29));
    assert!(s.tick(1));
}

#[test]
fn toggling_auto_refresh_restarts_cycle() {
    let mut s = RefreshScheduler::new(30);
    s.set_enabled(true);
    assert!(!s.tick(20));
    s.set_enabled(false);
    assert_eq!(s.countdown, 30);
    s.set_enabled(true);
    assert!(!s.tick(29));
    assert!(s.tick(1));
}
