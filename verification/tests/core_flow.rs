use support_core::install::InstallState;
use support_core::poll::Core;

#[test]
fn fresh_core_is_idle() {
    let c = Core::new(5, 30);
    assert!(!c.is_busy());
    assert!(!c.is_reload_pending());
    for i in 0..5 {
        assert_eq!(c.install_state(i), InstallState::NotInstalled);
    }
}

#[test]
fn gated_command_round_trip() {
    // Gate idle: a submission is accepted, the core turns busy at once,
    // and after the worker's completion the message is drained exactly
    // once, the reload request was observable before being consumed, and
    // the core is idle again.
    let mut c = Core::new(5, 30);
    assert!(!c.is_busy());
    let accepted = c.submit_gated_command(
        "cmdA".to_string(),
        vec!["arg".to_string()],
        "done-A".to_string(),
        true,
    );
    assert!(accepted);
    assert!(c.is_busy());
    // The worker has run the command to completion; its exit path:
    c.finish_gated_worker();
    assert!(c.is_reload_pending());
    assert_eq!(c.drain_notification(), Some("done-A".to_string()));
    assert_eq!(c.drain_notification(), None);
    let out = c.poll_frame(1);
    assert!(out.reload_from_flag);
    assert!(!c.is_reload_pending());
    assert!(!c.is_busy());
}

#[test]
fn busy_submission_is_dropped() {
    let mut c = Core::new(5, 30);
    assert!(c.submit_gated_command(
        "first".to_string(),
        Vec::new(),
        "done-1".to_string(),
        false,
    ));
    // A second submission while the worker runs is a silent no-op.
    assert!(!c.submit_gated_command(
        "second".to_string(),
        Vec::new(),
        "done-2".to_string(),
        true,
    ));
    c.finish_gated_worker();
    // The dropped task left no trace: the message and the reload request
    // are the first worker's.
    assert_eq!(c.drain_notification(), Some("done-1".to_string()));
    assert!(!c.is_reload_pending());
    assert!(!c.is_busy());
    // Exclusive rights are free again for the next submission.
    assert!(c.submit_gated_command(
        "third".to_string(),
        Vec::new(),
        "done-3".to_string(),
        false,
    ));
}

#[test]
fn double_start_one_worker_per_item() {
    // Five untouched items; two back-to-back start requests for item 0
    // spawn exactly one worker, and the other items are unaffected.
    let mut c = Core::new(5, 30);
    let first = c.start_install(0, "url".to_string(), "/quiet".to_string());
    let second = c.start_install(0, "url".to_string(), "/quiet".to_string());
    assert!(first.is_some());
    assert!(second.is_none());
    assert_eq!(c.install_state(0), InstallState::Installing);
    let job = first.unwrap();
    assert_eq!(job.index, 0);
    c.finish_install(0, false, true);
    assert_eq!(c.install_state(0), InstallState::Done);
    for i in 1..5 {
        assert_eq!(c.install_state(i), InstallState::NotInstalled);
    }
}

#[test]
fn installs_ignore_the_gate() {
    let mut c = Core::new(2, 30);
    assert!(c.submit_gated_command(
        "cmd".to_string(),
        Vec::new(),
        "done".to_string(),
        false,
    ));
    assert!(c.is_busy());
    // A busy gate does not stop an install worker.
    assert!(c.start_install(1, "url".to_string(), String::new()).is_some());
    c.finish_install(1, true, true);
    assert_eq!(c.install_state(1), InstallState::Done);
    assert!(c.is_busy());
    c.finish_gated_worker();
    assert!(!c.is_busy());
}

#[test]
fn poll_frame_merges_triggers() {
    let mut c = Core::new(1, 30);
    c.set_auto_refresh(true);
    // Post a worker message and a reload request, and let the countdown
    // run out in the same frame: both triggers fire, so the driver
    // performs two reloads back to back.
    assert!(c.submit_gated_command(
        "cmd".to_string(),
        Vec::new(),
        "finished".to_string(),
        true,
    ));
    c.finish_gated_worker();
    let out = c.poll_frame(30);
    assert_eq!(out.notification, Some("finished".to_string()));
    assert!(out.reload_from_flag);
    assert!(out.reload_from_timer);
    // Both were consumed: an immediate next frame fires nothing.
    let next = c.poll_frame(0);
    assert_eq!(next.notification, None);
    assert!(!next.reload_from_flag);
    assert!(!next.reload_from_timer);
}

#[test]
fn consuming_reload_flag_keeps_countdown() {
    let mut c = Core::new(1, 30);
    c.set_auto_refresh(true);
    assert!(c.submit_gated_command(
        "cmd".to_string(),
        Vec::new(),
        "m".to_string(),
        true,
    ));
    c.finish_gated_worker();
    // The flag-triggered reload does not reset the countdown...
    let out = c.poll_frame(10);
    assert!(out.reload_from_flag);
    assert!(!out.reload_from_timer);
    // ...so the timer still fires 20 units later, not 30.
    let out = c.poll_frame(20);
    assert!(out.reload_from_timer);
}

#[test]
fn manual_refresh_cancels_partial_cycle() {
    let mut c = Core::new(1, 30);
    c.set_auto_refresh(true);
    let out = c.poll_frame(29);
    assert!(!out.reload_from_timer);
    c.request_manual_refresh();
    // One more unit would have fired without the manual refresh.
    let out = c.poll_frame(1);
    assert!(!out.reload_from_timer);
    let out = c.poll_frame(29);
    assert!(out.reload_from_timer);
}

#[test]
fn reload_detection_pass_on_core() {
    let mut c = Core::new(5, 30);
    assert!(c.start_install(3, String::new(), String::new()).is_some());
    c.apply_detection(&vec![true, false, true, true, false]);
    assert_eq!(c.install_state(0), InstallState::Installed);
    assert_eq!(c.install_state(1), InstallState::NotInstalled);
    assert_eq!(c.install_state(2), InstallState::Installed);
    assert_eq!(c.install_state(3), InstallState::Installing);
    assert_eq!(c.install_state(4), InstallState::NotInstalled);
}
