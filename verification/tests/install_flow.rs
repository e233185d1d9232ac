use support_core::install::InstallPipeline;
use support_core::install::InstallState;

#[test]
fn fresh_pipeline_is_untouched() {
    let p = InstallPipeline::new(5);
    assert_eq!(p.len(), 5);
    for i in 0..5 {
        assert_eq!(p.state_of(i), InstallState::NotInstalled);
    }
}

#[test]
fn double_start_spawns_one_worker() {
    let mut p = InstallPipeline::new(5);
    let first = p.try_start(0, "u".to_string(), "a".to_string());
    let second = p.try_start(0, "u".to_string(), "a".to_string());
    assert!(first.is_some());
    assert!(second.is_none());
    let job = first.unwrap();
    assert_eq!(job.index, 0);
    assert_eq!(job.url, "u");
    assert_eq!(job.args, "a");
    assert_eq!(p.state_of(0), InstallState::Installing);
    for i in 1..5 {
        assert_eq!(p.state_of(i), InstallState::NotInstalled);
    }
    p.finish(0, true, true);
    assert_eq!(p.state_of(0), InstallState::Done);
    for i in 1..5 {
        assert_eq!(p.state_of(i), InstallState::NotInstalled);
    }
}

#[test]
fn failure_paths_converge_to_done() {
    for (download_ok, execute_ok) in [(true, true), (true, false), (false, true), (false, false)] {
        let mut p = InstallPipeline::new(2);
        assert!(p.try_start(1, "u".to_string(), String::new()).is_some());
        p.finish(1, download_ok, execute_ok);
        assert_eq!(p.state_of(1), InstallState::Done);
        assert_eq!(p.state_of(0), InstallState::NotInstalled);
    }
}

#[test]
fn items_install_independently() {
    let mut p = InstallPipeline::new(3);
    assert!(p.try_start(0, String::new(), String::new()).is_some());
    assert!(p.try_start(2, String::new(), String::new()).is_some());
    assert!(p.any_installing());
    p.finish(2, true, true);
    assert_eq!(p.state_of(0), InstallState::Installing);
    assert_eq!(p.state_of(1), InstallState::NotInstalled);
    assert_eq!(p.state_of(2), InstallState::Done);
    p.finish(0, false, false);
    assert!(!p.any_installing());
}

#[test]
fn detection_marks_only_untouched_items() {
    let mut p = InstallPipeline::new(4);
    assert!(p.try_start(1, String::new(), String::new()).is_some());
    assert!(p.try_start(2, String::new(), String::new()).is_some());
    p.finish(2, true, true);
    // Items 0..3: NotInstalled, Installing, Done, NotInstalled.
    p.apply_detection(&vec![true, true, true, false]);
    assert_eq!(p.state_of(0), InstallState::Installed);
    assert_eq!(p.state_of(1), InstallState::Installing);
    assert_eq!(p.state_of(2), InstallState::Done);
    assert_eq!(p.state_of(3), InstallState::NotInstalled);
    // A later pass that no longer sees an item never downgrades it.
    p.apply_detection(&vec![false, false, false, false]);
    assert_eq!(p.state_of(0), InstallState::Installed);
    assert_eq!(p.state_of(1), InstallState::Installing);
    assert_eq!(p.state_of(2), InstallState::Done);
    assert_eq!(p.state_of(3), InstallState::NotInstalled);
}

#[test]
fn payload_names_are_unique_per_item() {
    let mut p = InstallPipeline::new(12);
    let job3 = p.try_start(3, "u".to_string(), String::new()).unwrap();
    assert_eq!(job3.payload_file_name(), b"installer_3.exe".to_vec());
    let job10 = p.try_start(10, "u".to_string(), String::new()).unwrap();
    assert_eq!(job10.payload_file_name(), b"installer_10.exe".to_vec());
    let job0 = p.try_start(0, "u".to_string(), String::new()).unwrap();
    assert_eq!(job0.payload_file_name(), b"installer_0.exe".to_vec());
    assert_ne!(job3.payload_file_name(), job10.payload_file_name());
}

#[test]
fn restart_allowed_after_done() {
    let mut p = InstallPipeline::new(1);
    assert!(p.try_start(0, String::new(), String::new()).is_some());
    p.finish(0, true, true);
    assert_eq!(p.state_of(0), InstallState::Done);
    assert!(p.try_start(0, String::new(), String::new()).is_some());
    assert_eq!(p.state_of(0), InstallState::Installing);
}
