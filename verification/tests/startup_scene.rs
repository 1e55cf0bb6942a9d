use phirlie::startup::{LoadPoll, SceneSwitch, StartupLoadingScene, StartupPhase};

#[test]
fn startup_first_entry_time_kept() {
    let mut s = StartupLoadingScene::new(&["tip"]);
    assert_eq!(s.enter_time, None);
    s.enter(120);
    s.enter(900);
    assert_eq!(s.enter_time, Some(120));
}

#[test]
fn startup_tip_line() {
    let s = StartupLoadingScene::new(&["Hello"]);
    assert_eq!(s.tip_line(), "Tip: Hello");
    let d = StartupLoadingScene::new(&[]);
    assert_eq!(d.tip_line(), "Tip: 老师,欢迎回来!");
}

#[test]
fn startup_waits_minimum_show_time() {
    let mut s = StartupLoadingScene::new(&[]);
    s.enter(0);
    assert!(s.is_loading());
    s.update(100, LoadPoll::Pending);
    assert!(s.is_loading());
    assert_eq!(s.next_scene(5000), SceneSwitch::Stay);
    s.update(2000, LoadPoll::Loaded);
    assert!(!s.is_loading());
    assert_eq!(s.next_scene(2000), SceneSwitch::Stay);
    assert_eq!(s.next_scene(2800), SceneSwitch::Stay);
    assert_eq!(s.next_scene(2801), SceneSwitch::Replace);
    assert!(matches!(s.phase, StartupPhase::Done));
    assert_eq!(s.next_scene(9000), SceneSwitch::Stay);
}

#[test]
fn startup_failure_shows_error_and_stays() {
    let mut s = StartupLoadingScene::new(&[]);
    assert!(s.error_message().is_none());
    s.update(50, LoadPoll::Failed("network down".to_string()));
    assert_eq!(s.error_message().map(|m| m.as_str()), Some("network down"));
    s.update(60, LoadPoll::Loaded);
    assert_eq!(s.error_message().map(|m| m.as_str()), Some("network down"));
    assert_eq!(s.next_scene(100_000), SceneSwitch::Stay);
}

#[test]
fn startup_late_time_saturates() {
    let mut s = StartupLoadingScene::new(&[]);
    s.update(u64::MAX - 10, LoadPoll::Loaded);
    assert!(matches!(s.phase, StartupPhase::Ready { finish_time } if finish_time == u64::MAX));
    assert_eq!(s.next_scene(u64::MAX), SceneSwitch::Stay);
}
