use phirlie::illustration::LoadError;
use phirlie::loading::{ChartInfo, GamePoll, LoadingScene, LoadingSwitch, PollDecision};
use phirlie::pixels::ThemeColor;

fn info(tip: Option<&str>) -> ChartInfo {
    ChartInfo {
        name: "Song".to_string(),
        composer: "Composer".to_string(),
        charter: "[!:42:Mapper] & Friend".to_string(),
        illustrator: "Artist".to_string(),
        illustration: "ill.png".to_string(),
        tip: tip.map(|t| t.to_string()),
    }
}

#[test]
fn loading_new_scene() {
    let s = LoadingScene::new(info(Some("hint")), Some(ThemeColor { r: 10, g: 20, b: 30 }), &[]);
    assert_eq!(s.charter, "Mapper & Friend");
    assert_eq!(s.info.charter, "[!:42:Mapper] & Friend");
    assert_eq!(s.charter_line(), "Chart by Mapper & Friend");
    assert_eq!(s.illustrator_line(), "Illustration by Artist");
    assert_eq!(s.info.tip.as_deref(), Some("hint"));
    assert_eq!(s.theme_color, ThemeColor { r: 10, g: 20, b: 30 });
    assert!(!s.use_black);
    assert!(s.loading);
    assert_eq!(s.finish_time, None);
}

#[test]
fn loading_failed_illustration_is_white() {
    let s = LoadingScene::new(info(None), None, &["random tip"]);
    assert_eq!(s.theme_color, ThemeColor::white());
    assert!(s.use_black);
    assert_eq!(s.info.tip.as_deref(), Some("random tip"));
}

#[test]
fn loading_polls_again_only_with_target() {
    let mut s = LoadingScene::new(info(Some("t")), None, &[]);
    assert_eq!(s.update(0, GamePoll::Pending), PollDecision::Stop);
    s.enter(true);
    assert_eq!(s.update(0, GamePoll::Pending), PollDecision::PollAgain);
    assert_eq!(s.update(10, GamePoll::Ready), PollDecision::Stop);
    assert_eq!(s.finish_time, Some(1010));
    assert_eq!(s.update(20, GamePoll::Pending), PollDecision::Stop);
    assert_eq!(s.finish_time, Some(1010));
}

#[test]
fn loading_hands_over_after_outro() {
    let mut s = LoadingScene::new(info(Some("t")), None, &[]);
    assert_eq!(s.next_scene(100_000, false), LoadingSwitch::Stay);
    s.update(500, GamePoll::Ready);
    assert_eq!(s.outro_elapsed(1500), None);
    assert_eq!(s.outro_elapsed(1700), Some(200));
    // 500 + 1000 + 1400 + 400
    assert_eq!(s.next_scene(3300, false), LoadingSwitch::Stay);
    assert_eq!(s.next_scene(3301, false), LoadingSwitch::Replace);
    assert_eq!(s.next_scene(3302, false), LoadingSwitch::Stay);
}

#[test]
fn loading_reduced_motion_hands_over_sooner() {
    let mut s = LoadingScene::new(info(Some("t")), None, &[]);
    s.update(500, GamePoll::Ready);
    assert_eq!(s.next_scene(1500, true), LoadingSwitch::Stay);
    assert_eq!(s.next_scene(1501, true), LoadingSwitch::Replace);
}

#[test]
fn loading_error_popped_at_once() {
    let mut s = LoadingScene::new(info(Some("t")), None, &[]);
    s.update(500, GamePoll::Failed);
    assert_eq!(s.next_scene(501, false), LoadingSwitch::PopWithError);
    assert_eq!(s.next_scene(100_000, false), LoadingSwitch::Stay);
}

#[test]
fn loading_illustration_choice() {
    assert_eq!(LoadingScene::pick_illustration(Some(1), None::<Result<i32, LoadError>>), Some(1));
    assert_eq!(LoadingScene::pick_illustration(None, Some(Ok(2))), Some(2));
    assert_eq!(LoadingScene::pick_illustration(None::<i32>, Some(Err(LoadError::Decode))), None);
    assert_eq!(LoadingScene::pick_illustration(None::<i32>, None), None);
}
