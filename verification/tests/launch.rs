use ring_host::debug_api::{check_choice, navigate_target, requested_mode, ChooseRefusal, action_summary, capped_clicks, default_max_clicks, describe_waiting, keeps_advancing, may_click};
use ring_host::launch::{default_output_path, env_count, env_flag, resolve_under_root, zip_archive_path};
use ring_host::render::{HostScreen, PlaybackMode, SignalKind, WaitingFor};

#[test]
fn parse_env_bool_returns_default_when_absent() {
    assert!(!env_flag(None, false));
    assert!(env_flag(None, true));
}

#[test]
fn parse_env_bool_recognizes_truthy_values() {
    for truthy in &["1", "true", "TRUE", "yes", "YES"] {
        assert!(env_flag(Some(truthy), false), "expected truthy for '{truthy}'");
    }
}

#[test]
fn parse_env_bool_treats_other_values_as_false() {
    for falsy in &["0", "false", "FALSE", "no", "NO", "off"] {
        assert!(!env_flag(Some(falsy), true), "expected falsy for '{falsy}'");
    }
}

#[test]
fn parse_env_usize_returns_default_when_absent() {
    assert_eq!(env_count(None, 100), Some(100));
}

#[test]
fn parse_env_usize_parses_valid_value() {
    assert_eq!(env_count(Some("256"), 0), Some(256));
}

#[test]
fn env_counts_reject_bad_text() {
    assert_eq!(env_count(Some("+7"), 0), Some(7));
    assert_eq!(env_count(Some(""), 1), None);
    assert_eq!(env_count(Some("-3"), 1), None);
    assert_eq!(env_count(Some("12a"), 1), None);
    assert_eq!(env_count(Some("99999999999999999999"), 1), None);
}

#[test]
fn paths_resolve_under_the_project_root() {
    assert_eq!(resolve_under_root("/proj", "assets"), "/proj/assets");
    assert_eq!(resolve_under_root("/proj", "/abs/assets"), "/abs/assets");
    assert_eq!(zip_archive_path("/proj", None), "/proj/assets.zip");
    assert_eq!(zip_archive_path("/proj", Some("dist/game.zip")), "/proj/dist/game.zip");
    assert_eq!(
        default_output_path("/proj", "host-dioxus"),
        "/proj/artifacts/host-dioxus/harness-cli-bundle.json"
    );
}

#[test]
fn debug_texts_and_click_limits() {
    assert_eq!(describe_waiting(&WaitingFor::Time { remaining_ms: 250 }), "Time { remaining_ms: 250 }");
    assert_eq!(describe_waiting(&WaitingFor::Signal(SignalKind::SceneEffect)), "Signal(SceneEffect)");
    assert_eq!(describe_waiting(&WaitingFor::UIResult { key: "map\"1".to_string() }), "UIResult { key: \"map\\\"1\" }");
    let r = action_summary(&WaitingFor::Click, HostScreen::InGameMenu, true);
    assert!(r.ok);
    assert_eq!(r.waiting, "Click");
    assert_eq!(r.screen, "InGameMenu");
    assert!(r.script_finished);
    assert_eq!(default_max_clicks(), 10);
    assert_eq!(capped_clicks(7), 7);
    assert_eq!(capped_clicks(100), 100);
    assert_eq!(capped_clicks(5000), 100);
    assert!(may_click(&WaitingFor::Click));
    assert!(!may_click(&WaitingFor::Nothing));
    assert!(keeps_advancing(&WaitingFor::Nothing));
    assert!(!keeps_advancing(&WaitingFor::Choice));
}

#[test]
fn debug_names_match_in_lower_case() {
    assert_eq!(navigate_target("InGame"), Ok(HostScreen::InGame));
    assert_eq!(navigate_target("in_game_menu"), Ok(HostScreen::InGameMenu));
    assert_eq!(navigate_target("HISTORY"), Ok(HostScreen::History));
    assert_eq!(navigate_target("Foo"), Err("未知 screen: foo".to_string()));
    assert_eq!(navigate_target("ÄBC"), Err("未知 screen: äbc".to_string()));
    assert_eq!(requested_mode("AUTO"), Ok(PlaybackMode::Auto));
    assert_eq!(requested_mode("Skip"), Ok(PlaybackMode::Skip));
    assert_eq!(requested_mode("fast"), Err("未知 playback mode: fast".to_string()));
}

#[test]
fn choice_requests_are_checked() {
    assert_eq!(check_choice(&WaitingFor::Choice, 3, 2), Ok(()));
    assert_eq!(
        check_choice(&WaitingFor::Choice, 3, 3),
        Err(ChooseRefusal::OutOfRange("选项索引 3 超出范围 (共 3 个选项)".to_string()))
    );
    assert_eq!(
        check_choice(&WaitingFor::Click, 3, 0),
        Err(ChooseRefusal::NotChoosing("当前非选择状态，waiting=Click".to_string()))
    );
}
