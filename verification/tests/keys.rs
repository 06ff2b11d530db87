use ring_host::keys::{key_action, key_event_kind, KeyAction, KeyEventKind};
use ring_host::render::{HostScreen, PlaybackMode};

#[test]
fn event_kinds_by_name() {
    assert_eq!(key_event_kind("down"), KeyEventKind::Down);
    assert_eq!(key_event_kind("up"), KeyEventKind::Up);
    assert_eq!(key_event_kind("press"), KeyEventKind::Other);
}

#[test]
fn escape_toggles_menu_and_leaves_sub_screens() {
    let n = PlaybackMode::Normal;
    assert_eq!(key_action(KeyEventKind::Down, "Escape", HostScreen::InGame, n), KeyAction::ShowScreen(HostScreen::InGameMenu));
    assert_eq!(key_action(KeyEventKind::Down, "Escape", HostScreen::InGameMenu, n), KeyAction::ShowScreen(HostScreen::InGame));
    for s in [HostScreen::Save, HostScreen::Load, HostScreen::Settings, HostScreen::History] {
        assert_eq!(key_action(KeyEventKind::Down, "Escape", s, n), KeyAction::ShowScreen(HostScreen::InGame));
    }
    assert_eq!(key_action(KeyEventKind::Down, "Escape", HostScreen::Title, n), KeyAction::Ignore);
    assert_eq!(key_action(KeyEventKind::Up, "Escape", HostScreen::InGame, n), KeyAction::Ignore);
}

#[test]
fn in_game_keys() {
    let g = HostScreen::InGame;
    assert_eq!(key_action(KeyEventKind::Down, " ", g, PlaybackMode::Normal), KeyAction::Click);
    assert_eq!(key_action(KeyEventKind::Down, "Enter", g, PlaybackMode::Normal), KeyAction::Click);
    assert_eq!(key_action(KeyEventKind::Down, "Control", g, PlaybackMode::Normal), KeyAction::SetPlaybackMode(PlaybackMode::Skip));
    assert_eq!(key_action(KeyEventKind::Down, "a", g, PlaybackMode::Normal), KeyAction::SetPlaybackMode(PlaybackMode::Auto));
    assert_eq!(key_action(KeyEventKind::Down, "A", g, PlaybackMode::Auto), KeyAction::SetPlaybackMode(PlaybackMode::Normal));
    assert_eq!(key_action(KeyEventKind::Down, "Backspace", g, PlaybackMode::Normal), KeyAction::RestoreSnapshot);
    assert_eq!(key_action(KeyEventKind::Down, "b", g, PlaybackMode::Normal), KeyAction::Ignore);
}

#[test]
fn keys_outside_the_game_do_nothing() {
    let m = HostScreen::InGameMenu;
    assert_eq!(key_action(KeyEventKind::Down, " ", m, PlaybackMode::Normal), KeyAction::Ignore);
    assert_eq!(key_action(KeyEventKind::Down, "Backspace", HostScreen::Title, PlaybackMode::Normal), KeyAction::Ignore);
    assert_eq!(key_action(KeyEventKind::Down, "a", HostScreen::Settings, PlaybackMode::Auto), KeyAction::Ignore);
}

#[test]
fn releasing_control_ends_skip_only() {
    assert_eq!(key_action(KeyEventKind::Up, "Control", HostScreen::InGame, PlaybackMode::Skip), KeyAction::SetPlaybackMode(PlaybackMode::Normal));
    assert_eq!(key_action(KeyEventKind::Up, "Control", HostScreen::Settings, PlaybackMode::Skip), KeyAction::SetPlaybackMode(PlaybackMode::Normal));
    assert_eq!(key_action(KeyEventKind::Up, "Control", HostScreen::InGame, PlaybackMode::Auto), KeyAction::Ignore);
    assert_eq!(key_action(KeyEventKind::Other, "Control", HostScreen::InGame, PlaybackMode::Skip), KeyAction::Ignore);
}

#[test]
fn escape_twice_returns() {
    for s in [HostScreen::InGame, HostScreen::InGameMenu] {
        match key_action(KeyEventKind::Down, "Escape", s, PlaybackMode::Normal) {
            KeyAction::ShowScreen(t) => assert_eq!(key_action(KeyEventKind::Down, "Escape", t, PlaybackMode::Normal), KeyAction::ShowScreen(s)),
            _ => panic!("expected a screen change"),
        }
    }
}
