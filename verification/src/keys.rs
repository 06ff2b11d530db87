//! Keyboard shortcuts of the desktop host: what a key press or release
//! does, given the screen shown and the playback mode.

use vstd::prelude::*;
use crate::render::{HostScreen, PlaybackMode};
use crate::text::{to_chars, chars_equal_str};

verus! {

/// Whether a key went down or up (any other event is `Other`).
#[derive(Debug, Clone, Copy, PartialEq, Eq, Structural)]
pub enum KeyEventKind {
    Down,
    Up,
    Other,
}

/// What a key event asks the host to do.
#[derive(Debug, Clone, Copy, PartialEq, Eq, Structural)]
pub enum KeyAction {
    Ignore,
    ShowScreen(HostScreen),
    Click,
    SetPlaybackMode(PlaybackMode),
    RestoreSnapshot,
}

/// The kind of a key event by its type name (`down` or `up`).
pub open spec fn event_kind_of(t: Seq<char>) -> KeyEventKind {
    if t == "down"@ {
        KeyEventKind::Down
    } else if t == "up"@ {
        KeyEventKind::Up
    } else {
        KeyEventKind::Other
    }
}

/// The kind of a key event, computed from its type name.
pub fn key_event_kind(t: &str) -> (r: KeyEventKind)
    ensures
        r == event_kind_of(t@),
{
    let c = to_chars(t);
    if chars_equal_str(&c, "down") {
        KeyEventKind::Down
    } else if chars_equal_str(&c, "up") {
        KeyEventKind::Up
    } else {
        KeyEventKind::Other
    }
}

/// The shortcuts: Escape opens the in-game menu from the game and goes back
/// to the game from the menu and from the save, load, settings and history
/// screens; in the game, Space or Enter clicks, holding Control skips, `a`
/// toggles auto-play and Backspace steps back to the last snapshot;
/// releasing Control ends skipping.
pub open spec fn key_action_spec(
    kind: KeyEventKind,
    key: Seq<char>,
    screen: HostScreen,
    mode: PlaybackMode,
) -> KeyAction {
    match kind {
        KeyEventKind::Down => if key == "Escape"@ {
            match screen {
                HostScreen::InGame => KeyAction::ShowScreen(HostScreen::InGameMenu),
                HostScreen::InGameMenu | HostScreen::Save | HostScreen::Load | HostScreen::Settings
                | HostScreen::History => KeyAction::ShowScreen(HostScreen::InGame),
                HostScreen::Title => KeyAction::Ignore,
            }
        } else if !(screen is InGame) {
            KeyAction::Ignore
        } else if key == " "@ || key == "Enter"@ {
            KeyAction::Click
        } else if key == "Control"@ {
            KeyAction::SetPlaybackMode(PlaybackMode::Skip)
        } else if key == "a"@ || key == "A"@ {
            KeyAction::SetPlaybackMode(
                if mode is Auto {
                    PlaybackMode::Normal
                } else {
                    PlaybackMode::Auto
                },
            )
        } else if key == "Backspace"@ {
            KeyAction::RestoreSnapshot
        } else {
            KeyAction::Ignore
        },
        KeyEventKind::Up => if key == "Control"@ && mode is Skip {
            KeyAction::SetPlaybackMode(PlaybackMode::Normal)
        } else {
            KeyAction::Ignore
        },
        KeyEventKind::Other => KeyAction::Ignore,
    }
}

/// What a key event does on this screen in this playback mode.
pub fn key_action(kind: KeyEventKind, key: &str, screen: HostScreen, mode: PlaybackMode) -> (r: KeyAction)
    ensures
        r == key_action_spec(kind, key@, screen, mode),
{
    let k = to_chars(key);
    match kind {
        KeyEventKind::Down => {
            if chars_equal_str(&k, "Escape") {
                match screen {
                    HostScreen::InGame => KeyAction::ShowScreen(HostScreen::InGameMenu),
                    HostScreen::InGameMenu | HostScreen::Save | HostScreen::Load
                    | HostScreen::Settings | HostScreen::History => KeyAction::ShowScreen(
                        HostScreen::InGame,
                    ),
                    HostScreen::Title => KeyAction::Ignore,
                }
            } else if screen != HostScreen::InGame {
                KeyAction::Ignore
            } else if chars_equal_str(&k, " ") || chars_equal_str(&k, "Enter") {
                KeyAction::Click
            } else if chars_equal_str(&k, "Control") {
                KeyAction::SetPlaybackMode(PlaybackMode::Skip)
            } else if chars_equal_str(&k, "a") || chars_equal_str(&k, "A") {
                if mode == PlaybackMode::Auto {
                    KeyAction::SetPlaybackMode(PlaybackMode::Normal)
                } else {
                    KeyAction::SetPlaybackMode(PlaybackMode::Auto)
                }
            } else if chars_equal_str(&k, "Backspace") {
                KeyAction::RestoreSnapshot
            } else {
                KeyAction::Ignore
            }
        },
        KeyEventKind::Up => {
            if chars_equal_str(&k, "Control") && mode == PlaybackMode::Skip {
                KeyAction::SetPlaybackMode(PlaybackMode::Normal)
            } else {
                KeyAction::Ignore
            }
        },
        KeyEventKind::Other => KeyAction::Ignore,
    }
}

/// The shortcuts act only in the game, except Escape and releasing
/// Control: in the game Space and Enter click, Backspace steps back,
/// Control starts skipping and `a` switches auto-play on from any other
/// mode and off when it is on; on any other screen those keys do nothing.
/// Releasing Control ends skipping and does nothing else; other releases
/// and other events do nothing.
pub proof fn law_shortcuts(key: Seq<char>, screen: HostScreen, mode: PlaybackMode)
    ensures
        screen is InGame && (key == " "@ || key == "Enter"@) ==> key_action_spec(KeyEventKind::Down, key, screen, mode)
            == KeyAction::Click,
        screen is InGame && key == "Backspace"@ ==> key_action_spec(KeyEventKind::Down, key, screen, mode)
            == KeyAction::RestoreSnapshot,
        screen is InGame && key == "Control"@ ==> key_action_spec(KeyEventKind::Down, key, screen, mode)
            == KeyAction::SetPlaybackMode(PlaybackMode::Skip),
        screen is InGame && (key == "a"@ || key == "A"@) ==> key_action_spec(KeyEventKind::Down, key, screen, mode)
            == KeyAction::SetPlaybackMode(if mode is Auto { PlaybackMode::Normal } else { PlaybackMode::Auto }),
        !(screen is InGame) && key != "Escape"@ ==> key_action_spec(KeyEventKind::Down, key, screen, mode)
            == KeyAction::Ignore,
        key == "Escape"@ && screen is InGame ==> key_action_spec(KeyEventKind::Down, key, screen, mode)
            == KeyAction::ShowScreen(HostScreen::InGameMenu),
        key == "Escape"@ && !(screen is InGame) && !(screen is Title) ==> key_action_spec(KeyEventKind::Down, key, screen, mode)
            == KeyAction::ShowScreen(HostScreen::InGame),
        key == "Escape"@ && screen is Title ==> key_action_spec(KeyEventKind::Down, key, screen, mode)
            == KeyAction::Ignore,
        key_action_spec(KeyEventKind::Up, key, screen, mode) == if key == "Control"@ && mode is Skip {
            KeyAction::SetPlaybackMode(PlaybackMode::Normal)
        } else {
            KeyAction::Ignore
        },
        key_action_spec(KeyEventKind::Other, key, screen, mode) == KeyAction::Ignore,
{
    reveal_strlit("Escape");
    reveal_strlit(" ");
    reveal_strlit("Enter");
    reveal_strlit("Control");
    reveal_strlit("a");
    reveal_strlit("A");
    reveal_strlit("Backspace");
    assert("Escape"@.len() == 6 && " "@.len() == 1 && "Enter"@.len() == 5 && "Control"@.len() == 7);
    assert("a"@.len() == 1 && "A"@.len() == 1 && "Backspace"@.len() == 9);
    assert(" "@[0] == ' ' && "a"@[0] == 'a' && "A"@[0] == 'A');
}

/// Pressing Escape twice from the game or from the in-game menu comes back
/// to where it started.
pub proof fn law_escape_twice(screen: HostScreen, mode: PlaybackMode)
    requires
        screen is InGame || screen is InGameMenu,
    ensures
        key_action_spec(KeyEventKind::Down, "Escape"@, screen, mode) matches KeyAction::ShowScreen(s)
            && key_action_spec(KeyEventKind::Down, "Escape"@, s, mode) == KeyAction::ShowScreen(
            screen,
        ),
{
}

} // verus!
