//! The host-side projection of what the frontend shows: current screen,
//! playback mode, and the plain records the renderer consumes.

use vstd::prelude::*;
use crate::persistent::VarValue;

verus! {

/// The screen (or overlay) the host currently shows.
#[derive(Debug, Clone, Copy, PartialEq, Eq, Structural)]
pub enum HostScreen {
    Title,
    InGame,
    InGameMenu,
    Save,
    Load,
    Settings,
    History,
}

impl HostScreen {
    /// Only the in-game screen lets the script advance.
    pub open spec fn spec_allows_progression(self) -> bool {
        self is InGame
    }

    /// Whether the script may advance while this screen is shown.
    pub fn allows_progression(&self) -> (r: bool)
        ensures
            r == self.spec_allows_progression(),
    {
        matches!(self, HostScreen::InGame)
    }
}

/// How dialogue advances.
#[derive(Debug, Clone, Copy, PartialEq, Eq, Structural)]
pub enum PlaybackMode {
    Normal,
    Auto,
    Skip,
}

/// Phase of a full-screen scene transition.
#[derive(Debug, Clone, Copy, PartialEq, Eq, Structural)]
pub enum SceneTransitionPhaseState {
    FadeIn,
    Hold,
    FadeOut,
    Completed,
}

/// Phase of a chapter-title mark.
#[derive(Debug, Clone, Copy, PartialEq, Eq, Structural)]
pub enum ChapterMarkPhase {
    FadeIn,
    Visible,
    FadeOut,
}

/// One line of the NVL (full-screen text) page.
#[derive(Debug, Clone)]
pub struct NvlEntry {
    pub speaker: Option<String>,
    pub content: String,
    pub visible_chars: usize,
    pub is_complete: bool,
}

/// One selectable choice.
#[derive(Debug, Clone, PartialEq)]
pub struct ChoiceItem {
    pub text: String,
    pub target_label: String,
}

/// The choice menu on screen.
#[derive(Debug, Clone, PartialEq)]
pub struct ChoicesState {
    pub choices: Vec<ChoiceItem>,
    pub style: Option<String>,
    pub selected_index: usize,
    pub hovered_index: Option<usize>,
}

/// A cutscene video in progress.
#[derive(Debug, Clone, PartialEq)]
pub struct CutsceneState {
    pub video_path: String,
    pub is_playing: bool,
}

/// Outcome of executing one runtime command against the render state.
#[derive(Debug, Clone, PartialEq)]
pub enum ExecuteResult {
    Continue,
    WaitForClick,
    WaitForChoice { choice_count: usize },
    WaitForCutscene { video_path: String },
    FullRestart,
    /// A UI mode the script asks for, with its parameters in order.
    RequestUI { key: String, mode: String, params: Vec<(String, VarValue)> },
}

/// One entry of the dialogue history.
#[derive(Debug, Clone)]
pub struct HistoryEntry {
    pub speaker: Option<String>,
    pub text: String,
}

/// The host-side signal a script may wait for.
#[derive(Debug, Clone, Copy, PartialEq, Eq, Structural)]
pub enum SignalKind {
    SceneTransition,
    TitleCard,
    SceneEffect,
    Cutscene,
}

/// What the host is waiting for before the script may continue.
#[derive(Debug, Clone, PartialEq)]
pub enum WaitingFor {
    Nothing,
    Click,
    Choice,
    Time { remaining_ms: u64 },
    Cutscene,
    Signal(SignalKind),
    /// A UI interaction result (`requestUI`, `callGame`, `showMap`).
    UIResult { key: String },
}

/// The waits during which the live state is a transient one that a save
/// cannot capture directly.
pub open spec fn spec_waiting_requires_snapshot_fallback(w: WaitingFor) -> bool {
    w is Choice || w is Cutscene || w is Signal || w is UIResult
}

/// Whether saving must fall back to the latest stable snapshot.
pub fn waiting_requires_snapshot_fallback(waiting: &WaitingFor) -> (r: bool)
    ensures
        r == spec_waiting_requires_snapshot_fallback(*waiting),
{
    match waiting {
        WaitingFor::Choice | WaitingFor::Cutscene | WaitingFor::Signal(_) | WaitingFor::UIResult {
            ..
        } => true,
        _ => false,
    }
}

} // verus!
