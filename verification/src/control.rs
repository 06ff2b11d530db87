//! Screen and playback-mode control: overlays pause progression, so auto and
//! skip playback only survive while the in-game screen is shown.

use vstd::prelude::*;
use crate::render::{HostScreen, PlaybackMode, WaitingFor, SignalKind, waiting_requires_snapshot_fallback, spec_waiting_requires_snapshot_fallback};
use crate::debug_api::{describe_waiting, waiting_text};
use vstd::string::StringExecFns;
use crate::screens::ActionDef;
use crate::typewriter::{TextDisplay, InlineWait, completion_of, pause_ended};

verus! {

/// The current screen and playback mode.
#[derive(Debug, Clone, Copy)]
pub struct PlaybackControl {
    pub host_screen: HostScreen,
    pub playback_mode: PlaybackMode,
}

/// Auto and skip playback only run on a screen that allows progression.
pub open spec fn playback_consistent(c: PlaybackControl) -> bool {
    !c.host_screen.spec_allows_progression() ==> c.playback_mode == PlaybackMode::Normal
}

/// The mode that a request for `mode` yields on `screen`.
pub open spec fn effective_mode(screen: HostScreen, mode: PlaybackMode) -> PlaybackMode {
    if screen.spec_allows_progression() {
        mode
    } else {
        PlaybackMode::Normal
    }
}

/// The state after switching to `screen`.
pub open spec fn after_set_host_screen(c: PlaybackControl, screen: HostScreen) -> PlaybackControl {
    if c.host_screen == screen {
        c
    } else if !screen.spec_allows_progression() && c.playback_mode != PlaybackMode::Normal {
        PlaybackControl { host_screen: screen, playback_mode: PlaybackMode::Normal }
    } else {
        PlaybackControl { host_screen: screen, playback_mode: c.playback_mode }
    }
}

/// The state after requesting playback mode `mode`.
pub open spec fn after_set_playback_mode(c: PlaybackControl, mode: PlaybackMode) -> PlaybackControl {
    PlaybackControl { host_screen: c.host_screen, playback_mode: effective_mode(c.host_screen, mode) }
}

impl PlaybackControl {
    /// The start-up state: title screen, normal playback.
    pub fn new() -> (r: Self)
        ensures
            r.host_screen == HostScreen::Title,
            r.playback_mode == PlaybackMode::Normal,
            playback_consistent(r),
    {
        PlaybackControl { host_screen: HostScreen::Title, playback_mode: PlaybackMode::Normal }
    }

    /// Switches screen. Leaving the game for an overlay drops auto/skip
    /// playback back to normal. Returns whether the auto-advance timer must
    /// restart.
    pub fn set_host_screen(&mut self, screen: HostScreen) -> (reset_auto_timer: bool)
        ensures
            *final(self) == after_set_host_screen(*old(self), screen),
            reset_auto_timer == (old(self).host_screen != screen
                && !screen.spec_allows_progression() && old(self).playback_mode
                != PlaybackMode::Normal),
    {
        if self.host_screen == screen {
            return false;
        }
        self.host_screen = screen;
        if !self.host_screen.allows_progression() && self.playback_mode != PlaybackMode::Normal {
            self.playback_mode = PlaybackMode::Normal;
            true
        } else {
            false
        }
    }

    /// Requests a playback mode; off the in-game screen only normal playback
    /// is allowed. Returns whether the mode changed (and the auto-advance
    /// timer restarts).
    pub fn set_playback_mode(&mut self, mode: PlaybackMode) -> (changed: bool)
        ensures
            *final(self) == after_set_playback_mode(*old(self), mode),
            changed == (old(self).playback_mode != effective_mode(old(self).host_screen, mode)),
    {
        let next_mode = if self.host_screen.allows_progression() {
            mode
        } else {
            PlaybackMode::Normal
        };
        if self.playback_mode == next_mode {
            return false;
        }
        self.playback_mode = next_mode;
        true
    }
}

/// Both operations keep auto/skip playback confined to the in-game screen.
pub proof fn lemma_playback_consistency_preserved(
    c: PlaybackControl,
    screen: HostScreen,
    mode: PlaybackMode,
)
    requires
        playback_consistent(c),
    ensures
        playback_consistent(after_set_host_screen(c, screen)),
        playback_consistent(after_set_playback_mode(c, mode)),
{
}

/// Opening an overlay while auto or skip playback runs returns playback to
/// normal.
pub proof fn lemma_overlay_resets_playback(c: PlaybackControl, screen: HostScreen)
    requires
        !screen.spec_allows_progression(),
        playback_consistent(c),
    ensures
        after_set_host_screen(c, screen).playback_mode == PlaybackMode::Normal,
        after_set_host_screen(c, screen).host_screen == screen,
{
}


/// A timed wait after `elapsed_ms` milliseconds: cleared once the time is
/// used up, otherwise shortened; other waits are left alone.
pub open spec fn counted_down(w: WaitingFor, elapsed_ms: u64) -> WaitingFor {
    match w {
        WaitingFor::Time { remaining_ms } => if elapsed_ms >= remaining_ms {
            WaitingFor::Nothing
        } else {
            WaitingFor::Time { remaining_ms: (remaining_ms - elapsed_ms) as u64 }
        },
        _ => w,
    }
}

/// The wait after one tick of `elapsed_ms` on `screen`: a screen that does
/// not allow progression freezes it.
pub open spec fn wait_after_tick(screen: HostScreen, w: WaitingFor, elapsed_ms: u64) -> WaitingFor {
    if screen.spec_allows_progression() {
        counted_down(w, elapsed_ms)
    } else {
        w
    }
}

/// Counts a timed wait down by one tick (see [`wait_after_tick`]).
pub fn tick_wait(screen: HostScreen, waiting: WaitingFor, elapsed_ms: u64) -> (r: WaitingFor)
    ensures
        r == wait_after_tick(screen, waiting, elapsed_ms),
{
    if !screen.allows_progression() {
        return waiting;
    }
    match waiting {
        WaitingFor::Time { remaining_ms } => {
            if elapsed_ms >= remaining_ms {
                WaitingFor::Nothing
            } else {
                WaitingFor::Time { remaining_ms: remaining_ms - elapsed_ms }
            }
        },
        other => other,
    }
}

/// While an overlay is shown, ticks change no wait.
pub proof fn lemma_overlay_freezes_waits(screen: HostScreen, w: WaitingFor, elapsed_ms: u64)
    requires
        !screen.spec_allows_progression(),
    ensures
        wait_after_tick(screen, w, elapsed_ms) == w,
{
}

/// On a progressing screen, ticks whose lengths add up to a timed wait's
/// remaining time clear it, however the time is split.
pub proof fn lemma_wait_split(screen: HostScreen, remaining_ms: u64, a: u64, b: u64)
    requires
        screen.spec_allows_progression(),
        a + b == remaining_ms,
    ensures
        wait_after_tick(
            screen,
            wait_after_tick(screen, WaitingFor::Time { remaining_ms }, a),
            b,
        ) == WaitingFor::Nothing,
{
}

/// What the host knows of the on-screen effects a signal wait may be
/// waiting for.
#[derive(Debug, Clone, Copy)]
pub struct SignalFacts {
    /// No scene transition runs, or it has completed.
    pub transition_done: bool,
    /// No title card is shown.
    pub title_card_gone: bool,
    /// A scene effect (such as a shake) is still running.
    pub scene_effect_active: bool,
    /// No cutscene plays.
    pub cutscene_gone: bool,
}

/// Whether the effect a signal wait waits for has finished.
pub open spec fn signal_done(kind: SignalKind, f: SignalFacts) -> bool {
    match kind {
        SignalKind::SceneTransition => f.transition_done,
        SignalKind::TitleCard => f.title_card_gone,
        SignalKind::SceneEffect => !f.scene_effect_active,
        SignalKind::Cutscene => f.cutscene_gone,
    }
}

/// Whether a tick ends the wait because its signal has come.
pub fn signal_resolves(waiting: &WaitingFor, facts: SignalFacts) -> (r: bool)
    ensures
        r == (*waiting matches WaitingFor::Signal(k) && signal_done(k, facts)),
{
    match waiting {
        WaitingFor::Signal(kind) => match kind {
            SignalKind::SceneTransition => facts.transition_done,
            SignalKind::TitleCard => facts.title_card_gone,
            SignalKind::SceneEffect => !facts.scene_effect_active,
            SignalKind::Cutscene => facts.cutscene_gone,
        },
        _ => false,
    }
}

/// What the host still has to do after a click.
#[derive(Debug, Clone, Copy, PartialEq, Eq, Structural)]
pub enum ClickAction {
    /// The screen does not let the script advance; nothing happened.
    Ignored,
    /// The line was revealed at once; when `release_click_wait`, the click
    /// wait ends too (a line that does not wait).
    LineCompleted { release_click_wait: bool },
    /// The line's pause ended.
    PauseEnded,
    /// Take a snapshot for rollback, then end the click wait.
    SnapshotAndRelease,
    /// Nothing to do.
    NoEffect,
}

/// Handles a click on the text: an incomplete line is revealed at once, a
/// paused line resumes, and otherwise a click wait is released (after a
/// rollback snapshot). On a screen that does not allow progression the
/// click is ignored. The auto-advance timer restarts unless ignored.
pub fn process_click(display: &mut TextDisplay, screen: HostScreen, waiting: &WaitingFor) -> (r: ClickAction)
    ensures
        !screen.spec_allows_progression() ==> r == ClickAction::Ignored && *final(display) == *old(display),
        screen.spec_allows_progression() ==> {
            let line_open = old(display).dialogue matches Some(d) && !d.is_complete;
            let paused = old(display).dialogue matches Some(d) && d.inline_wait == Some(InlineWait::Click);
            if line_open {
                &&& completion_of(*final(display), *old(display))
                &&& r == ClickAction::LineCompleted {
                    release_click_wait: old(display).dialogue->0.no_wait && *waiting == WaitingFor::Click,
                }
            } else if paused {
                pause_ended(*final(display), *old(display)) && r == ClickAction::PauseEnded
            } else if *waiting == WaitingFor::Click {
                *final(display) == *old(display) && r == ClickAction::SnapshotAndRelease
            } else {
                *final(display) == *old(display) && r == ClickAction::NoEffect
            }
        },
{
    if !screen.allows_progression() {
        return ClickAction::Ignored;
    }
    if !display.is_dialogue_complete() {
        let no_wait = match &display.dialogue {
            Some(d) => d.no_wait,
            None => false,
        };
        display.complete_typewriter();
        let click = match waiting {
            WaitingFor::Click => true,
            _ => false,
        };
        return ClickAction::LineCompleted { release_click_wait: no_wait && click };
    }
    if display.is_inline_click_wait() {
        display.clear_inline_wait();
        return ClickAction::PauseEnded;
    }
    match waiting {
        WaitingFor::Click => ClickAction::SnapshotAndRelease,
        _ => ClickAction::NoEffect,
    }
}

/// What skip playback does to the wait after revealing the line.
#[derive(Debug, Clone, Copy, PartialEq, Eq, Structural)]
pub enum SkipAction {
    /// Nothing (not skipping, or nothing to skip).
    Nothing,
    /// End the click wait.
    ReleaseClick,
    /// End the timed wait.
    EndTimedWait,
    /// Finish the effect the signal wait waits for.
    CompleteSignal(SignalKind),
    /// Finish the cutscene.
    FinishCutscene,
}

/// The skip step of one tick: in skip mode an incomplete line is revealed
/// at once, and a click, timed, signal or cutscene wait is cut short.
pub fn skip_step(display: &mut TextDisplay, mode: PlaybackMode, waiting: &WaitingFor) -> (r: SkipAction)
    ensures
        mode != PlaybackMode::Skip ==> r == SkipAction::Nothing && *final(display) == *old(display),
        mode == PlaybackMode::Skip ==> {
            &&& (old(display).dialogue matches Some(d) && !d.is_complete) ==> completion_of(
                *final(display),
                *old(display),
            )
            &&& !(old(display).dialogue matches Some(d) && !d.is_complete) ==> *final(display)
                == *old(display)
            &&& r == match *waiting {
                WaitingFor::Click => SkipAction::ReleaseClick,
                WaitingFor::Time { .. } => SkipAction::EndTimedWait,
                WaitingFor::Signal(k) => SkipAction::CompleteSignal(k),
                WaitingFor::Cutscene => SkipAction::FinishCutscene,
                _ => SkipAction::Nothing,
            }
        },
{
    if mode != PlaybackMode::Skip {
        return SkipAction::Nothing;
    }
    if !display.is_dialogue_complete() {
        display.complete_typewriter();
    }
    match waiting {
        WaitingFor::Click => SkipAction::ReleaseClick,
        WaitingFor::Time { .. } => SkipAction::EndTimedWait,
        WaitingFor::Signal(k) => SkipAction::CompleteSignal(*k),
        WaitingFor::Cutscene => SkipAction::FinishCutscene,
        _ => SkipAction::Nothing,
    }
}

/// Whether the auto-advance timer runs this tick: auto playback, a click
/// wait, and the whole line shown.
pub fn auto_timer_runs(display: &TextDisplay, mode: PlaybackMode, waiting: &WaitingFor) -> (r: bool)
    ensures
        r == (mode == PlaybackMode::Auto && *waiting == WaitingFor::Click && match display.dialogue {
            Some(d) => d.is_complete,
            None => true,
        }),
{
    let click = match waiting {
        WaitingFor::Click => true,
        _ => false,
    };
    mode == PlaybackMode::Auto && click && display.is_dialogue_complete()
}

/// Whether a UI result answers the wait: the host must be waiting for a UI
/// result under the same key.
pub fn ui_result_accepted(waiting: &WaitingFor, key: &str) -> (r: Result<(), String>)
    ensures
        match *waiting {
            WaitingFor::UIResult { key: expected } => if expected@ == key@ {
                r is Ok
            } else {
                r matches Err(e) && e@ == "UIResult key 不匹配：期望 '"@ + expected@ + "'，收到 '"@
                    + key@ + "'"@
            },
            _ => r matches Err(e) && e@ == "当前未在等待 UI 结果"@,
        },
{
    match waiting {
        WaitingFor::UIResult { key: expected } => {
            if crate::text::chars_equal_str(&crate::text::to_chars(expected.as_str()), key) {
                Ok(())
            } else {
                let mut e = "UIResult key 不匹配：期望 '".to_owned();
                e.append(expected.as_str());
                e.append("'，收到 '");
                e.append(key);
                e.append("'");
                Err(e)
            }
        },
        _ => Err("当前未在等待 UI 结果".to_owned()),
    }
}

/// The wait after restoring a save: a wait the host cannot rebuild
/// (a choice, cutscene, signal or UI result) falls back to a click wait.
pub fn restored_wait(waiting: WaitingFor) -> (r: WaitingFor)
    ensures
        spec_waiting_requires_snapshot_fallback(waiting) ==> r == WaitingFor::Click,
        !spec_waiting_requires_snapshot_fallback(waiting) ==> r == waiting,
{
    if waiting_requires_snapshot_fallback(&waiting) {
        WaitingFor::Click
    } else {
        waiting
    }
}

/// The wait after a cutscene finishes: a cutscene wait ends.
pub fn wait_after_cutscene(waiting: WaitingFor) -> (r: WaitingFor)
    ensures
        waiting == WaitingFor::Cutscene ==> r == WaitingFor::Nothing,
        waiting != WaitingFor::Cutscene ==> r == waiting,
{
    match waiting {
        WaitingFor::Cutscene => WaitingFor::Nothing,
        other => other,
    }
}

/// Where a save takes its state from.
#[derive(Debug, Clone, Copy, PartialEq, Eq, Structural)]
pub enum SaveSource {
    /// The latest rollback snapshot (the live state is a transient one).
    Snapshot,
    /// The live runtime state.
    Live,
}

/// Chooses what a save captures: during a wait the host cannot rebuild, the
/// latest snapshot (an error when there is none); otherwise the live state
/// (an error when no game runs).
pub fn save_source(waiting: &WaitingFor, has_snapshot: bool, has_runtime: bool) -> (r: Result<SaveSource, String>)
    ensures
        spec_waiting_requires_snapshot_fallback(*waiting) ==> if has_snapshot {
            r == Ok::<SaveSource, String>(SaveSource::Snapshot)
        } else {
            r matches Err(e) && e@ == "当前处于 "@ + waiting_text(*waiting)
                + " 中间态，且没有可回退快照，无法安全保存"@
        },
        !spec_waiting_requires_snapshot_fallback(*waiting) ==> if has_runtime {
            r == Ok::<SaveSource, String>(SaveSource::Live)
        } else {
            r matches Err(e) && e@ == "游戏未启动"@
        },
{
    if waiting_requires_snapshot_fallback(waiting) {
        if has_snapshot {
            Ok(SaveSource::Snapshot)
        } else {
            let mut e = "当前处于 ".to_owned();
            let w = describe_waiting(waiting);
            e.append(w.as_str());
            e.append(" 中间态，且没有可回退快照，无法安全保存");
            Err(e)
        }
    } else if has_runtime {
        Ok(SaveSource::Live)
    } else {
        Err("游戏未启动".to_owned())
    }
}

/// The slot quick save and quick load use.
pub const QUICK_SAVE_SLOT: u32 = 55;

/// What a button's action asks the host to do.
#[derive(Debug, Clone, PartialEq)]
pub enum ActionEffect {
    /// Drop the continue save and start the configured script, at a label
    /// when one is given.
    StartGame { label: Option<String> },
    /// Restore the continue save.
    ContinueGame,
    /// Switch to a screen.
    ShowScreen(HostScreen),
    /// Save to the given slot.
    SaveToSlot(u32),
    /// Load the given slot.
    LoadSlot(u32),
    /// Request a playback mode.
    SetPlaybackMode(PlaybackMode),
    /// Return to the title screen, writing a continue save.
    ReturnToTitle { save_continue: bool },
    /// Closing the window is left to the frontend.
    Exit,
}

/// The mode a toggle asks for: off when it is on, on otherwise.
pub open spec fn toggled(current: PlaybackMode, target: PlaybackMode) -> PlaybackMode {
    if current == target {
        PlaybackMode::Normal
    } else {
        target
    }
}

/// What the host does for an action, given the current playback mode.
pub open spec fn effect_of(action: ActionDef, current: PlaybackMode) -> ActionEffect {
    match action {
        ActionDef::StartGame => ActionEffect::StartGame { label: None },
        ActionDef::StartAtLabel(l) => ActionEffect::StartGame { label: Some(l) },
        ActionDef::ContinueGame => ActionEffect::ContinueGame,
        ActionDef::OpenLoad => ActionEffect::ShowScreen(HostScreen::Load),
        ActionDef::OpenSave => ActionEffect::ShowScreen(HostScreen::Save),
        ActionDef::NavigateSettings => ActionEffect::ShowScreen(HostScreen::Settings),
        ActionDef::NavigateHistory => ActionEffect::ShowScreen(HostScreen::History),
        ActionDef::ReplaceSettings => ActionEffect::ShowScreen(HostScreen::Settings),
        ActionDef::ReplaceHistory => ActionEffect::ShowScreen(HostScreen::History),
        ActionDef::QuickSave => ActionEffect::SaveToSlot(QUICK_SAVE_SLOT),
        ActionDef::QuickLoad => ActionEffect::LoadSlot(QUICK_SAVE_SLOT),
        ActionDef::ToggleSkip => ActionEffect::SetPlaybackMode(toggled(current, PlaybackMode::Skip)),
        ActionDef::ToggleAuto => ActionEffect::SetPlaybackMode(toggled(current, PlaybackMode::Auto)),
        ActionDef::GoBack => ActionEffect::ShowScreen(HostScreen::InGame),
        ActionDef::ReturnToTitle => ActionEffect::ReturnToTitle { save_continue: true },
        ActionDef::ReturnToGame => ActionEffect::ShowScreen(HostScreen::InGame),
        ActionDef::Exit => ActionEffect::Exit,
    }
}

/// Decides what a button's action does (see [`effect_of`]).
pub fn plan_action(action: &ActionDef, current: PlaybackMode) -> (r: ActionEffect)
    ensures
        r == effect_of(*action, current),
{
    match action {
        ActionDef::StartGame => ActionEffect::StartGame { label: None },
        ActionDef::StartAtLabel(l) => ActionEffect::StartGame { label: Some(l.clone()) },
        ActionDef::ContinueGame => ActionEffect::ContinueGame,
        ActionDef::OpenLoad => ActionEffect::ShowScreen(HostScreen::Load),
        ActionDef::OpenSave => ActionEffect::ShowScreen(HostScreen::Save),
        ActionDef::NavigateSettings => ActionEffect::ShowScreen(HostScreen::Settings),
        ActionDef::NavigateHistory => ActionEffect::ShowScreen(HostScreen::History),
        ActionDef::ReplaceSettings => ActionEffect::ShowScreen(HostScreen::Settings),
        ActionDef::ReplaceHistory => ActionEffect::ShowScreen(HostScreen::History),
        ActionDef::QuickSave => ActionEffect::SaveToSlot(QUICK_SAVE_SLOT),
        ActionDef::QuickLoad => ActionEffect::LoadSlot(QUICK_SAVE_SLOT),
        ActionDef::ToggleSkip => ActionEffect::SetPlaybackMode(
            if current == PlaybackMode::Skip { PlaybackMode::Normal } else { PlaybackMode::Skip },
        ),
        ActionDef::ToggleAuto => ActionEffect::SetPlaybackMode(
            if current == PlaybackMode::Auto { PlaybackMode::Normal } else { PlaybackMode::Auto },
        ),
        ActionDef::GoBack => ActionEffect::ShowScreen(HostScreen::InGame),
        ActionDef::ReturnToTitle => ActionEffect::ReturnToTitle { save_continue: true },
        ActionDef::ReturnToGame => ActionEffect::ShowScreen(HostScreen::InGame),
        ActionDef::Exit => ActionEffect::Exit,
    }
}

/// Each button does what its name says, whatever the playback mode: Load
/// opens the load screen and Save the save screen (two different
/// screens), the settings and history buttons open those screens, going
/// back or returning to the game shows the game, quick save and quick load
/// use one and the same slot, the skip and auto toggles switch their mode
/// on from any other mode and off (to normal) when it is on, and starting
/// a new game starts at the script's beginning.
pub proof fn law_buttons_do_what_they_name(m: PlaybackMode)
    ensures
        effect_of(ActionDef::OpenLoad, m) == ActionEffect::ShowScreen(HostScreen::Load),
        effect_of(ActionDef::OpenSave, m) == ActionEffect::ShowScreen(HostScreen::Save),
        effect_of(ActionDef::OpenLoad, m) != effect_of(ActionDef::OpenSave, m),
        effect_of(ActionDef::NavigateSettings, m) == ActionEffect::ShowScreen(HostScreen::Settings),
        effect_of(ActionDef::ReplaceSettings, m) == ActionEffect::ShowScreen(HostScreen::Settings),
        effect_of(ActionDef::NavigateHistory, m) == ActionEffect::ShowScreen(HostScreen::History),
        effect_of(ActionDef::ReplaceHistory, m) == ActionEffect::ShowScreen(HostScreen::History),
        effect_of(ActionDef::GoBack, m) == ActionEffect::ShowScreen(HostScreen::InGame),
        effect_of(ActionDef::ReturnToGame, m) == ActionEffect::ShowScreen(HostScreen::InGame),
        effect_of(ActionDef::QuickSave, m) matches ActionEffect::SaveToSlot(a)
            && effect_of(ActionDef::QuickLoad, m) matches ActionEffect::LoadSlot(b) && a == b,
        m == PlaybackMode::Skip ==> effect_of(ActionDef::ToggleSkip, m) == ActionEffect::SetPlaybackMode(
            PlaybackMode::Normal,
        ),
        m != PlaybackMode::Skip ==> effect_of(ActionDef::ToggleSkip, m) == ActionEffect::SetPlaybackMode(
            PlaybackMode::Skip,
        ),
        m == PlaybackMode::Auto ==> effect_of(ActionDef::ToggleAuto, m) == ActionEffect::SetPlaybackMode(
            PlaybackMode::Normal,
        ),
        m != PlaybackMode::Auto ==> effect_of(ActionDef::ToggleAuto, m) == ActionEffect::SetPlaybackMode(
            PlaybackMode::Auto,
        ),
        effect_of(ActionDef::StartGame, m) == (ActionEffect::StartGame { label: None }),
        effect_of(ActionDef::ContinueGame, m) == ActionEffect::ContinueGame,
        effect_of(ActionDef::ReturnToTitle, m) == (ActionEffect::ReturnToTitle { save_continue: true }),
        effect_of(ActionDef::Exit, m) == ActionEffect::Exit,
{
}

/// Toggling twice from normal playback returns to normal playback.
pub proof fn lemma_toggle_twice(target: PlaybackMode)
    requires
        target != PlaybackMode::Normal,
    ensures
        toggled(toggled(PlaybackMode::Normal, target), target) == PlaybackMode::Normal,
{
}

} // verus!
