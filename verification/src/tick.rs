//! What the host decides after one tick of the script runtime, once the
//! commands of the tick have run: which line enters the history, whether
//! the game restarts, what the UI is asked to show and what the host waits
//! for next. Running the runtime, playing audio and drawing stay with the
//! caller; this module turns the tick's outcome into a plan.

use vstd::prelude::*;
use crate::persistent::VarValue;
use vstd::string::StringExecFns;
use crate::render::{CutsceneState, ExecuteResult, HistoryEntry, SignalKind, WaitingFor};
use crate::typewriter::DialogueState;
use crate::command_exec::copy_text;

verus! {

/// What the runtime waits for after a tick.
#[derive(Debug, Clone, PartialEq)]
pub enum RuntimeWait {
    Nothing,
    Click,
    Choice,
    /// A pause of the given milliseconds.
    Time { millis: u64 },
    /// A host signal (the caller maps the runtime's signal id to its kind).
    Signal(SignalKind),
    /// The result of a UI interaction under `key`.
    UIResult { key: String },
}

/// A UI mode the script asked for.
#[derive(Debug, Clone, PartialEq)]
pub struct UiModeRequest {
    pub mode: String,
    pub key: String,
    /// The script's parameters for the UI, in order.
    pub params: Vec<(String, VarValue)>,
}

/// How the tick ends.
#[derive(Debug, Clone, PartialEq)]
pub enum TickOutcome {
    /// The script asked for a full restart: back to the title, nothing
    /// else of the tick applies.
    Restart,
    /// The script goes on.
    Proceed {
        /// A UI mode to open.
        ui_mode: Option<UiModeRequest>,
        /// A cutscene to start playing (the music ducks for it).
        cutscene: Option<CutsceneState>,
        /// What the host now waits for.
        waiting: WaitingFor,
        /// The script has ended: back to the title.
        finished: bool,
    },
}

/// The plan for one tick.
#[derive(Debug, Clone)]
pub struct TickPlan {
    /// A line to put at the front of the history.
    pub history_entry: Option<HistoryEntry>,
    pub outcome: TickOutcome,
}

/// The line to record: the current line, when it is fresh or not empty,
/// unless the newest history entry already holds the same text.
pub open spec fn history_addition(d: Option<DialogueState>, history: Seq<HistoryEntry>) -> Option<
    HistoryEntry,
> {
    match d {
        Some(d) => if (d.visible_chars == 0 || d.content@.len() > 0) && !(history.len() > 0
            && history[0].text@ == d.content@) {
            Some(HistoryEntry { speaker: d.speaker, text: d.content })
        } else {
            None
        },
        None => None,
    }
}

/// The host's wait for the runtime's.
pub open spec fn waiting_for(w: RuntimeWait) -> WaitingFor {
    match w {
        RuntimeWait::Nothing => WaitingFor::Nothing,
        RuntimeWait::Click => WaitingFor::Click,
        RuntimeWait::Choice => WaitingFor::Choice,
        RuntimeWait::Time { millis } => WaitingFor::Time { remaining_ms: millis },
        RuntimeWait::Signal(k) => WaitingFor::Signal(k),
        RuntimeWait::UIResult { key } => WaitingFor::UIResult { key },
    }
}

/// How a tick with this batch result, wait and number of commands ends:
/// a restart stops everything; otherwise a UI request opens its mode, a
/// cutscene starts playing, the host takes the runtime's wait, and a tick
/// that produced nothing and waits for nothing ends the script.
pub open spec fn tick_outcome(result: ExecuteResult, wait: RuntimeWait, command_count: nat) -> TickOutcome {
    if result is FullRestart {
        TickOutcome::Restart
    } else {
        TickOutcome::Proceed {
            ui_mode: match result {
                ExecuteResult::RequestUI { key, mode, params } => Some(UiModeRequest { mode, key, params }),
                _ => None,
            },
            cutscene: match result {
                ExecuteResult::WaitForCutscene { video_path } => Some(
                    CutsceneState { video_path, is_playing: true },
                ),
                _ => None,
            },
            waiting: waiting_for(wait),
            finished: wait is Nothing && command_count == 0,
        }
    }
}

/// The line to record in the history, computed.
pub fn history_to_record(dialogue: &Option<DialogueState>, history: &Vec<HistoryEntry>) -> (r: Option<
    HistoryEntry,
>)
    ensures
        r == history_addition(*dialogue, history@),
{
    match dialogue {
        Some(d) => {
            let fresh_or_nonempty = d.visible_chars == 0 || d.content.as_str().unicode_len() > 0;
            let repeated = history.len() > 0 && history[0].text == d.content;
            if fresh_or_nonempty && !repeated {
                Some(HistoryEntry { speaker: copy_text(&d.speaker), text: d.content.clone() })
            } else {
                None
            }
        },
        None => None,
    }
}

/// The host's wait for the runtime's, computed.
pub fn map_runtime_waiting(wait: RuntimeWait) -> (r: WaitingFor)
    ensures
        r == waiting_for(wait),
{
    match wait {
        RuntimeWait::Nothing => WaitingFor::Nothing,
        RuntimeWait::Click => WaitingFor::Click,
        RuntimeWait::Choice => WaitingFor::Choice,
        RuntimeWait::Time { millis } => WaitingFor::Time { remaining_ms: millis },
        RuntimeWait::Signal(k) => WaitingFor::Signal(k),
        RuntimeWait::UIResult { key } => WaitingFor::UIResult { key },
    }
}

/// Plans what follows a tick whose commands ran: the history line from the
/// line now shown, and how the tick ends.
pub fn plan_tick(
    dialogue: &Option<DialogueState>,
    history: &Vec<HistoryEntry>,
    result: ExecuteResult,
    wait: RuntimeWait,
    command_count: usize,
) -> (r: TickPlan)
    ensures
        r.history_entry == history_addition(*dialogue, history@),
        r.outcome == tick_outcome(result, wait, command_count as nat),
{
    let history_entry = history_to_record(dialogue, history);
    let outcome = match result {
        ExecuteResult::FullRestart => TickOutcome::Restart,
        other => {
            let finished = matches!(wait, RuntimeWait::Nothing) && command_count == 0;
            let waiting = map_runtime_waiting(wait);
            let (ui_mode, cutscene) = match other {
                ExecuteResult::RequestUI { key, mode, params } => (
                    Some(UiModeRequest { mode, key, params }),
                    None,
                ),
                ExecuteResult::WaitForCutscene { video_path } => (
                    None,
                    Some(CutsceneState { video_path, is_playing: true }),
                ),
                _ => (None, None),
            };
            TickOutcome::Proceed { ui_mode, cutscene, waiting, finished }
        },
    };
    TickPlan { history_entry, outcome }
}

/// Puts a line at the front of the history (newest first).
pub fn push_history(history: &mut Vec<HistoryEntry>, speaker: Option<String>, text: String)
    ensures
        final(history)@ == seq![HistoryEntry { speaker, text }] + old(history)@,
{
    history.insert(0, HistoryEntry { speaker, text });
    proof {
        assert(history@ =~= seq![HistoryEntry { speaker, text }] + old(history)@);
    }
}

/// How a tick ends: it restarts exactly when the batch asked for a full
/// restart; otherwise a UI mode opens exactly when the batch asked for one
/// (with its key, mode and parameters), a cutscene starts playing exactly
/// when the batch asked for one (with its video), the host waits for what
/// the runtime waits for (the same pause, signal or UI key), and the script
/// ends exactly when the tick produced no command and waits for nothing.
pub proof fn law_tick_outcome(result: ExecuteResult, wait: RuntimeWait, count: nat)
    ensures
        (result is FullRestart) <==> (tick_outcome(result, wait, count) is Restart),
        !(result is FullRestart) ==> (tick_outcome(result, wait, count) matches TickOutcome::Proceed {
            ui_mode,
            cutscene,
            waiting,
            finished,
        } && (finished <==> (wait is Nothing && count == 0)) && (ui_mode is Some <==> result is RequestUI)
            && (result matches ExecuteResult::RequestUI { key, mode, params } ==> ui_mode == Some(
            UiModeRequest { mode, key, params },
        )) && (cutscene is Some <==> result is WaitForCutscene) && (
        result matches ExecuteResult::WaitForCutscene { video_path } ==> cutscene == Some(
            CutsceneState { video_path, is_playing: true },
        )) && match wait {
            RuntimeWait::Nothing => waiting == WaitingFor::Nothing,
            RuntimeWait::Click => waiting == WaitingFor::Click,
            RuntimeWait::Choice => waiting == WaitingFor::Choice,
            RuntimeWait::Time { millis } => waiting == (WaitingFor::Time { remaining_ms: millis }),
            RuntimeWait::Signal(k) => waiting == WaitingFor::Signal(k),
            RuntimeWait::UIResult { key } => waiting == (WaitingFor::UIResult { key }),
        }),
{
}

/// The history records the line on screen, as it is (speaker and text),
/// unless there is no line, the line is an empty one already being
/// revealed, or the newest entry already holds the same text; a fresh or
/// non-empty line with new text is always recorded.
pub proof fn law_history_records_the_line(d: Option<DialogueState>, history: Seq<HistoryEntry>)
    ensures
        history_addition(d, history) matches Some(e) ==> (d is Some && e.speaker == d->0.speaker
            && e.text == d->0.content),
        d is None ==> history_addition(d, history) is None,
        d matches Some(l) ==> ((history.len() > 0 && history[0].text@ == l.content@) ==> history_addition(
            d,
            history,
        ) is None),
        d matches Some(l) ==> (((l.visible_chars == 0 || l.content@.len() > 0) && !(history.len() > 0
            && history[0].text@ == l.content@)) ==> history_addition(d, history) is Some),
        d matches Some(l) ==> ((l.visible_chars != 0 && l.content@.len() == 0) ==> history_addition(
            d,
            history,
        ) is None),
{
}

/// Recording the planned line never puts the same text twice in a row at
/// the front of the history.
pub proof fn lemma_history_no_immediate_repeat(d: Option<DialogueState>, history: Seq<HistoryEntry>)
    requires
        history_addition(d, history) is Some,
    ensures
        ({
            let e = history_addition(d, history)->0;
            let h = seq![e] + history;
            h.len() > 1 ==> h[0].text@ != h[1].text@
        }),
{
    let e = history_addition(d, history)->0;
    let h = seq![e] + history;
    if h.len() > 1 {
        assert(h[1] == history[0]);
    }
}

} // verus!
