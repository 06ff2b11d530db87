use ring_host::persistent::VarValue;
use ring_host::render::{ExecuteResult, HistoryEntry, SignalKind, WaitingFor};
use ring_host::tick::{
    RuntimeWait, TickOutcome, UiModeRequest, history_to_record, map_runtime_waiting, plan_tick,
    push_history,
};
use ring_host::typewriter::TextDisplay;

fn line(speaker: Option<&str>, content: &str) -> TextDisplay {
    let mut t = TextDisplay::new();
    t.start_typewriter(speaker.map(|s| s.to_string()), content.to_string(), vec![], false);
    t
}

fn entry(text: &str) -> HistoryEntry {
    HistoryEntry { speaker: None, text: text.to_string() }
}

#[test]
fn fresh_line_enters_history_once() {
    let t = line(Some("Alice"), "Hello");
    let mut history: Vec<HistoryEntry> = vec![];
    let e = history_to_record(&t.dialogue, &history).unwrap();
    assert_eq!(e.speaker.as_deref(), Some("Alice"));
    assert_eq!(e.text, "Hello");
    push_history(&mut history, e.speaker, e.text);
    assert!(history_to_record(&t.dialogue, &history).is_none());
    assert_eq!(history.len(), 1);
}

#[test]
fn history_is_newest_first() {
    let mut history = vec![entry("old")];
    push_history(&mut history, None, "new".to_string());
    assert_eq!(history[0].text, "new");
    assert_eq!(history[1].text, "old");
}

#[test]
fn no_line_records_nothing_and_older_repeats_are_recorded() {
    let history = vec![entry("B"), entry("A")];
    assert!(history_to_record(&None, &history).is_none());
    let t = line(None, "A");
    assert_eq!(history_to_record(&t.dialogue, &history).unwrap().text, "A");
}

#[test]
fn empty_line_is_recorded_only_while_fresh() {
    let mut t = line(None, "");
    assert!(history_to_record(&t.dialogue, &vec![]).is_some());
    t.dialogue.as_mut().unwrap().visible_chars = 1;
    assert!(history_to_record(&t.dialogue, &vec![]).is_none());
}

#[test]
fn runtime_waits_map_to_host_waits() {
    assert_eq!(map_runtime_waiting(RuntimeWait::Nothing), WaitingFor::Nothing);
    assert_eq!(map_runtime_waiting(RuntimeWait::Click), WaitingFor::Click);
    assert_eq!(map_runtime_waiting(RuntimeWait::Choice), WaitingFor::Choice);
    assert_eq!(map_runtime_waiting(RuntimeWait::Time { millis: 1500 }), WaitingFor::Time { remaining_ms: 1500 });
    assert_eq!(
        map_runtime_waiting(RuntimeWait::Signal(SignalKind::TitleCard)),
        WaitingFor::Signal(SignalKind::TitleCard)
    );
    assert_eq!(
        map_runtime_waiting(RuntimeWait::UIResult { key: "map".to_string() }),
        WaitingFor::UIResult { key: "map".to_string() }
    );
}

#[test]
fn restart_stops_the_tick() {
    let plan = plan_tick(&None, &vec![], ExecuteResult::FullRestart, RuntimeWait::Click, 3);
    assert_eq!(plan.outcome, TickOutcome::Restart);
}

#[test]
fn ui_request_and_cutscene_are_planned() {
    let plan = plan_tick(
        &None,
        &vec![],
        ExecuteResult::RequestUI {
            key: "k".to_string(),
            mode: "map".to_string(),
            params: vec![("zoom".to_string(), VarValue::Int(2))],
        },
        RuntimeWait::UIResult { key: "k".to_string() },
        1,
    );
    match plan.outcome {
        TickOutcome::Proceed { ui_mode, cutscene, waiting, finished } => {
            assert_eq!(
                ui_mode,
                Some(UiModeRequest {
                    mode: "map".to_string(),
                    key: "k".to_string(),
                    params: vec![("zoom".to_string(), VarValue::Int(2))],
                })
            );
            assert!(cutscene.is_none());
            assert_eq!(waiting, WaitingFor::UIResult { key: "k".to_string() });
            assert!(!finished);
        }
        _ => panic!("expected the script to go on"),
    }
    let plan = plan_tick(
        &None,
        &vec![],
        ExecuteResult::WaitForCutscene { video_path: "op.webm".to_string() },
        RuntimeWait::Signal(SignalKind::Cutscene),
        1,
    );
    match plan.outcome {
        TickOutcome::Proceed { cutscene, .. } => {
            let c = cutscene.unwrap();
            assert_eq!(c.video_path, "op.webm");
            assert!(c.is_playing);
        }
        _ => panic!("expected the script to go on"),
    }
}

#[test]
fn empty_tick_waiting_for_nothing_finishes_the_script() {
    let plan = plan_tick(&None, &vec![], ExecuteResult::Continue, RuntimeWait::Nothing, 0);
    assert!(matches!(plan.outcome, TickOutcome::Proceed { finished: true, .. }));
    let plan = plan_tick(&None, &vec![], ExecuteResult::Continue, RuntimeWait::Nothing, 2);
    assert!(matches!(plan.outcome, TickOutcome::Proceed { finished: false, .. }));
    let plan = plan_tick(&None, &vec![], ExecuteResult::Continue, RuntimeWait::Click, 0);
    assert!(matches!(plan.outcome, TickOutcome::Proceed { finished: false, .. }));
}
