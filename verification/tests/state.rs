use ring_host::control::{restored_wait, save_source, ui_result_accepted, wait_after_cutscene, SaveSource, auto_timer_runs, plan_action, process_click, signal_resolves, skip_step, tick_wait, ActionEffect, ClickAction, PlaybackControl, SignalFacts, SkipAction, QUICK_SAVE_SLOT};
use ring_host::typewriter::{InlineEffect, InlineEffectKind, TextDisplay};
use ring_host::render::{waiting_requires_snapshot_fallback, HostScreen, PlaybackMode, SignalKind, WaitingFor};
use ring_host::screens::ActionDef;
use ring_host::session::SessionAuthority;
use ring_host::snapshots::SnapshotStack;

fn reclaim_scenario() {
    let mut inner = SessionAuthority::new();
    let first = inner.frontend_connected(Some("first".to_string()));
    assert!(inner.assert_owner(&first).is_ok());

    let second = inner.frontend_connected(Some("second".to_string()));
    assert!(inner.assert_owner(&first).is_err());
    assert!(inner.assert_owner(&second).is_ok());
}

#[test]
fn state_frontend_owner_reclaim_invalidates_stale_token() {
    reclaim_scenario();
}

#[test]
fn tests_frontend_owner_reclaim_invalidates_stale_token() {
    reclaim_scenario();
}

#[test]
fn session_tokens_count_up_and_messages_name_the_owner() {
    let mut s = SessionAuthority::new();
    assert_eq!(
        s.assert_owner("client-1"),
        Err("当前没有已连接的前端 owner，请先调用 frontend_connected".to_string())
    );
    assert_eq!(s.frontend_connected(None), "client-1");
    assert_eq!(s.client_owner.as_ref().unwrap().label, "frontend");
    assert_eq!(s.frontend_connected(Some("panel".to_string())), "client-2");
    assert_eq!(
        s.assert_owner("client-1"),
        Err("当前会话已被其他客户端接管（owner=panel），拒绝推进请求".to_string())
    );
    assert_eq!(s.assert_owner("client-2"), Ok(()));
}

fn overlay_scenario() {
    let mut inner = PlaybackControl::new();
    inner.set_host_screen(HostScreen::InGame);
    inner.set_playback_mode(PlaybackMode::Auto);
    let waiting = WaitingFor::Time { remaining_ms: 1_000 };

    inner.set_host_screen(HostScreen::Save);
    let waiting = tick_wait(inner.host_screen, waiting, 1_000);

    assert_eq!(inner.playback_mode, PlaybackMode::Normal);
    assert_eq!(waiting, WaitingFor::Time { remaining_ms: 1_000 });
}

#[test]
fn state_overlay_screen_blocks_progression_and_resets_playback() {
    overlay_scenario();
}

#[test]
fn tests_overlay_screen_blocks_progression_and_resets_playback() {
    overlay_scenario();
}

#[test]
fn playback_mode_only_changes_in_game() {
    let mut c = PlaybackControl::new();
    assert_eq!(c.host_screen, HostScreen::Title);
    assert!(!c.set_playback_mode(PlaybackMode::Skip));
    assert_eq!(c.playback_mode, PlaybackMode::Normal);
    assert!(!c.set_host_screen(HostScreen::InGame));
    assert!(c.set_playback_mode(PlaybackMode::Skip));
    assert!(!c.set_playback_mode(PlaybackMode::Skip));
    assert!(!c.set_host_screen(HostScreen::InGame));
    assert!(c.set_host_screen(HostScreen::InGameMenu));
    assert_eq!(c.playback_mode, PlaybackMode::Normal);
}

#[test]
fn timed_waits_count_down_on_progressing_screens() {
    let w = tick_wait(HostScreen::InGame, WaitingFor::Time { remaining_ms: 1_000 }, 400);
    assert_eq!(w, WaitingFor::Time { remaining_ms: 600 });
    assert_eq!(tick_wait(HostScreen::InGame, w, 600), WaitingFor::Nothing);
    assert_eq!(tick_wait(HostScreen::InGame, WaitingFor::Click, 5_000), WaitingFor::Click);
    assert_eq!(
        tick_wait(HostScreen::History, WaitingFor::Time { remaining_ms: 10 }, 20),
        WaitingFor::Time { remaining_ms: 10 }
    );
}

#[test]
fn transient_waits_need_the_snapshot() {
    assert!(waiting_requires_snapshot_fallback(&WaitingFor::Choice));
    assert!(waiting_requires_snapshot_fallback(&WaitingFor::Cutscene));
    assert!(waiting_requires_snapshot_fallback(&WaitingFor::Signal(SignalKind::TitleCard)));
    assert!(waiting_requires_snapshot_fallback(&WaitingFor::UIResult { key: "k".to_string() }));
    assert!(!waiting_requires_snapshot_fallback(&WaitingFor::Click));
    assert!(!waiting_requires_snapshot_fallback(&WaitingFor::Nothing));
    assert!(!waiting_requires_snapshot_fallback(&WaitingFor::Time { remaining_ms: 3 }));
}

#[test]
fn actions_plan_their_effects() {
    assert_eq!(plan_action(&ActionDef::QuickSave, PlaybackMode::Normal), ActionEffect::SaveToSlot(QUICK_SAVE_SLOT));
    assert_eq!(plan_action(&ActionDef::QuickLoad, PlaybackMode::Normal), ActionEffect::LoadSlot(55));
    assert_eq!(
        plan_action(&ActionDef::ToggleAuto, PlaybackMode::Normal),
        ActionEffect::SetPlaybackMode(PlaybackMode::Auto)
    );
    assert_eq!(
        plan_action(&ActionDef::ToggleAuto, PlaybackMode::Auto),
        ActionEffect::SetPlaybackMode(PlaybackMode::Normal)
    );
    assert_eq!(
        plan_action(&ActionDef::ToggleSkip, PlaybackMode::Auto),
        ActionEffect::SetPlaybackMode(PlaybackMode::Skip)
    );
    assert_eq!(
        plan_action(&ActionDef::StartAtLabel("ch2".to_string()), PlaybackMode::Normal),
        ActionEffect::StartGame { label: Some("ch2".to_string()) }
    );
    assert_eq!(plan_action(&ActionDef::OpenSave, PlaybackMode::Skip), ActionEffect::ShowScreen(HostScreen::Save));
    assert_eq!(plan_action(&ActionDef::GoBack, PlaybackMode::Skip), ActionEffect::ShowScreen(HostScreen::InGame));
    assert_eq!(
        plan_action(&ActionDef::ReturnToTitle, PlaybackMode::Normal),
        ActionEffect::ReturnToTitle { save_continue: true }
    );
    assert_eq!(plan_action(&ActionDef::Exit, PlaybackMode::Normal), ActionEffect::Exit);
}

#[test]
fn snapshot_stack_drops_oldest_when_full() {
    let mut s: SnapshotStack<u32> = SnapshotStack::new(2);
    assert_eq!(s.len(), 0);
    assert_eq!(s.last(), None);
    s.push(1);
    s.push(2);
    s.push(3);
    assert_eq!(s.len(), 2);
    assert_eq!(s.last(), Some(&3));
    assert_eq!(s.pop(), Some(3));
    assert_eq!(s.pop(), Some(2));
    assert_eq!(s.pop(), None);
    s.push(7);
    s.clear();
    assert_eq!(s.len(), 0);
}

#[test]
fn snapshot_push_then_pop_gives_it_back() {
    let mut s: SnapshotStack<&str> = SnapshotStack::new(3);
    s.push("a");
    s.push("b");
    assert_eq!(s.pop(), Some("b"));
    assert_eq!(s.last(), Some(&"a"));
}

#[test]
fn clicks_reveal_then_resume_then_release() {
    let mut display = TextDisplay::new();
    display.start_typewriter(None, "abc".to_string(), vec![InlineEffect { position: 1, kind: InlineEffectKind::Wait(None) }], false);
    assert_eq!(process_click(&mut display, HostScreen::Save, &WaitingFor::Click), ClickAction::Ignored);
    assert!(!display.is_dialogue_complete());

    display.advance_typewriter();
    assert!(display.is_inline_click_wait());
    assert_eq!(
        process_click(&mut display, HostScreen::InGame, &WaitingFor::Click),
        ClickAction::LineCompleted { release_click_wait: false }
    );
    assert!(display.is_dialogue_complete());
    assert!(!display.has_inline_wait());
    assert_eq!(process_click(&mut display, HostScreen::InGame, &WaitingFor::Click), ClickAction::SnapshotAndRelease);
    assert_eq!(process_click(&mut display, HostScreen::InGame, &WaitingFor::Nothing), ClickAction::NoEffect);

    let mut quick = TextDisplay::new();
    quick.start_typewriter(None, "x".to_string(), vec![], true);
    assert_eq!(
        process_click(&mut quick, HostScreen::InGame, &WaitingFor::Click),
        ClickAction::LineCompleted { release_click_wait: true }
    );
}

#[test]
fn signal_waits_end_when_their_effect_is_over() {
    let facts = SignalFacts { transition_done: true, title_card_gone: false, scene_effect_active: true, cutscene_gone: true };
    assert!(signal_resolves(&WaitingFor::Signal(SignalKind::SceneTransition), facts));
    assert!(!signal_resolves(&WaitingFor::Signal(SignalKind::TitleCard), facts));
    assert!(!signal_resolves(&WaitingFor::Signal(SignalKind::SceneEffect), facts));
    assert!(signal_resolves(&WaitingFor::Signal(SignalKind::Cutscene), facts));
    assert!(!signal_resolves(&WaitingFor::Click, facts));
}

#[test]
fn skip_mode_cuts_waits_short() {
    let mut display = TextDisplay::new();
    display.start_typewriter(None, "hello".to_string(), vec![], false);
    assert_eq!(skip_step(&mut display, PlaybackMode::Normal, &WaitingFor::Click), SkipAction::Nothing);
    assert!(!display.is_dialogue_complete());
    assert!(!auto_timer_runs(&display, PlaybackMode::Auto, &WaitingFor::Click));
    assert_eq!(skip_step(&mut display, PlaybackMode::Skip, &WaitingFor::Click), SkipAction::ReleaseClick);
    assert!(display.is_dialogue_complete());
    assert!(auto_timer_runs(&display, PlaybackMode::Auto, &WaitingFor::Click));
    assert!(!auto_timer_runs(&display, PlaybackMode::Skip, &WaitingFor::Click));
    assert_eq!(
        skip_step(&mut display, PlaybackMode::Skip, &WaitingFor::Time { remaining_ms: 9 }),
        SkipAction::EndTimedWait
    );
    assert_eq!(
        skip_step(&mut display, PlaybackMode::Skip, &WaitingFor::Signal(SignalKind::Cutscene)),
        SkipAction::CompleteSignal(SignalKind::Cutscene)
    );
    assert_eq!(skip_step(&mut display, PlaybackMode::Skip, &WaitingFor::Cutscene), SkipAction::FinishCutscene);
    assert_eq!(skip_step(&mut display, PlaybackMode::Skip, &WaitingFor::Choice), SkipAction::Nothing);
}

#[test]
fn ui_results_must_match_the_wait() {
    let w = WaitingFor::UIResult { key: "map".to_string() };
    assert_eq!(ui_result_accepted(&w, "map"), Ok(()));
    assert_eq!(
        ui_result_accepted(&w, "menu"),
        Err("UIResult key 不匹配：期望 'map'，收到 'menu'".to_string())
    );
    assert_eq!(ui_result_accepted(&WaitingFor::Click, "map"), Err("当前未在等待 UI 结果".to_string()));
}

#[test]
fn restored_and_finished_waits() {
    assert_eq!(restored_wait(WaitingFor::UIResult { key: "k".to_string() }), WaitingFor::Click);
    assert_eq!(restored_wait(WaitingFor::Choice), WaitingFor::Click);
    assert_eq!(restored_wait(WaitingFor::Time { remaining_ms: 4 }), WaitingFor::Time { remaining_ms: 4 });
    assert_eq!(wait_after_cutscene(WaitingFor::Cutscene), WaitingFor::Nothing);
    assert_eq!(wait_after_cutscene(WaitingFor::Click), WaitingFor::Click);
}

#[test]
fn saves_use_the_snapshot_while_waiting_for_choice_or_ui() {
    assert_eq!(save_source(&WaitingFor::Choice, true, true), Ok(SaveSource::Snapshot));
    assert_eq!(save_source(&WaitingFor::UIResult { key: "m".to_string() }, true, true), Ok(SaveSource::Snapshot));
    assert_eq!(
        save_source(&WaitingFor::UIResult { key: "m".to_string() }, false, true),
        Err("当前处于 UIResult { key: \"m\" } 中间态，且没有可回退快照，无法安全保存".to_string())
    );
    assert_eq!(save_source(&WaitingFor::Click, false, true), Ok(SaveSource::Live));
    assert_eq!(save_source(&WaitingFor::Nothing, true, false), Err("游戏未启动".to_string()));
}
