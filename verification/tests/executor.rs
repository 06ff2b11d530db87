use ring_host::persistent::VarValue;
use ring_host::command_exec::{
    AudioCommand, CommandExecutor, EffectArg, EffectArgValue, HostCommand, RenderState,
    SceneEffectKind, SceneEffectRequest, SceneTransitionKind, StagePosition, TextMode,
    TransitionKind, TransitionSpec, resolve_transition,
};
use ring_host::render::{ChoiceItem, ExecuteResult, SceneTransitionPhaseState};
use ring_host::typewriter::{InlineEffect, InlineEffectKind};

fn bits(x: f32) -> u32 {
    x.to_bits()
}

fn transition(name: &str) -> Option<TransitionSpec> {
    Some(TransitionSpec { name: name.to_string(), duration_bits: None, mask: None, reversed: None })
}

fn timed(name: &str, seconds: f32) -> Option<TransitionSpec> {
    Some(TransitionSpec {
        name: name.to_string(),
        duration_bits: Some(bits(seconds)),
        mask: None,
        reversed: None,
    })
}

fn show(alias: &str, path: &str, position: StagePosition, t: Option<TransitionSpec>) -> HostCommand {
    HostCommand::ShowCharacter {
        path: path.to_string(),
        alias: alias.to_string(),
        position,
        transition: t,
    }
}

fn sprite<'a>(rs: &'a RenderState, alias: &str) -> Option<&'a ring_host::command_exec::CharacterSprite> {
    rs.visible_characters.iter().find(|(k, _)| k == alias).map(|(_, c)| c)
}

#[test]
fn default_durations_match_their_f32_values() {
    let (k, d) = resolve_transition(&transition("dissolve").unwrap());
    assert_eq!(k, TransitionKind::Dissolve);
    assert_eq!(d, bits(0.3));
    let (k, d) = resolve_transition(&transition("Fade").unwrap());
    assert_eq!(k, TransitionKind::Fade);
    assert_eq!(d, bits(0.5));
    let (k, d) = resolve_transition(&transition("SLIDE").unwrap());
    assert_eq!(k, TransitionKind::Move);
    assert_eq!(d, bits(0.3));
    let (k, d) = resolve_transition(&timed("none", 2.0).unwrap());
    assert_eq!(k, TransitionKind::Instant);
    assert_eq!(d, bits(0.0));
    let (k, d) = resolve_transition(&timed("sparkle", 1.5).unwrap());
    assert_eq!(k, TransitionKind::Dissolve);
    assert_eq!(d, bits(1.5));
}

#[test]
fn show_background_without_transition_just_swaps() {
    let mut ex = CommandExecutor::new();
    let mut rs = RenderState::new();
    let r = ex.execute(
        HostCommand::ShowBackground { path: "bg/a.png".to_string(), transition: None },
        &mut rs,
    );
    assert_eq!(r, ExecuteResult::Continue);
    assert_eq!(rs.current_background.as_deref(), Some("bg/a.png"));
    assert!(rs.background_transition.is_none());
}

#[test]
fn show_background_with_dissolve_crossfades_from_old() {
    let mut ex = CommandExecutor::new();
    let mut rs = RenderState::new();
    rs.set_background("bg/old.png".to_string());
    ex.execute(
        HostCommand::ShowBackground { path: "bg/new.png".to_string(), transition: transition("dissolve") },
        &mut rs,
    );
    let bt = rs.background_transition.as_ref().unwrap();
    assert_eq!(bt.old_background.as_deref(), Some("bg/old.png"));
    assert_eq!(bt.new_background, "bg/new.png");
    assert_eq!(bt.duration_bits, bits(0.3));
    assert_eq!(rs.current_background.as_deref(), Some("bg/new.png"));
}

#[test]
fn change_scene_with_fade_leaves_background_pending() {
    let mut ex = CommandExecutor::new();
    let mut rs = RenderState::new();
    rs.set_background("bg/old.png".to_string());
    ex.execute(
        HostCommand::ChangeScene { path: "bg/next.png".to_string(), transition: timed("fade", 1.0) },
        &mut rs,
    );
    assert_eq!(rs.current_background.as_deref(), Some("bg/old.png"));
    let st = rs.scene_transition.as_ref().unwrap();
    assert!(matches!(st.transition_type, SceneTransitionKind::Fade));
    assert_eq!(st.phase, SceneTransitionPhaseState::FadeIn);
    assert_eq!(st.duration_bits, bits(1.0));
    assert_eq!(st.pending_background.as_deref(), Some("bg/next.png"));
}

#[test]
fn change_scene_with_rule_takes_mask_and_direction() {
    let mut ex = CommandExecutor::new();
    let mut rs = RenderState::new();
    let t = TransitionSpec {
        name: "rule".to_string(),
        duration_bits: None,
        mask: Some("masks/wipe.png".to_string()),
        reversed: Some(true),
    };
    ex.execute(HostCommand::ChangeScene { path: "bg/x.png".to_string(), transition: Some(t) }, &mut rs);
    let st = rs.scene_transition.as_ref().unwrap();
    match &st.transition_type {
        SceneTransitionKind::Rule { mask_path, reversed } => {
            assert_eq!(mask_path, "masks/wipe.png");
            assert!(*reversed);
        }
        _ => panic!("expected a rule transition"),
    }
    assert_eq!(st.duration_bits, bits(0.5));

    let mut rs2 = RenderState::new();
    ex.execute(
        HostCommand::ChangeScene { path: "bg/x.png".to_string(), transition: transition("rule") },
        &mut rs2,
    );
    match &rs2.scene_transition.as_ref().unwrap().transition_type {
        SceneTransitionKind::Rule { mask_path, reversed } => {
            assert_eq!(mask_path, "");
            assert!(!*reversed);
        }
        _ => panic!("expected a rule transition"),
    }
}

#[test]
fn change_scene_with_dissolve_crossfades_immediately() {
    let mut ex = CommandExecutor::new();
    let mut rs = RenderState::new();
    ex.execute(
        HostCommand::ChangeScene { path: "bg/y.png".to_string(), transition: transition("move") },
        &mut rs,
    );
    assert_eq!(rs.current_background.as_deref(), Some("bg/y.png"));
    assert!(rs.background_transition.is_some());
    assert!(rs.scene_transition.is_none());
}

#[test]
fn new_character_fades_in_unless_transition_is_none() {
    let mut ex = CommandExecutor::new();
    let mut rs = RenderState::new();
    ex.execute(show("alice", "a.png", StagePosition::Left, transition("dissolve")), &mut rs);
    let c = sprite(&rs, "alice").unwrap();
    assert_eq!(c.alpha_bits, bits(0.0));
    assert_eq!(c.target_alpha_bits, bits(1.0));
    assert_eq!(c.transition_duration_bits, Some(bits(0.3)));

    ex.execute(show("bob", "b.png", StagePosition::Right, None), &mut rs);
    let c = sprite(&rs, "bob").unwrap();
    assert_eq!(c.alpha_bits, bits(1.0));
    assert_eq!(c.transition_duration_bits, None);
    assert_eq!(rs.visible_characters.len(), 2);
}

#[test]
fn moving_character_with_move_slides_and_keeps_alpha() {
    let mut ex = CommandExecutor::new();
    let mut rs = RenderState::new();
    ex.execute(show("alice", "a.png", StagePosition::Left, transition("dissolve")), &mut rs);
    ex.execute(show("alice", "a.png", StagePosition::Right, timed("move", 0.8)), &mut rs);
    let c = sprite(&rs, "alice").unwrap();
    assert_eq!(c.position, StagePosition::Right);
    assert_eq!(c.alpha_bits, bits(0.0));
    assert_eq!(c.transition_duration_bits, Some(bits(0.8)));
    assert_eq!(rs.visible_characters.len(), 1);
}

#[test]
fn moving_character_with_same_image_snaps_shown() {
    let mut ex = CommandExecutor::new();
    let mut rs = RenderState::new();
    ex.execute(show("alice", "a.png", StagePosition::Left, transition("dissolve")), &mut rs);
    ex.execute(show("alice", "a.png", StagePosition::Center, transition("dissolve")), &mut rs);
    let c = sprite(&rs, "alice").unwrap();
    assert_eq!(c.alpha_bits, bits(1.0));
    assert_eq!(c.transition_duration_bits, None);
}

#[test]
fn new_image_in_place_crossfades() {
    let mut ex = CommandExecutor::new();
    let mut rs = RenderState::new();
    ex.execute(show("alice", "a.png", StagePosition::Left, None), &mut rs);
    ex.execute(show("alice", "a_smile.png", StagePosition::Left, timed("dissolve", 0.2)), &mut rs);
    let c = sprite(&rs, "alice").unwrap();
    assert_eq!(c.texture_path, "a_smile.png");
    assert_eq!(c.alpha_bits, bits(1.0));
    assert_eq!(c.transition_duration_bits, Some(bits(0.2)));
}

#[test]
fn hiding_with_transition_fades_out_without_removes() {
    let mut ex = CommandExecutor::new();
    let mut rs = RenderState::new();
    ex.execute(show("alice", "a.png", StagePosition::Left, None), &mut rs);
    ex.execute(show("bob", "b.png", StagePosition::Right, None), &mut rs);
    ex.execute(HostCommand::HideCharacter { alias: "alice".to_string(), transition: transition("fade") }, &mut rs);
    let c = sprite(&rs, "alice").unwrap();
    assert!(c.fading_out);
    assert_eq!(c.target_alpha_bits, bits(0.0));
    assert_eq!(c.transition_duration_bits, Some(bits(0.5)));
    ex.execute(HostCommand::HideCharacter { alias: "bob".to_string(), transition: None }, &mut rs);
    assert!(sprite(&rs, "bob").is_none());
    assert_eq!(rs.visible_characters.len(), 1);
    ex.execute(HostCommand::HideCharacter { alias: "nobody".to_string(), transition: None }, &mut rs);
    assert_eq!(rs.visible_characters.len(), 1);
    ex.execute(HostCommand::ClearCharacters, &mut rs);
    assert!(rs.visible_characters.is_empty());
}

#[test]
fn show_text_waits_for_click_and_fills_the_nvl_page() {
    let mut ex = CommandExecutor::new();
    let mut rs = RenderState::new();
    let r = ex.execute(
        HostCommand::ShowText {
            speaker: Some("Alice".to_string()),
            content: "Hello".to_string(),
            inline_effects: vec![],
            no_wait: false,
        },
        &mut rs,
    );
    assert_eq!(r, ExecuteResult::WaitForClick);
    assert_eq!(rs.text.dialogue.as_ref().unwrap().content, "Hello");
    assert!(rs.text.nvl_entries.is_empty());

    ex.execute(HostCommand::SetTextMode(TextMode::NVL), &mut rs);
    ex.execute(
        HostCommand::ShowText { speaker: None, content: "Page".to_string(), inline_effects: vec![], no_wait: true },
        &mut rs,
    );
    assert_eq!(rs.text.nvl_entries.len(), 1);
    assert_eq!(rs.text.nvl_entries[0].content, "Page");
    assert_eq!(rs.text.nvl_entries[0].visible_chars, 0);

    ex.execute(HostCommand::SetTextMode(TextMode::ADV), &mut rs);
    assert!(rs.text.nvl_entries.is_empty());
    assert_eq!(rs.text_mode, TextMode::ADV);
}

#[test]
fn extend_text_appends_to_the_line_only() {
    let mut ex = CommandExecutor::new();
    let mut rs = RenderState::new();
    ex.execute(HostCommand::SetTextMode(TextMode::NVL), &mut rs);
    ex.execute(
        HostCommand::ShowText { speaker: None, content: "Hi".to_string(), inline_effects: vec![], no_wait: false },
        &mut rs,
    );
    let r = ex.execute(
        HostCommand::ExtendText {
            content: " there".to_string(),
            inline_effects: vec![InlineEffect { position: 1, kind: InlineEffectKind::ResetCps }],
            no_wait: true,
        },
        &mut rs,
    );
    assert_eq!(r, ExecuteResult::WaitForClick);
    let d = rs.text.dialogue.as_ref().unwrap();
    assert_eq!(d.content, "Hi there");
    assert_eq!(d.inline_effects[0].position, 3);
    assert!(d.no_wait);
    assert_eq!(rs.text.nvl_entries[0].content, "Hi");
}

#[test]
fn choices_clear_the_line_and_wait_for_a_choice() {
    let mut ex = CommandExecutor::new();
    let mut rs = RenderState::new();
    ex.execute(
        HostCommand::ShowText { speaker: None, content: "Pick".to_string(), inline_effects: vec![], no_wait: false },
        &mut rs,
    );
    let choices = vec![
        ChoiceItem { text: "Left".to_string(), target_label: "l".to_string() },
        ChoiceItem { text: "Right".to_string(), target_label: "r".to_string() },
    ];
    let r = ex.execute(HostCommand::PresentChoices { choices, style: None }, &mut rs);
    assert_eq!(r, ExecuteResult::WaitForChoice { choice_count: 2 });
    assert!(rs.text.dialogue.is_none());
    let c = rs.choices.as_ref().unwrap();
    assert_eq!(c.selected_index, 0);
    assert_eq!(c.hovered_index, None);
    assert_eq!(c.choices[1].target_label, "r");
}

#[test]
fn stage_commands_set_marks_cards_and_text_box() {
    let mut ex = CommandExecutor::new();
    let mut rs = RenderState::new();
    ex.execute(HostCommand::ChapterMark { title: "Chapter 1".to_string(), level: 2 }, &mut rs);
    let cm = rs.chapter_mark.as_ref().unwrap();
    assert_eq!(cm.title, "Chapter 1");
    assert_eq!(cm.level, 2);
    assert_eq!(cm.alpha_bits, bits(0.0));
    ex.execute(HostCommand::TitleCard { text: "Day 1".to_string(), duration_bits: bits(2.0) }, &mut rs);
    let tc = rs.title_card.as_ref().unwrap();
    assert_eq!(tc.duration_bits, bits(2.0));
    assert_eq!(tc.elapsed_bits, bits(0.0));
    ex.execute(HostCommand::TextBoxHide, &mut rs);
    assert!(!rs.ui_visible);
    ex.execute(HostCommand::TextBoxShow, &mut rs);
    assert!(rs.ui_visible);
}

#[test]
fn waiting_results_name_what_the_host_waits_for() {
    let mut ex = CommandExecutor::new();
    let mut rs = RenderState::new();
    assert_eq!(
        ex.execute(HostCommand::Cutscene { path: "op.webm".to_string() }, &mut rs),
        ExecuteResult::WaitForCutscene { video_path: "op.webm".to_string() }
    );
    assert_eq!(ex.execute(HostCommand::FullRestart, &mut rs), ExecuteResult::FullRestart);
    assert_eq!(
        ex.execute(
            HostCommand::RequestUI {
                key: "k".to_string(),
                mode: "map".to_string(),
                params: vec![("title".to_string(), VarValue::String("Town".to_string()))],
            },
            &mut rs
        ),
        ExecuteResult::RequestUI {
            key: "k".to_string(),
            mode: "map".to_string(),
            params: vec![("title".to_string(), VarValue::String("Town".to_string()))],
        }
    );
}

#[test]
fn audio_commands_are_handed_out_once() {
    let mut ex = CommandExecutor::new();
    let mut rs = RenderState::new();
    ex.execute(HostCommand::PlayBgm { path: "bgm/a.ogg".to_string(), looping: true }, &mut rs);
    match &ex.last_output.audio_command {
        Some(AudioCommand::PlayBgm { path, looping, fade_in_bits }) => {
            assert_eq!(path, "bgm/a.ogg");
            assert!(*looping);
            assert_eq!(*fade_in_bits, None);
        }
        _ => panic!("expected PlayBgm"),
    }
    ex.execute(HostCommand::TextBoxHide, &mut rs);
    assert!(ex.last_output.audio_command.is_none());
    ex.execute(HostCommand::StopBgm { fade_out_bits: Some(bits(1.5)) }, &mut rs);
    assert!(matches!(ex.last_output.audio_command, Some(AudioCommand::StopBgm { fade_out_bits: Some(b) }) if b == bits(1.5)));
}

fn arg(key: Option<&str>, value: EffectArgValue) -> EffectArg {
    EffectArg { key: key.map(|k| k.to_string()), value }
}

#[test]
fn scene_effects_follow_the_words_of_their_name() {
    let e = SceneEffectRequest::from_command("shakeVertical", &vec![]);
    assert_eq!(e.kind, SceneEffectKind::Shake { amplitude_x_bits: bits(0.0), amplitude_y_bits: bits(8.0) });
    assert_eq!(e.duration_bits, bits(0.3));
    let e = SceneEffectRequest::from_command("shakeBounce", &vec![arg(None, EffectArgValue::Number(bits(0.7)))]);
    assert_eq!(e.kind, SceneEffectKind::Shake { amplitude_x_bits: bits(0.0), amplitude_y_bits: bits(5.0) });
    assert_eq!(e.duration_bits, bits(0.7));
    let e = SceneEffectRequest::from_command("shake", &vec![]);
    assert_eq!(e.kind, SceneEffectKind::Shake { amplitude_x_bits: bits(6.0), amplitude_y_bits: bits(4.0) });
    let e = SceneEffectRequest::from_command(
        "BlurOut",
        &vec![arg(Some("level"), EffectArgValue::Number(bits(9.0))), arg(Some("duration"), EffectArgValue::Number(bits(1.0)))],
    );
    assert_eq!(e.kind, SceneEffectKind::BlurOut);
    assert_eq!(e.duration_bits, bits(1.0));
    let e = SceneEffectRequest::from_command("blur", &vec![arg(Some("duration"), EffectArgValue::Other)]);
    assert_eq!(e.kind, SceneEffectKind::Blur);
    assert_eq!(e.duration_bits, bits(0.5));
    let e = SceneEffectRequest::from_command("dim", &vec![arg(Some("level"), EffectArgValue::Number(bits(3.0)))]);
    assert_eq!(e.kind, SceneEffectKind::Dim { level_bits: bits(3.0) });
    assert_eq!(e.duration_bits, bits(0.0));
    let e = SceneEffectRequest::from_command("dim", &vec![]);
    assert_eq!(e.kind, SceneEffectKind::Dim { level_bits: bits(1.0) });
    let e = SceneEffectRequest::from_command("dimReset", &vec![]);
    assert_eq!(e.kind, SceneEffectKind::DimReset);
}

#[test]
fn batch_collects_audio_keeps_last_effect_and_last_wait() {
    let mut ex = CommandExecutor::new();
    let mut rs = RenderState::new();
    let cmds = vec![
        HostCommand::PlayBgm { path: "bgm/a.ogg".to_string(), looping: true },
        HostCommand::SceneEffect { name: "shake".to_string(), args: vec![] },
        HostCommand::ShowText { speaker: None, content: "One".to_string(), inline_effects: vec![], no_wait: false },
        HostCommand::PlaySfx { path: "sfx/door.ogg".to_string() },
        HostCommand::SceneEffect { name: "blur".to_string(), args: vec![] },
        HostCommand::ShowBackground { path: "bg/z.png".to_string(), transition: None },
    ];
    let out = ex.execute_batch(cmds, &mut rs);
    assert_eq!(out.result, ExecuteResult::WaitForClick);
    assert_eq!(out.audio_commands.len(), 2);
    assert!(matches!(&out.audio_commands[0], AudioCommand::PlayBgm { path, .. } if path == "bgm/a.ogg"));
    assert!(matches!(&out.audio_commands[1], AudioCommand::PlaySfx { path } if path == "sfx/door.ogg"));
    assert_eq!(out.scene_effect_request.unwrap().kind, SceneEffectKind::Blur);
    assert_eq!(rs.current_background.as_deref(), Some("bg/z.png"));

    let empty = ex.execute_batch(vec![], &mut rs);
    assert_eq!(empty.result, ExecuteResult::Continue);
    assert!(empty.audio_commands.is_empty());
    assert!(empty.scene_effect_request.is_none());
}

#[test]
fn hiding_a_just_placed_character_restores_the_stage() {
    let mut ex = CommandExecutor::new();
    let mut rs = RenderState::new();
    ex.execute(show("bob", "b.png", StagePosition::Right, None), &mut rs);
    let before: Vec<String> = rs.visible_characters.iter().map(|(k, c)| format!("{k}:{}", c.texture_path)).collect();
    ex.execute(show("alice", "a.png", StagePosition::Left, transition("dissolve")), &mut rs);
    ex.execute(HostCommand::HideCharacter { alias: "alice".to_string(), transition: None }, &mut rs);
    let after: Vec<String> = rs.visible_characters.iter().map(|(k, c)| format!("{k}:{}", c.texture_path)).collect();
    assert_eq!(before, after);
}

#[test]
fn a_batch_of_one_command_matches_a_single_execution() {
    let mut ex1 = CommandExecutor::new();
    let mut rs1 = RenderState::new();
    let r1 = ex1.execute(
        HostCommand::ChangeScene { path: "bg/q.png".to_string(), transition: transition("fadewhite") },
        &mut rs1,
    );
    let mut ex2 = CommandExecutor::new();
    let mut rs2 = RenderState::new();
    let out = ex2.execute_batch(
        vec![HostCommand::ChangeScene { path: "bg/q.png".to_string(), transition: transition("fadewhite") }],
        &mut rs2,
    );
    assert_eq!(r1, out.result);
    let a = rs1.scene_transition.as_ref().unwrap();
    let b = rs2.scene_transition.as_ref().unwrap();
    assert!(matches!(a.transition_type, SceneTransitionKind::FadeWhite));
    assert!(matches!(b.transition_type, SceneTransitionKind::FadeWhite));
    assert_eq!(a.duration_bits, b.duration_bits);
    assert_eq!(a.pending_background, b.pending_background);
    assert_eq!(rs1.current_background, rs2.current_background);
}
