use ring_host::render::NvlEntry;
use ring_host::typewriter::{EffectiveCps, InlineEffect, InlineEffectKind, InlineWait, TextDisplay};

fn make_typewriter(content: &str) -> TextDisplay {
    let mut rs = TextDisplay::new();
    rs.start_typewriter(None, content.to_string(), vec![], false);
    rs
}

fn with_effects(content: &str, effects: Vec<InlineEffect>) -> TextDisplay {
    let mut rs = TextDisplay::new();
    rs.start_typewriter(None, content.to_string(), effects, false);
    rs
}

#[test]
fn advance_typewriter_increments_visible_chars() {
    let mut rs = make_typewriter("Hello");
    let complete = rs.advance_typewriter();
    assert!(!complete);
    assert_eq!(rs.dialogue.as_ref().unwrap().visible_chars, 1);
}

#[test]
fn advance_typewriter_returns_true_when_all_chars_visible() {
    let mut rs = make_typewriter("Hi");
    rs.advance_typewriter();
    let complete = rs.advance_typewriter();
    assert!(complete);
    assert!(rs.dialogue.as_ref().unwrap().is_complete);
}

#[test]
fn advance_typewriter_fires_click_wait_at_position() {
    let effects = vec![InlineEffect { position: 2, kind: InlineEffectKind::Wait(None) }];
    let mut rs = with_effects("AB", effects);
    rs.advance_typewriter();
    assert!(!rs.is_inline_click_wait());
    rs.advance_typewriter();
    assert!(rs.is_inline_click_wait());
}

#[test]
fn advance_typewriter_fires_timed_wait_at_position() {
    let effects = vec![InlineEffect { position: 1, kind: InlineEffectKind::Wait(Some(1.5f64.to_bits())) }];
    let mut rs = with_effects("A", effects);
    rs.advance_typewriter();
    let d = rs.dialogue.as_ref().unwrap();
    assert!(matches!(d.inline_wait, Some(InlineWait::Timed { remaining_bits }) if f64::from_bits(remaining_bits) > 0.0));
}

#[test]
fn advance_typewriter_fires_set_cps_absolute() {
    let effects = vec![InlineEffect { position: 1, kind: InlineEffectKind::SetCpsAbsolute(20.0f64.to_bits()) }];
    let mut rs = with_effects("A", effects);
    rs.advance_typewriter();
    assert!(matches!(rs.dialogue.as_ref().unwrap().effective_cps,
        Some(EffectiveCps::Absolute(v)) if (f64::from_bits(v) - 20.0).abs() < f64::EPSILON));
}

#[test]
fn advance_typewriter_fires_set_cps_relative() {
    let effects = vec![InlineEffect { position: 1, kind: InlineEffectKind::SetCpsRelative(0.5f64.to_bits()) }];
    let mut rs = with_effects("A", effects);
    rs.advance_typewriter();
    assert!(matches!(rs.dialogue.as_ref().unwrap().effective_cps,
        Some(EffectiveCps::Relative(v)) if (f64::from_bits(v) - 0.5).abs() < f64::EPSILON));
}

#[test]
fn advance_typewriter_resets_cps() {
    let effects = vec![
        InlineEffect { position: 1, kind: InlineEffectKind::SetCpsAbsolute(10.0f64.to_bits()) },
        InlineEffect { position: 2, kind: InlineEffectKind::ResetCps },
    ];
    let mut rs = with_effects("AB", effects);
    rs.advance_typewriter();
    assert!(rs.dialogue.as_ref().unwrap().effective_cps.is_some());
    rs.advance_typewriter();
    assert!(rs.dialogue.as_ref().unwrap().effective_cps.is_none());
}

#[test]
fn complete_typewriter_skips_to_end_and_clears_wait() {
    let effects = vec![InlineEffect { position: 1, kind: InlineEffectKind::Wait(None) }];
    let mut rs = with_effects("Hello World", effects);
    rs.advance_typewriter();
    assert!(rs.has_inline_wait());
    rs.complete_typewriter();
    let d = rs.dialogue.as_ref().unwrap();
    assert!(d.is_complete);
    assert_eq!(d.visible_chars, "Hello World".chars().count());
    assert!(d.inline_wait.is_none());
    assert!(d.effective_cps.is_none());
}

#[test]
fn extend_dialogue_appends_content_and_shifts_effect_positions() {
    let mut rs = make_typewriter("Hello");
    while !rs.advance_typewriter() {}
    let ext_effects = vec![InlineEffect { position: 1, kind: InlineEffectKind::Wait(None) }];
    rs.extend_dialogue(" World".to_string(), ext_effects, false);
    let d = rs.dialogue.as_ref().unwrap();
    assert_eq!(d.content, "Hello World");
    assert!(!d.is_complete);
    assert_eq!(d.inline_effects[0].position, 6);
}

#[test]
fn reveal_counts_characters_not_bytes() {
    let mut rs = make_typewriter("你好");
    assert!(!rs.advance_typewriter());
    assert!(rs.advance_typewriter());
    assert_eq!(rs.dialogue.as_ref().unwrap().visible_chars, 2);
    assert!(rs.advance_typewriter());
    assert_eq!(rs.dialogue.as_ref().unwrap().visible_chars, 2);
}

#[test]
fn nvl_page_follows_the_line() {
    let mut rs = make_typewriter("abc");
    rs.nvl_entries.push(NvlEntry { speaker: None, content: "abc".to_string(), visible_chars: 0, is_complete: false });
    rs.advance_typewriter();
    assert_eq!(rs.nvl_entries[0].visible_chars, 1);
    rs.complete_typewriter();
    assert_eq!(rs.nvl_entries[0].visible_chars, 3);
    assert!(rs.nvl_entries[0].is_complete);
    rs.extend_dialogue("de".to_string(), vec![], true);
    assert_eq!(rs.nvl_entries[0].content, "abcde");
    assert!(!rs.nvl_entries[0].is_complete);
    assert!(!rs.is_dialogue_complete());
    rs.clear_dialogue();
    assert!(rs.is_dialogue_complete());
    assert!(rs.advance_typewriter());
}
