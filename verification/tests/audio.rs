use ring_host::audio_state::{BgmTracker, CROSSFADE_DURATION_BITS, FADE_IN_DURATION_BITS};

fn new_manager() -> BgmTracker {
    BgmTracker::new()
}

fn same_path_no_transition() {
    let mut am = new_manager();
    am.play_bgm("bgm/track1.ogg", true);
    am.drain();
    am.play_bgm("bgm/track1.ogg", true);
    let state = am.drain();
    assert!(state.transition_bits.is_none());
}

fn first_time_uses_fade_in() {
    let mut am = new_manager();
    am.play_bgm("bgm/track1.ogg", true);
    let state = am.drain();
    let t = state.transition_bits.expect("should have transition");
    assert_eq!(f32::from_bits(t), 0.5);
    assert_eq!(t, FADE_IN_DURATION_BITS);
}

fn switch_uses_crossfade() {
    let mut am = new_manager();
    am.play_bgm("bgm/track1.ogg", true);
    am.drain();
    am.play_bgm("bgm/track2.ogg", true);
    let state = am.drain();
    let t = state.transition_bits.expect("should have transition");
    assert_eq!(f32::from_bits(t), 1.0);
    assert_eq!(t, CROSSFADE_DURATION_BITS);
}

fn stop_with_fade_out() {
    let mut am = new_manager();
    am.play_bgm("bgm/track1.ogg", true);
    am.drain();
    am.stop_bgm(Some(2.0f32.to_bits()));
    let state = am.drain();
    assert_eq!(f32::from_bits(state.transition_bits.unwrap()), 2.0);
    assert!(state.bgm.is_none());
}

fn sfx_enqueue_and_drain() {
    let mut am = new_manager();
    am.play_sfx("sfx/click.ogg", 1.0f32.to_bits());
    let state = am.drain();
    assert_eq!(state.sfx_queue.len(), 1);
    assert_eq!(state.sfx_queue[0].path, "sfx/click.ogg");
    let state2 = am.drain();
    assert!(state2.sfx_queue.is_empty());
}

fn drain_consumes_transition() {
    let mut am = new_manager();
    am.play_bgm("bgm/track1.ogg", true);
    let first = am.drain();
    assert!(first.transition_bits.is_some());
    let second = am.drain();
    assert!(second.transition_bits.is_none());
}

#[test]
fn audio_play_bgm_same_path_no_transition() {
    same_path_no_transition();
}

#[test]
fn play_bgm_same_path_no_transition() {
    same_path_no_transition();
}

#[test]
fn audio_play_bgm_first_time_uses_fade_in() {
    first_time_uses_fade_in();
}

#[test]
fn play_bgm_first_time_uses_fade_in() {
    first_time_uses_fade_in();
}

#[test]
fn audio_play_bgm_switch_uses_crossfade() {
    switch_uses_crossfade();
}

#[test]
fn play_bgm_switch_uses_crossfade() {
    switch_uses_crossfade();
}

#[test]
fn audio_stop_bgm_with_fade_out() {
    stop_with_fade_out();
}

#[test]
fn stop_bgm_with_fade_out() {
    stop_with_fade_out();
}

#[test]
fn stop_bgm_no_bgm_does_not_panic() {
    let mut am = new_manager();
    am.stop_bgm(Some(1.0f32.to_bits()));
    let state = am.drain();
    assert!(state.bgm.is_none());
    assert!(state.transition_bits.is_none());
}

#[test]
fn audio_play_sfx_enqueue_and_drain() {
    sfx_enqueue_and_drain();
}

#[test]
fn play_sfx_enqueue_and_drain() {
    sfx_enqueue_and_drain();
}

#[test]
fn audio_drain_consumes_pending_transition() {
    drain_consumes_transition();
}

#[test]
fn drain_consumes_pending_transition() {
    drain_consumes_transition();
}

#[test]
fn music_paths_are_normalised() {
    let mut am = new_manager();
    am.play_bgm("assets/bgm/a.ogg", false);
    assert_eq!(am.current_bgm_path(), Some("bgm/a.ogg"));
    am.play_bgm("./bgm/a.ogg", true);
    let state = am.drain();
    assert_eq!(state.bgm, Some(("bgm/a.ogg".to_string(), true)));
    assert_eq!(state.transition_bits, Some(FADE_IN_DURATION_BITS));
    am.stop_bgm(None);
    assert_eq!(am.current_bgm_path(), None);
    assert!(am.drain().transition_bits.is_none());
}
