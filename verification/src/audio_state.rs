//! Which background music plays, which transition the frontend must run
//! next, and the sound effects waiting to be played.
//!
//! Durations and volumes are `f32` values this module only carries, as
//! their bit patterns (`f32::to_bits`); the host computes the volumes.

use vstd::prelude::*;
use crate::resources::{normalize_logical_path, normalized};
use crate::text::{to_chars, chars_equal_str};

verus! {

/// The cross-fade length when one track replaces another: 1.0 s.
pub const CROSSFADE_DURATION_BITS: u32 = 0x3f80_0000;

/// The fade-in length when music starts from silence: 0.5 s.
pub const FADE_IN_DURATION_BITS: u32 = 0x3f00_0000;

/// A sound effect to play, with its volume (as `f32` bits).
#[derive(Debug, Clone, PartialEq)]
pub struct SfxRequest {
    pub path: String,
    pub volume_bits: u32,
}

/// What the frontend gets on each drain: the music (path and looping), the
/// effects queued since the last drain, and the transition to run, if any.
#[derive(Debug, Clone, PartialEq)]
pub struct AudioDrain {
    pub bgm: Option<(String, bool)>,
    pub sfx_queue: Vec<SfxRequest>,
    pub transition_bits: Option<u32>,
}

/// The music and effect state.
#[derive(Debug)]
pub struct BgmTracker {
    current_bgm_path: Option<String>,
    bgm_looping: bool,
    sfx_queue: Vec<SfxRequest>,
    pending_transition: Option<u32>,
}

/// The abstract state: the track, whether it loops, the queued effects and
/// the pending transition.
pub struct TrackerView {
    pub track: Option<Seq<char>>,
    pub looping: bool,
    pub queue: Seq<(Seq<char>, u32)>,
    pub pending: Option<u32>,
}

pub open spec fn sfx_view(q: Seq<SfxRequest>) -> Seq<(Seq<char>, u32)> {
    q.map_values(|r: SfxRequest| (r.path@, r.volume_bits))
}

/// The state after asking for the track at raw path `path`: a different
/// track (after normalisation) starts with a cross-fade, or with a fade-in
/// when nothing played; the same track keeps playing with no transition.
pub open spec fn after_play(s: TrackerView, path: Seq<char>, looping: bool) -> TrackerView {
    let p = normalized(path);
    TrackerView {
        track: Some(p),
        looping,
        queue: s.queue,
        pending: if s.track == Some(p) {
            s.pending
        } else if s.track is Some {
            Some(CROSSFADE_DURATION_BITS)
        } else {
            Some(FADE_IN_DURATION_BITS)
        },
    }
}

/// The state after stopping the music, with an optional fade-out length;
/// with no music it is unchanged.
pub open spec fn after_stop(s: TrackerView, fade_out: Option<u32>) -> TrackerView {
    if s.track is None {
        s
    } else {
        TrackerView {
            track: None,
            looping: s.looping,
            queue: s.queue,
            pending: if fade_out is Some {
                fade_out
            } else {
                s.pending
            },
        }
    }
}

/// The state after a drain: nothing queued and no transition pending.
pub open spec fn after_drain(s: TrackerView) -> TrackerView {
    TrackerView { track: s.track, looping: s.looping, queue: Seq::empty(), pending: None }
}

impl BgmTracker {
    pub closed spec fn view(&self) -> TrackerView {
        TrackerView {
            track: match self.current_bgm_path {
                Some(p) => Some(p@),
                None => None,
            },
            looping: self.bgm_looping,
            queue: sfx_view(self.sfx_queue@),
            pending: self.pending_transition,
        }
    }

    /// Silence, looping by default, nothing queued.
    pub fn new() -> (r: Self)
        ensures
            r.view().track is None,
            r.view().looping,
            r.view().queue.len() == 0,
            r.view().pending is None,
    {
        BgmTracker { current_bgm_path: None, bgm_looping: true, sfx_queue: Vec::new(), pending_transition: None }
    }

    /// The normalised path of the music playing.
    pub fn current_bgm_path(&self) -> (r: Option<&str>)
        ensures
            match self.view().track {
                Some(p) => r matches Some(x) && x@ == p,
                None => r is None,
            },
    {
        match &self.current_bgm_path {
            Some(p) => Some(p.as_str()),
            None => None,
        }
    }

    /// Plays the track at `path` (see [`after_play`]).
    pub fn play_bgm(&mut self, path: &str, looping: bool)
        ensures
            final(self).view() == after_play(old(self).view(), path@, looping),
    {
        let logical = normalize_logical_path(path);
        let is_same = match &self.current_bgm_path {
            Some(p) => chars_equal_str(&to_chars(p.as_str()), logical.as_str()),
            None => false,
        };
        if !is_same {
            let duration = if self.current_bgm_path.is_some() {
                CROSSFADE_DURATION_BITS
            } else {
                FADE_IN_DURATION_BITS
            };
            self.pending_transition = Some(duration);
        }
        self.current_bgm_path = Some(logical);
        self.bgm_looping = looping;
    }

    /// Stops the music (see [`after_stop`]).
    pub fn stop_bgm(&mut self, fade_out: Option<u32>)
        ensures
            final(self).view() == after_stop(old(self).view(), fade_out),
    {
        if self.current_bgm_path.is_none() {
            return;
        }
        if fade_out.is_some() {
            self.pending_transition = fade_out;
        }
        self.current_bgm_path = None;
    }

    /// Queues a sound effect at its normalised path with the given volume.
    pub fn play_sfx(&mut self, path: &str, volume_bits: u32)
        ensures
            final(self).view() == (TrackerView {
                queue: old(self).view().queue.push((normalized(path@), volume_bits)),
                ..old(self).view()
            }),
    {
        let ghost q = self.sfx_queue@;
        let logical = normalize_logical_path(path);
        self.sfx_queue.push(SfxRequest { path: logical, volume_bits });
        assert(sfx_view(self.sfx_queue@) =~= sfx_view(q).push((normalized(path@), volume_bits)));
    }

    /// Hands the frontend the music, the queued effects and the pending
    /// transition, and clears the queue and the transition.
    pub fn drain(&mut self) -> (r: AudioDrain)
        ensures
            final(self).view() == after_drain(old(self).view()),
            match old(self).view().track {
                Some(p) => r.bgm matches Some(b) && b.0@ == p && b.1 == old(self).view().looping,
                None => r.bgm is None,
            },
            sfx_view(r.sfx_queue@) == old(self).view().queue,
            r.transition_bits == old(self).view().pending,
    {
        let bgm = match &self.current_bgm_path {
            Some(p) => Some((p.clone(), self.bgm_looping)),
            None => None,
        };
        let mut queue: Vec<SfxRequest> = Vec::new();
        std::mem::swap(&mut queue, &mut self.sfx_queue);
        let transition_bits = self.pending_transition;
        self.pending_transition = None;
        assert(sfx_view(self.sfx_queue@) =~= Seq::<(Seq<char>, u32)>::empty());
        AudioDrain { bgm, sfx_queue: queue, transition_bits }
    }
}

/// Asking again for the track that plays starts no transition: after a
/// drain, a second request for the same track leaves nothing pending.
pub proof fn lemma_same_track_no_transition(s: TrackerView, path: Seq<char>, looping: bool, again: bool)
    ensures
        after_play(after_drain(after_play(s, path, looping)), path, again).pending is None,
{
}

/// A drain empties the queue and clears the transition, so a second drain
/// in a row hands out nothing new.
pub proof fn lemma_drain_twice(s: TrackerView)
    ensures
        after_drain(after_drain(s)).queue.len() == 0,
        after_drain(after_drain(s)).pending is None,
        after_drain(after_drain(s)).track == s.track,
{
}

} // verus!
