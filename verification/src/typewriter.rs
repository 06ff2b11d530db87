//! The dialogue typewriter: characters are revealed one at a time, and
//! inline effects fire when the reveal reaches their position (a pause, or
//! a change of text speed).
//!
//! Durations and speeds are `f64` values that this module only carries;
//! it holds them as their bit patterns (`f64::to_bits`) and never computes
//! with them.

use vstd::prelude::*;
use vstd::string::StringExecFns;
use crate::render::NvlEntry;

verus! {

/// What an inline effect does when it fires.
#[derive(Debug, Clone, Copy, PartialEq, Eq, Structural)]
pub enum InlineEffectKind {
    /// Pause: for the given seconds (as `f64` bits), or until a click.
    Wait(Option<u64>),
    /// Show text at the given characters per second (as `f64` bits).
    SetCpsAbsolute(u64),
    /// Scale the text speed by the given factor (as `f64` bits).
    SetCpsRelative(u64),
    /// Back to the player's text speed.
    ResetCps,
}

/// An effect that fires when the given number of characters is visible.
#[derive(Debug, Clone, Copy, PartialEq, Eq, Structural)]
pub struct InlineEffect {
    pub position: usize,
    pub kind: InlineEffectKind,
}

/// A pause in the middle of a line.
#[derive(Debug, Clone, Copy, PartialEq, Eq, Structural)]
pub enum InlineWait {
    Click,
    /// Seconds left, as `f64` bits.
    Timed { remaining_bits: u64 },
}

/// A text-speed override (as `f64` bits).
#[derive(Debug, Clone, Copy, PartialEq, Eq, Structural)]
pub enum EffectiveCps {
    Absolute(u64),
    Relative(u64),
}

/// The line being revealed.
#[derive(Debug, Clone)]
pub struct DialogueState {
    pub speaker: Option<String>,
    pub content: String,
    pub visible_chars: usize,
    pub is_complete: bool,
    pub inline_effects: Vec<InlineEffect>,
    pub no_wait: bool,
    pub inline_wait: Option<InlineWait>,
    pub effective_cps: Option<EffectiveCps>,
}

/// The text on screen: the current line and the NVL page.
#[derive(Debug, Clone)]
pub struct TextDisplay {
    pub dialogue: Option<DialogueState>,
    pub nvl_entries: Vec<NvlEntry>,
}

/// One effect applied to the pause and speed when `pos` characters are
/// visible.
pub open spec fn apply_effect(
    e: InlineEffect,
    pos: int,
    w: Option<InlineWait>,
    c: Option<EffectiveCps>,
) -> (Option<InlineWait>, Option<EffectiveCps>) {
    if e.position == pos {
        match e.kind {
            InlineEffectKind::Wait(Some(b)) => (Some(InlineWait::Timed { remaining_bits: b }), c),
            InlineEffectKind::Wait(None) => (Some(InlineWait::Click), c),
            InlineEffectKind::SetCpsAbsolute(b) => (w, Some(EffectiveCps::Absolute(b))),
            InlineEffectKind::SetCpsRelative(b) => (w, Some(EffectiveCps::Relative(b))),
            InlineEffectKind::ResetCps => (w, None),
        }
    } else {
        (w, c)
    }
}

/// The effects applied in order (a later effect at the same position wins).
pub open spec fn fire_effects(
    es: Seq<InlineEffect>,
    pos: int,
    w: Option<InlineWait>,
    c: Option<EffectiveCps>,
) -> (Option<InlineWait>, Option<EffectiveCps>)
    decreases es.len(),
{
    if es.len() == 0 {
        (w, c)
    } else {
        let next = apply_effect(es[0], pos, w, c);
        fire_effects(es.drop_first(), pos, next.0, next.1)
    }
}

/// What one effect changes: a pause effect changes only the pause, a speed
/// effect changes only the speed, and an effect at another position
/// changes nothing. A timed pause lasts its seconds, a pause without them
/// waits for a click, an absolute or relative speed takes its value, and a
/// reset drops the override.
pub proof fn law_effect_channels(e: InlineEffect, pos: int, w: Option<InlineWait>, c: Option<EffectiveCps>)
    ensures
        e.position != pos ==> apply_effect(e, pos, w, c) == (w, c),
        e.kind is Wait ==> apply_effect(e, pos, w, c).1 == c,
        !(e.kind is Wait) ==> apply_effect(e, pos, w, c).0 == w,
        e.position == pos ==> match e.kind {
            InlineEffectKind::Wait(Some(b)) => apply_effect(e, pos, w, c).0 == Some(
                InlineWait::Timed { remaining_bits: b },
            ),
            InlineEffectKind::Wait(None) => apply_effect(e, pos, w, c).0 == Some(InlineWait::Click),
            InlineEffectKind::SetCpsAbsolute(b) => apply_effect(e, pos, w, c).1 == Some(
                EffectiveCps::Absolute(b),
            ),
            InlineEffectKind::SetCpsRelative(b) => apply_effect(e, pos, w, c).1 == Some(
                EffectiveCps::Relative(b),
            ),
            InlineEffectKind::ResetCps => apply_effect(e, pos, w, c).1 is None,
        },
{
}

/// When no speed effect sits at the position, firing the effects there
/// leaves the text speed as it was (pauses never change it).
pub proof fn law_pauses_keep_speed(es: Seq<InlineEffect>, pos: int, w: Option<InlineWait>, c: Option<EffectiveCps>)
    requires
        forall|i: int| 0 <= i < es.len() && (#[trigger] es[i]).position == pos ==> es[i].kind is Wait,
    ensures
        fire_effects(es, pos, w, c).1 == c,
    decreases es.len(),
{
    if es.len() > 0 {
        law_effect_channels(es[0], pos, w, c);
        let next = apply_effect(es[0], pos, w, c);
        assert forall|i: int| 0 <= i < es.drop_first().len() && (#[trigger] es.drop_first()[i]).position
            == pos implies es.drop_first()[i].kind is Wait by {
            assert(es.drop_first()[i] == es[i + 1]);
        }
        law_pauses_keep_speed(es.drop_first(), pos, next.0, next.1);
    }
}

/// When no pause effect sits at the position, firing the effects there
/// leaves the pause as it was (speed changes never start or end one).
pub proof fn law_speeds_keep_pause(es: Seq<InlineEffect>, pos: int, w: Option<InlineWait>, c: Option<EffectiveCps>)
    requires
        forall|i: int| 0 <= i < es.len() && (#[trigger] es[i]).position == pos ==> !(es[i].kind is Wait),
    ensures
        fire_effects(es, pos, w, c).0 == w,
    decreases es.len(),
{
    if es.len() > 0 {
        law_effect_channels(es[0], pos, w, c);
        let next = apply_effect(es[0], pos, w, c);
        assert forall|i: int| 0 <= i < es.drop_first().len() && (#[trigger] es.drop_first()[i]).position
            == pos implies !(es.drop_first()[i].kind is Wait) by {
            assert(es.drop_first()[i] == es[i + 1]);
        }
        law_speeds_keep_pause(es.drop_first(), pos, next.0, next.1);
    }
}

/// A pause effect at the position always leaves the line paused there.
pub proof fn law_pause_effect_pauses(es: Seq<InlineEffect>, pos: int, w: Option<InlineWait>, c: Option<EffectiveCps>, k: int)
    requires
        0 <= k < es.len(),
        es[k].position == pos,
        es[k].kind is Wait,
    ensures
        fire_effects(es, pos, w, c).0 is Some,
    decreases es.len(),
{
    let next = apply_effect(es[0], pos, w, c);
    law_effect_channels(es[0], pos, w, c);
    if k == 0 {
        lemma_pause_stays(es.drop_first(), pos, next.0, next.1);
    } else {
        assert(es.drop_first()[k - 1] == es[k]);
        law_pause_effect_pauses(es.drop_first(), pos, next.0, next.1, k - 1);
    }
}

proof fn lemma_pause_stays(es: Seq<InlineEffect>, pos: int, w: Option<InlineWait>, c: Option<EffectiveCps>)
    requires
        w is Some,
    ensures
        fire_effects(es, pos, w, c).0 is Some,
    decreases es.len(),
{
    if es.len() > 0 {
        law_effect_channels(es[0], pos, w, c);
        let next = apply_effect(es[0], pos, w, c);
        lemma_pause_stays(es.drop_first(), pos, next.0, next.1);
    }
}

/// Revealing a character keeps the line's text speed unless a speed effect
/// sits at the new position: a pause there does not reset it.
pub proof fn law_reveal_keeps_speed(d: DialogueState)
    requires
        forall|i: int|
            0 <= i < d.inline_effects@.len() && (#[trigger] d.inline_effects@[i]).position == d.visible_chars + 1
                ==> d.inline_effects@[i].kind is Wait,
    ensures
        advanced(d).effective_cps == d.effective_cps,
{
    law_pauses_keep_speed(d.inline_effects@, d.visible_chars + 1, d.inline_wait, d.effective_cps);
}

/// The line after one more character is revealed.
pub open spec fn advanced(d: DialogueState) -> DialogueState {
    let v = d.visible_chars + 1;
    let fired = fire_effects(d.inline_effects@, v, d.inline_wait, d.effective_cps);
    DialogueState {
        visible_chars: v as usize,
        is_complete: v >= d.content@.len(),
        inline_wait: fired.0,
        effective_cps: fired.1,
        ..d
    }
}

/// The NVL page with its last entry showing `visible` characters.
pub open spec fn nvl_synced(es: Seq<NvlEntry>, visible: usize, complete: bool) -> Seq<NvlEntry> {
    if es.len() == 0 {
        es
    } else {
        es.update(
            es.len() - 1,
            NvlEntry { visible_chars: visible, is_complete: complete, ..es.last() },
        )
    }
}

/// The effects moved `by` characters later.
pub open spec fn shifted(es: Seq<InlineEffect>, by: int) -> Seq<InlineEffect> {
    es.map_values(|e: InlineEffect| InlineEffect { position: (e.position + by) as usize, ..e })
}

/// `new` is `old` with the whole line shown: no pause, no speed override,
/// and the NVL page's last entry shown whole too.
pub open spec fn completion_of(new: TextDisplay, old: TextDisplay) -> bool {
    &&& match old.dialogue {
        Some(d) => new.dialogue == Some(
            DialogueState {
                visible_chars: d.content@.len() as usize,
                is_complete: true,
                inline_wait: None,
                effective_cps: None,
                ..d
            },
        ),
        None => new.dialogue is None,
    }
    &&& old.nvl_entries@.len() == 0 ==> new.nvl_entries@ == old.nvl_entries@
    &&& old.nvl_entries@.len() > 0 ==> new.nvl_entries@ == nvl_synced(
        old.nvl_entries@,
        old.nvl_entries@.last().content@.len() as usize,
        true,
    )
}

/// `new` is `old` with the line's pause ended.
pub open spec fn pause_ended(new: TextDisplay, old: TextDisplay) -> bool {
    &&& new.nvl_entries == old.nvl_entries
    &&& match old.dialogue {
        Some(d) => new.dialogue == Some(DialogueState { inline_wait: None, ..d }),
        None => new.dialogue is None,
    }
}

/// The line after `k` calls of [`TextDisplay::advance_typewriter`]: a
/// complete line stays as it is.
pub open spec fn after_advances(d: DialogueState, k: nat) -> DialogueState
    decreases k,
{
    if k == 0 {
        d
    } else {
        let prev = after_advances(d, (k - 1) as nat);
        if prev.is_complete {
            prev
        } else {
            advanced(prev)
        }
    }
}

/// A fresh line of `n >= 1` characters shows `k` of them after `k` reveals,
/// and is complete exactly when all `n` are shown.
pub proof fn lemma_reveal_counts(d: DialogueState, k: nat)
    requires
        d.visible_chars == 0,
        !d.is_complete,
        1 <= d.content@.len() <= usize::MAX,
        k <= d.content@.len(),
    ensures
        after_advances(d, k).visible_chars == k,
        after_advances(d, k).is_complete == (k == d.content@.len()),
        after_advances(d, k).content@ == d.content@,
    decreases k,
{
    if k > 0 {
        lemma_reveal_counts(d, (k - 1) as nat);
        let prev = after_advances(d, (k - 1) as nat);
        assert(!prev.is_complete);
        assert(advanced(prev).visible_chars == k);
    }
}

/// The positions of `effects`, moved past the current line, still fit in
/// a `usize`.
pub open spec fn extension_fits(d: Option<DialogueState>, effects: Seq<InlineEffect>) -> bool {
    d matches Some(d) ==> forall|i: int|
        0 <= i < effects.len() ==> (#[trigger] effects[i]).position + d.content@.len() <= usize::MAX
}

/// `new` is the line `old` with `content` appended: the effects move past
/// the old text, the line is incomplete again and takes the new `no_wait`;
/// no line stays no line.
pub open spec fn line_extended(
    new: Option<DialogueState>,
    old: Option<DialogueState>,
    content: Seq<char>,
    effects: Seq<InlineEffect>,
    no_wait: bool,
) -> bool {
    match old {
        Some(d) => new matches Some(n) && n.content@ == d.content@ + content && n.inline_effects@
            == d.inline_effects@ + shifted(effects, d.content@.len() as int) && !n.is_complete
            && n.no_wait == no_wait && n.visible_chars == d.visible_chars && n.speaker == d.speaker
            && n.inline_wait == d.inline_wait && n.effective_cps == d.effective_cps,
        None => new is None,
    }
}

impl TextDisplay {
    /// No line and an empty NVL page.
    pub fn new() -> (r: Self)
        ensures
            r.dialogue is None,
            r.nvl_entries@.len() == 0,
    {
        TextDisplay { dialogue: None, nvl_entries: Vec::new() }
    }

    /// Starts revealing a new line from its first character.
    pub fn start_typewriter(
        &mut self,
        speaker: Option<String>,
        content: String,
        inline_effects: Vec<InlineEffect>,
        no_wait: bool,
    )
        ensures
            final(self).dialogue == Some(
                DialogueState {
                    speaker,
                    content,
                    visible_chars: 0,
                    is_complete: false,
                    inline_effects,
                    no_wait,
                    inline_wait: None,
                    effective_cps: None,
                },
            ),
            final(self).nvl_entries == old(self).nvl_entries,
    {
        self.dialogue = Some(
            DialogueState {
                speaker,
                content,
                visible_chars: 0,
                is_complete: false,
                inline_effects,
                no_wait,
                inline_wait: None,
                effective_cps: None,
            },
        );
    }

    /// Whether the whole line is shown (or there is none).
    pub fn is_dialogue_complete(&self) -> (r: bool)
        ensures
            r == match self.dialogue {
                Some(d) => d.is_complete,
                None => true,
            },
    {
        match &self.dialogue {
            Some(d) => d.is_complete,
            None => true,
        }
    }

    /// Whether the line is paused.
    pub fn has_inline_wait(&self) -> (r: bool)
        ensures
            r == (self.dialogue matches Some(d) && d.inline_wait is Some),
    {
        match &self.dialogue {
            Some(d) => d.inline_wait.is_some(),
            None => false,
        }
    }

    /// Whether the line is paused until a click.
    pub fn is_inline_click_wait(&self) -> (r: bool)
        ensures
            r == (self.dialogue matches Some(d) && d.inline_wait == Some(InlineWait::Click)),
    {
        match &self.dialogue {
            Some(d) => match d.inline_wait {
                Some(InlineWait::Click) => true,
                _ => false,
            },
            None => false,
        }
    }

    /// Ends a pause in the line.
    pub fn clear_inline_wait(&mut self)
        ensures
            pause_ended(*final(self), *old(self)),
    {
        match &mut self.dialogue {
            Some(d) => {
                d.inline_wait = None;
            },
            None => {},
        }
    }

    /// Drops the current line.
    pub fn clear_dialogue(&mut self)
        ensures
            final(self).dialogue is None,
            final(self).nvl_entries == old(self).nvl_entries,
    {
        self.dialogue = None;
    }

    /// Reveals one more character, fires the effects at the new position and
    /// mirrors the progress on the NVL page's last entry. Returns whether the
    /// line is complete (true when there is no line).
    pub fn advance_typewriter(&mut self) -> (r: bool)
        requires
            old(self).dialogue matches Some(d) ==> d.visible_chars < usize::MAX,
        ensures
            match old(self).dialogue {
                None => r && *final(self) == *old(self),
                Some(d) => if d.is_complete {
                    r && *final(self) == *old(self)
                } else {
                    &&& final(self).dialogue == Some(advanced(d))
                    &&& r == advanced(d).is_complete
                    &&& final(self).nvl_entries@ == nvl_synced(
                        old(self).nvl_entries@,
                        advanced(d).visible_chars,
                        advanced(d).is_complete,
                    )
                },
            },
    {
        let mut d = match self.dialogue.take() {
            None => {
                return true;
            },
            Some(d) => d,
        };
        if d.is_complete {
            self.dialogue = Some(d);
            return true;
        }
        let ghost d0 = d;
        d.visible_chars = d.visible_chars + 1;
        let pos = d.visible_chars;
        let mut wait = d.inline_wait;
        let mut cps = d.effective_cps;
        let mut i: usize = 0;
        assert(d.inline_effects@.skip(0) =~= d.inline_effects@);
        while i < d.inline_effects.len()
            invariant
                i <= d.inline_effects@.len(),
                d.inline_effects@ == d0.inline_effects@,
                pos == d0.visible_chars + 1,
                fire_effects(d0.inline_effects@, pos as int, d0.inline_wait, d0.effective_cps)
                    == fire_effects(d.inline_effects@.skip(i as int), pos as int, wait, cps),
            decreases d.inline_effects@.len() - i,
        {
            let e = d.inline_effects[i];
            assert(d.inline_effects@.skip(i as int)[0] == e);
            assert(d.inline_effects@.skip(i as int).drop_first() =~= d.inline_effects@.skip(i + 1));
            if e.position == pos {
                match e.kind {
                    InlineEffectKind::Wait(Some(b)) => {
                        wait = Some(InlineWait::Timed { remaining_bits: b });
                    },
                    InlineEffectKind::Wait(None) => {
                        wait = Some(InlineWait::Click);
                    },
                    InlineEffectKind::SetCpsAbsolute(b) => {
                        cps = Some(EffectiveCps::Absolute(b));
                    },
                    InlineEffectKind::SetCpsRelative(b) => {
                        cps = Some(EffectiveCps::Relative(b));
                    },
                    InlineEffectKind::ResetCps => {
                        cps = None;
                    },
                }
            }
            i += 1;
        }
        assert(d.inline_effects@.skip(i as int).len() == 0);
        d.inline_wait = wait;
        d.effective_cps = cps;
        let total = d.content.as_str().unicode_len();
        if d.visible_chars >= total {
            d.is_complete = true;
        }
        let complete = d.is_complete;
        let visible = d.visible_chars;
        assert(d == advanced(d0));
        self.dialogue = Some(d);
        let n = self.nvl_entries.len();
        if n > 0 {
            let mut entry = self.nvl_entries.pop().unwrap();
            entry.visible_chars = visible;
            entry.is_complete = complete;
            self.nvl_entries.push(entry);
        }
        assert(self.nvl_entries@ =~= nvl_synced(old(self).nvl_entries@, visible, complete));
        complete
    }

    /// Shows the whole line at once: no pause, no speed override; the NVL
    /// page's last entry is shown whole too.
    pub fn complete_typewriter(&mut self)
        ensures
            completion_of(*final(self), *old(self)),
    {
        match &mut self.dialogue {
            Some(d) => {
                d.visible_chars = d.content.as_str().unicode_len();
                d.is_complete = true;
                d.inline_wait = None;
                d.effective_cps = None;
            },
            None => {},
        }
        let n = self.nvl_entries.len();
        if n > 0 {
            let mut entry = self.nvl_entries.pop().unwrap();
            entry.visible_chars = entry.content.as_str().unicode_len();
            entry.is_complete = true;
            self.nvl_entries.push(entry);
            assert(self.nvl_entries@ =~= nvl_synced(
                old(self).nvl_entries@,
                old(self).nvl_entries@.last().content@.len() as usize,
                true,
            ));
        }
    }

    /// Appends text to the current line (if any): the new effects move past
    /// the old text and the line is incomplete again. The NVL page is left
    /// as it is.
    pub fn extend_line(&mut self, content: &String, inline_effects: &Vec<InlineEffect>, no_wait: bool)
        requires
            extension_fits(old(self).dialogue, inline_effects@),
        ensures
            line_extended(final(self).dialogue, old(self).dialogue, content@, inline_effects@, no_wait),
            final(self).nvl_entries == old(self).nvl_entries,
    {
        match self.dialogue.take() {
            Some(mut d) => {
                let ghost d0 = d;
                let old_len = d.content.as_str().unicode_len();
                d.content.append(content.as_str());
                let mut k: usize = 0;
                let ghost base = d.inline_effects@;
                while k < inline_effects.len()
                    invariant
                        k <= inline_effects@.len(),
                        old_len == d0.content@.len(),
                        d.content@ == d0.content@ + content@,
                        d.speaker == d0.speaker,
                        d.visible_chars == d0.visible_chars,
                        d.inline_wait == d0.inline_wait,
                        d.effective_cps == d0.effective_cps,
                        base == d0.inline_effects@,
                        forall|i: int|
                            0 <= i < inline_effects@.len() ==> (#[trigger] inline_effects@[i]).position
                                + old_len <= usize::MAX,
                        d.inline_effects@ == base + shifted(inline_effects@.take(k as int), old_len as int),
                    decreases inline_effects.len() - k,
                {
                    let e = inline_effects[k];
                    d.inline_effects.push(InlineEffect { position: e.position + old_len, kind: e.kind });
                    assert(shifted(inline_effects@.take(k + 1), old_len as int) =~= shifted(
                        inline_effects@.take(k as int),
                        old_len as int,
                    ).push(InlineEffect { position: (e.position + old_len) as usize, kind: e.kind }));
                    k += 1;
                }
                assert(inline_effects@.take(inline_effects@.len() as int) =~= inline_effects@);
                d.is_complete = false;
                d.no_wait = no_wait;
                self.dialogue = Some(d);
            },
            None => {},
        }
    }

    /// Appends text to the current line: the new effects move past the old
    /// text, the line is incomplete again, and the NVL page's last entry
    /// gets the text too.
    pub fn extend_dialogue(&mut self, content: String, inline_effects: Vec<InlineEffect>, no_wait: bool)
        requires
            extension_fits(old(self).dialogue, inline_effects@),
        ensures
            line_extended(final(self).dialogue, old(self).dialogue, content@, inline_effects@, no_wait),
            final(self).nvl_entries@.len() == old(self).nvl_entries@.len(),
            old(self).nvl_entries@.len() > 0 ==> {
                let last = final(self).nvl_entries@.last();
                let before = old(self).nvl_entries@.last();
                &&& last.content@ == before.content@ + content@
                &&& !last.is_complete
                &&& last.visible_chars == before.visible_chars
                &&& last.speaker == before.speaker
                &&& final(self).nvl_entries@.drop_last() == old(self).nvl_entries@.drop_last()
            },
    {
        self.extend_line(&content, &inline_effects, no_wait);
        let n = self.nvl_entries.len();
        if n > 0 {
            let mut entry = self.nvl_entries.pop().unwrap();
            entry.content.append(content.as_str());
            entry.is_complete = false;
            self.nvl_entries.push(entry);
        }
    }
}

} // verus!
