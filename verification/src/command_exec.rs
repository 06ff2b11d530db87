//! Executing the runtime's commands against the render state: each command
//! changes what the stage shows, may hand an audio instruction or a scene
//! effect to the host, and says what the host waits for next.
//!
//! Durations, alphas and amplitudes are `f32` values that this module only
//! carries: it holds them as their bit patterns (`f32::to_bits`) and never
//! computes with them.

use vstd::prelude::*;
use crate::persistent::VarValue;
use crate::text::{to_chars, chars_equal_str, find_first, occurs_at, first_occurrence};
use crate::debug_api::{lowercase, unicode_lowercase};
use crate::render::{
    ChapterMarkPhase, ChoiceItem, ChoicesState, ExecuteResult, NvlEntry,
    SceneTransitionPhaseState,
};
use crate::typewriter::{DialogueState, InlineEffect, TextDisplay, extension_fits, line_extended};

verus! {

/// `0.0f32`.
pub const ZERO_BITS: u32 = 0x0000_0000;
/// `0.3f32`: the default length of a dissolve, a move and a shake.
pub const SHORT_BITS: u32 = 0x3e99_999a;
/// `0.5f32`: the default length of a fade, a rule transition and a blur.
pub const HALF_BITS: u32 = 0x3f00_0000;
/// `1.0f32`: fully opaque, and the default dim level.
pub const ONE_BITS: u32 = 0x3f80_0000;
/// `4.0f32`.
pub const FOUR_BITS: u32 = 0x4080_0000;
/// `5.0f32`.
pub const FIVE_BITS: u32 = 0x40a0_0000;
/// `6.0f32`.
pub const SIX_BITS: u32 = 0x40c0_0000;
/// `8.0f32`.
pub const EIGHT_BITS: u32 = 0x4100_0000;

/// Where a character stands on the stage.
#[derive(Debug, Clone, Copy, PartialEq, Eq, Structural)]
pub enum StagePosition {
    Left,
    Right,
    Center,
    NearLeft,
    NearRight,
    NearMiddle,
    FarLeft,
    FarRight,
    FarMiddle,
}

/// How dialogue is laid out: one line in a box, or a full page.
#[derive(Debug, Clone, Copy, PartialEq, Eq, Structural)]
pub enum TextMode {
    ADV,
    NVL,
}

/// A transition as the script wrote it: its name and the arguments the
/// executor reads.
#[derive(Debug, Clone)]
pub struct TransitionSpec {
    pub name: String,
    /// The stated duration, as `f32` bits.
    pub duration_bits: Option<u32>,
    /// The `mask` argument, when it is a string.
    pub mask: Option<String>,
    /// The `reversed` argument.
    pub reversed: Option<bool>,
}

/// The value of a scene-effect argument.
#[derive(Debug, Clone, Copy, PartialEq, Eq, Structural)]
pub enum EffectArgValue {
    /// A number, as `f32` bits.
    Number(u32),
    /// Any other kind of value.
    Other,
}

/// One scene-effect argument, named or positional.
#[derive(Debug, Clone)]
pub struct EffectArg {
    pub key: Option<String>,
    pub value: EffectArgValue,
}

/// What a transition does, by its (lower-cased) name.
#[derive(Debug, Clone, Copy, PartialEq, Eq, Structural)]
pub enum TransitionKind {
    Instant,
    Dissolve,
    Fade,
    FadeWhite,
    Move,
    Rule,
}

/// The kind a transition's name selects; an unknown name dissolves.
pub open spec fn transition_kind(t: TransitionSpec) -> TransitionKind {
    let n = unicode_lowercase(t.name@);
    if n == "dissolve"@ {
        TransitionKind::Dissolve
    } else if n == "fade"@ {
        TransitionKind::Fade
    } else if n == "fadewhite"@ {
        TransitionKind::FadeWhite
    } else if n == "move"@ || n == "slide"@ {
        TransitionKind::Move
    } else if n == "none"@ {
        TransitionKind::Instant
    } else if n == "rule"@ {
        TransitionKind::Rule
    } else {
        TransitionKind::Dissolve
    }
}

/// The transition's length (`f32` bits): the stated one, else the kind's
/// default; `none` takes no time.
pub open spec fn transition_duration(t: TransitionSpec) -> u32 {
    match transition_kind(t) {
        TransitionKind::Instant => ZERO_BITS,
        TransitionKind::Fade | TransitionKind::FadeWhite | TransitionKind::Rule => match t.duration_bits {
            Some(b) => b,
            None => HALF_BITS,
        },
        _ => match t.duration_bits {
            Some(b) => b,
            None => SHORT_BITS,
        },
    }
}

/// An optional transition's kind and length; no transition is `none`.
pub open spec fn optional_transition(t: Option<TransitionSpec>) -> (TransitionKind, u32) {
    match t {
        Some(t) => (transition_kind(t), transition_duration(t)),
        None => (TransitionKind::Instant, ZERO_BITS),
    }
}

/// The mask image of a rule transition (empty when none is given).
pub open spec fn rule_mask(t: TransitionSpec) -> Seq<char> {
    match t.mask {
        Some(m) => m@,
        None => Seq::empty(),
    }
}

/// Classifies a transition: its kind and length.
pub fn resolve_transition(t: &TransitionSpec) -> (r: (TransitionKind, u32))
    ensures
        r.0 == transition_kind(*t),
        r.1 == transition_duration(*t),
{
    let lower = lowercase(t.name.as_str());
    let n = to_chars(lower.as_str());
    let kind = if chars_equal_str(&n, "dissolve") {
        TransitionKind::Dissolve
    } else if chars_equal_str(&n, "fade") {
        TransitionKind::Fade
    } else if chars_equal_str(&n, "fadewhite") {
        TransitionKind::FadeWhite
    } else if chars_equal_str(&n, "move") || chars_equal_str(&n, "slide") {
        TransitionKind::Move
    } else if chars_equal_str(&n, "none") {
        TransitionKind::Instant
    } else if chars_equal_str(&n, "rule") {
        TransitionKind::Rule
    } else {
        TransitionKind::Dissolve
    };
    let duration = match kind {
        TransitionKind::Instant => ZERO_BITS,
        TransitionKind::Fade | TransitionKind::FadeWhite | TransitionKind::Rule => match t.duration_bits {
            Some(b) => b,
            None => HALF_BITS,
        },
        _ => match t.duration_bits {
            Some(b) => b,
            None => SHORT_BITS,
        },
    };
    (kind, duration)
}

/// The kind of a scene effect.
#[derive(Debug, Clone, Copy, PartialEq, Eq, Structural)]
pub enum SceneEffectKind {
    /// Shake by the given amplitudes (`f32` bits).
    Shake { amplitude_x_bits: u32, amplitude_y_bits: u32 },
    Blur,
    BlurOut,
    /// Dim the stage. The field is the `level` argument as given (`f32`
    /// bits, 1.0 when absent); the dim amount is that level divided by 7
    /// and clamped to `[0, 1]`, which the renderer computes.
    Dim { level_bits: u32 },
    DimReset,
}

/// A scene effect the host is asked to play, with its length (`f32` bits).
#[derive(Debug, Clone, Copy, PartialEq, Eq, Structural)]
pub struct SceneEffectRequest {
    pub kind: SceneEffectKind,
    pub duration_bits: u32,
}

/// `pat` occurs somewhere in `s`.
pub open spec fn contains_text(s: Seq<char>, pat: Seq<char>) -> bool {
    exists|i: int| occurs_at(s, pat, i)
}

/// Whether `pat` occurs in `s`.
fn text_contains(s: &Vec<char>, pat: &str) -> (r: bool)
    ensures
        r == contains_text(s@, pat@),
{
    let p = to_chars(pat);
    let found = find_first(s, &p);
    proof {
        reveal(first_occurrence);
    }
    found.is_some()
}

/// The duration an argument gives: a number that is named `duration` or
/// has no name.
pub open spec fn arg_duration(a: EffectArg) -> Option<u32> {
    match a.value {
        EffectArgValue::Number(b) => if a.key is None || (a.key matches Some(k) && k@
            == "duration"@) {
            Some(b)
        } else {
            None
        },
        EffectArgValue::Other => None,
    }
}

/// The first duration among the arguments.
pub open spec fn first_duration(args: Seq<EffectArg>) -> Option<u32>
    decreases args.len(),
{
    if args.len() == 0 {
        None
    } else {
        match arg_duration(args[0]) {
            Some(b) => Some(b),
            None => first_duration(args.drop_first()),
        }
    }
}

/// The level an argument gives: a number named `level`.
pub open spec fn arg_level(a: EffectArg) -> Option<u32> {
    match a.value {
        EffectArgValue::Number(b) => if a.key matches Some(k) && k@ == "level"@ {
            Some(b)
        } else {
            None
        },
        EffectArgValue::Other => None,
    }
}

/// The first level among the arguments, 1.0 when there is none.
pub open spec fn first_level(args: Seq<EffectArg>) -> u32
    decreases args.len(),
{
    if args.len() == 0 {
        ONE_BITS
    } else {
        match arg_level(args[0]) {
            Some(b) => b,
            None => first_level(args.drop_first()),
        }
    }
}

/// `o`, or `d` when it is `None`.
pub open spec fn or_default(o: Option<u32>, d: u32) -> u32 {
    match o {
        Some(b) => b,
        None => d,
    }
}

/// The effect a scene-effect command asks for, by words in its
/// (lower-cased) name: `blur` (`out`), `dim` (`reset`), else a shake
/// (`vertical`, `bounce`, or both ways).
pub open spec fn effect_request(name: Seq<char>, args: Seq<EffectArg>) -> SceneEffectRequest {
    let n = unicode_lowercase(name);
    let d = first_duration(args);
    if contains_text(n, "blur"@) {
        if contains_text(n, "out"@) {
            SceneEffectRequest { kind: SceneEffectKind::BlurOut, duration_bits: or_default(d, HALF_BITS) }
        } else {
            SceneEffectRequest { kind: SceneEffectKind::Blur, duration_bits: or_default(d, HALF_BITS) }
        }
    } else if contains_text(n, "dim"@) {
        if contains_text(n, "reset"@) {
            SceneEffectRequest { kind: SceneEffectKind::DimReset, duration_bits: ZERO_BITS }
        } else {
            SceneEffectRequest {
                kind: SceneEffectKind::Dim { level_bits: first_level(args) },
                duration_bits: ZERO_BITS,
            }
        }
    } else {
        let (ax, ay) = if contains_text(n, "vertical"@) {
            (ZERO_BITS, EIGHT_BITS)
        } else if contains_text(n, "bounce"@) {
            (ZERO_BITS, FIVE_BITS)
        } else {
            (SIX_BITS, FOUR_BITS)
        };
        SceneEffectRequest {
            kind: SceneEffectKind::Shake { amplitude_x_bits: ax, amplitude_y_bits: ay },
            duration_bits: or_default(d, SHORT_BITS),
        }
    }
}

/// Whether an optional key is exactly `word`.
fn key_is(key: &Option<String>, word: &str) -> (r: bool)
    ensures
        r == (*key matches Some(k) && k@ == word@),
{
    match key {
        Some(k) => {
            let kc = to_chars(k.as_str());
            chars_equal_str(&kc, word)
        },
        None => false,
    }
}

/// The first duration among the arguments, computed.
fn extract_duration(args: &Vec<EffectArg>) -> (r: Option<u32>)
    ensures
        r == first_duration(args@),
{
    let mut i: usize = 0;
    assert(args@.skip(0) =~= args@);
    while i < args.len()
        invariant
            i <= args.len(),
            first_duration(args@) == first_duration(args@.skip(i as int)),
        decreases args.len() - i,
    {
        let a = &args[i];
        assert(args@.skip(i as int).drop_first() =~= args@.skip(i + 1));
        match a.value {
            EffectArgValue::Number(b) => {
                if a.key.is_none() || key_is(&a.key, "duration") {
                    return Some(b);
                }
            },
            EffectArgValue::Other => {},
        }
        i += 1;
    }
    None
}

/// The first level among the arguments, computed.
fn extract_level(args: &Vec<EffectArg>) -> (r: u32)
    ensures
        r == first_level(args@),
{
    let mut i: usize = 0;
    assert(args@.skip(0) =~= args@);
    while i < args.len()
        invariant
            i <= args.len(),
            first_level(args@) == first_level(args@.skip(i as int)),
        decreases args.len() - i,
    {
        let a = &args[i];
        assert(args@.skip(i as int).drop_first() =~= args@.skip(i + 1));
        match a.value {
            EffectArgValue::Number(b) => {
                if key_is(&a.key, "level") {
                    return b;
                }
            },
            EffectArgValue::Other => {},
        }
        i += 1;
    }
    ONE_BITS
}

impl SceneEffectRequest {
    /// The effect a scene-effect command with this name and these
    /// arguments asks for.
    pub fn from_command(name: &str, args: &Vec<EffectArg>) -> (r: Self)
        ensures
            r == effect_request(name@, args@),
    {
        let lower = lowercase(name);
        let n = to_chars(lower.as_str());
        let d = extract_duration(args);
        if text_contains(&n, "blur") {
            let duration_bits = match d {
                Some(b) => b,
                None => HALF_BITS,
            };
            if text_contains(&n, "out") {
                SceneEffectRequest { kind: SceneEffectKind::BlurOut, duration_bits }
            } else {
                SceneEffectRequest { kind: SceneEffectKind::Blur, duration_bits }
            }
        } else if text_contains(&n, "dim") {
            if text_contains(&n, "reset") {
                SceneEffectRequest { kind: SceneEffectKind::DimReset, duration_bits: ZERO_BITS }
            } else {
                SceneEffectRequest {
                    kind: SceneEffectKind::Dim { level_bits: extract_level(args) },
                    duration_bits: ZERO_BITS,
                }
            }
        } else {
            let (ax, ay) = if text_contains(&n, "vertical") {
                (ZERO_BITS, EIGHT_BITS)
            } else if text_contains(&n, "bounce") {
                (ZERO_BITS, FIVE_BITS)
            } else {
                (SIX_BITS, FOUR_BITS)
            };
            let duration_bits = match d {
                Some(b) => b,
                None => SHORT_BITS,
            };
            SceneEffectRequest {
                kind: SceneEffectKind::Shake { amplitude_x_bits: ax, amplitude_y_bits: ay },
                duration_bits,
            }
        }
    }
}

/// A character on stage. Alphas, offsets, scales and durations are `f32`
/// bits.
#[derive(Debug, Clone)]
pub struct CharacterSprite {
    pub texture_path: String,
    pub position: StagePosition,
    pub z_order: i32,
    pub fading_out: bool,
    pub alpha_bits: u32,
    pub offset_x_bits: u32,
    pub offset_y_bits: u32,
    pub scale_x_bits: u32,
    pub scale_y_bits: u32,
    pub transition_duration_bits: Option<u32>,
    pub target_alpha_bits: u32,
}

/// A cross-fade from the old background to the new one.
#[derive(Debug, Clone)]
pub struct BackgroundTransition {
    pub old_background: Option<String>,
    pub new_background: String,
    pub duration_bits: u32,
}

/// How a full-screen scene change covers the stage.
#[derive(Debug, Clone)]
pub enum SceneTransitionKind {
    Fade,
    FadeWhite,
    Rule { mask_path: String, reversed: bool },
}

/// A full-screen scene change in progress.
#[derive(Debug, Clone)]
pub struct SceneTransition {
    pub transition_type: SceneTransitionKind,
    pub phase: SceneTransitionPhaseState,
    pub duration_bits: u32,
    pub pending_background: Option<String>,
}

/// A chapter title on screen (alpha and timer as `f32` bits).
#[derive(Debug, Clone)]
pub struct ChapterMarkState {
    pub title: String,
    pub level: u8,
    pub alpha_bits: u32,
    pub timer_bits: u32,
    pub phase: ChapterMarkPhase,
}

/// A full-screen title card (lengths as `f32` bits).
#[derive(Debug, Clone)]
pub struct TitleCardState {
    pub text: String,
    pub duration_bits: u32,
    pub elapsed_bits: u32,
}

/// What the stage shows. The characters are keyed by alias, each alias at
/// most once.
#[derive(Debug, Clone)]
pub struct RenderState {
    pub current_background: Option<String>,
    pub visible_characters: Vec<(String, CharacterSprite)>,
    pub text: TextDisplay,
    pub chapter_mark: Option<ChapterMarkState>,
    pub choices: Option<ChoicesState>,
    pub ui_visible: bool,
    pub title_card: Option<TitleCardState>,
    pub text_mode: TextMode,
    pub background_transition: Option<BackgroundTransition>,
    pub scene_transition: Option<SceneTransition>,
}

/// No alias occurs twice.
pub open spec fn distinct_aliases(s: Seq<(String, CharacterSprite)>) -> bool {
    forall|i: int, j: int|
        0 <= i < s.len() && 0 <= j < s.len() && i != j ==> (#[trigger] s[i]).0@ != (#[trigger] s[j]).0@
}

/// Where the character with alias `a` stands in the list.
pub open spec fn alias_index(s: Seq<(String, CharacterSprite)>, a: Seq<char>) -> Option<int> {
    if exists|i: int| 0 <= i < s.len() && (#[trigger] s[i]).0@ == a {
        Some(choose|i: int| 0 <= i < s.len() && (#[trigger] s[i]).0@ == a)
    } else {
        None
    }
}

/// A character just placed, fully shown.
pub open spec fn placed_sprite(path: String, position: StagePosition) -> CharacterSprite {
    CharacterSprite {
        texture_path: path,
        position,
        z_order: 0,
        fading_out: false,
        alpha_bits: ONE_BITS,
        offset_x_bits: ZERO_BITS,
        offset_y_bits: ZERO_BITS,
        scale_x_bits: ONE_BITS,
        scale_y_bits: ONE_BITS,
        transition_duration_bits: None,
        target_alpha_bits: ONE_BITS,
    }
}

/// The characters after `alias` is placed at `position` with `path`: an
/// alias already there is replaced, keeping its place in the list.
pub open spec fn characters_placed(
    s: Seq<(String, CharacterSprite)>,
    alias: String,
    path: String,
    position: StagePosition,
) -> Seq<(String, CharacterSprite)> {
    match alias_index(s, alias@) {
        Some(i) => s.update(i, (s[i].0, placed_sprite(path, position))),
        None => s.push((alias, placed_sprite(path, position))),
    }
}

/// The characters without `alias`.
pub open spec fn characters_without(s: Seq<(String, CharacterSprite)>, alias: Seq<char>) -> Seq<
    (String, CharacterSprite),
> {
    match alias_index(s, alias) {
        Some(i) => s.remove(i),
        None => s,
    }
}

/// `new` differs from `old` in its characters alone, which are `chars`.
pub open spec fn with_characters(
    new: RenderState,
    old: RenderState,
    chars: Seq<(String, CharacterSprite)>,
) -> bool {
    &&& new.visible_characters@ == chars
    &&& RenderState { visible_characters: old.visible_characters, ..new } == old
}

proof fn lemma_alias_index(s: Seq<(String, CharacterSprite)>, a: Seq<char>, i: int)
    requires
        distinct_aliases(s),
        0 <= i < s.len(),
        s[i].0@ == a,
    ensures
        alias_index(s, a) == Some(i),
{
    assert(0 <= i < s.len() && s[i].0@ == a);
}

proof fn lemma_update_keeps_distinct(s: Seq<(String, CharacterSprite)>, i: int, c: CharacterSprite)
    requires
        distinct_aliases(s),
        0 <= i < s.len(),
    ensures
        distinct_aliases(s.update(i, (s[i].0, c))),
{
    let t = s.update(i, (s[i].0, c));
    assert forall|j: int, k: int|
        0 <= j < t.len() && 0 <= k < t.len() && j != k implies (#[trigger] t[j]).0@ != (
        #[trigger] t[k]).0@ by {
        assert(t[j].0 == s[j].0);
        assert(t[k].0 == s[k].0);
    }
}

proof fn lemma_push_keeps_distinct(s: Seq<(String, CharacterSprite)>, e: (String, CharacterSprite))
    requires
        distinct_aliases(s),
        alias_index(s, e.0@) is None,
    ensures
        distinct_aliases(s.push(e)),
{
    let t = s.push(e);
    assert forall|j: int, k: int|
        0 <= j < t.len() && 0 <= k < t.len() && j != k implies (#[trigger] t[j]).0@ != (
        #[trigger] t[k]).0@ by {
        if j < s.len() && k < s.len() {
            assert(t[j] == s[j] && t[k] == s[k]);
        } else if j < s.len() {
            assert(t[j] == s[j]);
            assert(!(0 <= j < s.len() && s[j].0@ == e.0@));
        } else {
            assert(t[k] == s[k]);
            assert(!(0 <= k < s.len() && s[k].0@ == e.0@));
        }
    }
}

proof fn lemma_remove_keeps_distinct(s: Seq<(String, CharacterSprite)>, i: int)
    requires
        distinct_aliases(s),
        0 <= i < s.len(),
    ensures
        distinct_aliases(s.remove(i)),
{
    let t = s.remove(i);
    assert forall|j: int, k: int|
        0 <= j < t.len() && 0 <= k < t.len() && j != k implies (#[trigger] t[j]).0@ != (
        #[trigger] t[k]).0@ by {
        let jj = if j < i { j } else { j + 1 };
        let kk = if k < i { k } else { k + 1 };
        assert(t[j] == s[jj]);
        assert(t[k] == s[kk]);
    }
}

impl RenderState {
    /// Each alias occurs once.
    pub open spec fn wf(self) -> bool {
        distinct_aliases(self.visible_characters@)
    }

    /// An empty stage: no background, characters, text, marks or choices;
    /// the text box is visible and in ADV mode.
    pub fn new() -> (r: Self)
        ensures
            r.wf(),
            r.current_background is None,
            r.visible_characters@.len() == 0,
            r.text.dialogue is None,
            r.text.nvl_entries@.len() == 0,
            r.chapter_mark is None,
            r.choices is None,
            r.ui_visible,
            r.title_card is None,
            r.text_mode == TextMode::ADV,
            r.background_transition is None,
            r.scene_transition is None,
    {
        RenderState {
            current_background: None,
            visible_characters: Vec::new(),
            text: TextDisplay::new(),
            chapter_mark: None,
            choices: None,
            ui_visible: true,
            title_card: None,
            text_mode: TextMode::ADV,
            background_transition: None,
            scene_transition: None,
        }
    }

    /// Shows `path` as the background.
    pub fn set_background(&mut self, path: String)
        ensures
            *final(self) == (RenderState { current_background: Some(path), ..*old(self) }),
    {
        self.current_background = Some(path);
    }

    /// Removes the background.
    pub fn clear_background(&mut self)
        ensures
            *final(self) == (RenderState { current_background: None, ..*old(self) }),
    {
        self.current_background = None;
    }

    /// Where the character with this alias stands in the list.
    pub fn find_character(&self, alias: &str) -> (r: Option<usize>)
        requires
            self.wf(),
        ensures
            r matches Some(i) ==> i < self.visible_characters@.len() && alias_index(
                self.visible_characters@,
                alias@,
            ) == Some(i as int),
            r is None ==> alias_index(self.visible_characters@, alias@) is None,
    {
        let mut i: usize = 0;
        while i < self.visible_characters.len()
            invariant
                self.wf(),
                i <= self.visible_characters@.len(),
                forall|k: int| 0 <= k < i ==> (#[trigger] self.visible_characters@[k]).0@ != alias@,
            decreases self.visible_characters.len() - i,
        {
            let key = to_chars(self.visible_characters[i].0.as_str());
            if chars_equal_str(&key, alias) {
                proof {
                    lemma_alias_index(self.visible_characters@, alias@, i as int);
                }
                return Some(i);
            }
            i += 1;
        }
        None
    }

    /// Places a character, fully shown; an alias already on stage is
    /// replaced in place.
    pub fn show_character(&mut self, alias: String, texture_path: String, position: StagePosition)
        requires
            old(self).wf(),
        ensures
            final(self).wf(),
            with_characters(
                *final(self),
                *old(self),
                characters_placed(old(self).visible_characters@, alias, texture_path, position),
            ),
    {
        let sprite = CharacterSprite {
            texture_path,
            position,
            z_order: 0,
            fading_out: false,
            alpha_bits: ONE_BITS,
            offset_x_bits: ZERO_BITS,
            offset_y_bits: ZERO_BITS,
            scale_x_bits: ONE_BITS,
            scale_y_bits: ONE_BITS,
            transition_duration_bits: None,
            target_alpha_bits: ONE_BITS,
        };
        match self.find_character(alias.as_str()) {
            Some(i) => {
                let ghost s = self.visible_characters@;
                let (key, _) = self.visible_characters.remove(i);
                self.visible_characters.insert(i, (key, sprite));
                proof {
                    assert(self.visible_characters@ =~= s.update(i as int, (s[i as int].0, sprite)));
                    lemma_update_keeps_distinct(s, i as int, sprite);
                }
            },
            None => {
                proof {
                    lemma_push_keeps_distinct(self.visible_characters@, (alias, sprite));
                }
                self.visible_characters.push((alias, sprite));
            },
        }
    }

    /// Takes the character with this alias off the stage.
    pub fn hide_character(&mut self, alias: &str)
        requires
            old(self).wf(),
        ensures
            final(self).wf(),
            with_characters(
                *final(self),
                *old(self),
                characters_without(old(self).visible_characters@, alias@),
            ),
    {
        match self.find_character(alias) {
            Some(i) => {
                proof {
                    lemma_remove_keeps_distinct(self.visible_characters@, i as int);
                }
                self.visible_characters.remove(i);
            },
            None => {},
        }
    }

    /// Takes every character off the stage.
    pub fn hide_all_characters(&mut self)
        ensures
            final(self).wf(),
            with_characters(*final(self), *old(self), Seq::empty()),
    {
        self.visible_characters.clear();
    }

    /// Starts showing a chapter title, from transparent.
    pub fn set_chapter_mark(&mut self, title: String, level: u8)
        ensures
            *final(self) == (RenderState {
                chapter_mark: Some(
                    ChapterMarkState {
                        title,
                        level,
                        alpha_bits: ZERO_BITS,
                        timer_bits: ZERO_BITS,
                        phase: ChapterMarkPhase::FadeIn,
                    },
                ),
                ..*old(self)
            }),
    {
        self.chapter_mark = Some(
            ChapterMarkState {
                title,
                level,
                alpha_bits: ZERO_BITS,
                timer_bits: ZERO_BITS,
                phase: ChapterMarkPhase::FadeIn,
            },
        );
    }

    /// Removes the chapter title.
    pub fn clear_chapter_mark(&mut self)
        ensures
            *final(self) == (RenderState { chapter_mark: None, ..*old(self) }),
    {
        self.chapter_mark = None;
    }

    /// Offers a choice menu, the first item selected and none hovered.
    pub fn set_choices(&mut self, choices: Vec<ChoiceItem>, style: Option<String>)
        ensures
            *final(self) == (RenderState {
                choices: Some(
                    ChoicesState { choices, style, selected_index: 0, hovered_index: None },
                ),
                ..*old(self)
            }),
    {
        self.choices = Some(ChoicesState { choices, style, selected_index: 0, hovered_index: None });
    }

    /// Removes the choice menu.
    pub fn clear_choices(&mut self)
        ensures
            *final(self) == (RenderState { choices: None, ..*old(self) }),
    {
        self.choices = None;
    }
}

/// A command of the script runtime, as the host executes it.
#[derive(Debug, Clone)]
pub enum HostCommand {
    ShowBackground { path: String, transition: Option<TransitionSpec> },
    ChangeScene { path: String, transition: Option<TransitionSpec> },
    ShowCharacter {
        path: String,
        alias: String,
        position: StagePosition,
        transition: Option<TransitionSpec>,
    },
    HideCharacter { alias: String, transition: Option<TransitionSpec> },
    ShowText {
        speaker: Option<String>,
        content: String,
        inline_effects: Vec<InlineEffect>,
        no_wait: bool,
    },
    ExtendText { content: String, inline_effects: Vec<InlineEffect>, no_wait: bool },
    PresentChoices { choices: Vec<ChoiceItem>, style: Option<String> },
    ChapterMark { title: String, level: u8 },
    PlayBgm { path: String, looping: bool },
    /// Stop the music, fading out over the given seconds (`f32` bits).
    StopBgm { fade_out_bits: Option<u32> },
    BgmDuck,
    BgmUnduck,
    PlaySfx { path: String },
    TextBoxHide,
    TextBoxShow,
    TextBoxClear,
    ClearCharacters,
    SceneEffect { name: String, args: Vec<EffectArg> },
    /// A title card shown for the given seconds (`f32` bits).
    TitleCard { text: String, duration_bits: u32 },
    SetTextMode(TextMode),
    Cutscene { path: String },
    FullRestart,
    RequestUI { key: String, mode: String, params: Vec<(String, VarValue)> },
}

/// An instruction for the host's audio layer (lengths as `f32` bits).
#[derive(Debug, Clone)]
pub enum AudioCommand {
    PlayBgm { path: String, looping: bool, fade_in_bits: Option<u32> },
    StopBgm { fade_out_bits: Option<u32> },
    BgmDuck,
    BgmUnduck,
    PlaySfx { path: String },
}

/// What one command hands the host besides the render state.
#[derive(Debug, Clone)]
pub struct CommandOutput {
    pub audio_command: Option<AudioCommand>,
    pub scene_effect_request: Option<SceneEffectRequest>,
}

/// The audio instruction a command gives, if any.
pub open spec fn audio_of(cmd: HostCommand) -> Option<AudioCommand> {
    match cmd {
        HostCommand::PlayBgm { path, looping } => Some(
            AudioCommand::PlayBgm { path, looping, fade_in_bits: None },
        ),
        HostCommand::StopBgm { fade_out_bits } => Some(AudioCommand::StopBgm { fade_out_bits }),
        HostCommand::BgmDuck => Some(AudioCommand::BgmDuck),
        HostCommand::BgmUnduck => Some(AudioCommand::BgmUnduck),
        HostCommand::PlaySfx { path } => Some(AudioCommand::PlaySfx { path }),
        _ => None,
    }
}

/// The scene effect a command asks for, if any.
pub open spec fn effect_of(cmd: HostCommand) -> Option<SceneEffectRequest> {
    match cmd {
        HostCommand::SceneEffect { name, args } => Some(effect_request(name@, args@)),
        _ => None,
    }
}

/// What the host waits for after a command: a click after text, a choice
/// after a menu, the video after a cutscene, a restart, a UI result;
/// otherwise it goes on.
pub open spec fn result_of(cmd: HostCommand) -> ExecuteResult {
    match cmd {
        HostCommand::ShowText { .. } | HostCommand::ExtendText { .. } => ExecuteResult::WaitForClick,
        HostCommand::PresentChoices { choices, .. } => ExecuteResult::WaitForChoice {
            choice_count: choices@.len() as usize,
        },
        HostCommand::Cutscene { path } => ExecuteResult::WaitForCutscene { video_path: path },
        HostCommand::FullRestart => ExecuteResult::FullRestart,
        HostCommand::RequestUI { key, mode, params } => ExecuteResult::RequestUI { key, mode, params },
        _ => ExecuteResult::Continue,
    }
}

/// `old` with `path` as the background, cross-faded from the old one over
/// `d`.
pub open spec fn crossfaded(old: RenderState, path: String, d: u32) -> RenderState {
    RenderState {
        background_transition: Some(
            BackgroundTransition {
                old_background: old.current_background,
                new_background: path,
                duration_bits: d,
            },
        ),
        current_background: Some(path),
        ..old
    }
}

/// `old` with a full-screen change to `path` starting (fading in over `d`).
pub open spec fn covered(old: RenderState, path: String, kind: SceneTransitionKind, d: u32) -> RenderState {
    RenderState {
        scene_transition: Some(
            SceneTransition {
                transition_type: kind,
                phase: SceneTransitionPhaseState::FadeIn,
                duration_bits: d,
                pending_background: Some(path),
            },
        ),
        ..old
    }
}

/// The stage after a background is shown: a transition other than `none`
/// cross-fades.
pub open spec fn background_shown(old: RenderState, path: String, t: Option<TransitionSpec>) -> RenderState {
    match t {
        Some(t) => if transition_kind(t) is Instant {
            RenderState { current_background: Some(path), ..old }
        } else {
            crossfaded(old, path, transition_duration(t))
        },
        None => RenderState { current_background: Some(path), ..old },
    }
}

/// The stage after a scene change: dissolve and move cross-fade the
/// background; fade, fade-to-white and rule cover the screen first and
/// leave the background pending; `none` (or no transition) swaps it.
pub open spec fn scene_changed(
    old: RenderState,
    new: RenderState,
    path: String,
    t: Option<TransitionSpec>,
) -> bool {
    match t {
        None => new == RenderState { current_background: Some(path), ..old },
        Some(t) => {
            let d = transition_duration(t);
            match transition_kind(t) {
                TransitionKind::Dissolve | TransitionKind::Move => new == crossfaded(old, path, d),
                TransitionKind::Fade => new == covered(old, path, SceneTransitionKind::Fade, d),
                TransitionKind::FadeWhite => new == covered(
                    old,
                    path,
                    SceneTransitionKind::FadeWhite,
                    d,
                ),
                TransitionKind::Rule => new.scene_transition matches Some(st)
                    && st.transition_type matches SceneTransitionKind::Rule { mask_path, reversed }
                    && mask_path@ == rule_mask(t) && reversed == (t.reversed == Some(true)) && new
                    == covered(old, path, st.transition_type, d),
                TransitionKind::Instant => new == RenderState { current_background: Some(path), ..old },
            }
        },
    }
}

/// A character already on stage shown again: it takes the new image and
/// place and heads for full opacity. Moving with a `move` transition
/// slides; moving with the same image snaps into place, shown; a `none`
/// transition shows it at once; otherwise it fades over the transition.
pub open spec fn restaged_sprite(
    c: CharacterSprite,
    path: String,
    position: StagePosition,
    kind: TransitionKind,
    d: u32,
) -> CharacterSprite {
    let moved = c.position != position;
    let (alpha, dur) = if moved && kind == TransitionKind::Move {
        (c.alpha_bits, Some(d))
    } else if c.texture_path@ == path@ && moved {
        (ONE_BITS, None)
    } else if kind == TransitionKind::Instant {
        (ONE_BITS, None)
    } else {
        (c.alpha_bits, Some(d))
    };
    CharacterSprite {
        texture_path: path,
        position,
        alpha_bits: alpha,
        transition_duration_bits: dur,
        target_alpha_bits: ONE_BITS,
        ..c
    }
}

/// A character new on stage: shown at once with `none`, else fading in
/// from transparent over the transition.
pub open spec fn entering_sprite(path: String, position: StagePosition, kind: TransitionKind, d: u32) -> CharacterSprite {
    if kind == TransitionKind::Instant {
        placed_sprite(path, position)
    } else {
        CharacterSprite { alpha_bits: ZERO_BITS, transition_duration_bits: Some(d), ..placed_sprite(path, position) }
    }
}

/// The characters after one is shown.
pub open spec fn characters_shown(
    s: Seq<(String, CharacterSprite)>,
    alias: String,
    path: String,
    position: StagePosition,
    kind: TransitionKind,
    d: u32,
) -> Seq<(String, CharacterSprite)> {
    match alias_index(s, alias@) {
        Some(i) => s.update(i, (s[i].0, restaged_sprite(s[i].1, path, position, kind, d))),
        None => s.push((alias, entering_sprite(path, position, kind, d))),
    }
}

/// The characters after one is hidden: with a transition it fades out
/// (and stays listed until the fade ends); without, it leaves at once.
pub open spec fn characters_hidden(
    s: Seq<(String, CharacterSprite)>,
    alias: Seq<char>,
    t: Option<TransitionSpec>,
) -> Seq<(String, CharacterSprite)> {
    match t {
        Some(t) => match alias_index(s, alias) {
            Some(i) => s.update(
                i,
                (
                    s[i].0,
                    CharacterSprite {
                        transition_duration_bits: Some(transition_duration(t)),
                        target_alpha_bits: ZERO_BITS,
                        fading_out: true,
                        ..s[i].1
                    },
                ),
            ),
            None => s,
        },
        None => characters_without(s, alias),
    }
}

/// `new` differs from `old` in its text alone.
pub open spec fn with_text(new: RenderState, old: RenderState) -> bool {
    RenderState { text: old.text, ..new } == old
}

/// A line starting to be revealed.
pub open spec fn fresh_line(
    speaker: Option<String>,
    content: String,
    inline_effects: Vec<InlineEffect>,
    no_wait: bool,
) -> DialogueState {
    DialogueState {
        speaker,
        content,
        visible_chars: 0,
        is_complete: false,
        inline_effects,
        no_wait,
        inline_wait: None,
        effective_cps: None,
    }
}

/// What executing `cmd` does to the stage.
pub open spec fn executed(old: RenderState, new: RenderState, cmd: HostCommand) -> bool {
    match cmd {
        HostCommand::ShowBackground { path, transition } => new == background_shown(old, path, transition),
        HostCommand::ChangeScene { path, transition } => scene_changed(old, new, path, transition),
        HostCommand::ShowCharacter { path, alias, position, transition } => with_characters(
            new,
            old,
            characters_shown(
                old.visible_characters@,
                alias,
                path,
                position,
                optional_transition(transition).0,
                optional_transition(transition).1,
            ),
        ),
        HostCommand::HideCharacter { alias, transition } => with_characters(
            new,
            old,
            characters_hidden(old.visible_characters@, alias@, transition),
        ),
        HostCommand::ShowText { speaker, content, inline_effects, no_wait } => {
            &&& with_text(new, old)
            &&& new.text.dialogue == Some(fresh_line(speaker, content, inline_effects, no_wait))
            &&& if old.text_mode == TextMode::NVL {
                new.text.nvl_entries@ == old.text.nvl_entries@.push(
                    NvlEntry { speaker, content, visible_chars: 0, is_complete: false },
                )
            } else {
                new.text.nvl_entries == old.text.nvl_entries
            }
        },
        HostCommand::ExtendText { content, inline_effects, no_wait } => {
            &&& with_text(new, old)
            &&& line_extended(new.text.dialogue, old.text.dialogue, content@, inline_effects@, no_wait)
            &&& new.text.nvl_entries == old.text.nvl_entries
        },
        HostCommand::PresentChoices { choices, style } => new == (RenderState {
            text: TextDisplay { dialogue: None, ..old.text },
            choices: Some(ChoicesState { choices, style, selected_index: 0, hovered_index: None }),
            ..old
        }),
        HostCommand::ChapterMark { title, level } => new == (RenderState {
            chapter_mark: Some(
                ChapterMarkState {
                    title,
                    level,
                    alpha_bits: ZERO_BITS,
                    timer_bits: ZERO_BITS,
                    phase: ChapterMarkPhase::FadeIn,
                },
            ),
            ..old
        }),
        HostCommand::TextBoxHide => new == (RenderState { ui_visible: false, ..old }),
        HostCommand::TextBoxShow => new == (RenderState { ui_visible: true, ..old }),
        HostCommand::TextBoxClear => new == (RenderState {
            text: TextDisplay { dialogue: None, ..old.text },
            ..old
        }),
        HostCommand::ClearCharacters => with_characters(new, old, Seq::empty()),
        HostCommand::TitleCard { text, duration_bits } => new == (RenderState {
            title_card: Some(TitleCardState { text, duration_bits, elapsed_bits: ZERO_BITS }),
            ..old
        }),
        HostCommand::SetTextMode(mode) => {
            &&& (RenderState { text: old.text, text_mode: old.text_mode, ..new }) == old
            &&& new.text_mode == mode
            &&& new.text.dialogue == old.text.dialogue
            &&& if mode == TextMode::ADV {
                new.text.nvl_entries@.len() == 0
            } else {
                new.text.nvl_entries == old.text.nvl_entries
            }
        },
        _ => new == old,
    }
}

/// The command can run on a stage whose line is `d`: appended effects
/// still have positions that fit in a `usize`.
pub open spec fn command_fits(cmd: HostCommand, d: Option<DialogueState>) -> bool {
    cmd matches HostCommand::ExtendText { inline_effects, .. } ==> extension_fits(d, inline_effects@)
}

/// What a batch of commands hands back: what the host waits for, the audio
/// instructions in order, and the last scene effect.
#[derive(Debug)]
pub struct BatchOutput {
    pub result: ExecuteResult,
    pub audio_commands: Vec<AudioCommand>,
    pub scene_effect_request: Option<SceneEffectRequest>,
}

/// The last result of the batch that is not [`ExecuteResult::Continue`].
pub open spec fn batch_result(cmds: Seq<HostCommand>) -> ExecuteResult
    decreases cmds.len(),
{
    if cmds.len() == 0 {
        ExecuteResult::Continue
    } else if result_of(cmds.last()) is Continue {
        batch_result(cmds.drop_last())
    } else {
        result_of(cmds.last())
    }
}

/// The audio instructions of the batch, in order.
pub open spec fn batch_audio(cmds: Seq<HostCommand>) -> Seq<AudioCommand>
    decreases cmds.len(),
{
    if cmds.len() == 0 {
        Seq::empty()
    } else {
        match audio_of(cmds.last()) {
            Some(a) => batch_audio(cmds.drop_last()).push(a),
            None => batch_audio(cmds.drop_last()),
        }
    }
}

/// The last scene effect of the batch.
pub open spec fn batch_effect(cmds: Seq<HostCommand>) -> Option<SceneEffectRequest>
    decreases cmds.len(),
{
    if cmds.len() == 0 {
        None
    } else {
        match effect_of(cmds.last()) {
            Some(e) => Some(e),
            None => batch_effect(cmds.drop_last()),
        }
    }
}

/// `states` are the stages the commands pass through: each command takes
/// its stage to the next.
pub open spec fn runs_through(states: Seq<RenderState>, cmds: Seq<HostCommand>) -> bool {
    &&& states.len() == cmds.len() + 1
    &&& forall|i: int| 0 <= i < cmds.len() ==> executed(states[i], states[i + 1], #[trigger] cmds[i])
}

/// The commands run one after another take the stage from `old` to `new`.
pub open spec fn executed_all(old: RenderState, new: RenderState, cmds: Seq<HostCommand>) -> bool {
    exists|states: Seq<RenderState>|
        #[trigger] runs_through(states, cmds) && states[0] == old && states.last() == new
}

/// The length of the current line (0 when there is none).
pub open spec fn line_len(d: Option<DialogueState>) -> int {
    match d {
        Some(d) => d.content@.len() as int,
        None => 0,
    }
}

/// The text a command adds to the line.
pub open spec fn command_text(cmd: HostCommand) -> int {
    match cmd {
        HostCommand::ShowText { content, .. } => content@.len() as int,
        HostCommand::ExtendText { content, .. } => content@.len() as int,
        _ => 0,
    }
}

/// All the text the commands add to the line.
pub open spec fn batch_text(cmds: Seq<HostCommand>) -> int
    decreases cmds.len(),
{
    if cmds.len() == 0 {
        0
    } else {
        batch_text(cmds.drop_last()) + command_text(cmds.last())
    }
}

/// Every appended effect fits in a `usize` however long the line grows in
/// the batch.
pub open spec fn batch_fits(old: RenderState, cmds: Seq<HostCommand>) -> bool {
    forall|k: int|
        0 <= k < cmds.len() ==> (#[trigger] cmds[k] matches HostCommand::ExtendText {
            inline_effects,
            ..
        } ==> forall|j: int|
            0 <= j < inline_effects@.len() ==> (#[trigger] inline_effects@[j]).position + line_len(
                old.text.dialogue,
            ) + batch_text(cmds) <= usize::MAX)
}

proof fn lemma_line_growth(old: RenderState, new: RenderState, cmd: HostCommand)
    requires
        executed(old, new, cmd),
    ensures
        line_len(new.text.dialogue) <= line_len(old.text.dialogue) + command_text(cmd),
{
    match cmd {
        HostCommand::ShowCharacter { .. } | HostCommand::HideCharacter { .. }
        | HostCommand::ClearCharacters => {
            assert(new.text == old.text);
        },
        HostCommand::ChangeScene { path, transition } => {
            assert(new.text == old.text);
        },
        _ => {},
    }
}

proof fn lemma_fits_step(start: RenderState, prev: RenderState, all: Seq<HostCommand>, k: int)
    requires
        batch_fits(start, all),
        0 <= k < all.len(),
        line_len(prev.text.dialogue) <= line_len(start.text.dialogue) + batch_text(all),
    ensures
        command_fits(all[k], prev.text.dialogue),
{
    if let HostCommand::ExtendText { inline_effects, .. } = all[k] {
        if let Some(d) = prev.text.dialogue {
            assert forall|j: int| 0 <= j < inline_effects@.len() implies (
            #[trigger] inline_effects@[j]).position + d.content@.len() <= usize::MAX by {
                assert(all[k] matches HostCommand::ExtendText { .. });
            }
        }
    }
}

proof fn lemma_batch_text_prefix(s: Seq<HostCommand>, k: int)
    requires
        0 <= k <= s.len(),
    ensures
        batch_text(s.take(k)) <= batch_text(s),
        0 <= batch_text(s.take(k)),
    decreases s.len() - k,
{
    if k < s.len() {
        lemma_batch_text_prefix(s, k + 1);
        assert(s.take(k + 1).drop_last() =~= s.take(k));
    } else {
        assert(s.take(k) =~= s);
    }
    lemma_batch_text_nonneg(s.take(k));
}

proof fn lemma_batch_text_nonneg(s: Seq<HostCommand>)
    ensures
        0 <= batch_text(s),
    decreases s.len(),
{
    if s.len() > 0 {
        lemma_batch_text_nonneg(s.drop_last());
    }
}

/// Hiding, without a transition, a character that was just placed on a
/// stage that did not show it gives back the characters as they were.
pub proof fn law_hide_undoes_show(
    s: Seq<(String, CharacterSprite)>,
    alias: String,
    path: String,
    position: StagePosition,
    kind: TransitionKind,
    d: u32,
)
    requires
        distinct_aliases(s),
        alias_index(s, alias@) is None,
    ensures
        characters_hidden(characters_shown(s, alias, path, position, kind, d), alias@, None) == s,
{
    let e = (alias, entering_sprite(path, position, kind, d));
    let t = s.push(e);
    lemma_push_keeps_distinct(s, e);
    lemma_alias_index(t, alias@, s.len() as int);
    assert(t.remove(s.len() as int) =~= s);
}

/// A batch of one command changes the stage exactly as executing that
/// command does.
pub proof fn law_single_batch(old: RenderState, new: RenderState, cmd: HostCommand)
    ensures
        executed_all(old, new, seq![cmd]) <==> executed(old, new, cmd),
{
    let cmds = seq![cmd];
    if executed(old, new, cmd) {
        let states = seq![old, new];
        assert(runs_through(states, cmds));
    }
    if executed_all(old, new, cmds) {
        let states = choose|states: Seq<RenderState>|
            #[trigger] runs_through(states, cmds) && states[0] == old && states.last() == new;
        assert(executed(states[0], states[1], cmds[0]));
    }
}

/// The transition names are different words.
proof fn lemma_transition_names_distinct()
    ensures
        "dissolve"@ != "fade"@,
        "dissolve"@ != "fadewhite"@,
        "dissolve"@ != "move"@,
        "dissolve"@ != "slide"@,
        "dissolve"@ != "none"@,
        "dissolve"@ != "rule"@,
        "fade"@ != "fadewhite"@,
        "fade"@ != "move"@,
        "fade"@ != "slide"@,
        "fade"@ != "none"@,
        "fade"@ != "rule"@,
        "fadewhite"@ != "move"@,
        "fadewhite"@ != "slide"@,
        "fadewhite"@ != "none"@,
        "fadewhite"@ != "rule"@,
        "move"@ != "slide"@,
        "move"@ != "none"@,
        "move"@ != "rule"@,
        "slide"@ != "none"@,
        "slide"@ != "rule"@,
        "none"@ != "rule"@,
{
    reveal_strlit("dissolve");
    reveal_strlit("fade");
    reveal_strlit("fadewhite");
    reveal_strlit("move");
    reveal_strlit("slide");
    reveal_strlit("none");
    reveal_strlit("rule");
    assert("dissolve"@.len() == 8 && "dissolve"@[0] == 'd');
    assert("fade"@.len() == 4 && "fade"@[0] == 'f');
    assert("fadewhite"@.len() == 9 && "fadewhite"@[0] == 'f');
    assert("move"@.len() == 4 && "move"@[0] == 'm');
    assert("slide"@.len() == 5 && "slide"@[0] == 's');
    assert("none"@.len() == 4 && "none"@[0] == 'n');
    assert("rule"@.len() == 4 && "rule"@[0] == 'r');
}

/// A scene change with a dissolve or a move cross-fades at once: the new
/// background is shown, a background transition runs from the old
/// background to it over the stated length (0.3 s when none is stated),
/// no full-screen transition starts, and nothing else on stage changes.
pub proof fn law_scene_change_crossfades(
    old: RenderState,
    new: RenderState,
    path: String,
    t: TransitionSpec,
)
    requires
        unicode_lowercase(t.name@) == "dissolve"@ || unicode_lowercase(t.name@) == "move"@
            || unicode_lowercase(t.name@) == "slide"@,
        executed(old, new, HostCommand::ChangeScene { path, transition: Some(t) }),
    ensures
        new == (RenderState {
            current_background: Some(path),
            background_transition: Some(
                BackgroundTransition {
                    old_background: old.current_background,
                    new_background: path,
                    duration_bits: match t.duration_bits {
                        Some(b) => b,
                        None => 0x3e99_999a,
                    },
                },
            ),
            ..old
        }),
        new.scene_transition == old.scene_transition,
{
    lemma_transition_names_distinct();
}

/// A scene change with a fade (to black or to white) or a rule transition
/// covers the screen first: the background stays as it was until the
/// cover is complete, the new one waits as pending, the cover starts
/// fading in over the stated length (0.5 s when none is stated), and no
/// background cross-fade starts.
pub proof fn law_scene_change_covers(old: RenderState, new: RenderState, path: String, t: TransitionSpec)
    requires
        unicode_lowercase(t.name@) == "fade"@ || unicode_lowercase(t.name@) == "fadewhite"@
            || unicode_lowercase(t.name@) == "rule"@,
        executed(old, new, HostCommand::ChangeScene { path, transition: Some(t) }),
    ensures
        new.current_background == old.current_background,
        new.background_transition == old.background_transition,
        new.scene_transition matches Some(st) && st.phase == SceneTransitionPhaseState::FadeIn
            && st.pending_background == Some(path) && st.duration_bits == match t.duration_bits {
            Some(b) => b,
            None => 0x3f00_0000u32,
        },
        unicode_lowercase(t.name@) == "fade"@ ==> new.scene_transition->0.transition_type
            is Fade,
        unicode_lowercase(t.name@) == "fadewhite"@ ==> new.scene_transition->0.transition_type
            is FadeWhite,
        unicode_lowercase(t.name@) == "rule"@ ==> (new.scene_transition->0.transition_type matches SceneTransitionKind::Rule { mask_path, reversed }
            && mask_path@ == rule_mask(t) && reversed == (t.reversed == Some(true))),
        new.visible_characters == old.visible_characters,
        new.text == old.text,
{
    lemma_transition_names_distinct();
}

/// A scene change with no transition, or with `none`, just shows the new
/// background: no transition of either kind starts.
pub proof fn law_scene_change_instant(
    old: RenderState,
    new: RenderState,
    path: String,
    t: Option<TransitionSpec>,
)
    requires
        t matches Some(t) ==> unicode_lowercase(t.name@) == "none"@,
        executed(old, new, HostCommand::ChangeScene { path, transition: t }),
    ensures
        new == (RenderState { current_background: Some(path), ..old }),
{
    lemma_transition_names_distinct();
}

/// Showing a background with any transition other than `none` cross-fades
/// from the old background over the transition's length; without one, or
/// with `none`, the background is swapped with no transition.
pub proof fn law_show_background(
    old: RenderState,
    new: RenderState,
    path: String,
    t: Option<TransitionSpec>,
)
    requires
        executed(old, new, HostCommand::ShowBackground { path, transition: t }),
    ensures
        new.current_background == Some(path),
        new.scene_transition == old.scene_transition,
        new.visible_characters == old.visible_characters,
        match t {
            Some(t) => if unicode_lowercase(t.name@) == "none"@ {
                new.background_transition == old.background_transition
            } else {
                new.background_transition == Some(
                    BackgroundTransition {
                        old_background: old.current_background,
                        new_background: path,
                        duration_bits: transition_duration(t),
                    },
                )
            },
            None => new.background_transition == old.background_transition,
        },
{
    lemma_transition_names_distinct();
}

/// Transition lengths: `none` takes no time; a stated length is used by
/// every other kind; otherwise fades and rule transitions take 0.5 s and
/// the rest 0.3 s.
pub proof fn law_transition_lengths(t: TransitionSpec)
    ensures
        unicode_lowercase(t.name@) == "none"@ ==> transition_duration(t) == 0u32,
        t.duration_bits matches Some(b) ==> (unicode_lowercase(t.name@) != "none"@
            ==> transition_duration(t) == b),
        t.duration_bits is None && (unicode_lowercase(t.name@) == "fade"@ || unicode_lowercase(
            t.name@,
        ) == "fadewhite"@ || unicode_lowercase(t.name@) == "rule"@) ==> transition_duration(t)
            == 0x3f00_0000u32,
        t.duration_bits is None && unicode_lowercase(t.name@) != "none"@ && unicode_lowercase(
            t.name@,
        ) != "fade"@ && unicode_lowercase(t.name@) != "fadewhite"@ && unicode_lowercase(t.name@)
            != "rule"@ ==> transition_duration(t) == 0x3e99_999au32,
{
    lemma_transition_names_distinct();
}

/// Showing a character: a character already on stage keeps its place in
/// the list and its alias, takes the new image and place, and heads for
/// full opacity; moving it with a `move` (or `slide`) transition slides it
/// over the transition's length at its current opacity, moving it with
/// the same image otherwise snaps it into place fully shown, and a `none`
/// transition (or none at all) shows it fully at once. A character new on
/// stage is added at the end, fading in from transparent over the
/// transition's length, or fully shown at once with `none`. Every other
/// character stays as it was.
pub proof fn law_show_character(
    old: RenderState,
    new: RenderState,
    path: String,
    alias: String,
    position: StagePosition,
    t: Option<TransitionSpec>,
)
    requires
        old.wf(),
        executed(old, new, HostCommand::ShowCharacter { path, alias, position, transition: t }),
    ensures
        ({
            let s = old.visible_characters@;
            let n = new.visible_characters@;
            let instant = t is None || unicode_lowercase(t->0.name@) == "none"@;
            let sliding = t is Some && (unicode_lowercase(t->0.name@) == "move"@ || unicode_lowercase(
                t->0.name@,
            ) == "slide"@);
            let d = transition_duration(t->0);
            match alias_index(s, alias@) {
                Some(i) => {
                    &&& n.len() == s.len()
                    &&& forall|j: int| 0 <= j < s.len() && j != i ==> n[j] == s[j]
                    &&& n[i].0 == s[i].0
                    &&& n[i].1.texture_path == path
                    &&& n[i].1.position == position
                    &&& n[i].1.target_alpha_bits == 0x3f80_0000u32
                    &&& n[i].1.fading_out == s[i].1.fading_out
                    &&& (s[i].1.position != position && sliding) ==> (n[i].1.transition_duration_bits
                        == Some(d) && n[i].1.alpha_bits == s[i].1.alpha_bits)
                    &&& (s[i].1.position != position && !sliding && s[i].1.texture_path@ == path@)
                        ==> (n[i].1.transition_duration_bits is None && n[i].1.alpha_bits
                        == 0x3f80_0000u32)
                    &&& (!(s[i].1.position != position && (sliding || s[i].1.texture_path@
                        == path@)) && instant) ==> (n[i].1.transition_duration_bits is None
                        && n[i].1.alpha_bits == 0x3f80_0000u32)
                    &&& (!(s[i].1.position != position && (sliding || s[i].1.texture_path@
                        == path@)) && !instant) ==> (n[i].1.transition_duration_bits == Some(d)
                        && n[i].1.alpha_bits == s[i].1.alpha_bits)
                },
                None => {
                    &&& n.len() == s.len() + 1
                    &&& n.drop_last() == s
                    &&& n.last().0 == alias
                    &&& n.last().1.texture_path == path
                    &&& n.last().1.position == position
                    &&& !n.last().1.fading_out
                    &&& n.last().1.target_alpha_bits == 0x3f80_0000u32
                    &&& instant ==> (n.last().1.alpha_bits == 0x3f80_0000u32
                        && n.last().1.transition_duration_bits is None)
                    &&& !instant ==> (n.last().1.alpha_bits == 0u32
                        && n.last().1.transition_duration_bits == Some(d))
                },
            }
        }),
        new.current_background == old.current_background,
        new.text == old.text,
{
    lemma_transition_names_distinct();
    let s = old.visible_characters@;
    if let Some(i) = alias_index(s, alias@) {
        assert(new.visible_characters@ == s.update(
            i,
            (s[i].0, restaged_sprite(s[i].1, path, position, optional_transition(t).0, optional_transition(t).1)),
        ));
    } else {
        assert(new.visible_characters@.drop_last() =~= s);
    }
}

/// Hiding a character with a transition fades it out over the
/// transition's length (it stays listed, marked as leaving, heading for
/// transparency); without one it leaves the stage at once. A character not
/// on stage changes nothing, and every other character stays as it was.
pub proof fn law_hide_character(old: RenderState, new: RenderState, alias: String, t: Option<TransitionSpec>)
    requires
        old.wf(),
        executed(old, new, HostCommand::HideCharacter { alias, transition: t }),
    ensures
        ({
            let s = old.visible_characters@;
            let n = new.visible_characters@;
            match alias_index(s, alias@) {
                None => n == s,
                Some(i) => match t {
                    None => n == s.remove(i) && forall|j: int|
                        0 <= j < n.len() ==> (#[trigger] n[j]).0@ != alias@,
                    Some(t) => {
                        &&& n.len() == s.len()
                        &&& forall|j: int| 0 <= j < s.len() && j != i ==> n[j] == s[j]
                        &&& n[i].0 == s[i].0
                        &&& n[i].1.fading_out
                        &&& n[i].1.target_alpha_bits == 0u32
                        &&& n[i].1.transition_duration_bits == Some(transition_duration(t))
                        &&& n[i].1.texture_path == s[i].1.texture_path
                        &&& n[i].1.alpha_bits == s[i].1.alpha_bits
                    },
                },
            }
        }),
        new.current_background == old.current_background,
        new.text == old.text,
{
    let s = old.visible_characters@;
    if let Some(i) = alias_index(s, alias@) {
        if t is None {
            let n = new.visible_characters@;
            assert forall|j: int| 0 <= j < n.len() implies (#[trigger] n[j]).0@ != alias@ by {
                let jj = if j < i { j } else { j + 1 };
                assert(n[j] == s[jj]);
                assert(s[i].0@ == alias@);
            }
        }
    }
}

/// What the host waits for after each command: a click after showing or
/// extending text, a choice among exactly the offered number of choices
/// after a menu, the named video after a cutscene, a restart after a full
/// restart, the requested UI (with its key, mode and parameters) after a
/// UI request; after any other command it goes on. Only the five audio
/// commands give an audio instruction (the music ones carry their path and
/// looping, with no fade-in), and only a scene-effect command asks for an
/// effect.
pub proof fn law_command_outputs(cmd: HostCommand)
    ensures
        (cmd is ShowText || cmd is ExtendText) <==> result_of(cmd) == ExecuteResult::WaitForClick,
        cmd matches HostCommand::PresentChoices { choices, .. } ==> result_of(cmd)
            == (ExecuteResult::WaitForChoice { choice_count: choices@.len() as usize }),
        cmd matches HostCommand::Cutscene { path } ==> result_of(cmd)
            == (ExecuteResult::WaitForCutscene { video_path: path }),
        cmd is FullRestart <==> result_of(cmd) == ExecuteResult::FullRestart,
        cmd matches HostCommand::RequestUI { key, mode, params } ==> result_of(cmd)
            == (ExecuteResult::RequestUI { key, mode, params }),
        !(cmd is ShowText || cmd is ExtendText || cmd is PresentChoices || cmd is Cutscene
            || cmd is FullRestart || cmd is RequestUI) <==> result_of(cmd) == ExecuteResult::Continue,
        (cmd is PlayBgm || cmd is StopBgm || cmd is BgmDuck || cmd is BgmUnduck || cmd is PlaySfx)
            <==> audio_of(cmd) is Some,
        cmd matches HostCommand::PlayBgm { path, looping } ==> (audio_of(cmd) matches Some(
            AudioCommand::PlayBgm { path: p, looping: l, fade_in_bits },
        ) && p == path && l == looping && fade_in_bits is None),
        cmd matches HostCommand::StopBgm { fade_out_bits } ==> (audio_of(cmd) matches Some(
            AudioCommand::StopBgm { fade_out_bits: f },
        ) && f == fade_out_bits),
        cmd is BgmDuck ==> audio_of(cmd) matches Some(AudioCommand::BgmDuck),
        cmd is BgmUnduck ==> audio_of(cmd) matches Some(AudioCommand::BgmUnduck),
        cmd matches HostCommand::PlaySfx { path } ==> (audio_of(cmd) matches Some(
            AudioCommand::PlaySfx { path: p },
        ) && p == path),
        cmd is SceneEffect <==> effect_of(cmd) is Some,
{
}

/// The scene effects by name: a name with `blur` blurs (`out` unblurs)
/// over the first duration argument or 0.5 s; a name with `dim` dims to
/// the `level` argument (1 when absent) at once, or undims with `reset`;
/// any other name shakes over the first duration argument or 0.3 s, by 8
/// vertically for `vertical`, 5 vertically for `bounce`, else by 6 across
/// and 4 up and down.
pub proof fn law_scene_effects(name: Seq<char>, args: Seq<EffectArg>)
    ensures
        ({
            let n = unicode_lowercase(name);
            let r = effect_request(name, args);
            let d = first_duration(args);
            &&& contains_text(n, "blur"@) ==> (r.duration_bits == match d {
                Some(b) => b,
                None => 0x3f00_0000u32,
            } && (contains_text(n, "out"@) ==> r.kind == SceneEffectKind::BlurOut) && (
            !contains_text(n, "out"@) ==> r.kind == SceneEffectKind::Blur))
            &&& (!contains_text(n, "blur"@) && contains_text(n, "dim"@)) ==> (r.duration_bits == 0u32
                && (contains_text(n, "reset"@) ==> r.kind == SceneEffectKind::DimReset) && (
            !contains_text(n, "reset"@) ==> r.kind == (SceneEffectKind::Dim { level_bits: first_level(args) })))
            &&& (!contains_text(n, "blur"@) && !contains_text(n, "dim"@)) ==> (r.duration_bits
                == match d {
                Some(b) => b,
                None => 0x3e99_999au32,
            } && r.kind == if contains_text(n, "vertical"@) {
                SceneEffectKind::Shake { amplitude_x_bits: 0u32, amplitude_y_bits: 0x4100_0000u32 }
            } else if contains_text(n, "bounce"@) {
                SceneEffectKind::Shake { amplitude_x_bits: 0u32, amplitude_y_bits: 0x40a0_0000u32 }
            } else {
                SceneEffectKind::Shake { amplitude_x_bits: 0x40c0_0000u32, amplitude_y_bits: 0x4080_0000u32 }
            })
        }),
{
}

/// A copy of an optional text.
pub(crate) fn copy_text(o: &Option<String>) -> (r: Option<String>)
    ensures
        r == *o,
{
    match o {
        Some(s) => Some(s.clone()),
        None => None,
    }
}

/// The executor of runtime commands; it keeps what the last command handed
/// to the host.
#[derive(Debug)]
pub struct CommandExecutor {
    pub last_output: CommandOutput,
}

impl CommandExecutor {
    /// An executor with nothing handed out yet.
    pub fn new() -> (r: Self)
        ensures
            r.last_output.audio_command is None,
            r.last_output.scene_effect_request is None,
    {
        CommandExecutor { last_output: CommandOutput { audio_command: None, scene_effect_request: None } }
    }

    fn show_background(rs: &mut RenderState, path: String, transition: Option<TransitionSpec>)
        ensures
            *final(rs) == background_shown(*old(rs), path, transition),
    {
        match &transition {
            Some(t) => {
                let (kind, duration) = resolve_transition(t);
                if kind == TransitionKind::Instant {
                    rs.set_background(path);
                } else {
                    rs.background_transition = Some(
                        BackgroundTransition {
                            old_background: copy_text(&rs.current_background),
                            new_background: path.clone(),
                            duration_bits: duration,
                        },
                    );
                    rs.set_background(path);
                }
            },
            None => rs.set_background(path),
        }
    }

    fn change_scene(rs: &mut RenderState, path: String, transition: Option<TransitionSpec>)
        ensures
            scene_changed(*old(rs), *final(rs), path, transition),
    {
        match &transition {
            Some(t) => {
                let (kind, duration) = resolve_transition(t);
                match kind {
                    TransitionKind::Dissolve | TransitionKind::Move => {
                        rs.background_transition = Some(
                            BackgroundTransition {
                                old_background: copy_text(&rs.current_background),
                                new_background: path.clone(),
                                duration_bits: duration,
                            },
                        );
                        rs.set_background(path);
                    },
                    TransitionKind::Fade | TransitionKind::FadeWhite | TransitionKind::Rule => {
                        let transition_type = match kind {
                            TransitionKind::Fade => SceneTransitionKind::Fade,
                            TransitionKind::FadeWhite => SceneTransitionKind::FadeWhite,
                            _ => {
                                let mask_path = match &t.mask {
                                    Some(m) => m.clone(),
                                    None => String::new(),
                                };
                                let reversed = match t.reversed {
                                    Some(b) => b,
                                    None => false,
                                };
                                SceneTransitionKind::Rule { mask_path, reversed }
                            },
                        };
                        rs.scene_transition = Some(
                            SceneTransition {
                                transition_type,
                                phase: SceneTransitionPhaseState::FadeIn,
                                duration_bits: duration,
                                pending_background: Some(path),
                            },
                        );
                    },
                    TransitionKind::Instant => rs.set_background(path),
                }
            },
            None => rs.set_background(path),
        }
    }

    fn show_character(
        rs: &mut RenderState,
        path: String,
        alias: String,
        position: StagePosition,
        transition: Option<TransitionSpec>,
    )
        requires
            old(rs).wf(),
        ensures
            final(rs).wf(),
            with_characters(
                *final(rs),
                *old(rs),
                characters_shown(
                    old(rs).visible_characters@,
                    alias,
                    path,
                    position,
                    optional_transition(transition).0,
                    optional_transition(transition).1,
                ),
            ),
    {
        let (kind, duration) = match &transition {
            Some(t) => resolve_transition(t),
            None => (TransitionKind::Instant, ZERO_BITS),
        };
        match rs.find_character(alias.as_str()) {
            Some(i) => {
                let ghost s = rs.visible_characters@;
                let (key, mut c) = rs.visible_characters.remove(i);
                let is_position_change = c.position != position;
                let is_same_texture = c.texture_path == path;
                c.texture_path = path;
                c.position = position;
                c.target_alpha_bits = ONE_BITS;
                if is_position_change && kind == TransitionKind::Move {
                    c.transition_duration_bits = Some(duration);
                } else if is_same_texture && is_position_change {
                    c.transition_duration_bits = None;
                    c.alpha_bits = ONE_BITS;
                } else if kind == TransitionKind::Instant {
                    c.alpha_bits = ONE_BITS;
                    c.transition_duration_bits = None;
                } else {
                    c.transition_duration_bits = Some(duration);
                }
                rs.visible_characters.insert(i, (key, c));
                proof {
                    assert(rs.visible_characters@ =~= s.update(i as int, (s[i as int].0, c)));
                    lemma_update_keeps_distinct(s, i as int, c);
                }
            },
            None => {
                let sprite = if kind == TransitionKind::Instant {
                    CharacterSprite {
                        texture_path: path,
                        position,
                        z_order: 0,
                        fading_out: false,
                        alpha_bits: ONE_BITS,
                        offset_x_bits: ZERO_BITS,
                        offset_y_bits: ZERO_BITS,
                        scale_x_bits: ONE_BITS,
                        scale_y_bits: ONE_BITS,
                        transition_duration_bits: None,
                        target_alpha_bits: ONE_BITS,
                    }
                } else {
                    CharacterSprite {
                        texture_path: path,
                        position,
                        z_order: 0,
                        fading_out: false,
                        alpha_bits: ZERO_BITS,
                        offset_x_bits: ZERO_BITS,
                        offset_y_bits: ZERO_BITS,
                        scale_x_bits: ONE_BITS,
                        scale_y_bits: ONE_BITS,
                        transition_duration_bits: Some(duration),
                        target_alpha_bits: ONE_BITS,
                    }
                };
                proof {
                    lemma_push_keeps_distinct(rs.visible_characters@, (alias, sprite));
                }
                rs.visible_characters.push((alias, sprite));
            },
        }
    }

    fn hide_character(rs: &mut RenderState, alias: String, transition: Option<TransitionSpec>)
        requires
            old(rs).wf(),
        ensures
            final(rs).wf(),
            with_characters(
                *final(rs),
                *old(rs),
                characters_hidden(old(rs).visible_characters@, alias@, transition),
            ),
    {
        match &transition {
            Some(t) => {
                let (_, duration) = resolve_transition(t);
                match rs.find_character(alias.as_str()) {
                    Some(i) => {
                        let ghost s = rs.visible_characters@;
                        let (key, mut c) = rs.visible_characters.remove(i);
                        c.transition_duration_bits = Some(duration);
                        c.target_alpha_bits = ZERO_BITS;
                        c.fading_out = true;
                        rs.visible_characters.insert(i, (key, c));
                        proof {
                            assert(rs.visible_characters@ =~= s.update(i as int, (s[i as int].0, c)));
                            lemma_update_keeps_distinct(s, i as int, c);
                        }
                    },
                    None => {},
                }
            },
            None => rs.hide_character(alias.as_str()),
        }
    }

    /// Executes one command against the render state: the stage changes as
    /// [`executed`] says, the audio instruction and scene effect the
    /// command gives are kept in `last_output`, and the result says what
    /// the host waits for.
    pub fn execute(&mut self, cmd: HostCommand, rs: &mut RenderState) -> (r: ExecuteResult)
        requires
            old(rs).wf(),
            command_fits(cmd, old(rs).text.dialogue),
        ensures
            final(rs).wf(),
            executed(*old(rs), *final(rs), cmd),
            r == result_of(cmd),
            final(self).last_output.audio_command == audio_of(cmd),
            final(self).last_output.scene_effect_request == effect_of(cmd),
    {
        self.last_output = CommandOutput { audio_command: None, scene_effect_request: None };
        match cmd {
            HostCommand::ShowBackground { path, transition } => {
                Self::show_background(rs, path, transition);
                ExecuteResult::Continue
            },
            HostCommand::ChangeScene { path, transition } => {
                Self::change_scene(rs, path, transition);
                ExecuteResult::Continue
            },
            HostCommand::ShowCharacter { path, alias, position, transition } => {
                Self::show_character(rs, path, alias, position, transition);
                ExecuteResult::Continue
            },
            HostCommand::HideCharacter { alias, transition } => {
                Self::hide_character(rs, alias, transition);
                ExecuteResult::Continue
            },
            HostCommand::ShowText { speaker, content, inline_effects, no_wait } => {
                let entry_speaker = copy_text(&speaker);
                let entry_content = content.clone();
                rs.text.start_typewriter(speaker, content, inline_effects, no_wait);
                if rs.text_mode == TextMode::NVL {
                    rs.text.nvl_entries.push(
                        NvlEntry {
                            speaker: entry_speaker,
                            content: entry_content,
                            visible_chars: 0,
                            is_complete: false,
                        },
                    );
                }
                ExecuteResult::WaitForClick
            },
            HostCommand::ExtendText { content, inline_effects, no_wait } => {
                rs.text.extend_line(&content, &inline_effects, no_wait);
                ExecuteResult::WaitForClick
            },
            HostCommand::PresentChoices { choices, style } => {
                let count = choices.len();
                rs.text.clear_dialogue();
                rs.set_choices(choices, style);
                ExecuteResult::WaitForChoice { choice_count: count }
            },
            HostCommand::ChapterMark { title, level } => {
                rs.set_chapter_mark(title, level);
                ExecuteResult::Continue
            },
            HostCommand::PlayBgm { path, looping } => {
                self.last_output.audio_command = Some(
                    AudioCommand::PlayBgm { path, looping, fade_in_bits: None },
                );
                ExecuteResult::Continue
            },
            HostCommand::StopBgm { fade_out_bits } => {
                self.last_output.audio_command = Some(AudioCommand::StopBgm { fade_out_bits });
                ExecuteResult::Continue
            },
            HostCommand::BgmDuck => {
                self.last_output.audio_command = Some(AudioCommand::BgmDuck);
                ExecuteResult::Continue
            },
            HostCommand::BgmUnduck => {
                self.last_output.audio_command = Some(AudioCommand::BgmUnduck);
                ExecuteResult::Continue
            },
            HostCommand::PlaySfx { path } => {
                self.last_output.audio_command = Some(AudioCommand::PlaySfx { path });
                ExecuteResult::Continue
            },
            HostCommand::TextBoxHide => {
                rs.ui_visible = false;
                ExecuteResult::Continue
            },
            HostCommand::TextBoxShow => {
                rs.ui_visible = true;
                ExecuteResult::Continue
            },
            HostCommand::TextBoxClear => {
                rs.text.clear_dialogue();
                ExecuteResult::Continue
            },
            HostCommand::ClearCharacters => {
                rs.hide_all_characters();
                ExecuteResult::Continue
            },
            HostCommand::SceneEffect { name, args } => {
                self.last_output.scene_effect_request = Some(
                    SceneEffectRequest::from_command(name.as_str(), &args),
                );
                ExecuteResult::Continue
            },
            HostCommand::TitleCard { text, duration_bits } => {
                rs.title_card = Some(TitleCardState { text, duration_bits, elapsed_bits: ZERO_BITS });
                ExecuteResult::Continue
            },
            HostCommand::SetTextMode(mode) => {
                if mode == TextMode::ADV {
                    rs.text.nvl_entries.clear();
                }
                rs.text_mode = mode;
                ExecuteResult::Continue
            },
            HostCommand::Cutscene { path } => ExecuteResult::WaitForCutscene { video_path: path },
            HostCommand::FullRestart => ExecuteResult::FullRestart,
            HostCommand::RequestUI { key, mode, params } => ExecuteResult::RequestUI { key, mode, params },
        }
    }
    /// Executes the commands in order: the stage goes through each of them,
    /// the audio instructions are collected in order, the last scene effect
    /// is kept, and the result is the last one that is not `Continue`.
    pub fn execute_batch(&mut self, cmds: Vec<HostCommand>, rs: &mut RenderState) -> (r: BatchOutput)
        requires
            old(rs).wf(),
            batch_fits(*old(rs), cmds@),
        ensures
            final(rs).wf(),
            executed_all(*old(rs), *final(rs), cmds@),
            r.result == batch_result(cmds@),
            r.audio_commands@ == batch_audio(cmds@),
            r.scene_effect_request == batch_effect(cmds@),
    {
        let ghost all = cmds@;
        let ghost start = *rs;
        let ghost mut states: Seq<RenderState> = seq![*rs];
        let total = cmds.len();
        let mut rest = cmds;
        let mut final_result = ExecuteResult::Continue;
        let mut audio_commands: Vec<AudioCommand> = Vec::new();
        let mut scene_effect_request: Option<SceneEffectRequest> = None;
        let mut k: usize = 0;
        proof {
            assert(all.take(0) =~= Seq::<HostCommand>::empty());
            lemma_batch_text_prefix(all, 0);
        }
        while rest.len() > 0
            invariant
                k <= all.len() <= usize::MAX,
                rest@ == all.skip(k as int),
                rs.wf(),
                batch_fits(start, all),
                all.len() == total,
                runs_through(states, all.take(k as int)),
                states[0] == start,
                states.last() == *rs,
                final_result == batch_result(all.take(k as int)),
                audio_commands@ == batch_audio(all.take(k as int)),
                scene_effect_request == batch_effect(all.take(k as int)),
                line_len(rs.text.dialogue) <= line_len(start.text.dialogue) + batch_text(all.take(k as int)),
                batch_text(all.take(k as int)) <= batch_text(all),
            decreases rest.len(),
        {
            assert(k < all.len());
            let cmd = rest.remove(0);
            let ghost prev = *rs;
            proof {
                assert(cmd == all[k as int]);
                lemma_fits_step(start, prev, all, k as int);
            }
            let result = self.execute(cmd, rs);
            match self.last_output.audio_command.take() {
                Some(a) => audio_commands.push(a),
                None => {},
            }
            match self.last_output.scene_effect_request.take() {
                Some(e) => scene_effect_request = Some(e),
                None => {},
            }
            if !matches!(result, ExecuteResult::Continue) {
                final_result = result;
            }
            proof {
                let t = all.take(k + 1);
                assert(t.drop_last() =~= all.take(k as int));
                assert(t.last() == all[k as int]);
                let next = states.push(*rs);
                assert forall|i: int| 0 <= i < t.len() implies executed(
                    next[i],
                    next[i + 1],
                    #[trigger] t[i],
                ) by {
                    if i < k {
                        assert(t[i] == all.take(k as int)[i]);
                    }
                }
                states = next;
                lemma_line_growth(prev, *rs, all[k as int]);
                lemma_batch_text_prefix(all, k + 1);
                assert(rest@ =~= all.skip(k + 1));
            }
            k = k + 1;
        }
        proof {
            assert(all.take(k as int) =~= all);
            assert(runs_through(states, all) && states[0] == start && states.last() == *rs);
        }
        BatchOutput { result: final_result, audio_commands, scene_effect_request }
    }
}

} // verus!
