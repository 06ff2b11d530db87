//! Declarative screen behaviour: buttons, their actions, visibility conditions
//! and condition-dependent background assets.

use vstd::prelude::*;
use vstd::string::StringExecFns;
use crate::persistent::{PersistentStore, VarValue};
use crate::text::{has_prefix, to_chars, chars_equal_str, starts_with_chars, string_from_chars};

verus! {

// ── conditions ──────────────────────────────────────────────────────────────

/// A visibility / background-selection condition.
#[derive(Debug, Clone, PartialEq, Eq, Hash)]
pub enum ConditionDef {
    /// Always true.
    Always,
    /// A continue save exists.
    HasContinue,
    /// The persistent variable is truthy.
    PersistentVar(String),
    /// The persistent variable is not truthy.
    NotPersistentVar(String),
}

/// The abstract value of a condition, with variable names as text.
pub enum ConditionSpec {
    Always,
    HasContinue,
    PersistentVar(Seq<char>),
    NotPersistentVar(Seq<char>),
}

impl ConditionDef {
    /// The condition with its variable name as text.
    pub open spec fn spec_view(&self) -> ConditionSpec {
        match self {
            ConditionDef::Always => ConditionSpec::Always,
            ConditionDef::HasContinue => ConditionSpec::HasContinue,
            ConditionDef::PersistentVar(k) => ConditionSpec::PersistentVar(k@),
            ConditionDef::NotPersistentVar(k) => ConditionSpec::NotPersistentVar(k@),
        }
    }
}

pub open spec fn not_persistent_prefix() -> Seq<char> {
    "!$persistent."@
}

pub open spec fn persistent_prefix() -> Seq<char> {
    "$persistent."@
}

/// The condition written as `s`: `true` or empty is always; `$has_continue`;
/// `$persistent.K` and `!$persistent.K`; anything else is treated as always.
pub open spec fn condition_of(s: Seq<char>) -> ConditionSpec {
    if s == "true"@ || s.len() == 0 {
        ConditionSpec::Always
    } else if s == "$has_continue"@ {
        ConditionSpec::HasContinue
    } else if has_prefix(s, not_persistent_prefix()) {
        ConditionSpec::NotPersistentVar(s.skip(13))
    } else if has_prefix(s, persistent_prefix()) {
        ConditionSpec::PersistentVar(s.skip(12))
    } else {
        ConditionSpec::Always
    }
}

/// The characters of `v` from position `start` on, as a string.
fn tail_string(v: &Vec<char>, start: usize) -> (r: String)
    requires
        start <= v.len(),
    ensures
        r@ == v@.skip(start as int),
{
    let mut out: Vec<char> = Vec::new();
    let mut k: usize = start;
    while k < v.len()
        invariant
            start <= k <= v.len(),
            out@ == v@.subrange(start as int, k as int),
        decreases v.len() - k,
    {
        out.push(v[k]);
        k += 1;
        assert(v@.subrange(start as int, k as int) =~= v@.subrange(start as int, k - 1).push(
            v@[k - 1],
        ));
    }
    assert(out@ =~= v@.skip(start as int));
    string_from_chars(&out)
}

/// Parses condition text (see [`condition_of`]).
pub fn parse_condition(s: &str) -> (r: ConditionDef)
    ensures
        r.spec_view() == condition_of(s@),
{
    let v = to_chars(s);
    let not_prefix = to_chars("!$persistent.");
    let prefix = to_chars("$persistent.");
    proof {
        reveal_strlit("!$persistent.");
        reveal_strlit("$persistent.");
    }
    if chars_equal_str(&v, "true") || v.len() == 0 {
        ConditionDef::Always
    } else if chars_equal_str(&v, "$has_continue") {
        ConditionDef::HasContinue
    } else if starts_with_chars(&v, &not_prefix) {
        ConditionDef::NotPersistentVar(tail_string(&v, 13))
    } else if starts_with_chars(&v, &prefix) {
        ConditionDef::PersistentVar(tail_string(&v, 12))
    } else {
        ConditionDef::Always
    }
}

/// What conditions are evaluated against.
pub struct ConditionContext<'a> {
    pub has_continue: bool,
    pub persistent: &'a PersistentStore,
}

/// A persistent variable is truthy when it holds `true`.
pub open spec fn spec_is_var_truthy(vars: Map<Seq<char>, VarValue>, key: Seq<char>) -> bool {
    vars.contains_key(key) && vars[key] == VarValue::Bool(true)
}

/// The value of a condition given the continue flag and the persistent variables.
pub open spec fn condition_holds(
    c: ConditionSpec,
    has_continue: bool,
    vars: Map<Seq<char>, VarValue>,
) -> bool {
    match c {
        ConditionSpec::Always => true,
        ConditionSpec::HasContinue => has_continue,
        ConditionSpec::PersistentVar(k) => spec_is_var_truthy(vars, k),
        ConditionSpec::NotPersistentVar(k) => !spec_is_var_truthy(vars, k),
    }
}

/// Whether the persistent variable `key` holds `true`.
pub fn is_var_truthy(store: &PersistentStore, key: &str) -> (r: bool)
    requires
        store.wf(),
    ensures
        r == spec_is_var_truthy(store@, key@),
{
    match store.get(key) {
        Some(VarValue::Bool(b)) => *b,
        _ => false,
    }
}

impl ConditionDef {
    /// Evaluates the condition in the given context.
    pub fn evaluate(&self, ctx: &ConditionContext) -> (r: bool)
        requires
            ctx.persistent.wf(),
        ensures
            r == condition_holds(self.spec_view(), ctx.has_continue, ctx.persistent@),
    {
        match self {
            ConditionDef::Always => true,
            ConditionDef::HasContinue => ctx.has_continue,
            ConditionDef::PersistentVar(key) => is_var_truthy(ctx.persistent, key.as_str()),
            ConditionDef::NotPersistentVar(key) => !is_var_truthy(ctx.persistent, key.as_str()),
        }
    }
}

/// A negated variable condition holds exactly when the plain one does not.
pub proof fn lemma_not_persistent_var_inverts(
    key: Seq<char>,
    has_continue: bool,
    vars: Map<Seq<char>, VarValue>,
)
    ensures
        condition_holds(ConditionSpec::NotPersistentVar(key), has_continue, vars) == !condition_holds(
            ConditionSpec::PersistentVar(key),
            has_continue,
            vars,
        ),
{
}

// ── conditional assets ──────────────────────────────────────────────────────

/// An asset chosen when its condition holds (no condition: always).
#[derive(Debug, Clone)]
pub struct ConditionalAsset {
    pub when: Option<ConditionDef>,
    pub asset: String,
}

/// Whether the entry's condition passes.
pub open spec fn asset_passes(
    a: ConditionalAsset,
    has_continue: bool,
    vars: Map<Seq<char>, VarValue>,
) -> bool {
    match a.when {
        None => true,
        Some(c) => condition_holds(c.spec_view(), has_continue, vars),
    }
}

/// Index of the first entry whose condition passes.
pub open spec fn first_passing(
    assets: Seq<ConditionalAsset>,
    has_continue: bool,
    vars: Map<Seq<char>, VarValue>,
) -> Option<int>
    decreases assets.len(),
{
    if assets.len() == 0 {
        None
    } else if asset_passes(assets[0], has_continue, vars) {
        Some(0)
    } else {
        match first_passing(assets.drop_first(), has_continue, vars) {
            Some(i) => Some(i + 1),
            None => None,
        }
    }
}

proof fn lemma_first_passing(
    assets: Seq<ConditionalAsset>,
    has_continue: bool,
    vars: Map<Seq<char>, VarValue>,
    i: int,
)
    requires
        0 <= i <= assets.len(),
        forall|j: int| 0 <= j < i ==> !asset_passes(#[trigger] assets[j], has_continue, vars),
    ensures
        first_passing(assets, has_continue, vars) == (match first_passing(
            assets.skip(i),
            has_continue,
            vars,
        ) {
            Some(k) => Some(k + i),
            None => None::<int>,
        }),
    decreases i,
{
    if i > 0 {
        lemma_first_passing(assets.drop_first(), has_continue, vars, i - 1);
        assert(assets.drop_first().skip(i - 1) =~= assets.skip(i));
        assert(!asset_passes(assets[0], has_continue, vars));
    } else {
        assert(assets.skip(0) =~= assets);
    }
}

impl ConditionalAsset {
    /// The asset of the first entry whose condition holds.
    pub fn resolve<'a>(assets: &'a [ConditionalAsset], ctx: &ConditionContext) -> (r: Option<
        &'a str,
    >)
        requires
            ctx.persistent.wf(),
        ensures
            match first_passing(assets@, ctx.has_continue, ctx.persistent@) {
                Some(i) => r is Some && r->0@ == assets@[i].asset@,
                None => r is None,
            },
    {
        let mut i: usize = 0;
        while i < assets.len()
            invariant
                i <= assets@.len(),
                ctx.persistent.wf(),
                forall|j: int|
                    0 <= j < i ==> !asset_passes(
                        #[trigger] assets@[j],
                        ctx.has_continue,
                        ctx.persistent@,
                    ),
            decreases assets.len() - i,
        {
            let passes = match &assets[i].when {
                None => true,
                Some(cond) => cond.evaluate(ctx),
            };
            if passes {
                proof {
                    lemma_first_passing(assets@, ctx.has_continue, ctx.persistent@, i as int);
                    assert(assets@.skip(i as int)[0] == assets@[i as int]);
                }
                return Some(assets[i].asset.as_str());
            }
            i += 1;
        }
        proof {
            lemma_first_passing(assets@, ctx.has_continue, ctx.persistent@, i as int);
            assert(assets@.skip(i as int).len() == 0);
        }
        None
    }
}


// ── actions ─────────────────────────────────────────────────────────────────

/// A declarative action bound to a button.
#[derive(Debug, Clone, PartialEq, Eq)]
pub enum ActionDef {
    StartGame,
    ContinueGame,
    OpenLoad,
    OpenSave,
    NavigateSettings,
    NavigateHistory,
    /// Replace the current mode by Settings (no stacking).
    ReplaceSettings,
    /// Replace the current mode by History (no stacking).
    ReplaceHistory,
    QuickSave,
    QuickLoad,
    ToggleSkip,
    ToggleAuto,
    GoBack,
    ReturnToTitle,
    ReturnToGame,
    Exit,
    /// Start a new game at the given label.
    StartAtLabel(String),
}

/// The action with the given identifier (the string form of an action).
pub open spec fn action_named(s: Seq<char>) -> Option<ActionDef> {
    if s == "start_game"@ {
        Some(ActionDef::StartGame)
    } else if s == "continue_game"@ {
        Some(ActionDef::ContinueGame)
    } else if s == "open_load"@ {
        Some(ActionDef::OpenLoad)
    } else if s == "open_save"@ {
        Some(ActionDef::OpenSave)
    } else if s == "navigate_settings"@ {
        Some(ActionDef::NavigateSettings)
    } else if s == "navigate_history"@ {
        Some(ActionDef::NavigateHistory)
    } else if s == "replace_settings"@ {
        Some(ActionDef::ReplaceSettings)
    } else if s == "replace_history"@ {
        Some(ActionDef::ReplaceHistory)
    } else if s == "quick_save"@ {
        Some(ActionDef::QuickSave)
    } else if s == "quick_load"@ {
        Some(ActionDef::QuickLoad)
    } else if s == "toggle_skip"@ {
        Some(ActionDef::ToggleSkip)
    } else if s == "toggle_auto"@ {
        Some(ActionDef::ToggleAuto)
    } else if s == "go_back"@ {
        Some(ActionDef::GoBack)
    } else if s == "return_to_title"@ {
        Some(ActionDef::ReturnToTitle)
    } else if s == "return_to_game"@ {
        Some(ActionDef::ReturnToGame)
    } else if s == "exit"@ {
        Some(ActionDef::Exit)
    } else {
        None
    }
}

/// Why an action definition was rejected.
#[derive(Debug, Clone, PartialEq)]
pub enum ActionDefError {
    /// A string that names no action.
    UnknownVariant(String),
    /// An object key other than `start_at_label`.
    UnknownField(String),
    /// An object without `start_at_label`.
    MissingField,
    /// A `start_at_label` whose value is not a string.
    InvalidValue,
}

/// The value of one object entry as the action parser sees it: its text when
/// the value is a string.
pub type EntryValue = Option<String>;

/// The outcome of reading an action object's entries left to right: the first
/// unknown key or non-string label fails; otherwise the last label wins.
pub open spec fn action_object_result(
    entries: Seq<(String, EntryValue)>,
    label: Option<Seq<char>>,
) -> Result<Seq<char>, ActionDefError>
    decreases entries.len(),
{
    if entries.len() == 0 {
        match label {
            Some(l) => Ok(l),
            None => Err(ActionDefError::MissingField),
        }
    } else if entries[0].0@ == "start_at_label"@ {
        match entries[0].1 {
            Some(v) => action_object_result(entries.drop_first(), Some(v@)),
            None => Err(ActionDefError::InvalidValue),
        }
    } else {
        Err(ActionDefError::UnknownField(entries[0].0))
    }
}

impl ActionDef {
    /// The action with the given string identifier.
    pub fn from_action_id(id: &str) -> (r: Option<ActionDef>)
        ensures
            r == action_named(id@),
    {
        let v = to_chars(id);
        if chars_equal_str(&v, "start_game") {
            Some(ActionDef::StartGame)
        } else if chars_equal_str(&v, "continue_game") {
            Some(ActionDef::ContinueGame)
        } else if chars_equal_str(&v, "open_load") {
            Some(ActionDef::OpenLoad)
        } else if chars_equal_str(&v, "open_save") {
            Some(ActionDef::OpenSave)
        } else if chars_equal_str(&v, "navigate_settings") {
            Some(ActionDef::NavigateSettings)
        } else if chars_equal_str(&v, "navigate_history") {
            Some(ActionDef::NavigateHistory)
        } else if chars_equal_str(&v, "replace_settings") {
            Some(ActionDef::ReplaceSettings)
        } else if chars_equal_str(&v, "replace_history") {
            Some(ActionDef::ReplaceHistory)
        } else if chars_equal_str(&v, "quick_save") {
            Some(ActionDef::QuickSave)
        } else if chars_equal_str(&v, "quick_load") {
            Some(ActionDef::QuickLoad)
        } else if chars_equal_str(&v, "toggle_skip") {
            Some(ActionDef::ToggleSkip)
        } else if chars_equal_str(&v, "toggle_auto") {
            Some(ActionDef::ToggleAuto)
        } else if chars_equal_str(&v, "go_back") {
            Some(ActionDef::GoBack)
        } else if chars_equal_str(&v, "return_to_title") {
            Some(ActionDef::ReturnToTitle)
        } else if chars_equal_str(&v, "return_to_game") {
            Some(ActionDef::ReturnToGame)
        } else if chars_equal_str(&v, "exit") {
            Some(ActionDef::Exit)
        } else {
            None
        }
    }

    /// An action written as a string: a known identifier, or an unknown-variant
    /// error naming the string.
    pub fn parse_str(id: &str) -> (r: Result<ActionDef, ActionDefError>)
        ensures
            match action_named(id@) {
                Some(a) => r == Ok::<ActionDef, ActionDefError>(a),
                None => r matches Err(ActionDefError::UnknownVariant(s)) && s@ == id@,
            },
    {
        match Self::from_action_id(id) {
            Some(a) => Ok(a),
            None => Err(ActionDefError::UnknownVariant(id.to_owned())),
        }
    }

    /// An action written as an object `{"start_at_label": "X"}`, given its
    /// entries in order.
    pub fn parse_object(entries: &Vec<(String, EntryValue)>) -> (r: Result<ActionDef, ActionDefError>)
        ensures
            match action_object_result(entries@, None) {
                Ok(l) => r matches Ok(ActionDef::StartAtLabel(x)) && x@ == l,
                Err(e) => r == Err::<ActionDef, ActionDefError>(e),
            },
    {
        let mut label: Option<String> = None;
        let mut i: usize = 0;
        assert(entries@.skip(0) =~= entries@);
        while i < entries.len()
            invariant
                i <= entries.len(),
                action_object_result(entries@, None) == action_object_result(
                    entries@.skip(i as int),
                    match label {
                        Some(l) => Some(l@),
                        None => None,
                    },
                ),
            decreases entries.len() - i,
        {
            assert(entries@.skip(i as int)[0] == entries@[i as int]);
            assert(entries@.skip(i as int).drop_first() =~= entries@.skip(i + 1));
            let key = &entries[i].0;
            if chars_equal_str(&to_chars(key.as_str()), "start_at_label") {
                match &entries[i].1 {
                    Some(v) => {
                        label = Some(v.clone());
                    },
                    None => {
                        return Err(ActionDefError::InvalidValue);
                    },
                }
            } else {
                return Err(ActionDefError::UnknownField(key.clone()));
            }
            i += 1;
        }
        assert(entries@.skip(i as int).len() == 0);
        match label {
            Some(l) => Ok(ActionDef::StartAtLabel(l)),
            None => Err(ActionDefError::MissingField),
        }
    }
}

// ── screen definitions ──────────────────────────────────────────────────────

/// A button: its label, action, visibility and optional confirmation text.
#[derive(Debug, Clone)]
pub struct ButtonDef {
    pub label: String,
    pub action: ActionDef,
    /// No condition: always visible.
    pub visible: Option<ConditionDef>,
    /// When present, clicking first asks for confirmation with this text.
    pub confirm: Option<String>,
}

/// Whether a button shows (no condition: always).
pub open spec fn button_visible(b: ButtonDef, has_continue: bool, vars: Map<Seq<char>, VarValue>) -> bool {
    match b.visible {
        None => true,
        Some(c) => condition_holds(c.spec_view(), has_continue, vars),
    }
}

/// The indices of the buttons among the first `n` that show, in order.
pub open spec fn shown_indices(
    bs: Seq<ButtonDef>,
    has_continue: bool,
    vars: Map<Seq<char>, VarValue>,
    n: nat,
) -> Seq<usize>
    decreases n,
{
    if n == 0 {
        Seq::empty()
    } else {
        let prev = shown_indices(bs, has_continue, vars, (n - 1) as nat);
        if button_visible(bs[n - 1], has_continue, vars) {
            prev.push((n - 1) as usize)
        } else {
            prev
        }
    }
}

/// The buttons that show in the given context, by index, in order.
pub fn visible_buttons(buttons: &Vec<ButtonDef>, ctx: &ConditionContext) -> (r: Vec<usize>)
    requires
        ctx.persistent.wf(),
    ensures
        r@ == shown_indices(buttons@, ctx.has_continue, ctx.persistent@, buttons@.len()),
{
    let mut out: Vec<usize> = Vec::new();
    let mut i: usize = 0;
    while i < buttons.len()
        invariant
            i <= buttons@.len(),
            ctx.persistent.wf(),
            out@ == shown_indices(buttons@, ctx.has_continue, ctx.persistent@, i as nat),
        decreases buttons.len() - i,
    {
        let shows = match &buttons[i].visible {
            None => true,
            Some(c) => c.evaluate(ctx),
        };
        if shows {
            out.push(i);
        }
        i += 1;
    }
    out
}

/// What pressing a button does.
#[derive(Debug, Clone, PartialEq)]
pub enum ButtonPress {
    /// Ask for confirmation with this text first; the action runs after.
    Confirm(String),
    /// Close the window (the exit action).
    CloseWindow,
    /// Run the button's action now.
    Execute,
}

/// Decides what pressing a button does: a confirmation text asks first;
/// otherwise exit closes the window and any other action runs.
pub fn button_press(btn: &ButtonDef) -> (r: ButtonPress)
    ensures
        match btn.confirm {
            Some(m) => r matches ButtonPress::Confirm(x) && x@ == m@,
            None => if btn.action == ActionDef::Exit {
                r == ButtonPress::CloseWindow
            } else {
                r == ButtonPress::Execute
            },
        },
{
    match &btn.confirm {
        Some(m) => ButtonPress::Confirm(m.clone()),
        None => match btn.action {
            ActionDef::Exit => ButtonPress::CloseWindow,
            _ => ButtonPress::Execute,
        },
    }
}

/// The title screen.
#[derive(Debug, Clone)]
pub struct TitleScreenDef {
    pub background: Vec<ConditionalAsset>,
    pub overlay: Option<String>,
    pub buttons: Vec<ButtonDef>,
}

/// A plain list of buttons (in-game menu, quick menu).
#[derive(Debug, Clone)]
pub struct ButtonListDef {
    pub buttons: Vec<ButtonDef>,
}

/// The game menu: navigation on the left, content on the right.
#[derive(Debug, Clone)]
pub struct GameMenuDef {
    pub background: Vec<ConditionalAsset>,
    pub overlay: Option<String>,
    pub nav_buttons: Vec<ButtonDef>,
    pub return_button: ButtonDef,
}

/// The behaviour of every screen.
#[derive(Debug, Clone)]
pub struct ScreenDefinitions {
    pub title: TitleScreenDef,
    pub ingame_menu: ButtonListDef,
    pub quick_menu: ButtonListDef,
    pub game_menu: GameMenuDef,
}

/// Why the screen definitions could not be loaded.
#[derive(Debug, Clone, PartialEq)]
pub enum ScreenDefsError {
    /// The file is missing or unreadable.
    NotFound(String),
    /// The file is not valid screen JSON.
    ParseFailed(String),
}

impl ScreenDefsError {
    /// The error as text.
    pub fn message(&self) -> (r: String)
        ensures
            r@ == match self {
                ScreenDefsError::NotFound(m) => "界面配置加载失败: "@ + m@,
                ScreenDefsError::ParseFailed(m) => "界面配置解析失败: "@ + m@,
            },
    {
        match self {
            ScreenDefsError::NotFound(m) => {
                let mut s = "界面配置加载失败: ".to_owned();
                s.append(m.as_str());
                s
            },
            ScreenDefsError::ParseFailed(m) => {
                let mut s = "界面配置解析失败: ".to_owned();
                s.append(m.as_str());
                s
            },
        }
    }
}

impl ScreenDefinitions {
    /// Built-in definitions that need no resource file.
    pub fn default_for_tests() -> (r: Self)
        ensures
            r.title.background@.len() == 1,
            r.title.background@[0].when is None,
            r.title.background@[0].asset@ == "main_summer"@,
            r.title.overlay matches Some(o) && o@ == "main_menu_overlay"@,
            r.title.buttons@.len() == 1,
            r.title.buttons@[0].label@ == "开始游戏"@,
            r.title.buttons@[0].action == ActionDef::StartGame,
            r.title.buttons@[0].visible is None,
            r.title.buttons@[0].confirm is None,
            r.ingame_menu.buttons@.len() == 1,
            r.ingame_menu.buttons@[0].label@ == "继续"@,
            r.ingame_menu.buttons@[0].action == ActionDef::GoBack,
            r.ingame_menu.buttons@[0].visible is None,
            r.ingame_menu.buttons@[0].confirm is None,
            r.quick_menu.buttons@.len() == 0,
            r.game_menu.background@.len() == 1,
            r.game_menu.background@[0].when is None,
            r.game_menu.background@[0].asset@ == "game_menu_bg"@,
            r.game_menu.overlay matches Some(o) && o@ == "game_menu_overlay"@,
            r.game_menu.nav_buttons@.len() == 0,
            r.game_menu.return_button.label@ == "返回"@,
            r.game_menu.return_button.action == ActionDef::ReturnToGame,
            r.game_menu.return_button.visible is None,
            r.game_menu.return_button.confirm is None,
    {
        let mut title_bg: Vec<ConditionalAsset> = Vec::new();
        title_bg.push(ConditionalAsset { when: None, asset: "main_summer".to_owned() });
        let mut title_buttons: Vec<ButtonDef> = Vec::new();
        title_buttons.push(
            ButtonDef {
                label: "开始游戏".to_owned(),
                action: ActionDef::StartGame,
                visible: None,
                confirm: None,
            },
        );
        let mut menu_buttons: Vec<ButtonDef> = Vec::new();
        menu_buttons.push(
            ButtonDef {
                label: "继续".to_owned(),
                action: ActionDef::GoBack,
                visible: None,
                confirm: None,
            },
        );
        let mut menu_bg: Vec<ConditionalAsset> = Vec::new();
        menu_bg.push(ConditionalAsset { when: None, asset: "game_menu_bg".to_owned() });
        ScreenDefinitions {
            title: TitleScreenDef {
                background: title_bg,
                overlay: Some("main_menu_overlay".to_owned()),
                buttons: title_buttons,
            },
            ingame_menu: ButtonListDef { buttons: menu_buttons },
            quick_menu: ButtonListDef { buttons: Vec::new() },
            game_menu: GameMenuDef {
                background: menu_bg,
                overlay: Some("game_menu_overlay".to_owned()),
                nav_buttons: Vec::new(),
                return_button: ButtonDef {
                    label: "返回".to_owned(),
                    action: ActionDef::ReturnToGame,
                    visible: None,
                    confirm: None,
                },
            },
        }
    }
}

} // verus!
