//! Requests to the debug command endpoint: which command a name selects,
//! which arguments it needs, and the error for a missing one.
//!
//! The host reads the request's JSON object into [`ArgValue`]s; this module
//! decides the rest. Arguments that need the JSON itself (settings, a
//! playback mode or screen, a UI result, a tick length) are read by the host
//! after the request has been accepted here.

use vstd::prelude::*;
use vstd::string::StringExecFns;
use crate::text::{to_chars, chars_equal_str};

verus! {

/// What one JSON argument is, as far as the commands look at it.
#[derive(Debug, Clone, PartialEq)]
pub enum ArgValue {
    /// A string.
    Str(String),
    /// A number that is a non-negative integer fitting in a `u64`.
    Unsigned(u64),
    /// A boolean.
    Bool(bool),
    /// Anything else.
    Other,
}

/// The commands of the debug endpoint.
#[derive(Debug, Clone, Copy, PartialEq, Eq, Structural)]
pub enum DebugCommand {
    InitGame,
    InitGameAtLabel,
    Tick,
    Click,
    Choose,
    GetRenderState,
    SaveGame,
    LoadGame,
    ListSaves,
    SaveGameWithThumbnail,
    GetThumbnail,
    DeleteSave,
    GetAssetsRoot,
    GetConfig,
    GetUserSettings,
    UpdateSettings,
    GetHistory,
    ReturnToTitle,
    ContinueGame,
    QuitGame,
    FinishCutscene,
    SubmitUiResult,
    Backspace,
    SetPlaybackMode,
    GetPlaybackMode,
    LogFrontend,
    FrontendConnected,
    SetHostScreen,
    GetScreenDefinitions,
    GetUiAssets,
    GetUiConditionContext,
    DebugSnapshot,
    DebugRunUntil,
}

/// The arguments a command may require.
#[derive(Debug, Clone, Copy, PartialEq, Eq, Structural)]
pub enum ArgKey {
    ClientToken,
    ScriptPath,
    Label,
    Slot,
    Index,
    Thumbnail,
    Key,
}

/// The JSON name of a required argument.
pub open spec fn key_name(k: ArgKey) -> Seq<char> {
    match k {
        ArgKey::ClientToken => "clientToken"@,
        ArgKey::ScriptPath => "scriptPath"@,
        ArgKey::Label => "label"@,
        ArgKey::Slot => "slot"@,
        ArgKey::Index => "index"@,
        ArgKey::Thumbnail => "thumbnail_base64"@,
        ArgKey::Key => "key"@,
    }
}

/// Whether the argument is read as a number (else as a string).
pub open spec fn numeric_key(k: ArgKey) -> bool {
    k is Slot || k is Index
}

/// The command a name selects.
pub open spec fn command_of(name: Seq<char>) -> Option<DebugCommand> {
    if name == "init_game"@ { Some(DebugCommand::InitGame) }
    else if name == "init_game_at_label"@ { Some(DebugCommand::InitGameAtLabel) }
    else if name == "tick"@ { Some(DebugCommand::Tick) }
    else if name == "click"@ { Some(DebugCommand::Click) }
    else if name == "choose"@ { Some(DebugCommand::Choose) }
    else if name == "get_render_state"@ { Some(DebugCommand::GetRenderState) }
    else if name == "save_game"@ { Some(DebugCommand::SaveGame) }
    else if name == "load_game"@ { Some(DebugCommand::LoadGame) }
    else if name == "list_saves"@ { Some(DebugCommand::ListSaves) }
    else if name == "save_game_with_thumbnail"@ { Some(DebugCommand::SaveGameWithThumbnail) }
    else if name == "get_thumbnail"@ { Some(DebugCommand::GetThumbnail) }
    else if name == "delete_save"@ { Some(DebugCommand::DeleteSave) }
    else if name == "get_assets_root"@ { Some(DebugCommand::GetAssetsRoot) }
    else if name == "get_config"@ { Some(DebugCommand::GetConfig) }
    else if name == "get_user_settings"@ { Some(DebugCommand::GetUserSettings) }
    else if name == "update_settings"@ { Some(DebugCommand::UpdateSettings) }
    else if name == "get_history"@ { Some(DebugCommand::GetHistory) }
    else if name == "return_to_title"@ { Some(DebugCommand::ReturnToTitle) }
    else if name == "continue_game"@ { Some(DebugCommand::ContinueGame) }
    else if name == "quit_game"@ { Some(DebugCommand::QuitGame) }
    else if name == "finish_cutscene"@ { Some(DebugCommand::FinishCutscene) }
    else if name == "submit_ui_result"@ { Some(DebugCommand::SubmitUiResult) }
    else if name == "backspace"@ { Some(DebugCommand::Backspace) }
    else if name == "set_playback_mode"@ { Some(DebugCommand::SetPlaybackMode) }
    else if name == "get_playback_mode"@ { Some(DebugCommand::GetPlaybackMode) }
    else if name == "log_frontend"@ { Some(DebugCommand::LogFrontend) }
    else if name == "frontend_connected"@ { Some(DebugCommand::FrontendConnected) }
    else if name == "set_host_screen"@ { Some(DebugCommand::SetHostScreen) }
    else if name == "get_screen_definitions"@ { Some(DebugCommand::GetScreenDefinitions) }
    else if name == "get_ui_assets"@ { Some(DebugCommand::GetUiAssets) }
    else if name == "get_ui_condition_context"@ { Some(DebugCommand::GetUiConditionContext) }
    else if name == "debug_snapshot"@ { Some(DebugCommand::DebugSnapshot) }
    else if name == "debug_run_until"@ { Some(DebugCommand::DebugRunUntil) }
    else { None }
}

/// The arguments a command requires, in the order they are checked.
pub open spec fn required(c: DebugCommand) -> Seq<ArgKey> {
    match c {
        DebugCommand::InitGame => seq![ArgKey::ClientToken, ArgKey::ScriptPath],
        DebugCommand::InitGameAtLabel => seq![ArgKey::ClientToken, ArgKey::ScriptPath, ArgKey::Label],
        DebugCommand::Choose => seq![ArgKey::ClientToken, ArgKey::Index],
        DebugCommand::SaveGame | DebugCommand::LoadGame | DebugCommand::DeleteSave => seq![
            ArgKey::ClientToken,
            ArgKey::Slot,
        ],
        DebugCommand::SaveGameWithThumbnail => seq![ArgKey::ClientToken, ArgKey::Slot, ArgKey::Thumbnail],
        DebugCommand::GetThumbnail => seq![ArgKey::Slot],
        DebugCommand::SubmitUiResult => seq![ArgKey::ClientToken, ArgKey::Key],
        DebugCommand::Tick | DebugCommand::Click | DebugCommand::UpdateSettings
        | DebugCommand::ReturnToTitle | DebugCommand::ContinueGame | DebugCommand::FinishCutscene
        | DebugCommand::Backspace | DebugCommand::SetPlaybackMode | DebugCommand::SetHostScreen
        | DebugCommand::DebugRunUntil => seq![ArgKey::ClientToken],
        _ => Seq::empty(),
    }
}

/// The argument of the given name (the first entry that has it).
pub open spec fn arg(args: Seq<(String, ArgValue)>, name: Seq<char>) -> Option<ArgValue>
    decreases args.len(),
{
    if args.len() == 0 {
        None
    } else if args[0].0@ == name {
        Some(args[0].1)
    } else {
        arg(args.drop_first(), name)
    }
}

/// `args[name].as_str()`.
pub open spec fn str_arg(args: Seq<(String, ArgValue)>, name: Seq<char>) -> Option<Seq<char>> {
    match arg(args, name) {
        Some(ArgValue::Str(s)) => Some(s@),
        _ => None,
    }
}

/// `args[name].as_u64()`.
pub open spec fn u64_arg(args: Seq<(String, ArgValue)>, name: Seq<char>) -> Option<u64> {
    match arg(args, name) {
        Some(ArgValue::Unsigned(n)) => Some(n),
        _ => None,
    }
}

/// `args[name].as_bool()`.
pub open spec fn bool_arg(args: Seq<(String, ArgValue)>, name: Seq<char>) -> Option<bool> {
    match arg(args, name) {
        Some(ArgValue::Bool(b)) => Some(b),
        _ => None,
    }
}

/// Whether a required argument is there, with the right type.
pub open spec fn present(args: Seq<(String, ArgValue)>, k: ArgKey) -> bool {
    if numeric_key(k) {
        u64_arg(args, key_name(k)) is Some
    } else {
        str_arg(args, key_name(k)) is Some
    }
}

/// The first of the keys that is missing.
pub open spec fn first_missing(args: Seq<(String, ArgValue)>, keys: Seq<ArgKey>) -> Option<ArgKey>
    decreases keys.len(),
{
    if keys.len() == 0 {
        None
    } else if !present(args, keys[0]) {
        Some(keys[0])
    } else {
        first_missing(args, keys.drop_first())
    }
}

/// A string argument that the command requires, else nothing.
pub open spec fn required_str(
    c: DebugCommand,
    args: Seq<(String, ArgValue)>,
    k: ArgKey,
) -> Option<Seq<char>> {
    if required(c).contains(k) {
        str_arg(args, key_name(k))
    } else {
        None
    }
}

/// An accepted request: the command and what it read from its arguments.
/// Arguments the command does not read are `None` (or their defaults).
#[derive(Debug, Clone, PartialEq)]
pub struct DebugRequest {
    pub command: DebugCommand,
    pub client_token: Option<String>,
    pub script_path: Option<String>,
    pub label: Option<String>,
    /// The slot number, cut to 32 bits as `as u32` does.
    pub slot: Option<u32>,
    pub index: Option<u64>,
    pub thumbnail_base64: Option<String>,
    pub key: Option<String>,
    /// `saveContinue`, false when absent.
    pub save_continue: bool,
    /// `clientLabel`, when it is a string.
    pub client_label: Option<String>,
    /// `maxSteps`, 600 when absent.
    pub max_steps: u64,
    /// `stopOnWait`, true when absent.
    pub stop_on_wait: bool,
    /// `stopOnScriptFinished`, true when absent.
    pub stop_on_script_finished: bool,
    /// `level`, `module`, `message`, `data` of a frontend log line, with
    /// the defaults `debug`, `unknown` and empty text.
    pub log_level: String,
    pub log_module: String,
    pub log_message: String,
    pub log_data: String,
}

pub open spec fn opt_view(o: Option<String>) -> Option<Seq<char>> {
    match o {
        Some(s) => Some(s@),
        None => None,
    }
}

/// The text argument, or a default.
pub open spec fn str_or(args: Seq<(String, ArgValue)>, name: Seq<char>, default: Seq<char>) -> Seq<char> {
    match str_arg(args, name) {
        Some(s) => s,
        None => default,
    }
}

/// Everything an accepted request holds, given its command and arguments.
pub open spec fn request_fits(q: DebugRequest, c: DebugCommand, args: Seq<(String, ArgValue)>) -> bool {
    &&& q.command == c
    &&& opt_view(q.client_token) == required_str(c, args, ArgKey::ClientToken)
    &&& opt_view(q.script_path) == required_str(c, args, ArgKey::ScriptPath)
    &&& opt_view(q.label) == required_str(c, args, ArgKey::Label)
    &&& opt_view(q.thumbnail_base64) == required_str(c, args, ArgKey::Thumbnail)
    &&& opt_view(q.key) == required_str(c, args, ArgKey::Key)
    &&& q.slot == (if required(c).contains(ArgKey::Slot) {
        Some(u64_arg(args, "slot"@)->0 as u32)
    } else {
        None
    })
    &&& q.index == (if required(c).contains(ArgKey::Index) {
        u64_arg(args, "index"@)
    } else {
        None
    })
    &&& q.save_continue == (bool_arg(args, "saveContinue"@) == Some(true))
    &&& opt_view(q.client_label) == str_arg(args, "clientLabel"@)
    &&& q.max_steps == (match u64_arg(args, "maxSteps"@) {
        Some(n) => n,
        None => 600,
    })
    &&& q.stop_on_wait == (bool_arg(args, "stopOnWait"@) != Some(false))
    &&& q.stop_on_script_finished == (bool_arg(args, "stopOnScriptFinished"@) != Some(false))
    &&& q.log_level@ == str_or(args, "level"@, "debug"@)
    &&& q.log_module@ == str_or(args, "module"@, "unknown"@)
    &&& q.log_message@ == str_or(args, "message"@, ""@)
    &&& q.log_data@ == str_or(args, "data"@, ""@)
}

fn command_named(name: &str) -> (r: Option<DebugCommand>)
    ensures
        r == command_of(name@),
{
    let v = to_chars(name);
    if chars_equal_str(&v, "init_game") { Some(DebugCommand::InitGame) }
    else if chars_equal_str(&v, "init_game_at_label") { Some(DebugCommand::InitGameAtLabel) }
    else if chars_equal_str(&v, "tick") { Some(DebugCommand::Tick) }
    else if chars_equal_str(&v, "click") { Some(DebugCommand::Click) }
    else if chars_equal_str(&v, "choose") { Some(DebugCommand::Choose) }
    else if chars_equal_str(&v, "get_render_state") { Some(DebugCommand::GetRenderState) }
    else if chars_equal_str(&v, "save_game") { Some(DebugCommand::SaveGame) }
    else if chars_equal_str(&v, "load_game") { Some(DebugCommand::LoadGame) }
    else if chars_equal_str(&v, "list_saves") { Some(DebugCommand::ListSaves) }
    else if chars_equal_str(&v, "save_game_with_thumbnail") { Some(DebugCommand::SaveGameWithThumbnail) }
    else if chars_equal_str(&v, "get_thumbnail") { Some(DebugCommand::GetThumbnail) }
    else if chars_equal_str(&v, "delete_save") { Some(DebugCommand::DeleteSave) }
    else if chars_equal_str(&v, "get_assets_root") { Some(DebugCommand::GetAssetsRoot) }
    else if chars_equal_str(&v, "get_config") { Some(DebugCommand::GetConfig) }
    else if chars_equal_str(&v, "get_user_settings") { Some(DebugCommand::GetUserSettings) }
    else if chars_equal_str(&v, "update_settings") { Some(DebugCommand::UpdateSettings) }
    else if chars_equal_str(&v, "get_history") { Some(DebugCommand::GetHistory) }
    else if chars_equal_str(&v, "return_to_title") { Some(DebugCommand::ReturnToTitle) }
    else if chars_equal_str(&v, "continue_game") { Some(DebugCommand::ContinueGame) }
    else if chars_equal_str(&v, "quit_game") { Some(DebugCommand::QuitGame) }
    else if chars_equal_str(&v, "finish_cutscene") { Some(DebugCommand::FinishCutscene) }
    else if chars_equal_str(&v, "submit_ui_result") { Some(DebugCommand::SubmitUiResult) }
    else if chars_equal_str(&v, "backspace") { Some(DebugCommand::Backspace) }
    else if chars_equal_str(&v, "set_playback_mode") { Some(DebugCommand::SetPlaybackMode) }
    else if chars_equal_str(&v, "get_playback_mode") { Some(DebugCommand::GetPlaybackMode) }
    else if chars_equal_str(&v, "log_frontend") { Some(DebugCommand::LogFrontend) }
    else if chars_equal_str(&v, "frontend_connected") { Some(DebugCommand::FrontendConnected) }
    else if chars_equal_str(&v, "set_host_screen") { Some(DebugCommand::SetHostScreen) }
    else if chars_equal_str(&v, "get_screen_definitions") { Some(DebugCommand::GetScreenDefinitions) }
    else if chars_equal_str(&v, "get_ui_assets") { Some(DebugCommand::GetUiAssets) }
    else if chars_equal_str(&v, "get_ui_condition_context") { Some(DebugCommand::GetUiConditionContext) }
    else if chars_equal_str(&v, "debug_snapshot") { Some(DebugCommand::DebugSnapshot) }
    else if chars_equal_str(&v, "debug_run_until") { Some(DebugCommand::DebugRunUntil) }
    else { None }
}

fn required_keys(c: DebugCommand) -> (r: Vec<ArgKey>)
    ensures
        r@ == required(c),
{
    let r = match c {
        DebugCommand::InitGame => vec![ArgKey::ClientToken, ArgKey::ScriptPath],
        DebugCommand::InitGameAtLabel => vec![ArgKey::ClientToken, ArgKey::ScriptPath, ArgKey::Label],
        DebugCommand::Choose => vec![ArgKey::ClientToken, ArgKey::Index],
        DebugCommand::SaveGame | DebugCommand::LoadGame | DebugCommand::DeleteSave => vec![
            ArgKey::ClientToken,
            ArgKey::Slot,
        ],
        DebugCommand::SaveGameWithThumbnail => vec![ArgKey::ClientToken, ArgKey::Slot, ArgKey::Thumbnail],
        DebugCommand::GetThumbnail => vec![ArgKey::Slot],
        DebugCommand::SubmitUiResult => vec![ArgKey::ClientToken, ArgKey::Key],
        DebugCommand::Tick | DebugCommand::Click | DebugCommand::UpdateSettings
        | DebugCommand::ReturnToTitle | DebugCommand::ContinueGame | DebugCommand::FinishCutscene
        | DebugCommand::Backspace | DebugCommand::SetPlaybackMode | DebugCommand::SetHostScreen
        | DebugCommand::DebugRunUntil => vec![ArgKey::ClientToken],
        _ => Vec::new(),
    };
    assert(r@ =~= required(c));
    r
}

fn key_text(k: ArgKey) -> (r: &'static str)
    ensures
        r@ == key_name(k),
{
    match k {
        ArgKey::ClientToken => "clientToken",
        ArgKey::ScriptPath => "scriptPath",
        ArgKey::Label => "label",
        ArgKey::Slot => "slot",
        ArgKey::Index => "index",
        ArgKey::Thumbnail => "thumbnail_base64",
        ArgKey::Key => "key",
    }
}

fn find_arg<'a>(args: &'a Vec<(String, ArgValue)>, name: &str) -> (r: Option<&'a ArgValue>)
    ensures
        match arg(args@, name@) {
            Some(v) => r == Some(&v),
            None => r is None,
        },
{
    let mut i: usize = 0;
    assert(args@.skip(0) =~= args@);
    while i < args.len()
        invariant
            i <= args@.len(),
            arg(args@, name@) == arg(args@.skip(i as int), name@),
        decreases args.len() - i,
    {
        assert(args@.skip(i as int)[0] == args@[i as int]);
        if chars_equal_str(&to_chars(args[i].0.as_str()), name) {
            return Some(&args[i].1);
        }
        assert(args@.skip(i as int).drop_first() =~= args@.skip(i + 1));
        i += 1;
    }
    assert(args@.skip(i as int).len() == 0);
    None
}

fn get_str(args: &Vec<(String, ArgValue)>, name: &str) -> (r: Option<String>)
    ensures
        opt_view(r) == str_arg(args@, name@),
{
    match find_arg(args, name) {
        Some(ArgValue::Str(s)) => Some(s.clone()),
        _ => None,
    }
}

fn get_u64(args: &Vec<(String, ArgValue)>, name: &str) -> (r: Option<u64>)
    ensures
        r == u64_arg(args@, name@),
{
    match find_arg(args, name) {
        Some(ArgValue::Unsigned(n)) => Some(*n),
        _ => None,
    }
}

fn get_bool(args: &Vec<(String, ArgValue)>, name: &str) -> (r: Option<bool>)
    ensures
        r == bool_arg(args@, name@),
{
    match find_arg(args, name) {
        Some(ArgValue::Bool(b)) => Some(*b),
        _ => None,
    }
}

fn str_or_default(args: &Vec<(String, ArgValue)>, name: &str, default: &str) -> (r: String)
    ensures
        r@ == str_or(args@, name@, default@),
{
    match get_str(args, name) {
        Some(s) => s,
        None => default.to_owned(),
    }
}

fn needs(keys: &Vec<ArgKey>, k: ArgKey) -> (r: bool)
    ensures
        r == keys@.contains(k),
{
    let mut i: usize = 0;
    while i < keys.len()
        invariant
            i <= keys@.len(),
            forall|j: int| 0 <= j < i ==> keys@[j] != k,
        decreases keys.len() - i,
    {
        if keys[i] == k {
            assert(keys@[i as int] == k);
            return true;
        }
        i += 1;
    }
    false
}

/// Reads a request: an unknown command name is `Unknown command: <name>`;
/// a missing required argument is `missing <argument>`, for the first one
/// missing in the command's order; otherwise the request holds what the
/// command reads (see [`request_fits`]).
pub fn parse_request(command: &str, args: &Vec<(String, ArgValue)>) -> (r: Result<DebugRequest, String>)
    ensures
        match command_of(command@) {
            None => r matches Err(e) && e@ == "Unknown command: "@ + command@,
            Some(c) => match first_missing(args@, required(c)) {
                Some(k) => r matches Err(e) && e@ == "missing "@ + key_name(k),
                None => r matches Ok(q) && request_fits(q, c, args@),
            },
        },
{
    let c = match command_named(command) {
        Some(c) => c,
        None => {
            let mut e = "Unknown command: ".to_owned();
            e.append(command);
            return Err(e);
        },
    };
    let keys = required_keys(c);
    let mut i: usize = 0;
    assert(keys@.skip(0) =~= keys@);
    while i < keys.len()
        invariant
            i <= keys@.len(),
            keys@ == required(c),
            command_of(command@) == Some(c),
            first_missing(args@, required(c)) == first_missing(args@, keys@.skip(i as int)),
        decreases keys.len() - i,
    {
        let k = keys[i];
        assert(keys@.skip(i as int)[0] == k);
        let name = key_text(k);
        let ok = match k {
            ArgKey::Slot | ArgKey::Index => get_u64(args, name).is_some(),
            _ => get_str(args, name).is_some(),
        };
        assert(ok == present(args@, k));
        if !ok {
            assert(first_missing(args@, keys@.skip(i as int)) == Some(k));
            let mut e = "missing ".to_owned();
            e.append(name);
            return Err(e);
        }
        assert(keys@.skip(i as int).drop_first() =~= keys@.skip(i + 1));
        i += 1;
    }
    assert(keys@.skip(i as int).len() == 0);
    let client_token = if needs(&keys, ArgKey::ClientToken) { get_str(args, "clientToken") } else { None };
    let script_path = if needs(&keys, ArgKey::ScriptPath) { get_str(args, "scriptPath") } else { None };
    let label = if needs(&keys, ArgKey::Label) { get_str(args, "label") } else { None };
    let thumbnail_base64 = if needs(&keys, ArgKey::Thumbnail) {
        get_str(args, "thumbnail_base64")
    } else {
        None
    };
    let key = if needs(&keys, ArgKey::Key) { get_str(args, "key") } else { None };
    let slot = if needs(&keys, ArgKey::Slot) {
        match get_u64(args, "slot") {
            Some(n) => Some(n as u32),
            None => None,
        }
    } else {
        None
    };
    let index = if needs(&keys, ArgKey::Index) { get_u64(args, "index") } else { None };
    proof {
        if required(c).contains(ArgKey::Slot) {
            let j = choose|j: int| 0 <= j < required(c).len() && required(c)[j] == ArgKey::Slot;
            lemma_present_if_not_missing(args@, required(c), j);
        }
    }
    let save_continue = match get_bool(args, "saveContinue") {
        Some(b) => b,
        None => false,
    };
    let max_steps = match get_u64(args, "maxSteps") {
        Some(n) => n,
        None => 600,
    };
    let stop_on_wait = match get_bool(args, "stopOnWait") {
        Some(b) => b,
        None => true,
    };
    let stop_on_script_finished = match get_bool(args, "stopOnScriptFinished") {
        Some(b) => b,
        None => true,
    };
    Ok(
        DebugRequest {
            command: c,
            client_token,
            script_path,
            label,
            slot,
            index,
            thumbnail_base64,
            key,
            save_continue,
            client_label: get_str(args, "clientLabel"),
            max_steps,
            stop_on_wait,
            stop_on_script_finished,
            log_level: str_or_default(args, "level", "debug"),
            log_module: str_or_default(args, "module", "unknown"),
            log_message: str_or_default(args, "message", ""),
            log_data: str_or_default(args, "data", ""),
        },
    )
}

proof fn lemma_present_if_not_missing(args: Seq<(String, ArgValue)>, keys: Seq<ArgKey>, j: int)
    requires
        first_missing(args, keys) is None,
        0 <= j < keys.len(),
    ensures
        present(args, keys[j]),
    decreases keys.len(),
{
    if j > 0 {
        assert(keys.drop_first()[j - 1] == keys[j]);
        lemma_present_if_not_missing(args, keys.drop_first(), j - 1);
    }
}

/// The largest step count `debug_run_until` accepts.
pub const MAX_RUN_STEPS: u64 = 100_000;

/// Checks a run's step count: above the limit it is refused with the
/// message the endpoint returns.
pub fn check_run_steps(max_steps: u64) -> (r: Result<u64, String>)
    ensures
        max_steps <= MAX_RUN_STEPS ==> r == Ok::<u64, String>(max_steps),
        max_steps > MAX_RUN_STEPS ==> (r matches Err(e) && e@
            == "参数校验失败: max_steps 不能超过 100000，实际为 "@ + crate::text::decimal(
            max_steps as nat,
        )),
{
    if max_steps > MAX_RUN_STEPS {
        let mut e = "参数校验失败: max_steps 不能超过 100000，实际为 ".to_owned();
        let n = crate::text::string_from_chars(&crate::text::u64_to_decimal(max_steps));
        e.append(n.as_str());
        Err(e)
    } else {
        Ok(max_steps)
    }
}

} // verus!
