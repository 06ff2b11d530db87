//! The debug API's responses: how the host reports what it waits for and
//! which screen it shows, and the limits on scripted advancing.

use vstd::prelude::*;
use vstd::string::StringExecFns;
use crate::render::{HostScreen, PlaybackMode, SignalKind, WaitingFor};
use crate::text::{decimal, u64_to_decimal, string_from_chars, to_chars, chars_equal_str};

verus! {

/// A captured frame.
#[derive(Debug, Clone)]
pub struct ScreenshotData {
    pub format: String,
    pub width: u32,
    pub height: u32,
    pub data_base64: String,
}

/// The summary returned after each debug action.
#[derive(Debug, Clone)]
pub struct ActionResponse {
    pub ok: bool,
    pub waiting: String,
    pub screen: String,
    pub script_finished: bool,
}

/// The `{:?}` text of a string: quoted, with Rust's debug escapes.
pub uninterp spec fn debug_quoted(s: Seq<char>) -> Seq<char>;

/// `format!("{:?}", s)` for a string slice. The text is named by
/// [`debug_quoted`]; it begins and ends with a double quote.
#[verifier::external_body]
fn debug_string(s: &str) -> (r: String)
    ensures
        r@ == debug_quoted(s@),
        r@.len() >= 2,
        r@[0] == '"',
        r@.last() == '"',
{
    format!("{:?}", s)
}

pub open spec fn signal_kind_text(k: SignalKind) -> Seq<char> {
    match k {
        SignalKind::SceneTransition => "SceneTransition"@,
        SignalKind::TitleCard => "TitleCard"@,
        SignalKind::SceneEffect => "SceneEffect"@,
        SignalKind::Cutscene => "Cutscene"@,
    }
}

/// The `{:?}` text of a wait.
pub open spec fn waiting_text(w: WaitingFor) -> Seq<char> {
    match w {
        WaitingFor::Nothing => "Nothing"@,
        WaitingFor::Click => "Click"@,
        WaitingFor::Choice => "Choice"@,
        WaitingFor::Time { remaining_ms } => "Time { remaining_ms: "@ + decimal(remaining_ms as nat)
            + " }"@,
        WaitingFor::Cutscene => "Cutscene"@,
        WaitingFor::Signal(k) => "Signal("@ + signal_kind_text(k) + ")"@,
        WaitingFor::UIResult { key } => "UIResult { key: "@ + debug_quoted(key@) + " }"@,
    }
}

/// The `{:?}` text of a screen.
pub open spec fn screen_text(h: HostScreen) -> Seq<char> {
    match h {
        HostScreen::Title => "Title"@,
        HostScreen::InGame => "InGame"@,
        HostScreen::InGameMenu => "InGameMenu"@,
        HostScreen::Save => "Save"@,
        HostScreen::Load => "Load"@,
        HostScreen::Settings => "Settings"@,
        HostScreen::History => "History"@,
    }
}

fn owned(s: &str) -> (r: String)
    ensures
        r@ == s@,
{
    s.to_owned()
}

/// The wait as the debug API reports it.
pub fn describe_waiting(w: &WaitingFor) -> (r: String)
    ensures
        r@ == waiting_text(*w),
{
    match w {
        WaitingFor::Nothing => owned("Nothing"),
        WaitingFor::Click => owned("Click"),
        WaitingFor::Choice => owned("Choice"),
        WaitingFor::Time { remaining_ms } => {
            let mut s = owned("Time { remaining_ms: ");
            let digits = string_from_chars(&u64_to_decimal(*remaining_ms));
            s.append(digits.as_str());
            s.append(" }");
            s
        },
        WaitingFor::Cutscene => owned("Cutscene"),
        WaitingFor::Signal(k) => {
            let mut s = owned("Signal(");
            let name = match k {
                SignalKind::SceneTransition => "SceneTransition",
                SignalKind::TitleCard => "TitleCard",
                SignalKind::SceneEffect => "SceneEffect",
                SignalKind::Cutscene => "Cutscene",
            };
            s.append(name);
            s.append(")");
            s
        },
        WaitingFor::UIResult { key } => {
            let mut s = owned("UIResult { key: ");
            let q = debug_string(key.as_str());
            s.append(q.as_str());
            s.append(" }");
            s
        },
    }
}

/// The screen as the debug API reports it.
pub fn describe_screen(h: HostScreen) -> (r: String)
    ensures
        r@ == screen_text(h),
{
    match h {
        HostScreen::Title => owned("Title"),
        HostScreen::InGame => owned("InGame"),
        HostScreen::InGameMenu => owned("InGameMenu"),
        HostScreen::Save => owned("Save"),
        HostScreen::Load => owned("Load"),
        HostScreen::Settings => owned("Settings"),
        HostScreen::History => owned("History"),
    }
}

/// The response after a debug action: success, the current wait and screen,
/// and whether the script has finished.
pub fn action_summary(waiting: &WaitingFor, screen: HostScreen, script_finished: bool) -> (r: ActionResponse)
    ensures
        r.ok,
        r.waiting@ == waiting_text(*waiting),
        r.screen@ == screen_text(screen),
        r.script_finished == script_finished,
{
    ActionResponse {
        ok: true,
        waiting: describe_waiting(waiting),
        screen: describe_screen(screen),
        script_finished,
    }
}

/// Clicks `advance` performs when the request does not say.
pub fn default_max_clicks() -> (r: usize)
    ensures
        r == 10,
{
    10
}

/// The hard cap on clicks per `advance` request.
pub open spec fn advance_cap() -> nat {
    100
}

/// Clicks allowed for a request: what it asks for, at most the cap.
pub fn capped_clicks(requested: usize) -> (r: usize)
    ensures
        r == if requested <= advance_cap() { requested as nat } else { advance_cap() },
{
    if requested < 100 {
        requested
    } else {
        100
    }
}

/// `advance` only clicks while the host waits for a click.
pub fn may_click(waiting: &WaitingFor) -> (r: bool)
    ensures
        r == (*waiting is Click),
{
    matches!(waiting, WaitingFor::Click)
}

/// After a click, `advance` goes on only while the host waits for another
/// click or for nothing.
pub fn keeps_advancing(waiting: &WaitingFor) -> (r: bool)
    ensures
        r == (*waiting is Click || *waiting is Nothing),
{
    matches!(waiting, WaitingFor::Click | WaitingFor::Nothing)
}

/// `str::to_lowercase`: the text with every character in Unicode lower
/// case (a character may become several).
pub uninterp spec fn unicode_lowercase(s: Seq<char>) -> Seq<char>;

/// `str::to_lowercase`. The text is named by [`unicode_lowercase`].
#[verifier::external_body]
pub(crate) fn lowercase(s: &str) -> (r: String)
    ensures
        r@ == unicode_lowercase(s@),
{
    s.to_lowercase()
}

/// The screen a navigation request names (in lower case).
pub open spec fn screen_for_name(n: Seq<char>) -> Option<HostScreen> {
    if n == "title"@ {
        Some(HostScreen::Title)
    } else if n == "ingame"@ || n == "in_game"@ {
        Some(HostScreen::InGame)
    } else if n == "ingamemenu"@ || n == "in_game_menu"@ {
        Some(HostScreen::InGameMenu)
    } else if n == "save"@ {
        Some(HostScreen::Save)
    } else if n == "load"@ {
        Some(HostScreen::Load)
    } else if n == "settings"@ {
        Some(HostScreen::Settings)
    } else if n == "history"@ {
        Some(HostScreen::History)
    } else {
        None
    }
}

/// The playback mode a request names (in lower case).
pub open spec fn mode_for_name(n: Seq<char>) -> Option<PlaybackMode> {
    if n == "normal"@ {
        Some(PlaybackMode::Normal)
    } else if n == "auto"@ {
        Some(PlaybackMode::Auto)
    } else if n == "skip"@ {
        Some(PlaybackMode::Skip)
    } else {
        None
    }
}

/// The screen of a navigation request, matched in lower case; an unknown
/// name is reported (lowered) as `未知 screen: <name>`.
pub fn navigate_target(screen: &str) -> (r: Result<HostScreen, String>)
    ensures
        match screen_for_name(unicode_lowercase(screen@)) {
            Some(h) => r == Ok::<HostScreen, String>(h),
            None => r matches Err(e) && e@ == "未知 screen: "@ + unicode_lowercase(screen@),
        },
{
    let lower = lowercase(screen);
    let v = to_chars(lower.as_str());
    if chars_equal_str(&v, "title") {
        Ok(HostScreen::Title)
    } else if chars_equal_str(&v, "ingame") || chars_equal_str(&v, "in_game") {
        Ok(HostScreen::InGame)
    } else if chars_equal_str(&v, "ingamemenu") || chars_equal_str(&v, "in_game_menu") {
        Ok(HostScreen::InGameMenu)
    } else if chars_equal_str(&v, "save") {
        Ok(HostScreen::Save)
    } else if chars_equal_str(&v, "load") {
        Ok(HostScreen::Load)
    } else if chars_equal_str(&v, "settings") {
        Ok(HostScreen::Settings)
    } else if chars_equal_str(&v, "history") {
        Ok(HostScreen::History)
    } else {
        let mut e = "未知 screen: ".to_owned();
        e.append(lower.as_str());
        Err(e)
    }
}

/// The playback mode of a request, matched in lower case; an unknown name
/// is reported (lowered) as `未知 playback mode: <name>`.
pub fn requested_mode(mode: &str) -> (r: Result<PlaybackMode, String>)
    ensures
        match mode_for_name(unicode_lowercase(mode@)) {
            Some(m) => r == Ok::<PlaybackMode, String>(m),
            None => r matches Err(e) && e@ == "未知 playback mode: "@ + unicode_lowercase(mode@),
        },
{
    let lower = lowercase(mode);
    let v = to_chars(lower.as_str());
    if chars_equal_str(&v, "normal") {
        Ok(PlaybackMode::Normal)
    } else if chars_equal_str(&v, "auto") {
        Ok(PlaybackMode::Auto)
    } else if chars_equal_str(&v, "skip") {
        Ok(PlaybackMode::Skip)
    } else {
        let mut e = "未知 playback mode: ".to_owned();
        e.append(lower.as_str());
        Err(e)
    }
}

/// Why a choice request is refused.
#[derive(Debug, Clone, PartialEq)]
pub enum ChooseRefusal {
    /// The host is not waiting for a choice (a conflict).
    NotChoosing(String),
    /// The index is past the offered choices (a bad request).
    OutOfRange(String),
}

/// Checks a choice request: the host must wait for a choice, and the index
/// must name one of the choices on screen.
pub fn check_choice(waiting: &WaitingFor, choice_count: usize, index: usize) -> (r: Result<(), ChooseRefusal>)
    ensures
        *waiting != WaitingFor::Choice ==> (r matches Err(ChooseRefusal::NotChoosing(e)) && e@
            == "当前非选择状态，waiting="@ + waiting_text(*waiting)),
        *waiting == WaitingFor::Choice && index >= choice_count ==> (r matches Err(
            ChooseRefusal::OutOfRange(e),
        ) && e@ == "选项索引 "@ + decimal(index as nat) + " 超出范围 (共 "@ + decimal(
            choice_count as nat,
        ) + " 个选项)"@),
        *waiting == WaitingFor::Choice && index < choice_count ==> r is Ok,
{
    match waiting {
        WaitingFor::Choice => {},
        _ => {
            let mut e = "当前非选择状态，waiting=".to_owned();
            let w = describe_waiting(waiting);
            e.append(w.as_str());
            return Err(ChooseRefusal::NotChoosing(e));
        },
    }
    if index >= choice_count {
        let mut e = "选项索引 ".to_owned();
        let i = string_from_chars(&u64_to_decimal(index as u64));
        e.append(i.as_str());
        e.append(" 超出范围 (共 ");
        let n = string_from_chars(&u64_to_decimal(choice_count as u64));
        e.append(n.as_str());
        e.append(" 个选项)");
        return Err(ChooseRefusal::OutOfRange(e));
    }
    Ok(())
}

} // verus!
