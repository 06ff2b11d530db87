//! The `ring-asset` URL path decoding and the text forms of host screens and
//! playback modes that the frontend sends.

use vstd::prelude::*;
use vstd::utf8::{valid_utf8, decode_utf8, encode_utf8, encode_scalar};
use vstd::string::{StringSliceAdditionalSpecFns, StringExecFns};
use crate::render::{HostScreen, PlaybackMode};
use crate::text::{first_index_of, chars_equal_str, starts_with_chars, has_prefix, first_occurrence, find_first, string_from_chars};
use crate::resources::{extension_of, find_tail};
use crate::text::to_chars;

verus! {

// ── percent decoding ────────────────────────────────────────────────────────

/// The value of one ASCII hexadecimal digit.
pub open spec fn hex_digit_value(b: u8) -> Option<u8> {
    if 0x30 <= b <= 0x39 {
        Some((b - 0x30) as u8)
    } else if 0x61 <= b <= 0x66 {
        Some((b - 0x61 + 10) as u8)
    } else if 0x41 <= b <= 0x46 {
        Some((b - 0x41 + 10) as u8)
    } else {
        None
    }
}

/// The byte that two ASCII hexadecimal digits `b1 b2` spell, if both are
/// hex digits.
pub open spec fn hex_pair_value(b1: u8, b2: u8) -> Option<u8> {
    match (hex_digit_value(b1), hex_digit_value(b2)) {
        (Some(hi), Some(lo)) => Some((hi * 16 + lo) as u8),
        _ => None,
    }
}

/// Whether a decodable `%XX` escape starts at byte `i`.
pub open spec fn escape_at(b: Seq<u8>, i: int) -> bool {
    &&& 0 <= i
    &&& b[i] == 0x25
    &&& i + 2 < b.len()
    &&& hex_pair_value(b[i + 1], b[i + 2]) is Some
}

/// The bytes from position `i` on, with each `%XX` escape replaced by its byte.
pub open spec fn percent_decoded_from(b: Seq<u8>, i: int) -> Seq<u8>
    decreases b.len() - i,
{
    if i < 0 || i >= b.len() {
        Seq::empty()
    } else if escape_at(b, i) {
        seq![hex_pair_value(b[i + 1], b[i + 2])->0] + percent_decoded_from(b, i + 3)
    } else {
        seq![b[i]] + percent_decoded_from(b, i + 1)
    }
}

/// The decoded text: the decoded bytes read as UTF-8, or the input unchanged
/// when they are not valid UTF-8.
pub open spec fn percent_decoded(s: Seq<char>) -> Seq<char> {
    let out = percent_decoded_from(encode_utf8(s), 0);
    if valid_utf8(out) {
        decode_utf8(out)
    } else {
        s
    }
}

fn hex_digit(b: u8) -> (r: Option<u8>)
    ensures
        r == hex_digit_value(b),
{
    if 0x30 <= b && b <= 0x39 {
        Some(b - 0x30)
    } else if 0x61 <= b && b <= 0x66 {
        Some(b - 0x61 + 10)
    } else if 0x41 <= b && b <= 0x46 {
        Some(b - 0x41 + 10)
    } else {
        None
    }
}

fn hex_pair(b1: u8, b2: u8) -> (r: Option<u8>)
    ensures
        r == hex_pair_value(b1, b2),
{
    match (hex_digit(b1), hex_digit(b2)) {
        (Some(hi), Some(lo)) => Some(hi * 16 + lo),
        _ => None,
    }
}

proof fn lemma_decode_unfold(b: Seq<u8>, i: int)
    requires
        0 <= i < b.len(),
    ensures
        percent_decoded_from(b, i) == (if escape_at(b, i) {
            seq![hex_pair_value(b[i + 1], b[i + 2])->0] + percent_decoded_from(b, i + 3)
        } else {
            seq![b[i]] + percent_decoded_from(b, i + 1)
        }),
{
}

/// Decodes `%XX` escapes (two ASCII hex digits) in a URL path, such as
/// encoded non-ASCII file names. A `%` that does not start such an escape is
/// kept as it is; when the decoded bytes are not valid UTF-8 the input is
/// returned unchanged.
pub fn percent_decode(input: &str) -> (r: String)
    ensures
        r@ == percent_decoded(input@),
{
    let bytes = input.as_bytes();
    let ghost b = bytes@;
    let mut out: Vec<u8> = Vec::new();
    let mut i: usize = 0;
    while i < bytes.len()
        invariant
            b == bytes@,
            i <= bytes.len(),
            percent_decoded_from(b, 0) == out@ + percent_decoded_from(b, i as int),
        decreases bytes.len() - i,
    {
        proof {
            lemma_decode_unfold(b, i as int);
        }
        if bytes[i] == 0x25 && bytes.len() - i > 2 {
            match hex_pair(bytes[i + 1], bytes[i + 2]) {
                Some(v) => {
                    let ghost before = out@;
                    out.push(v);
                    assert(before + percent_decoded_from(b, i as int) =~= out@
                        + percent_decoded_from(b, i + 3));
                    i += 3;
                    continue;
                },
                None => {},
            }
        }
        let ghost before = out@;
        out.push(bytes[i]);
        assert(before + percent_decoded_from(b, i as int) =~= out@ + percent_decoded_from(
            b,
            i + 1,
        ));
        i += 1;
    }
    assert(out@ =~= percent_decoded_from(b, 0));
    match crate::text::utf8_string(out) {
        Ok(s) => s,
        Err(_) => input.to_owned(),
    }
}

/// Text without any `%` decodes to itself.
pub proof fn lemma_percent_decode_plain(s: Seq<char>)
    requires
        !s.contains('%'),
    ensures
        percent_decoded(s) == s,
{
    let b = encode_utf8(s);
    vstd::utf8::encode_utf8_valid_utf8(s);
    vstd::utf8::encode_utf8_decode_utf8(s);
    lemma_no_escape_identity(s, b, 0);
    assert(b.skip(0) =~= b);
    assert(percent_decoded_from(b, 0) == b);
}

proof fn lemma_no_escape_identity(s: Seq<char>, b: Seq<u8>, i: int)
    requires
        b == encode_utf8(s),
        !s.contains('%'),
        0 <= i <= b.len(),
    ensures
        percent_decoded_from(b, i) == b.skip(i),
    decreases b.len() - i,
{
    if i < b.len() {
        lemma_no_percent_byte(s, i);
        lemma_no_escape_identity(s, b, i + 1);
        assert(seq![b[i]] + b.skip(i + 1) =~= b.skip(i));
    } else {
        assert(b.skip(i) =~= Seq::<u8>::empty());
    }
}

/// No byte of the UTF-8 encoding of a `%`-free text is `%` (0x25).
proof fn lemma_no_percent_byte(s: Seq<char>, i: int)
    requires
        !s.contains('%'),
        0 <= i < encode_utf8(s).len(),
    ensures
        encode_utf8(s)[i] != 0x25,
    decreases s.len(),
{
    let c = s[0] as u32;
    let first = encode_scalar(c);
    assert(s[0] != '%') by {
        assert(s.contains(s[0]));
    }
    assert(c != 0x25) by {
        vstd::utf8::char_u32_cast(s[0], c);
        vstd::utf8::char_u32_cast('%', 0x25u32);
    }
    assert(encode_utf8(s) == first + encode_utf8(s.drop_first()));
    if i < first.len() {
        lemma_scalar_bytes_not_percent(c);
        assert(encode_utf8(s)[i] == first[i]);
    } else {
        assert(!s.drop_first().contains('%')) by {
            if s.drop_first().contains('%') {
                let k = choose|k: int| 0 <= k < s.drop_first().len() && s.drop_first()[k] == '%';
                assert(s[k + 1] == '%');
            }
        }
        lemma_no_percent_byte(s.drop_first(), i - first.len());
        assert(encode_utf8(s)[i] == encode_utf8(s.drop_first())[i - first.len()]);
    }
}

proof fn lemma_scalar_bytes_not_percent(c: u32)
    requires
        c != 0x25,
    ensures
        forall|j: int| 0 <= j < encode_scalar(c).len() ==> encode_scalar(c)[j] != 0x25,
{
    lemma_bytes_not_percent(c);
}

proof fn lemma_bytes_not_percent(c: u32)
    by (bit_vector)
    requires
        c != 0x25,
    ensures
        c <= 0x7F ==> (c & 0x7F) as u8 != 0x25,
        (0xC0 | ((c >> 6) & 0x1F) as u8) != 0x25,
        (0xE0 | ((c >> 12) & 0x0F) as u8) != 0x25,
        (0xF0 | ((c >> 18) & 0x7) as u8) != 0x25,
        (0x80 | (c & 0x3F) as u8) != 0x25,
        (0x80 | ((c >> 6) & 0x3F) as u8) != 0x25,
        (0x80 | ((c >> 12) & 0x3F) as u8) != 0x25,
{
}


// ── screen and playback-mode names ──────────────────────────────────────────

/// The screen named by the frontend's text.
pub open spec fn host_screen_named(s: Seq<char>) -> Option<HostScreen> {
    if s == "title"@ {
        Some(HostScreen::Title)
    } else if s == "ingame"@ {
        Some(HostScreen::InGame)
    } else if s == "ingame_menu"@ {
        Some(HostScreen::InGameMenu)
    } else if s == "save"@ {
        Some(HostScreen::Save)
    } else if s == "load"@ {
        Some(HostScreen::Load)
    } else if s == "settings"@ {
        Some(HostScreen::Settings)
    } else if s == "history"@ {
        Some(HostScreen::History)
    } else {
        None
    }
}

/// The playback mode named by the frontend's text.
pub open spec fn playback_mode_named(s: Seq<char>) -> Option<PlaybackMode> {
    if s == "normal"@ {
        Some(PlaybackMode::Normal)
    } else if s == "auto"@ {
        Some(PlaybackMode::Auto)
    } else if s == "skip"@ {
        Some(PlaybackMode::Skip)
    } else {
        None
    }
}

/// The text of a host screen as the frontend writes it.
pub open spec fn host_screen_text(h: HostScreen) -> Seq<char> {
    match h {
        HostScreen::Title => "title"@,
        HostScreen::InGame => "ingame"@,
        HostScreen::InGameMenu => "ingame_menu"@,
        HostScreen::Save => "save"@,
        HostScreen::Load => "load"@,
        HostScreen::Settings => "settings"@,
        HostScreen::History => "history"@,
    }
}

/// Parses a host screen name; an unknown name is reported with the name.
pub fn parse_host_screen(screen: &str) -> (r: Result<HostScreen, String>)
    ensures
        match host_screen_named(screen@) {
            Some(h) => r == Ok::<HostScreen, String>(h),
            None => r is Err && r->Err_0@ == "未知 host_screen: "@ + screen@,
        },
{
    let v = to_chars(screen);
    if chars_equal_str(&v, "title") {
        Ok(HostScreen::Title)
    } else if chars_equal_str(&v, "ingame") {
        Ok(HostScreen::InGame)
    } else if chars_equal_str(&v, "ingame_menu") {
        Ok(HostScreen::InGameMenu)
    } else if chars_equal_str(&v, "save") {
        Ok(HostScreen::Save)
    } else if chars_equal_str(&v, "load") {
        Ok(HostScreen::Load)
    } else if chars_equal_str(&v, "settings") {
        Ok(HostScreen::Settings)
    } else if chars_equal_str(&v, "history") {
        Ok(HostScreen::History)
    } else {
        let mut msg = "未知 host_screen: ".to_owned();
        msg.append(screen);
        Err(msg)
    }
}

/// Parses a playback mode name; an unknown name is reported with the name.
pub fn parse_playback_mode(mode: &str) -> (r: Result<PlaybackMode, String>)
    ensures
        match playback_mode_named(mode@) {
            Some(m) => r == Ok::<PlaybackMode, String>(m),
            None => r is Err && r->Err_0@ == "未知 playback_mode: "@ + mode@,
        },
{
    let v = to_chars(mode);
    if chars_equal_str(&v, "normal") {
        Ok(PlaybackMode::Normal)
    } else if chars_equal_str(&v, "auto") {
        Ok(PlaybackMode::Auto)
    } else if chars_equal_str(&v, "skip") {
        Ok(PlaybackMode::Skip)
    } else {
        let mut msg = "未知 playback_mode: ".to_owned();
        msg.append(mode);
        Err(msg)
    }
}

/// Every screen's text parses back to that screen.
pub proof fn lemma_host_screen_text_round_trip(h: HostScreen)
    ensures
        host_screen_named(host_screen_text(h)) == Some(h),
{
    reveal_strlit("title");
    reveal_strlit("ingame");
    reveal_strlit("ingame_menu");
    reveal_strlit("save");
    reveal_strlit("load");
    reveal_strlit("settings");
    reveal_strlit("history");
    let t = "title"@;
    let g = "ingame"@;
    let m = "ingame_menu"@;
    let sv = "save"@;
    let l = "load"@;
    let st = "settings"@;
    let hi = "history"@;
    assert(t.len() == 5 && g.len() == 6 && m.len() == 11 && sv.len() == 4 && l.len() == 4
        && st.len() == 8 && hi.len() == 7);
    assert(sv[0] != l[0]);
    assert(g != t);
    assert(m != t && m != g);
    assert(sv != t && sv != g && sv != m);
    assert(l != t && l != g && l != m && l != sv);
    assert(st != t && st != g && st != m && st != sv && st != l);
    assert(hi != t && hi != g && hi != m && hi != sv && hi != l && hi != st);
}


// ── the ring-asset protocol ─────────────────────────────────────────────────

/// The MIME type the desktop host serves for a case-sensitive extension.
pub open spec fn page_mime_for_extension(ext: Seq<char>) -> Seq<char> {
    if ext == "jpg"@ {
        "image/jpeg"@
    } else if ext == "jpeg"@ {
        "image/jpeg"@
    } else if ext == "png"@ {
        "image/png"@
    } else if ext == "webp"@ {
        "image/webp"@
    } else if ext == "gif"@ {
        "image/gif"@
    } else if ext == "svg"@ {
        "image/svg+xml"@
    } else if ext == "webm"@ {
        "video/webm"@
    } else if ext == "mp4"@ {
        "video/mp4"@
    } else if ext == "mp3"@ {
        "audio/mpeg"@
    } else if ext == "ogg"@ {
        "audio/ogg"@
    } else if ext == "wav"@ {
        "audio/wav"@
    } else if ext == "flac"@ {
        "audio/flac"@
    } else if ext == "css"@ {
        "text/css"@
    } else if ext == "js"@ {
        "application/javascript"@
    } else if ext == "json"@ {
        "application/json"@
    } else if ext == "html"@ {
        "text/html"@
    } else {
        "application/octet-stream"@
    }
}

proof fn lemma_page_extensions_distinct()
    ensures
        "jpg"@ != "jpeg"@,
        "jpg"@ != "png"@,
        "jpg"@ != "webp"@,
        "jpg"@ != "gif"@,
        "jpg"@ != "svg"@,
        "jpg"@ != "webm"@,
        "jpg"@ != "mp4"@,
        "jpg"@ != "mp3"@,
        "jpg"@ != "ogg"@,
        "jpg"@ != "wav"@,
        "jpg"@ != "flac"@,
        "jpg"@ != "css"@,
        "jpg"@ != "js"@,
        "jpg"@ != "json"@,
        "jpg"@ != "html"@,
        "jpeg"@ != "png"@,
        "jpeg"@ != "webp"@,
        "jpeg"@ != "gif"@,
        "jpeg"@ != "svg"@,
        "jpeg"@ != "webm"@,
        "jpeg"@ != "mp4"@,
        "jpeg"@ != "mp3"@,
        "jpeg"@ != "ogg"@,
        "jpeg"@ != "wav"@,
        "jpeg"@ != "flac"@,
        "jpeg"@ != "css"@,
        "jpeg"@ != "js"@,
        "jpeg"@ != "json"@,
        "jpeg"@ != "html"@,
        "png"@ != "webp"@,
        "png"@ != "gif"@,
        "png"@ != "svg"@,
        "png"@ != "webm"@,
        "png"@ != "mp4"@,
        "png"@ != "mp3"@,
        "png"@ != "ogg"@,
        "png"@ != "wav"@,
        "png"@ != "flac"@,
        "png"@ != "css"@,
        "png"@ != "js"@,
        "png"@ != "json"@,
        "png"@ != "html"@,
        "webp"@ != "gif"@,
        "webp"@ != "svg"@,
        "webp"@ != "webm"@,
        "webp"@ != "mp4"@,
        "webp"@ != "mp3"@,
        "webp"@ != "ogg"@,
        "webp"@ != "wav"@,
        "webp"@ != "flac"@,
        "webp"@ != "css"@,
        "webp"@ != "js"@,
        "webp"@ != "json"@,
        "webp"@ != "html"@,
        "gif"@ != "svg"@,
        "gif"@ != "webm"@,
        "gif"@ != "mp4"@,
        "gif"@ != "mp3"@,
        "gif"@ != "ogg"@,
        "gif"@ != "wav"@,
        "gif"@ != "flac"@,
        "gif"@ != "css"@,
        "gif"@ != "js"@,
        "gif"@ != "json"@,
        "gif"@ != "html"@,
        "svg"@ != "webm"@,
        "svg"@ != "mp4"@,
        "svg"@ != "mp3"@,
        "svg"@ != "ogg"@,
        "svg"@ != "wav"@,
        "svg"@ != "flac"@,
        "svg"@ != "css"@,
        "svg"@ != "js"@,
        "svg"@ != "json"@,
        "svg"@ != "html"@,
        "webm"@ != "mp4"@,
        "webm"@ != "mp3"@,
        "webm"@ != "ogg"@,
        "webm"@ != "wav"@,
        "webm"@ != "flac"@,
        "webm"@ != "css"@,
        "webm"@ != "js"@,
        "webm"@ != "json"@,
        "webm"@ != "html"@,
        "mp4"@ != "mp3"@,
        "mp4"@ != "ogg"@,
        "mp4"@ != "wav"@,
        "mp4"@ != "flac"@,
        "mp4"@ != "css"@,
        "mp4"@ != "js"@,
        "mp4"@ != "json"@,
        "mp4"@ != "html"@,
        "mp3"@ != "ogg"@,
        "mp3"@ != "wav"@,
        "mp3"@ != "flac"@,
        "mp3"@ != "css"@,
        "mp3"@ != "js"@,
        "mp3"@ != "json"@,
        "mp3"@ != "html"@,
        "ogg"@ != "wav"@,
        "ogg"@ != "flac"@,
        "ogg"@ != "css"@,
        "ogg"@ != "js"@,
        "ogg"@ != "json"@,
        "ogg"@ != "html"@,
        "wav"@ != "flac"@,
        "wav"@ != "css"@,
        "wav"@ != "js"@,
        "wav"@ != "json"@,
        "wav"@ != "html"@,
        "flac"@ != "css"@,
        "flac"@ != "js"@,
        "flac"@ != "json"@,
        "flac"@ != "html"@,
        "css"@ != "js"@,
        "css"@ != "json"@,
        "css"@ != "html"@,
        "js"@ != "json"@,
        "js"@ != "html"@,
        "json"@ != "html"@,
{
    reveal_strlit("jpg");
    reveal_strlit("jpeg");
    reveal_strlit("png");
    reveal_strlit("webp");
    reveal_strlit("gif");
    reveal_strlit("svg");
    reveal_strlit("webm");
    reveal_strlit("mp4");
    reveal_strlit("mp3");
    reveal_strlit("ogg");
    reveal_strlit("wav");
    reveal_strlit("flac");
    reveal_strlit("css");
    reveal_strlit("js");
    reveal_strlit("json");
    reveal_strlit("html");
    assert("jpg"@.len() != "jpeg"@.len());
    assert("jpg"@[0] == 'j' && "png"@[0] == 'p');
    assert("jpg"@.len() != "webp"@.len());
    assert("jpg"@[0] == 'j' && "gif"@[0] == 'g');
    assert("jpg"@[0] == 'j' && "svg"@[0] == 's');
    assert("jpg"@.len() != "webm"@.len());
    assert("jpg"@[0] == 'j' && "mp4"@[0] == 'm');
    assert("jpg"@[0] == 'j' && "mp3"@[0] == 'm');
    assert("jpg"@[0] == 'j' && "ogg"@[0] == 'o');
    assert("jpg"@[0] == 'j' && "wav"@[0] == 'w');
    assert("jpg"@.len() != "flac"@.len());
    assert("jpg"@[0] == 'j' && "css"@[0] == 'c');
    assert("jpg"@.len() != "js"@.len());
    assert("jpg"@.len() != "json"@.len());
    assert("jpg"@.len() != "html"@.len());
    assert("jpeg"@.len() != "png"@.len());
    assert("jpeg"@[0] == 'j' && "webp"@[0] == 'w');
    assert("jpeg"@.len() != "gif"@.len());
    assert("jpeg"@.len() != "svg"@.len());
    assert("jpeg"@[0] == 'j' && "webm"@[0] == 'w');
    assert("jpeg"@.len() != "mp4"@.len());
    assert("jpeg"@.len() != "mp3"@.len());
    assert("jpeg"@.len() != "ogg"@.len());
    assert("jpeg"@.len() != "wav"@.len());
    assert("jpeg"@[0] == 'j' && "flac"@[0] == 'f');
    assert("jpeg"@.len() != "css"@.len());
    assert("jpeg"@.len() != "js"@.len());
    assert("jpeg"@[1] == 'p' && "json"@[1] == 's');
    assert("jpeg"@[0] == 'j' && "html"@[0] == 'h');
    assert("png"@.len() != "webp"@.len());
    assert("png"@[0] == 'p' && "gif"@[0] == 'g');
    assert("png"@[0] == 'p' && "svg"@[0] == 's');
    assert("png"@.len() != "webm"@.len());
    assert("png"@[0] == 'p' && "mp4"@[0] == 'm');
    assert("png"@[0] == 'p' && "mp3"@[0] == 'm');
    assert("png"@[0] == 'p' && "ogg"@[0] == 'o');
    assert("png"@[0] == 'p' && "wav"@[0] == 'w');
    assert("png"@.len() != "flac"@.len());
    assert("png"@[0] == 'p' && "css"@[0] == 'c');
    assert("png"@.len() != "js"@.len());
    assert("png"@.len() != "json"@.len());
    assert("png"@.len() != "html"@.len());
    assert("webp"@.len() != "gif"@.len());
    assert("webp"@.len() != "svg"@.len());
    assert("webp"@[3] == 'p' && "webm"@[3] == 'm');
    assert("webp"@.len() != "mp4"@.len());
    assert("webp"@.len() != "mp3"@.len());
    assert("webp"@.len() != "ogg"@.len());
    assert("webp"@.len() != "wav"@.len());
    assert("webp"@[0] == 'w' && "flac"@[0] == 'f');
    assert("webp"@.len() != "css"@.len());
    assert("webp"@.len() != "js"@.len());
    assert("webp"@[0] == 'w' && "json"@[0] == 'j');
    assert("webp"@[0] == 'w' && "html"@[0] == 'h');
    assert("gif"@[0] == 'g' && "svg"@[0] == 's');
    assert("gif"@.len() != "webm"@.len());
    assert("gif"@[0] == 'g' && "mp4"@[0] == 'm');
    assert("gif"@[0] == 'g' && "mp3"@[0] == 'm');
    assert("gif"@[0] == 'g' && "ogg"@[0] == 'o');
    assert("gif"@[0] == 'g' && "wav"@[0] == 'w');
    assert("gif"@.len() != "flac"@.len());
    assert("gif"@[0] == 'g' && "css"@[0] == 'c');
    assert("gif"@.len() != "js"@.len());
    assert("gif"@.len() != "json"@.len());
    assert("gif"@.len() != "html"@.len());
    assert("svg"@.len() != "webm"@.len());
    assert("svg"@[0] == 's' && "mp4"@[0] == 'm');
    assert("svg"@[0] == 's' && "mp3"@[0] == 'm');
    assert("svg"@[0] == 's' && "ogg"@[0] == 'o');
    assert("svg"@[0] == 's' && "wav"@[0] == 'w');
    assert("svg"@.len() != "flac"@.len());
    assert("svg"@[0] == 's' && "css"@[0] == 'c');
    assert("svg"@.len() != "js"@.len());
    assert("svg"@.len() != "json"@.len());
    assert("svg"@.len() != "html"@.len());
    assert("webm"@.len() != "mp4"@.len());
    assert("webm"@.len() != "mp3"@.len());
    assert("webm"@.len() != "ogg"@.len());
    assert("webm"@.len() != "wav"@.len());
    assert("webm"@[0] == 'w' && "flac"@[0] == 'f');
    assert("webm"@.len() != "css"@.len());
    assert("webm"@.len() != "js"@.len());
    assert("webm"@[0] == 'w' && "json"@[0] == 'j');
    assert("webm"@[0] == 'w' && "html"@[0] == 'h');
    assert("mp4"@[2] == '4' && "mp3"@[2] == '3');
    assert("mp4"@[0] == 'm' && "ogg"@[0] == 'o');
    assert("mp4"@[0] == 'm' && "wav"@[0] == 'w');
    assert("mp4"@.len() != "flac"@.len());
    assert("mp4"@[0] == 'm' && "css"@[0] == 'c');
    assert("mp4"@.len() != "js"@.len());
    assert("mp4"@.len() != "json"@.len());
    assert("mp4"@.len() != "html"@.len());
    assert("mp3"@[0] == 'm' && "ogg"@[0] == 'o');
    assert("mp3"@[0] == 'm' && "wav"@[0] == 'w');
    assert("mp3"@.len() != "flac"@.len());
    assert("mp3"@[0] == 'm' && "css"@[0] == 'c');
    assert("mp3"@.len() != "js"@.len());
    assert("mp3"@.len() != "json"@.len());
    assert("mp3"@.len() != "html"@.len());
    assert("ogg"@[0] == 'o' && "wav"@[0] == 'w');
    assert("ogg"@.len() != "flac"@.len());
    assert("ogg"@[0] == 'o' && "css"@[0] == 'c');
    assert("ogg"@.len() != "js"@.len());
    assert("ogg"@.len() != "json"@.len());
    assert("ogg"@.len() != "html"@.len());
    assert("wav"@.len() != "flac"@.len());
    assert("wav"@[0] == 'w' && "css"@[0] == 'c');
    assert("wav"@.len() != "js"@.len());
    assert("wav"@.len() != "json"@.len());
    assert("wav"@.len() != "html"@.len());
    assert("flac"@.len() != "css"@.len());
    assert("flac"@.len() != "js"@.len());
    assert("flac"@[0] == 'f' && "json"@[0] == 'j');
    assert("flac"@[0] == 'f' && "html"@[0] == 'h');
    assert("css"@.len() != "js"@.len());
    assert("css"@.len() != "json"@.len());
    assert("css"@.len() != "html"@.len());
    assert("js"@.len() != "json"@.len());
    assert("js"@.len() != "html"@.len());
    assert("json"@[0] == 'j' && "html"@[0] == 'h');
}

/// The page MIME types are the standard ones for each extension: JPEG,
/// PNG, WebP, GIF and SVG images, WebM and MP4 video, MP3, Ogg, WAV and FLAC
/// audio, CSS, JavaScript, JSON and HTML; any other extension is served as
/// raw bytes.
pub proof fn law_page_mime_table(ext: Seq<char>)
    ensures
        ext == "jpg"@ ==> page_mime_for_extension(ext) == "image/jpeg"@,
        ext == "jpeg"@ ==> page_mime_for_extension(ext) == "image/jpeg"@,
        ext == "png"@ ==> page_mime_for_extension(ext) == "image/png"@,
        ext == "webp"@ ==> page_mime_for_extension(ext) == "image/webp"@,
        ext == "gif"@ ==> page_mime_for_extension(ext) == "image/gif"@,
        ext == "svg"@ ==> page_mime_for_extension(ext) == "image/svg+xml"@,
        ext == "webm"@ ==> page_mime_for_extension(ext) == "video/webm"@,
        ext == "mp4"@ ==> page_mime_for_extension(ext) == "video/mp4"@,
        ext == "mp3"@ ==> page_mime_for_extension(ext) == "audio/mpeg"@,
        ext == "ogg"@ ==> page_mime_for_extension(ext) == "audio/ogg"@,
        ext == "wav"@ ==> page_mime_for_extension(ext) == "audio/wav"@,
        ext == "flac"@ ==> page_mime_for_extension(ext) == "audio/flac"@,
        ext == "css"@ ==> page_mime_for_extension(ext) == "text/css"@,
        ext == "js"@ ==> page_mime_for_extension(ext) == "application/javascript"@,
        ext == "json"@ ==> page_mime_for_extension(ext) == "application/json"@,
        ext == "html"@ ==> page_mime_for_extension(ext) == "text/html"@,
        (ext != "jpg"@ && ext != "jpeg"@ && ext != "png"@ && ext != "webp"@ && ext != "gif"@ && ext != "svg"@ && ext != "webm"@ && ext != "mp4"@ && ext != "mp3"@ && ext != "ogg"@ && ext != "wav"@ && ext != "flac"@ && ext != "css"@ && ext != "js"@ && ext != "json"@ && ext != "html"@) ==> page_mime_for_extension(ext) == "application/octet-stream"@,
{
    lemma_page_extensions_distinct();
}


/// The MIME type for a file served to the webview, by exact extension.
pub fn guess_mime(path: &str) -> (r: &'static str)
    ensures
        r@ == page_mime_for_extension(extension_of(path@)),
{
    let ext = find_tail(&to_chars(path), '.');
    if chars_equal_str(&ext, "jpg") {
        "image/jpeg"
    } else if chars_equal_str(&ext, "jpeg") {
        "image/jpeg"
    } else if chars_equal_str(&ext, "png") {
        "image/png"
    } else if chars_equal_str(&ext, "webp") {
        "image/webp"
    } else if chars_equal_str(&ext, "gif") {
        "image/gif"
    } else if chars_equal_str(&ext, "svg") {
        "image/svg+xml"
    } else if chars_equal_str(&ext, "webm") {
        "video/webm"
    } else if chars_equal_str(&ext, "mp4") {
        "video/mp4"
    } else if chars_equal_str(&ext, "mp3") {
        "audio/mpeg"
    } else if chars_equal_str(&ext, "ogg") {
        "audio/ogg"
    } else if chars_equal_str(&ext, "wav") {
        "audio/wav"
    } else if chars_equal_str(&ext, "flac") {
        "audio/flac"
    } else if chars_equal_str(&ext, "css") {
        "text/css"
    } else if chars_equal_str(&ext, "js") {
        "application/javascript"
    } else if chars_equal_str(&ext, "json") {
        "application/json"
    } else if chars_equal_str(&ext, "html") {
        "text/html"
    } else {
        "application/octet-stream"
    }
}

/// The text without its leading `/` characters (`trim_start_matches('/')`).
pub open spec fn trim_leading_slashes(s: Seq<char>) -> Seq<char>
    decreases s.len(),
{
    if s.len() > 0 && s[0] == '/' {
        trim_leading_slashes(s.drop_first())
    } else {
        s
    }
}

pub fn trimmed_start(s: &str) -> (r: String)
    ensures
        r@ == trim_leading_slashes(s@),
{
    let v = to_chars(s);
    let mut i: usize = 0;
    assert(v@.skip(0) =~= v@);
    while i < v.len() && v[i] == '/'
        invariant
            i <= v.len(),
            trim_leading_slashes(s@) == trim_leading_slashes(v@.skip(i as int)),
            v@ == s@,
        decreases v.len() - i,
    {
        assert(v@.skip(i as int).drop_first() =~= v@.skip(i + 1));
        i += 1;
    }
    let mut out: Vec<char> = Vec::new();
    let mut k: usize = i;
    while k < v.len()
        invariant
            i <= k <= v.len(),
            out@ == v@.subrange(i as int, k as int),
        decreases v.len() - k,
    {
        out.push(v[k]);
        k += 1;
        assert(v@.subrange(i as int, k as int) =~= v@.subrange(i as int, k - 1).push(v@[k - 1]));
    }
    assert(out@ =~= v@.skip(i as int));
    string_from_chars(&out)
}

/// What a `ring-asset` request asks for.
#[derive(Debug)]
pub enum AssetRoute {
    /// A mini-game reports completion (`/__game_complete?result=…`).
    GameComplete,
    /// The engine SDK script served from memory.
    EngineSdk,
    /// A file under the assets root: its decoded relative path, its MIME
    /// type, and whether the engine SDK must be injected into it.
    File { path: String, mime: &'static str, inject_sdk: bool },
}

/// Where a request path leads (after leading `/`s are trimmed and it is
/// percent-decoded): the completion endpoint, the SDK script, or a file;
/// HTML pages under `games/` get the SDK injected.
pub open spec fn asset_route_of(decoded: Seq<char>) -> (Option<bool>, Seq<char>, bool) {
    if has_prefix(decoded, "__game_complete"@) {
        (Some(true), decoded, false)
    } else if decoded == "engine-sdk.js"@ {
        (Some(false), decoded, false)
    } else {
        (None, page_mime_for_extension(extension_of(decoded)), has_prefix(decoded, "games/"@)
            && page_mime_for_extension(extension_of(decoded)) == "text/html"@)
    }
}

proof fn lemma_html_type_distinct()
    ensures
        "text/html"@ != "image/jpeg"@,
        "text/html"@ != "image/png"@,
        "text/html"@ != "image/webp"@,
        "text/html"@ != "image/gif"@,
        "text/html"@ != "image/svg+xml"@,
        "text/html"@ != "video/webm"@,
        "text/html"@ != "video/mp4"@,
        "text/html"@ != "audio/mpeg"@,
        "text/html"@ != "audio/ogg"@,
        "text/html"@ != "audio/wav"@,
        "text/html"@ != "audio/flac"@,
        "text/html"@ != "text/css"@,
        "text/html"@ != "application/javascript"@,
        "text/html"@ != "application/json"@,
        "text/html"@ != "application/octet-stream"@,
{
    reveal_strlit("text/html");
    reveal_strlit("image/jpeg");
    assert("text/html"@.len() != "image/jpeg"@.len());
    reveal_strlit("image/png");
    assert("text/html"@[0] == 't' && "image/png"@[0] == 'i');
    reveal_strlit("image/webp");
    assert("text/html"@.len() != "image/webp"@.len());
    reveal_strlit("image/gif");
    assert("text/html"@[0] == 't' && "image/gif"@[0] == 'i');
    reveal_strlit("image/svg+xml");
    assert("text/html"@.len() != "image/svg+xml"@.len());
    reveal_strlit("video/webm");
    assert("text/html"@.len() != "video/webm"@.len());
    reveal_strlit("video/mp4");
    assert("text/html"@[0] == 't' && "video/mp4"@[0] == 'v');
    reveal_strlit("audio/mpeg");
    assert("text/html"@.len() != "audio/mpeg"@.len());
    reveal_strlit("audio/ogg");
    assert("text/html"@[0] == 't' && "audio/ogg"@[0] == 'a');
    reveal_strlit("audio/wav");
    assert("text/html"@[0] == 't' && "audio/wav"@[0] == 'a');
    reveal_strlit("audio/flac");
    assert("text/html"@.len() != "audio/flac"@.len());
    reveal_strlit("text/css");
    assert("text/html"@.len() != "text/css"@.len());
    reveal_strlit("application/javascript");
    assert("text/html"@.len() != "application/javascript"@.len());
    reveal_strlit("application/json");
    assert("text/html"@.len() != "application/json"@.len());
    reveal_strlit("application/octet-stream");
    assert("text/html"@.len() != "application/octet-stream"@.len());
}

/// The routes of a decoded request path: a path starting with
/// `__game_complete` reports a finished mini-game, `engine-sdk.js` is the
/// engine SDK, and every other path is a file served with its page MIME
/// type, with the SDK injected exactly into HTML pages under `games/`.
pub proof fn law_asset_routes(decoded: Seq<char>)
    ensures
        has_prefix(decoded, "__game_complete"@) ==> asset_route_of(decoded).0 == Some(true),
        !has_prefix(decoded, "__game_complete"@) && decoded == "engine-sdk.js"@ ==> asset_route_of(
            decoded,
        ).0 == Some(false),
        !has_prefix(decoded, "__game_complete"@) && decoded != "engine-sdk.js"@ ==> {
            &&& asset_route_of(decoded).0 is None
            &&& asset_route_of(decoded).1 == page_mime_for_extension(extension_of(decoded))
            &&& asset_route_of(decoded).2 == (has_prefix(decoded, "games/"@) && extension_of(decoded)
                == "html"@)
        },
{
    lemma_html_type_distinct();
    law_page_mime_table(extension_of(decoded));
}

/// Routes a `ring-asset` request path.
pub fn route_asset_request(raw_path: &str) -> (r: AssetRoute)
    ensures
        ({
            let decoded = percent_decoded(trim_leading_slashes(raw_path@));
            let (special, mime, inject) = asset_route_of(decoded);
            match r {
                AssetRoute::GameComplete => special == Some(true),
                AssetRoute::EngineSdk => special == Some(false),
                AssetRoute::File { path, mime: m, inject_sdk } => special is None && path@ == decoded
                    && m@ == mime && inject_sdk == inject,
            }
        }),
{
    let trimmed = trimmed_start(raw_path);
    let clean = percent_decode(trimmed.as_str());
    let v = to_chars(clean.as_str());
    if starts_with_chars(&v, &to_chars("__game_complete")) {
        return AssetRoute::GameComplete;
    }
    if chars_equal_str(&v, "engine-sdk.js") {
        return AssetRoute::EngineSdk;
    }
    let mime = guess_mime(clean.as_str());
    let games = starts_with_chars(&v, &to_chars("games/"));
    let html = chars_equal_str(&to_chars(mime), "text/html");
    AssetRoute::File { path: clean, mime, inject_sdk: games && html }
}


/// The page with the SDK script tag inserted right after the first `<head>`
/// (else the first `<HEAD>`), or in front of the page when it has neither.
pub open spec fn with_sdk_injected(html: Seq<char>, sdk: Seq<char>) -> Seq<char> {
    let tag = "<script>"@ + sdk + "</script>"@;
    match first_occurrence(html, "<head>"@) {
        Some(p) => html.take(p + 6) + tag + html.skip(p + 6),
        None => match first_occurrence(html, "<HEAD>"@) {
            Some(p) => html.take(p + 6) + tag + html.skip(p + 6),
            None => tag + html,
        },
    }
}

fn push_all(out: &mut Vec<char>, s: &Vec<char>, from: usize, to: usize)
    requires
        from <= to <= s.len(),
    ensures
        final(out)@ == old(out)@ + s@.subrange(from as int, to as int),
{
    let ghost start = out@;
    let mut k: usize = from;
    while k < to
        invariant
            from <= k <= to,
            to <= s.len(),
            out@ == start + s@.subrange(from as int, k as int),
        decreases to - k,
    {
        out.push(s[k]);
        k += 1;
        assert(s@.subrange(from as int, k as int) =~= s@.subrange(from as int, k - 1).push(s@[k - 1]));
    }
}

fn insert_at(h: &Vec<char>, p: usize, tag: &Vec<char>) -> (r: Vec<char>)
    requires
        p <= h.len(),
    ensures
        r@ == h@.take(p as int) + tag@ + h@.skip(p as int),
{
    let mut out: Vec<char> = Vec::new();
    push_all(&mut out, h, 0, p);
    push_all(&mut out, tag, 0, tag.len());
    push_all(&mut out, h, p, h.len());
    assert(tag@.subrange(0, tag@.len() as int) =~= tag@);
    assert(h@.subrange(0, p as int) =~= h@.take(p as int));
    assert(h@.subrange(p as int, h@.len() as int) =~= h@.skip(p as int));
    out
}

/// Injects the engine SDK script into a mini-game page.
pub fn inject_engine_sdk(html: &str, sdk: &str) -> (r: String)
    ensures
        r@ == with_sdk_injected(html@, sdk@),
{
    let h = to_chars(html);
    let mut tag = to_chars("<script>");
    let sdk_chars = to_chars(sdk);
    push_all(&mut tag, &sdk_chars, 0, sdk_chars.len());
    let close = to_chars("</script>");
    push_all(&mut tag, &close, 0, close.len());
    assert(sdk_chars@.subrange(0, sdk_chars@.len() as int) =~= sdk_chars@);
    assert(close@.subrange(0, close@.len() as int) =~= close@);
    assert(tag@ =~= "<script>"@ + sdk@ + "</script>"@);
    let lower = to_chars("<head>");
    let upper = to_chars("<HEAD>");
    proof {
        reveal_strlit("<head>");
        reveal_strlit("<HEAD>");
        crate::text::lemma_first_occurrence_in_bounds(h@, lower@);
        crate::text::lemma_first_occurrence_in_bounds(h@, upper@);
    }
    assert(lower@.len() == 6 && upper@.len() == 6);
    let n = h.len();
    let out = match find_first(&h, &lower) {
        Some(p) => {
            assert(first_occurrence(h@, lower@) == Some(p as int));
            proof {
                crate::text::lemma_first_occurrence_in_bounds(h@, lower@);
            }
            assert(p + 6 <= n);
            insert_at(&h, p + 6, &tag)
        },
        None => match find_first(&h, &upper) {
            Some(p) => {
                assert(first_occurrence(h@, upper@) == Some(p as int));
                assert(p + 6 <= n);
                insert_at(&h, p + 6, &tag)
            },
            None => insert_at(&h, 0, &tag),
        },
    };
    proof {
        assert(h@.take(0) =~= Seq::<char>::empty());
        assert(h@.skip(0) =~= h@);
    }
    string_from_chars(&out)
}


/// The value of one `key=value` query piece when its key (up to the first
/// `=`) is `result`.
pub open spec fn result_in_piece(piece: Seq<char>) -> Option<Seq<char>> {
    match first_index_of(piece, '=') {
        Some(e) => if piece.take(e) == "result"@ {
            Some(piece.skip(e + 1))
        } else {
            None
        },
        None => None,
    }
}

/// The value of the first `result` parameter among the `&`-separated pieces
/// of `s`, where `cur` is the piece already begun to the left of `s`.
pub open spec fn result_param_from(s: Seq<char>, cur: Seq<char>) -> Option<Seq<char>>
    decreases s.len(),
{
    if s.len() == 0 {
        result_in_piece(cur)
    } else if s[0] == '&' {
        match result_in_piece(cur) {
            Some(v) => Some(v),
            None => result_param_from(s.drop_first(), Seq::empty()),
        }
    } else {
        result_param_from(s.drop_first(), cur.push(s[0]))
    }
}

/// The value of the first `result` parameter of a query string.
pub open spec fn result_param(query: Seq<char>) -> Option<Seq<char>> {
    result_param_from(query, Seq::empty())
}

fn piece_result(piece: &Vec<char>) -> (r: Option<Vec<char>>)
    ensures
        match result_in_piece(piece@) {
            Some(v) => r matches Some(x) && x@ == v,
            None => r is None,
        },
{
    let mut e: usize = 0;
    assert(piece@.skip(0) =~= piece@);
    while e < piece.len() && piece[e] != '='
        invariant
            e <= piece.len(),
            forall|j: int| 0 <= j < e ==> piece@[j] != '=',
            first_index_of(piece@, '=') == match first_index_of(piece@.skip(e as int), '=') {
                Some(k) => Some(k + e),
                None => None::<int>,
            },
        decreases piece.len() - e,
    {
        assert(piece@.skip(e as int).drop_first() =~= piece@.skip(e + 1));
        e += 1;
    }
    if e == piece.len() {
        assert(piece@.skip(e as int).len() == 0);
        return None;
    }
    assert(piece@.skip(e as int)[0] == '=');
    let mut key: Vec<char> = Vec::new();
    push_all(&mut key, piece, 0, e);
    assert(key@ =~= piece@.take(e as int));
    if !chars_equal_str(&key, "result") {
        return None;
    }
    let mut value: Vec<char> = Vec::new();
    push_all(&mut value, piece, e + 1, piece.len());
    assert(value@ =~= piece@.skip(e + 1));
    Some(value)
}

/// The `result` reported by a finished mini-game: the percent-decoded value
/// of the query's first `result` parameter, or nothing when there is none.
pub fn game_complete_result(query: &str) -> (r: String)
    ensures
        match result_param(query@) {
            Some(v) => r@ == percent_decoded(v),
            None => r@ == Seq::<char>::empty(),
        },
{
    match result_param_text(query) {
        Some(v) => percent_decode(v.as_str()),
        None => String::new(),
    }
}

/// The raw (still percent-encoded) value of the query's first `result`
/// parameter.
pub fn result_param_text(query: &str) -> (r: Option<String>)
    ensures
        match result_param(query@) {
            Some(v) => r matches Some(x) && x@ == v,
            None => r is None,
        },
{
    let q = to_chars(query);
    let mut cur: Vec<char> = Vec::new();
    let mut i: usize = 0;
    assert(q@.skip(0) =~= q@);
    while i < q.len()
        invariant
            i <= q.len(),
            q@ == query@,
            result_param(query@) == result_param_from(q@.skip(i as int), cur@),
        decreases q.len() - i,
    {
        assert(q@.skip(i as int).drop_first() =~= q@.skip(i + 1));
        assert(q@.skip(i as int)[0] == q@[i as int]);
        if q[i] == '&' {
            match piece_result(&cur) {
                Some(v) => {
                    return Some(string_from_chars(&v));
                },
                None => {
                    cur = Vec::new();
                },
            }
        } else {
            cur.push(q[i]);
        }
        i += 1;
    }
    assert(q@.skip(i as int).len() == 0);
    match piece_result(&cur) {
        Some(v) => Some(string_from_chars(&v)),
        None => None,
    }
}

} // verus!
