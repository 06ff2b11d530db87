//! Logical resource paths, the resource-source abstraction and MIME guessing.
//!
//! A logical path is relative to the assets root, uses `/` as separator,
//! has `.` and `..` resolved and never begins with the `assets/` prefix.

use vstd::prelude::*;
use vstd::string::{StrSliceExecFns, StringExecFns};
use crate::saves::{join_path, path_exists};
use crate::normal_form::{is_normal_path, lemma_normalized_is_normal};
use crate::text::{ascii_lower, ascii_lower_seq, lower_char, has_prefix, last_index_of, lemma_last_index_of, find_last, to_chars, string_from_chars, starts_with_chars, chars_equal_str};

verus! {

// ── path normalisation ─────────────────────────────────────────────────────

/// Every `\` replaced by `/`.
pub open spec fn slashify(s: Seq<char>) -> Seq<char> {
    s.map_values(|c: char| if c == '\\' { '/' } else { c })
}

/// One leading `./` removed, if present.
pub open spec fn strip_dot_slash(s: Seq<char>) -> Seq<char> {
    if has_prefix(s, seq!['.', '/']) {
        s.skip(2)
    } else {
        s
    }
}

/// The pieces of `s` between `/` separators (as `str::split('/')`), where `cur`
/// is the piece already begun to the left of `s`.
pub open spec fn split_slash_from(s: Seq<char>, cur: Seq<char>) -> Seq<Seq<char>>
    decreases s.len(),
{
    if s.len() == 0 {
        seq![cur]
    } else if s[0] == '/' {
        seq![cur] + split_slash_from(s.drop_first(), Seq::empty())
    } else {
        split_slash_from(s.drop_first(), cur.push(s[0]))
    }
}

/// The pieces of `s` between `/` separators; an empty string has one empty piece.
pub open spec fn split_slash(s: Seq<char>) -> Seq<Seq<char>> {
    split_slash_from(s, Seq::empty())
}

/// One component applied to the stack of kept components: empty and `.` are
/// dropped, `..` removes the last kept component (if any), anything else is kept.
pub open spec fn apply_component(stack: Seq<Seq<char>>, comp: Seq<char>) -> Seq<Seq<char>> {
    if comp.len() == 0 || comp == seq!['.'] {
        stack
    } else if comp == seq!['.', '.'] {
        if stack.len() > 0 {
            stack.drop_last()
        } else {
            stack
        }
    } else {
        stack.push(comp)
    }
}

/// The components applied left to right.
pub open spec fn resolve_components(stack: Seq<Seq<char>>, comps: Seq<Seq<char>>) -> Seq<Seq<char>>
    decreases comps.len(),
{
    if comps.len() == 0 {
        stack
    } else {
        resolve_components(apply_component(stack, comps[0]), comps.drop_first())
    }
}

/// The components joined with `/`.
pub open spec fn join_slash(comps: Seq<Seq<char>>) -> Seq<char>
    decreases comps.len(),
{
    if comps.len() == 0 {
        Seq::empty()
    } else if comps.len() == 1 {
        comps[0]
    } else {
        join_slash(comps.drop_last()) + seq!['/'] + comps.last()
    }
}

pub open spec fn assets_prefix() -> Seq<char> {
    seq!['a', 's', 's', 'e', 't', 's', '/']
}

/// The `assets/` prefix removed, if present.
pub open spec fn strip_assets_prefix(s: Seq<char>) -> Seq<char> {
    if has_prefix(s, assets_prefix()) {
        s.skip(7)
    } else {
        s
    }
}

/// The normal form of a raw resource path.
pub open spec fn normalized(raw: Seq<char>) -> Seq<char> {
    strip_assets_prefix(
        join_slash(resolve_components(Seq::empty(), split_slash(strip_dot_slash(slashify(raw))))),
    )
}

proof fn lemma_split_step(s: Seq<char>, i: int, cur: Seq<char>)
    requires
        0 <= i < s.len(),
    ensures
        split_slash_from(s.skip(i), cur) == (if s[i] == '/' {
            seq![cur] + split_slash_from(s.skip(i + 1), Seq::empty())
        } else {
            split_slash_from(s.skip(i + 1), cur.push(s[i]))
        }),
{
    assert(s.skip(i).drop_first() =~= s.skip(i + 1));
}

proof fn lemma_resolve_append(stack: Seq<Seq<char>>, c: Seq<char>, rest: Seq<Seq<char>>)
    ensures
        resolve_components(stack, seq![c] + rest) == resolve_components(
            apply_component(stack, c),
            rest,
        ),
{
    assert((seq![c] + rest).drop_first() =~= rest);
}

/// The pieces of the working path, resolved against `..` and `.`.
fn resolve_path(s: &Vec<char>) -> (r: Vec<Vec<char>>)
    ensures
        r@.map_values(|v: Vec<char>| v@) == resolve_components(Seq::empty(), split_slash(s@)),
{
    let mut stack: Vec<Vec<char>> = Vec::new();
    let mut cur: Vec<char> = Vec::new();
    let mut i: usize = 0;
    assert(stack@.map_values(|v: Vec<char>| v@) =~= Seq::<Seq<char>>::empty());
    assert(s@.skip(0) =~= s@);
    assert(cur@ =~= Seq::<char>::empty());
    while i < s.len()
        invariant
            i <= s.len(),
            resolve_components(Seq::empty(), split_slash(s@)) == resolve_components(
                stack@.map_values(|v: Vec<char>| v@),
                split_slash_from(s@.skip(i as int), cur@),
            ),
        decreases s.len() - i,
    {
        proof {
            lemma_split_step(s@, i as int, cur@);
        }
        if s[i] == '/' {
            proof {
                lemma_resolve_append(
                    stack@.map_values(|v: Vec<char>| v@),
                    cur@,
                    split_slash_from(s@.skip(i + 1), Seq::empty()),
                );
            }
            let comp = cur;
            cur = Vec::new();
            push_component(&mut stack, comp);
        } else {
            cur.push(s[i]);
        }
        i += 1;
    }
    proof {
        assert(s@.skip(i as int).len() == 0);
        lemma_resolve_append(stack@.map_values(|v: Vec<char>| v@), cur@, Seq::empty());
        assert(seq![cur@] + Seq::<Seq<char>>::empty() =~= seq![cur@]);
    }
    push_component(&mut stack, cur);
    stack
}

/// `apply_component` on the executable stack.
fn push_component(stack: &mut Vec<Vec<char>>, comp: Vec<char>)
    ensures
        final(stack)@.map_values(|v: Vec<char>| v@) == apply_component(
            old(stack)@.map_values(|v: Vec<char>| v@),
            comp@,
        ),
{
    let ghost old_view = old(stack)@.map_values(|v: Vec<char>| v@);
    let is_dot = comp.len() == 1 && comp[0] == '.';
    let is_dotdot = comp.len() == 2 && comp[0] == '.' && comp[1] == '.';
    proof {
        if comp.len() == 1 {
            assert(is_dot <==> comp@ =~= seq!['.']);
        } else {
            assert(comp@ != seq!['.']) by {
                assert(seq!['.'].len() == 1);
            }
        }
        if comp.len() == 2 {
            assert(is_dotdot <==> comp@ =~= seq!['.', '.']);
        } else {
            assert(comp@ != seq!['.', '.']) by {
                assert(seq!['.', '.'].len() == 2);
            }
        }
    }
    if comp.len() == 0 || is_dot {
    } else if is_dotdot {
        if stack.len() > 0 {
            stack.pop();
            assert(stack@.map_values(|v: Vec<char>| v@) =~= old_view.drop_last());
        }
    } else {
        stack.push(comp);
        assert(stack@.map_values(|v: Vec<char>| v@) =~= old_view.push(comp@));
    }
}

/// The components joined with `/`, as characters.
fn join_components(comps: &Vec<Vec<char>>) -> (r: Vec<char>)
    ensures
        r@ == join_slash(comps@.map_values(|v: Vec<char>| v@)),
{
    let ghost view = comps@.map_values(|v: Vec<char>| v@);
    let mut out: Vec<char> = Vec::new();
    let mut k: usize = 0;
    while k < comps.len()
        invariant
            k <= comps.len(),
            view == comps@.map_values(|v: Vec<char>| v@),
            out@ == join_slash(view.take(k as int)),
        decreases comps.len() - k,
    {
        if k > 0 {
            out.push('/');
        }
        let piece = &comps[k];
        let mut j: usize = 0;
        let ghost before = out@;
        while j < piece.len()
            invariant
                j <= piece.len(),
                out@ == before + piece@.take(j as int),
            decreases piece.len() - j,
        {
            out.push(piece[j]);
            j += 1;
            assert(piece@.take(j as int) =~= piece@.take(j - 1).push(piece@[j - 1]));
        }
        proof {
            assert(piece@.take(piece.len() as int) =~= piece@);
            assert(view.take(k + 1).drop_last() =~= view.take(k as int));
            assert(view.take(k + 1).last() == piece@);
            if k == 0 {
                assert(out@ =~= piece@);
            } else {
                assert(out@ =~= join_slash(view.take(k as int)) + seq!['/'] + piece@);
            }
        }
        k += 1;
    }
    assert(view.take(comps.len() as int) =~= view);
    out
}

/// Normalises a raw resource path: `\` becomes `/`, a leading `./` is dropped,
/// `.` and `..` are resolved, empty components vanish and an `assets/` prefix
/// is stripped.
pub fn normalize_logical_path(path: &str) -> (r: String)
    ensures
        r@ == normalized(path@),
{
    let raw = to_chars(path);
    let mut work: Vec<char> = Vec::new();
    let mut i: usize = 0;
    while i < raw.len()
        invariant
            i <= raw.len(),
            work@ == slashify(raw@.take(i as int)),
        decreases raw.len() - i,
    {
        let c = raw[i];
        if c == '\\' {
            work.push('/');
        } else {
            work.push(c);
        }
        i += 1;
        assert(slashify(raw@.take(i as int)) =~= slashify(raw@.take(i - 1)).push(
            if c == '\\' { '/' } else { c },
        ));
    }
    assert(raw@.take(raw.len() as int) =~= raw@);
    let dot_slash = work.len() >= 2 && work[0] == '.' && work[1] == '/';
    assert(dot_slash == has_prefix(work@, seq!['.', '/'])) by {
        if work.len() >= 2 {
            assert(dot_slash ==> work@.take(2) =~= seq!['.', '/']);
            assert(work@.take(2) =~= seq!['.', '/'] ==> work@[0] == '.' && work@[1] == '/') by {
                if work@.take(2) =~= seq!['.', '/'] {
                    assert(work@.take(2)[0] == '.');
                    assert(work@.take(2)[1] == '/');
                }
            }
        }
    }
    let mut body: Vec<char> = Vec::new();
    let start: usize = if dot_slash { 2 } else { 0 };
    let mut j: usize = start;
    while j < work.len()
        invariant
            start <= j <= work.len(),
            body@ == work@.subrange(start as int, j as int),
        decreases work.len() - j,
    {
        body.push(work[j]);
        j += 1;
        assert(work@.subrange(start as int, j as int) =~= work@.subrange(start as int, j - 1).push(
            work@[j - 1],
        ));
    }
    assert(body@ =~= strip_dot_slash(work@));
    let comps = resolve_path(&body);
    let joined = join_components(&comps);
    let prefix = to_chars("assets/");
    proof {
        reveal_strlit("assets/");
    }
    assert(prefix@ =~= assets_prefix());
    if starts_with_chars(&joined, &prefix) {
        let mut out: Vec<char> = Vec::new();
        let mut k: usize = 7;
        while k < joined.len()
            invariant
                7 <= k <= joined.len(),
                out@ == joined@.subrange(7, k as int),
            decreases joined.len() - k,
        {
            out.push(joined[k]);
            k += 1;
            assert(joined@.subrange(7, k as int) =~= joined@.subrange(7, k - 1).push(joined@[k - 1]));
        }
        assert(out@ =~= joined@.skip(7));
        string_from_chars(&out)
    } else {
        string_from_chars(&joined)
    }
}


// ── LogicalPath ─────────────────────────────────────────────────────────────

/// A normalised logical resource path (see [`normalize_logical_path`]).
#[derive(Debug, Clone, PartialEq, Eq, Hash)]
pub struct LogicalPath(String);

impl View for LogicalPath {
    type V = Seq<char>;

    closed spec fn view(&self) -> Seq<char> {
        self.0@
    }
}

/// The file name after the last `/`, or the whole path.
pub open spec fn file_name_of(p: Seq<char>) -> Seq<char> {
    match last_index_of(p, '/') {
        Some(i) => p.skip(i + 1),
        None => p,
    }
}

/// The file name without its last extension.
pub open spec fn file_stem_of(p: Seq<char>) -> Seq<char> {
    let name = file_name_of(p);
    match last_index_of(name, '.') {
        Some(j) => name.take(j),
        None => name,
    }
}

/// Everything before the last `/`, or nothing.
pub open spec fn parent_dir_of(p: Seq<char>) -> Seq<char> {
    match last_index_of(p, '/') {
        Some(i) => p.take(i),
        None => Seq::empty(),
    }
}

/// The raw text that `LogicalPath::join` normalises.
pub open spec fn join_raw(base: Seq<char>, rel: Seq<char>) -> Seq<char> {
    if base.len() == 0 {
        rel
    } else {
        base + seq!['/'] + rel
    }
}

#[verifier::external_type_specification]
#[verifier::external_body]
pub struct ExPathBuf(std::path::PathBuf);

/// The text a `PathBuf` holds.
pub uninterp spec fn path_buf_text(p: std::path::PathBuf) -> Seq<char>;

/// `PathBuf::from`: a path holding exactly the given text.
#[verifier::external_body]
fn path_buf_from(s: &str) -> (r: std::path::PathBuf)
    ensures
        path_buf_text(r) == s@,
{
    std::path::PathBuf::from(s)
}

impl LogicalPath {
    /// The path as a `PathBuf`.
    pub fn to_path_buf(&self) -> (r: std::path::PathBuf)
        ensures
            path_buf_text(r) == self@,
    {
        path_buf_from(self.0.as_str())
    }

    /// The path text, owned (what `to_string` gives).
    pub fn to_text(&self) -> (r: String)
        ensures
            r@ == self@,
    {
        self.0.clone()
    }

    /// Builds a logical path from raw text, normalising it.
    pub fn new(raw: &str) -> (r: Self)
        ensures
            r@ == normalized(raw@),
            is_normal_path(r@),
    {
        proof {
            lemma_normalized_is_normal(raw@);
        }
        LogicalPath(normalize_logical_path(raw))
    }

    /// The path text.
    pub fn as_str(&self) -> (r: &str)
        ensures
            r@ == self@,
    {
        self.0.as_str()
    }

    /// The file name without extension.
    pub fn file_stem(&self) -> (r: &str)
        ensures
            r@ == file_stem_of(self@),
    {
        let chars = to_chars(self.0.as_str());
        proof {
            lemma_last_index_of(chars@, '/');
        }
        let found = find_last(&chars, '/');
        let start: usize = match found {
            Some(i) => {
                assert(last_index_of(chars@, '/') == Some(i as int));
                assert(i < chars.len());
                i + 1
            },
            None => 0,
        };
        let mut name: Vec<char> = Vec::new();
        let mut k: usize = start;
        while k < chars.len()
            invariant
                start <= k <= chars.len(),
                name@ == chars@.subrange(start as int, k as int),
            decreases chars.len() - k,
        {
            name.push(chars[k]);
            k += 1;
            assert(chars@.subrange(start as int, k as int) =~= chars@.subrange(start as int, k - 1).push(
                chars@[k - 1],
            ));
        }
        assert(name@ =~= file_name_of(self@));
        proof {
            lemma_last_index_of(name@, '.');
        }
        let end: usize = match find_last(&name, '.') {
            Some(j) => start + j,
            None => chars.len(),
        };
        let r = self.0.as_str().substring_char(start, end);
        assert(r@ =~= file_stem_of(self@));
        r
    }

    /// The parent directory (everything before the last `/`).
    pub fn parent_dir(&self) -> (r: &str)
        ensures
            r@ == parent_dir_of(self@),
    {
        let chars = to_chars(self.0.as_str());
        proof {
            lemma_last_index_of(self@, '/');
        }
        match find_last(&chars, '/') {
            Some(i) => {
                let r = self.0.as_str().substring_char(0, i);
                assert(r@ =~= parent_dir_of(self@));
                r
            },
            None => {
                let r = self.0.as_str().substring_char(0, 0);
                assert(r@ =~= parent_dir_of(self@));
                r
            },
        }
    }

    /// Appends a relative path and normalises the result.
    pub fn join(&self, relative: &str) -> (r: Self)
        ensures
            r@ == normalized(join_raw(self@, relative@)),
            is_normal_path(r@),
    {
        if self.0.as_str().unicode_len() == 0 {
            Self::new(relative)
        } else {
            let mut raw = to_chars(self.0.as_str());
            raw.push('/');
            let rel = to_chars(relative);
            let mut k: usize = 0;
            let ghost base = raw@;
            while k < rel.len()
                invariant
                    k <= rel.len(),
                    raw@ == base + rel@.take(k as int),
                decreases rel.len() - k,
            {
                raw.push(rel[k]);
                k += 1;
                assert(rel@.take(k as int) =~= rel@.take(k - 1).push(rel@[k - 1]));
            }
            assert(rel@.take(rel.len() as int) =~= rel@);
            assert(raw@ =~= join_raw(self@, relative@));
            let text = string_from_chars(&raw);
            Self::new(text.as_str())
        }
    }
}


// ── MIME guessing ───────────────────────────────────────────────────────────

/// The text after the last `.` (the whole text when there is none).
pub open spec fn extension_of(p: Seq<char>) -> Seq<char> {
    match last_index_of(p, '.') {
        Some(i) => p.skip(i + 1),
        None => p,
    }
}

/// The MIME type served for a lower-case file extension.
pub open spec fn mime_for_extension(ext: Seq<char>) -> Seq<char> {
    if ext == "png"@ {
        "image/png"@
    } else if ext == "jpg"@ {
        "image/jpeg"@
    } else if ext == "jpeg"@ {
        "image/jpeg"@
    } else if ext == "webp"@ {
        "image/webp"@
    } else if ext == "gif"@ {
        "image/gif"@
    } else if ext == "svg"@ {
        "image/svg+xml"@
    } else if ext == "mp3"@ {
        "audio/mpeg"@
    } else if ext == "ogg"@ {
        "audio/ogg"@
    } else if ext == "wav"@ {
        "audio/wav"@
    } else if ext == "mp4"@ {
        "video/mp4"@
    } else if ext == "webm"@ {
        "video/webm"@
    } else if ext == "json"@ {
        "application/json"@
    } else if ext == "css"@ {
        "text/css"@
    } else if ext == "js"@ {
        "text/javascript"@
    } else if ext == "html"@ {
        "text/html"@
    } else if ext == "htm"@ {
        "text/html"@
    } else if ext == "txt"@ {
        "text/plain"@
    } else if ext == "md"@ {
        "text/plain"@
    } else if ext == "rks"@ {
        "text/plain"@
    } else if ext == "woff2"@ {
        "font/woff2"@
    } else if ext == "woff"@ {
        "font/woff"@
    } else if ext == "ttf"@ {
        "font/ttf"@
    } else if ext == "otf"@ {
        "font/otf"@
    } else {
        "application/octet-stream"@
    }
}

proof fn lemma_extensions_distinct()
    ensures
        "png"@ != "jpg"@,
        "png"@ != "jpeg"@,
        "png"@ != "webp"@,
        "png"@ != "gif"@,
        "png"@ != "svg"@,
        "png"@ != "mp3"@,
        "png"@ != "ogg"@,
        "png"@ != "wav"@,
        "png"@ != "mp4"@,
        "png"@ != "webm"@,
        "png"@ != "json"@,
        "png"@ != "css"@,
        "png"@ != "js"@,
        "png"@ != "html"@,
        "png"@ != "htm"@,
        "png"@ != "txt"@,
        "png"@ != "md"@,
        "png"@ != "rks"@,
        "png"@ != "woff2"@,
        "png"@ != "woff"@,
        "png"@ != "ttf"@,
        "png"@ != "otf"@,
        "jpg"@ != "jpeg"@,
        "jpg"@ != "webp"@,
        "jpg"@ != "gif"@,
        "jpg"@ != "svg"@,
        "jpg"@ != "mp3"@,
        "jpg"@ != "ogg"@,
        "jpg"@ != "wav"@,
        "jpg"@ != "mp4"@,
        "jpg"@ != "webm"@,
        "jpg"@ != "json"@,
        "jpg"@ != "css"@,
        "jpg"@ != "js"@,
        "jpg"@ != "html"@,
        "jpg"@ != "htm"@,
        "jpg"@ != "txt"@,
        "jpg"@ != "md"@,
        "jpg"@ != "rks"@,
        "jpg"@ != "woff2"@,
        "jpg"@ != "woff"@,
        "jpg"@ != "ttf"@,
        "jpg"@ != "otf"@,
        "jpeg"@ != "webp"@,
        "jpeg"@ != "gif"@,
        "jpeg"@ != "svg"@,
        "jpeg"@ != "mp3"@,
        "jpeg"@ != "ogg"@,
        "jpeg"@ != "wav"@,
        "jpeg"@ != "mp4"@,
        "jpeg"@ != "webm"@,
        "jpeg"@ != "json"@,
        "jpeg"@ != "css"@,
        "jpeg"@ != "js"@,
        "jpeg"@ != "html"@,
        "jpeg"@ != "htm"@,
        "jpeg"@ != "txt"@,
        "jpeg"@ != "md"@,
        "jpeg"@ != "rks"@,
        "jpeg"@ != "woff2"@,
        "jpeg"@ != "woff"@,
        "jpeg"@ != "ttf"@,
        "jpeg"@ != "otf"@,
        "webp"@ != "gif"@,
        "webp"@ != "svg"@,
        "webp"@ != "mp3"@,
        "webp"@ != "ogg"@,
        "webp"@ != "wav"@,
        "webp"@ != "mp4"@,
        "webp"@ != "webm"@,
        "webp"@ != "json"@,
        "webp"@ != "css"@,
        "webp"@ != "js"@,
        "webp"@ != "html"@,
        "webp"@ != "htm"@,
        "webp"@ != "txt"@,
        "webp"@ != "md"@,
        "webp"@ != "rks"@,
        "webp"@ != "woff2"@,
        "webp"@ != "woff"@,
        "webp"@ != "ttf"@,
        "webp"@ != "otf"@,
        "gif"@ != "svg"@,
        "gif"@ != "mp3"@,
        "gif"@ != "ogg"@,
        "gif"@ != "wav"@,
        "gif"@ != "mp4"@,
        "gif"@ != "webm"@,
        "gif"@ != "json"@,
        "gif"@ != "css"@,
        "gif"@ != "js"@,
        "gif"@ != "html"@,
        "gif"@ != "htm"@,
        "gif"@ != "txt"@,
        "gif"@ != "md"@,
        "gif"@ != "rks"@,
        "gif"@ != "woff2"@,
        "gif"@ != "woff"@,
        "gif"@ != "ttf"@,
        "gif"@ != "otf"@,
        "svg"@ != "mp3"@,
        "svg"@ != "ogg"@,
        "svg"@ != "wav"@,
        "svg"@ != "mp4"@,
        "svg"@ != "webm"@,
        "svg"@ != "json"@,
        "svg"@ != "css"@,
        "svg"@ != "js"@,
        "svg"@ != "html"@,
        "svg"@ != "htm"@,
        "svg"@ != "txt"@,
        "svg"@ != "md"@,
        "svg"@ != "rks"@,
        "svg"@ != "woff2"@,
        "svg"@ != "woff"@,
        "svg"@ != "ttf"@,
        "svg"@ != "otf"@,
        "mp3"@ != "ogg"@,
        "mp3"@ != "wav"@,
        "mp3"@ != "mp4"@,
        "mp3"@ != "webm"@,
        "mp3"@ != "json"@,
        "mp3"@ != "css"@,
        "mp3"@ != "js"@,
        "mp3"@ != "html"@,
        "mp3"@ != "htm"@,
        "mp3"@ != "txt"@,
        "mp3"@ != "md"@,
        "mp3"@ != "rks"@,
        "mp3"@ != "woff2"@,
        "mp3"@ != "woff"@,
        "mp3"@ != "ttf"@,
        "mp3"@ != "otf"@,
        "ogg"@ != "wav"@,
        "ogg"@ != "mp4"@,
        "ogg"@ != "webm"@,
        "ogg"@ != "json"@,
        "ogg"@ != "css"@,
        "ogg"@ != "js"@,
        "ogg"@ != "html"@,
        "ogg"@ != "htm"@,
        "ogg"@ != "txt"@,
        "ogg"@ != "md"@,
        "ogg"@ != "rks"@,
        "ogg"@ != "woff2"@,
        "ogg"@ != "woff"@,
        "ogg"@ != "ttf"@,
        "ogg"@ != "otf"@,
        "wav"@ != "mp4"@,
        "wav"@ != "webm"@,
        "wav"@ != "json"@,
        "wav"@ != "css"@,
        "wav"@ != "js"@,
        "wav"@ != "html"@,
        "wav"@ != "htm"@,
        "wav"@ != "txt"@,
        "wav"@ != "md"@,
        "wav"@ != "rks"@,
        "wav"@ != "woff2"@,
        "wav"@ != "woff"@,
        "wav"@ != "ttf"@,
        "wav"@ != "otf"@,
        "mp4"@ != "webm"@,
        "mp4"@ != "json"@,
        "mp4"@ != "css"@,
        "mp4"@ != "js"@,
        "mp4"@ != "html"@,
        "mp4"@ != "htm"@,
        "mp4"@ != "txt"@,
        "mp4"@ != "md"@,
        "mp4"@ != "rks"@,
        "mp4"@ != "woff2"@,
        "mp4"@ != "woff"@,
        "mp4"@ != "ttf"@,
        "mp4"@ != "otf"@,
        "webm"@ != "json"@,
        "webm"@ != "css"@,
        "webm"@ != "js"@,
        "webm"@ != "html"@,
        "webm"@ != "htm"@,
        "webm"@ != "txt"@,
        "webm"@ != "md"@,
        "webm"@ != "rks"@,
        "webm"@ != "woff2"@,
        "webm"@ != "woff"@,
        "webm"@ != "ttf"@,
        "webm"@ != "otf"@,
        "json"@ != "css"@,
        "json"@ != "js"@,
        "json"@ != "html"@,
        "json"@ != "htm"@,
        "json"@ != "txt"@,
        "json"@ != "md"@,
        "json"@ != "rks"@,
        "json"@ != "woff2"@,
        "json"@ != "woff"@,
        "json"@ != "ttf"@,
        "json"@ != "otf"@,
        "css"@ != "js"@,
        "css"@ != "html"@,
        "css"@ != "htm"@,
        "css"@ != "txt"@,
        "css"@ != "md"@,
        "css"@ != "rks"@,
        "css"@ != "woff2"@,
        "css"@ != "woff"@,
        "css"@ != "ttf"@,
        "css"@ != "otf"@,
        "js"@ != "html"@,
        "js"@ != "htm"@,
        "js"@ != "txt"@,
        "js"@ != "md"@,
        "js"@ != "rks"@,
        "js"@ != "woff2"@,
        "js"@ != "woff"@,
        "js"@ != "ttf"@,
        "js"@ != "otf"@,
        "html"@ != "htm"@,
        "html"@ != "txt"@,
        "html"@ != "md"@,
        "html"@ != "rks"@,
        "html"@ != "woff2"@,
        "html"@ != "woff"@,
        "html"@ != "ttf"@,
        "html"@ != "otf"@,
        "htm"@ != "txt"@,
        "htm"@ != "md"@,
        "htm"@ != "rks"@,
        "htm"@ != "woff2"@,
        "htm"@ != "woff"@,
        "htm"@ != "ttf"@,
        "htm"@ != "otf"@,
        "txt"@ != "md"@,
        "txt"@ != "rks"@,
        "txt"@ != "woff2"@,
        "txt"@ != "woff"@,
        "txt"@ != "ttf"@,
        "txt"@ != "otf"@,
        "md"@ != "rks"@,
        "md"@ != "woff2"@,
        "md"@ != "woff"@,
        "md"@ != "ttf"@,
        "md"@ != "otf"@,
        "rks"@ != "woff2"@,
        "rks"@ != "woff"@,
        "rks"@ != "ttf"@,
        "rks"@ != "otf"@,
        "woff2"@ != "woff"@,
        "woff2"@ != "ttf"@,
        "woff2"@ != "otf"@,
        "woff"@ != "ttf"@,
        "woff"@ != "otf"@,
        "ttf"@ != "otf"@,
{
    reveal_strlit("png");
    reveal_strlit("jpg");
    reveal_strlit("jpeg");
    reveal_strlit("webp");
    reveal_strlit("gif");
    reveal_strlit("svg");
    reveal_strlit("mp3");
    reveal_strlit("ogg");
    reveal_strlit("wav");
    reveal_strlit("mp4");
    reveal_strlit("webm");
    reveal_strlit("json");
    reveal_strlit("css");
    reveal_strlit("js");
    reveal_strlit("html");
    reveal_strlit("htm");
    reveal_strlit("txt");
    reveal_strlit("md");
    reveal_strlit("rks");
    reveal_strlit("woff2");
    reveal_strlit("woff");
    reveal_strlit("ttf");
    reveal_strlit("otf");
    assert("png"@[0] == 'p' && "jpg"@[0] == 'j');
    assert("png"@.len() != "jpeg"@.len());
    assert("png"@.len() != "webp"@.len());
    assert("png"@[0] == 'p' && "gif"@[0] == 'g');
    assert("png"@[0] == 'p' && "svg"@[0] == 's');
    assert("png"@[0] == 'p' && "mp3"@[0] == 'm');
    assert("png"@[0] == 'p' && "ogg"@[0] == 'o');
    assert("png"@[0] == 'p' && "wav"@[0] == 'w');
    assert("png"@[0] == 'p' && "mp4"@[0] == 'm');
    assert("png"@.len() != "webm"@.len());
    assert("png"@.len() != "json"@.len());
    assert("png"@[0] == 'p' && "css"@[0] == 'c');
    assert("png"@.len() != "js"@.len());
    assert("png"@.len() != "html"@.len());
    assert("png"@[0] == 'p' && "htm"@[0] == 'h');
    assert("png"@[0] == 'p' && "txt"@[0] == 't');
    assert("png"@.len() != "md"@.len());
    assert("png"@[0] == 'p' && "rks"@[0] == 'r');
    assert("png"@.len() != "woff2"@.len());
    assert("png"@.len() != "woff"@.len());
    assert("png"@[0] == 'p' && "ttf"@[0] == 't');
    assert("png"@[0] == 'p' && "otf"@[0] == 'o');
    assert("jpg"@.len() != "jpeg"@.len());
    assert("jpg"@.len() != "webp"@.len());
    assert("jpg"@[0] == 'j' && "gif"@[0] == 'g');
    assert("jpg"@[0] == 'j' && "svg"@[0] == 's');
    assert("jpg"@[0] == 'j' && "mp3"@[0] == 'm');
    assert("jpg"@[0] == 'j' && "ogg"@[0] == 'o');
    assert("jpg"@[0] == 'j' && "wav"@[0] == 'w');
    assert("jpg"@[0] == 'j' && "mp4"@[0] == 'm');
    assert("jpg"@.len() != "webm"@.len());
    assert("jpg"@.len() != "json"@.len());
    assert("jpg"@[0] == 'j' && "css"@[0] == 'c');
    assert("jpg"@.len() != "js"@.len());
    assert("jpg"@.len() != "html"@.len());
    assert("jpg"@[0] == 'j' && "htm"@[0] == 'h');
    assert("jpg"@[0] == 'j' && "txt"@[0] == 't');
    assert("jpg"@.len() != "md"@.len());
    assert("jpg"@[0] == 'j' && "rks"@[0] == 'r');
    assert("jpg"@.len() != "woff2"@.len());
    assert("jpg"@.len() != "woff"@.len());
    assert("jpg"@[0] == 'j' && "ttf"@[0] == 't');
    assert("jpg"@[0] == 'j' && "otf"@[0] == 'o');
    assert("jpeg"@[0] == 'j' && "webp"@[0] == 'w');
    assert("jpeg"@.len() != "gif"@.len());
    assert("jpeg"@.len() != "svg"@.len());
    assert("jpeg"@.len() != "mp3"@.len());
    assert("jpeg"@.len() != "ogg"@.len());
    assert("jpeg"@.len() != "wav"@.len());
    assert("jpeg"@.len() != "mp4"@.len());
    assert("jpeg"@[0] == 'j' && "webm"@[0] == 'w');
    assert("jpeg"@[1] == 'p' && "json"@[1] == 's');
    assert("jpeg"@.len() != "css"@.len());
    assert("jpeg"@.len() != "js"@.len());
    assert("jpeg"@[0] == 'j' && "html"@[0] == 'h');
    assert("jpeg"@.len() != "htm"@.len());
    assert("jpeg"@.len() != "txt"@.len());
    assert("jpeg"@.len() != "md"@.len());
    assert("jpeg"@.len() != "rks"@.len());
    assert("jpeg"@.len() != "woff2"@.len());
    assert("jpeg"@[0] == 'j' && "woff"@[0] == 'w');
    assert("jpeg"@.len() != "ttf"@.len());
    assert("jpeg"@.len() != "otf"@.len());
    assert("webp"@.len() != "gif"@.len());
    assert("webp"@.len() != "svg"@.len());
    assert("webp"@.len() != "mp3"@.len());
    assert("webp"@.len() != "ogg"@.len());
    assert("webp"@.len() != "wav"@.len());
    assert("webp"@.len() != "mp4"@.len());
    assert("webp"@[3] == 'p' && "webm"@[3] == 'm');
    assert("webp"@[0] == 'w' && "json"@[0] == 'j');
    assert("webp"@.len() != "css"@.len());
    assert("webp"@.len() != "js"@.len());
    assert("webp"@[0] == 'w' && "html"@[0] == 'h');
    assert("webp"@.len() != "htm"@.len());
    assert("webp"@.len() != "txt"@.len());
    assert("webp"@.len() != "md"@.len());
    assert("webp"@.len() != "rks"@.len());
    assert("webp"@.len() != "woff2"@.len());
    assert("webp"@[1] == 'e' && "woff"@[1] == 'o');
    assert("webp"@.len() != "ttf"@.len());
    assert("webp"@.len() != "otf"@.len());
    assert("gif"@[0] == 'g' && "svg"@[0] == 's');
    assert("gif"@[0] == 'g' && "mp3"@[0] == 'm');
    assert("gif"@[0] == 'g' && "ogg"@[0] == 'o');
    assert("gif"@[0] == 'g' && "wav"@[0] == 'w');
    assert("gif"@[0] == 'g' && "mp4"@[0] == 'm');
    assert("gif"@.len() != "webm"@.len());
    assert("gif"@.len() != "json"@.len());
    assert("gif"@[0] == 'g' && "css"@[0] == 'c');
    assert("gif"@.len() != "js"@.len());
    assert("gif"@.len() != "html"@.len());
    assert("gif"@[0] == 'g' && "htm"@[0] == 'h');
    assert("gif"@[0] == 'g' && "txt"@[0] == 't');
    assert("gif"@.len() != "md"@.len());
    assert("gif"@[0] == 'g' && "rks"@[0] == 'r');
    assert("gif"@.len() != "woff2"@.len());
    assert("gif"@.len() != "woff"@.len());
    assert("gif"@[0] == 'g' && "ttf"@[0] == 't');
    assert("gif"@[0] == 'g' && "otf"@[0] == 'o');
    assert("svg"@[0] == 's' && "mp3"@[0] == 'm');
    assert("svg"@[0] == 's' && "ogg"@[0] == 'o');
    assert("svg"@[0] == 's' && "wav"@[0] == 'w');
    assert("svg"@[0] == 's' && "mp4"@[0] == 'm');
    assert("svg"@.len() != "webm"@.len());
    assert("svg"@.len() != "json"@.len());
    assert("svg"@[0] == 's' && "css"@[0] == 'c');
    assert("svg"@.len() != "js"@.len());
    assert("svg"@.len() != "html"@.len());
    assert("svg"@[0] == 's' && "htm"@[0] == 'h');
    assert("svg"@[0] == 's' && "txt"@[0] == 't');
    assert("svg"@.len() != "md"@.len());
    assert("svg"@[0] == 's' && "rks"@[0] == 'r');
    assert("svg"@.len() != "woff2"@.len());
    assert("svg"@.len() != "woff"@.len());
    assert("svg"@[0] == 's' && "ttf"@[0] == 't');
    assert("svg"@[0] == 's' && "otf"@[0] == 'o');
    assert("mp3"@[0] == 'm' && "ogg"@[0] == 'o');
    assert("mp3"@[0] == 'm' && "wav"@[0] == 'w');
    assert("mp3"@[2] == '3' && "mp4"@[2] == '4');
    assert("mp3"@.len() != "webm"@.len());
    assert("mp3"@.len() != "json"@.len());
    assert("mp3"@[0] == 'm' && "css"@[0] == 'c');
    assert("mp3"@.len() != "js"@.len());
    assert("mp3"@.len() != "html"@.len());
    assert("mp3"@[0] == 'm' && "htm"@[0] == 'h');
    assert("mp3"@[0] == 'm' && "txt"@[0] == 't');
    assert("mp3"@.len() != "md"@.len());
    assert("mp3"@[0] == 'm' && "rks"@[0] == 'r');
    assert("mp3"@.len() != "woff2"@.len());
    assert("mp3"@.len() != "woff"@.len());
    assert("mp3"@[0] == 'm' && "ttf"@[0] == 't');
    assert("mp3"@[0] == 'm' && "otf"@[0] == 'o');
    assert("ogg"@[0] == 'o' && "wav"@[0] == 'w');
    assert("ogg"@[0] == 'o' && "mp4"@[0] == 'm');
    assert("ogg"@.len() != "webm"@.len());
    assert("ogg"@.len() != "json"@.len());
    assert("ogg"@[0] == 'o' && "css"@[0] == 'c');
    assert("ogg"@.len() != "js"@.len());
    assert("ogg"@.len() != "html"@.len());
    assert("ogg"@[0] == 'o' && "htm"@[0] == 'h');
    assert("ogg"@[0] == 'o' && "txt"@[0] == 't');
    assert("ogg"@.len() != "md"@.len());
    assert("ogg"@[0] == 'o' && "rks"@[0] == 'r');
    assert("ogg"@.len() != "woff2"@.len());
    assert("ogg"@.len() != "woff"@.len());
    assert("ogg"@[0] == 'o' && "ttf"@[0] == 't');
    assert("ogg"@[1] == 'g' && "otf"@[1] == 't');
    assert("wav"@[0] == 'w' && "mp4"@[0] == 'm');
    assert("wav"@.len() != "webm"@.len());
    assert("wav"@.len() != "json"@.len());
    assert("wav"@[0] == 'w' && "css"@[0] == 'c');
    assert("wav"@.len() != "js"@.len());
    assert("wav"@.len() != "html"@.len());
    assert("wav"@[0] == 'w' && "htm"@[0] == 'h');
    assert("wav"@[0] == 'w' && "txt"@[0] == 't');
    assert("wav"@.len() != "md"@.len());
    assert("wav"@[0] == 'w' && "rks"@[0] == 'r');
    assert("wav"@.len() != "woff2"@.len());
    assert("wav"@.len() != "woff"@.len());
    assert("wav"@[0] == 'w' && "ttf"@[0] == 't');
    assert("wav"@[0] == 'w' && "otf"@[0] == 'o');
    assert("mp4"@.len() != "webm"@.len());
    assert("mp4"@.len() != "json"@.len());
    assert("mp4"@[0] == 'm' && "css"@[0] == 'c');
    assert("mp4"@.len() != "js"@.len());
    assert("mp4"@.len() != "html"@.len());
    assert("mp4"@[0] == 'm' && "htm"@[0] == 'h');
    assert("mp4"@[0] == 'm' && "txt"@[0] == 't');
    assert("mp4"@.len() != "md"@.len());
    assert("mp4"@[0] == 'm' && "rks"@[0] == 'r');
    assert("mp4"@.len() != "woff2"@.len());
    assert("mp4"@.len() != "woff"@.len());
    assert("mp4"@[0] == 'm' && "ttf"@[0] == 't');
    assert("mp4"@[0] == 'm' && "otf"@[0] == 'o');
    assert("webm"@[0] == 'w' && "json"@[0] == 'j');
    assert("webm"@.len() != "css"@.len());
    assert("webm"@.len() != "js"@.len());
    assert("webm"@[0] == 'w' && "html"@[0] == 'h');
    assert("webm"@.len() != "htm"@.len());
    assert("webm"@.len() != "txt"@.len());
    assert("webm"@.len() != "md"@.len());
    assert("webm"@.len() != "rks"@.len());
    assert("webm"@.len() != "woff2"@.len());
    assert("webm"@[1] == 'e' && "woff"@[1] == 'o');
    assert("webm"@.len() != "ttf"@.len());
    assert("webm"@.len() != "otf"@.len());
    assert("json"@.len() != "css"@.len());
    assert("json"@.len() != "js"@.len());
    assert("json"@[0] == 'j' && "html"@[0] == 'h');
    assert("json"@.len() != "htm"@.len());
    assert("json"@.len() != "txt"@.len());
    assert("json"@.len() != "md"@.len());
    assert("json"@.len() != "rks"@.len());
    assert("json"@.len() != "woff2"@.len());
    assert("json"@[0] == 'j' && "woff"@[0] == 'w');
    assert("json"@.len() != "ttf"@.len());
    assert("json"@.len() != "otf"@.len());
    assert("css"@.len() != "js"@.len());
    assert("css"@.len() != "html"@.len());
    assert("css"@[0] == 'c' && "htm"@[0] == 'h');
    assert("css"@[0] == 'c' && "txt"@[0] == 't');
    assert("css"@.len() != "md"@.len());
    assert("css"@[0] == 'c' && "rks"@[0] == 'r');
    assert("css"@.len() != "woff2"@.len());
    assert("css"@.len() != "woff"@.len());
    assert("css"@[0] == 'c' && "ttf"@[0] == 't');
    assert("css"@[0] == 'c' && "otf"@[0] == 'o');
    assert("js"@.len() != "html"@.len());
    assert("js"@.len() != "htm"@.len());
    assert("js"@.len() != "txt"@.len());
    assert("js"@[0] == 'j' && "md"@[0] == 'm');
    assert("js"@.len() != "rks"@.len());
    assert("js"@.len() != "woff2"@.len());
    assert("js"@.len() != "woff"@.len());
    assert("js"@.len() != "ttf"@.len());
    assert("js"@.len() != "otf"@.len());
    assert("html"@.len() != "htm"@.len());
    assert("html"@.len() != "txt"@.len());
    assert("html"@.len() != "md"@.len());
    assert("html"@.len() != "rks"@.len());
    assert("html"@.len() != "woff2"@.len());
    assert("html"@[0] == 'h' && "woff"@[0] == 'w');
    assert("html"@.len() != "ttf"@.len());
    assert("html"@.len() != "otf"@.len());
    assert("htm"@[0] == 'h' && "txt"@[0] == 't');
    assert("htm"@.len() != "md"@.len());
    assert("htm"@[0] == 'h' && "rks"@[0] == 'r');
    assert("htm"@.len() != "woff2"@.len());
    assert("htm"@.len() != "woff"@.len());
    assert("htm"@[0] == 'h' && "ttf"@[0] == 't');
    assert("htm"@[0] == 'h' && "otf"@[0] == 'o');
    assert("txt"@.len() != "md"@.len());
    assert("txt"@[0] == 't' && "rks"@[0] == 'r');
    assert("txt"@.len() != "woff2"@.len());
    assert("txt"@.len() != "woff"@.len());
    assert("txt"@[1] == 'x' && "ttf"@[1] == 't');
    assert("txt"@[0] == 't' && "otf"@[0] == 'o');
    assert("md"@.len() != "rks"@.len());
    assert("md"@.len() != "woff2"@.len());
    assert("md"@.len() != "woff"@.len());
    assert("md"@.len() != "ttf"@.len());
    assert("md"@.len() != "otf"@.len());
    assert("rks"@.len() != "woff2"@.len());
    assert("rks"@.len() != "woff"@.len());
    assert("rks"@[0] == 'r' && "ttf"@[0] == 't');
    assert("rks"@[0] == 'r' && "otf"@[0] == 'o');
    assert("woff2"@.len() != "woff"@.len());
    assert("woff2"@.len() != "ttf"@.len());
    assert("woff2"@.len() != "otf"@.len());
    assert("woff"@.len() != "ttf"@.len());
    assert("woff"@.len() != "otf"@.len());
    assert("ttf"@[0] == 't' && "otf"@[0] == 'o');
}

/// The resource MIME types are the standard ones for each lower-case
/// extension: images, MP3, Ogg and WAV audio, MP4 and WebM video, JSON,
/// CSS, JavaScript, HTML, plain text (including scripts), and WOFF, TTF and
/// OTF fonts; any other extension is raw bytes.
pub proof fn law_mime_table(ext: Seq<char>)
    ensures
        ext == "png"@ ==> mime_for_extension(ext) == "image/png"@,
        ext == "jpg"@ ==> mime_for_extension(ext) == "image/jpeg"@,
        ext == "jpeg"@ ==> mime_for_extension(ext) == "image/jpeg"@,
        ext == "webp"@ ==> mime_for_extension(ext) == "image/webp"@,
        ext == "gif"@ ==> mime_for_extension(ext) == "image/gif"@,
        ext == "svg"@ ==> mime_for_extension(ext) == "image/svg+xml"@,
        ext == "mp3"@ ==> mime_for_extension(ext) == "audio/mpeg"@,
        ext == "ogg"@ ==> mime_for_extension(ext) == "audio/ogg"@,
        ext == "wav"@ ==> mime_for_extension(ext) == "audio/wav"@,
        ext == "mp4"@ ==> mime_for_extension(ext) == "video/mp4"@,
        ext == "webm"@ ==> mime_for_extension(ext) == "video/webm"@,
        ext == "json"@ ==> mime_for_extension(ext) == "application/json"@,
        ext == "css"@ ==> mime_for_extension(ext) == "text/css"@,
        ext == "js"@ ==> mime_for_extension(ext) == "text/javascript"@,
        ext == "html"@ ==> mime_for_extension(ext) == "text/html"@,
        ext == "htm"@ ==> mime_for_extension(ext) == "text/html"@,
        ext == "txt"@ ==> mime_for_extension(ext) == "text/plain"@,
        ext == "md"@ ==> mime_for_extension(ext) == "text/plain"@,
        ext == "rks"@ ==> mime_for_extension(ext) == "text/plain"@,
        ext == "woff2"@ ==> mime_for_extension(ext) == "font/woff2"@,
        ext == "woff"@ ==> mime_for_extension(ext) == "font/woff"@,
        ext == "ttf"@ ==> mime_for_extension(ext) == "font/ttf"@,
        ext == "otf"@ ==> mime_for_extension(ext) == "font/otf"@,
        (ext != "png"@ && ext != "jpg"@ && ext != "jpeg"@ && ext != "webp"@ && ext != "gif"@ && ext != "svg"@ && ext != "mp3"@ && ext != "ogg"@ && ext != "wav"@ && ext != "mp4"@ && ext != "webm"@ && ext != "json"@ && ext != "css"@ && ext != "js"@ && ext != "html"@ && ext != "htm"@ && ext != "txt"@ && ext != "md"@ && ext != "rks"@ && ext != "woff2"@ && ext != "woff"@ && ext != "ttf"@ && ext != "otf"@) ==> mime_for_extension(ext) == "application/octet-stream"@,
{
    lemma_extensions_distinct();
}


/// The characters after the last `c` (all of them when there is none).
pub fn find_tail(chars: &Vec<char>, c: char) -> (r: Vec<char>)
    ensures
        r@ == match last_index_of(chars@, c) {
            Some(i) => chars@.skip(i + 1),
            None => chars@,
        },
{
    proof {
        lemma_last_index_of(chars@, c);
    }
    let found = find_last(chars, c);
    let start: usize = match found {
        Some(i) => {
            assert(last_index_of(chars@, c) == Some(i as int));
            assert(i < chars.len());
            i + 1
        },
        None => 0,
    };
    let mut out: Vec<char> = Vec::new();
    let mut k: usize = start;
    while k < chars.len()
        invariant
            start <= k <= chars.len(),
            out@ == chars@.subrange(start as int, k as int),
        decreases chars.len() - k,
    {
        out.push(chars[k]);
        k += 1;
        assert(chars@.subrange(start as int, k as int) =~= chars@.subrange(start as int, k - 1).push(
            chars@[k - 1],
        ));
    }
    assert(out@ =~= chars@.skip(start as int));
    out
}

/// Lowering ASCII letters moves no `.`.
proof fn lemma_lower_keeps_dots(s: Seq<char>)
    ensures
        last_index_of(ascii_lower_seq(s), '.') == last_index_of(s, '.'),
    decreases s.len(),
{
    if s.len() > 0 {
        let l = ascii_lower_seq(s);
        assert(l.last() == ascii_lower(s.last()));
        assert(ascii_lower(s.last()) == '.' <==> s.last() == '.');
        assert(l.drop_last() =~= ascii_lower_seq(s.drop_last()));
        lemma_lower_keeps_dots(s.drop_last());
    }
}

/// The MIME type guessed for a path depends only on the path with ASCII
/// letters lowered: paths that differ only in ASCII case get the same type.
pub proof fn lemma_mime_ignores_case(p: Seq<char>, q: Seq<char>)
    requires
        ascii_lower_seq(p) == ascii_lower_seq(q),
    ensures
        mime_for_extension(ascii_lower_seq(extension_of(p))) == mime_for_extension(
            ascii_lower_seq(extension_of(q)),
        ),
{
    assert forall|s: Seq<char>| #[trigger] ascii_lower_seq(extension_of(s)) == extension_of(
        ascii_lower_seq(s),
    ) by {
        lemma_lower_keeps_dots(s);
        match last_index_of(s, '.') {
            Some(i) => {
                lemma_last_index_of(s, '.');
                assert(ascii_lower_seq(s.skip(i + 1)) =~= ascii_lower_seq(s).skip(i + 1));
            },
            None => {},
        }
    }
    assert(ascii_lower_seq(extension_of(p)) == extension_of(ascii_lower_seq(p)));
    assert(ascii_lower_seq(extension_of(q)) == extension_of(ascii_lower_seq(q)));
}

/// Guesses a MIME type from the file extension, ignoring ASCII case.
pub fn guess_mime_type(path: &str) -> (r: &'static str)
    ensures
        r@ == mime_for_extension(ascii_lower_seq(extension_of(path@))),
{
    let chars = to_chars(path);
    proof {
        lemma_last_index_of(chars@, '.');
    }
    let found = find_last(&chars, '.');
    let start: usize = match found {
        Some(i) => {
            assert(last_index_of(chars@, '.') == Some(i as int));
            assert(i < chars.len());
            i + 1
        },
        None => 0,
    };
    let mut ext: Vec<char> = Vec::new();
    let mut k: usize = start;
    while k < chars.len()
        invariant
            start <= k <= chars.len(),
            ext@ == ascii_lower_seq(chars@.subrange(start as int, k as int)),
        decreases chars.len() - k,
    {
        let c = lower_char(chars[k]);
        ext.push(c);
        k += 1;
        assert(ascii_lower_seq(chars@.subrange(start as int, k as int)) =~= ascii_lower_seq(
            chars@.subrange(start as int, k - 1),
        ).push(ascii_lower(chars@[k - 1])));
    }
    assert(chars@.subrange(start as int, chars.len() as int) =~= extension_of(path@));
    if chars_equal_str(&ext, "png") {
        "image/png"
    } else if chars_equal_str(&ext, "jpg") {
        "image/jpeg"
    } else if chars_equal_str(&ext, "jpeg") {
        "image/jpeg"
    } else if chars_equal_str(&ext, "webp") {
        "image/webp"
    } else if chars_equal_str(&ext, "gif") {
        "image/gif"
    } else if chars_equal_str(&ext, "svg") {
        "image/svg+xml"
    } else if chars_equal_str(&ext, "mp3") {
        "audio/mpeg"
    } else if chars_equal_str(&ext, "ogg") {
        "audio/ogg"
    } else if chars_equal_str(&ext, "wav") {
        "audio/wav"
    } else if chars_equal_str(&ext, "mp4") {
        "video/mp4"
    } else if chars_equal_str(&ext, "webm") {
        "video/webm"
    } else if chars_equal_str(&ext, "json") {
        "application/json"
    } else if chars_equal_str(&ext, "css") {
        "text/css"
    } else if chars_equal_str(&ext, "js") {
        "text/javascript"
    } else if chars_equal_str(&ext, "html") {
        "text/html"
    } else if chars_equal_str(&ext, "htm") {
        "text/html"
    } else if chars_equal_str(&ext, "txt") {
        "text/plain"
    } else if chars_equal_str(&ext, "md") {
        "text/plain"
    } else if chars_equal_str(&ext, "rks") {
        "text/plain"
    } else if chars_equal_str(&ext, "woff2") {
        "font/woff2"
    } else if chars_equal_str(&ext, "woff") {
        "font/woff"
    } else if chars_equal_str(&ext, "ttf") {
        "font/ttf"
    } else if chars_equal_str(&ext, "otf") {
        "font/otf"
    } else {
        "application/octet-stream"
    }
}


// ── errors and sources ──────────────────────────────────────────────────────

/// Why a resource could not be read.
#[derive(Debug, Clone, PartialEq)]
pub enum ResourceError {
    /// Reading failed.
    LoadFailed { path: String, kind: String, message: String },
    /// No such resource.
    NotFound { path: String },
}

impl ResourceError {
    /// The error as text.
    pub fn message(&self) -> (r: String)
        ensures
            r@ == match self {
                ResourceError::LoadFailed { path, kind, message } => "加载 "@ + kind@ + " 资源失败: "@
                    + path@ + " - "@ + message@,
                ResourceError::NotFound { path } => "资源未找到: "@ + path@,
            },
    {
        match self {
            ResourceError::LoadFailed { path, kind, message } => {
                let mut s = "加载 ".to_owned();
                s.append(kind.as_str());
                s.append(" 资源失败: ");
                s.append(path.as_str());
                s.append(" - ");
                s.append(message.as_str());
                s
            },
            ResourceError::NotFound { path } => {
                let mut s = "资源未找到: ".to_owned();
                s.append(path.as_str());
                s
            },
        }
    }
}

/// Where resources come from (a directory, an archive, …). Implementations
/// decide what each read returns: each one says which answers it may give,
/// and each read gives one of them.
pub trait ResourceSource {
    /// Whether `r` is an answer this source may give to reading `path` as
    /// text.
    /// A source that does not say accepts every answer.
    open spec fn text_answer(&self, path: Seq<char>, r: Result<String, ResourceError>) -> bool {
        true
    }

    /// Whether `r` is an answer this source may give to reading `path` as
    /// bytes.
    /// A source that does not say accepts every answer.
    open spec fn bytes_answer(&self, path: Seq<char>, r: Result<Vec<u8>, ResourceError>) -> bool {
        true
    }

    /// Whether `r` is an answer this source may give to asking whether
    /// `path` exists.
    /// A source that does not say accepts every answer.
    open spec fn exists_answer(&self, path: Seq<char>, r: bool) -> bool {
        true
    }

    /// The resource as text.
    fn read_text(&self, path: &LogicalPath) -> (r: Result<String, ResourceError>)
        ensures
            self.text_answer(path@, r),
    ;

    /// The resource as bytes.
    fn read_bytes(&self, path: &LogicalPath) -> (r: Result<Vec<u8>, ResourceError>)
        ensures
            self.bytes_answer(path@, r),
    ;

    /// Whether the resource exists.
    fn contains(&self, path: &LogicalPath) -> (r: bool)
        ensures
            self.exists_answer(path@, r),
    ;
}

/// A directory of resources on the file system; reading it is done by the
/// host, which resolves logical paths with [`FsSource::resolve`].
pub struct FsSource {
    base_path: String,
}

impl View for FsSource {
    type V = Seq<char>;

    /// The base directory.
    closed spec fn view(&self) -> Seq<char> {
        self.base_path@
    }
}

impl FsSource {
    /// A source rooted at the given directory.
    pub fn new(base_path: &str) -> (r: Self)
        ensures
            r@ == base_path@,
    {
        FsSource { base_path: base_path.to_owned() }
    }

    /// The file-system path of a logical path: the base directory joined with it.
    pub fn resolve(&self, path: &LogicalPath) -> (r: String)
        ensures
            r@ == join_path(self@, path@),
    {
        join_text(self.base_path.as_str(), path.as_str())
    }

    /// The base directory.
    pub fn base_path(&self) -> (r: &str)
        ensures
            r@ == self@,
    {
        self.base_path.as_str()
    }

    /// Whether something exists at the resolved path (asked of the file
    /// system at the moment of the call, so nothing is promised about it).
    pub fn contains(&self, path: &LogicalPath) -> bool {
        let full = self.resolve(path);
        path_exists(full.as_str())
    }

    /// The outcome of reading a resource as text, given what reading the
    /// resolved file gave: its text, or the I/O error's message, which
    /// becomes a load failure of kind `text` at the resolved path.
    pub fn text_outcome(&self, path: &LogicalPath, read: Result<String, String>) -> (r: Result<
        String,
        ResourceError,
    >)
        ensures
            read matches Ok(t) ==> r matches Ok(u) && u@ == t@,
            read matches Err(m) ==> r matches Err(ResourceError::LoadFailed { path: p, kind, message })
                && p@ == join_path(self@, path@) && kind@ == "text"@ && message@ == m@,
    {
        match read {
            Ok(t) => Ok(t),
            Err(m) => Err(
                ResourceError::LoadFailed {
                    path: self.resolve(path),
                    kind: "text".to_owned(),
                    message: m,
                },
            ),
        }
    }

    /// The outcome of reading a resource as bytes: the file's bytes, or a
    /// load failure of kind `file` at the resolved path with the I/O error's
    /// message.
    pub fn bytes_outcome(&self, path: &LogicalPath, read: Result<Vec<u8>, String>) -> (r: Result<
        Vec<u8>,
        ResourceError,
    >)
        ensures
            read matches Ok(b) ==> r matches Ok(c) && c@ == b@,
            read matches Err(m) ==> r matches Err(ResourceError::LoadFailed { path: p, kind, message })
                && p@ == join_path(self@, path@) && kind@ == "file"@ && message@ == m@,
    {
        match read {
            Ok(b) => Ok(b),
            Err(m) => Err(
                ResourceError::LoadFailed {
                    path: self.resolve(path),
                    kind: "file".to_owned(),
                    message: m,
                },
            ),
        }
    }
}

/// `dir` joined with `name`.
pub fn join_text(dir: &str, name: &str) -> (r: String)
    ensures
        r@ == join_path(dir@, name@),
{
    let d = to_chars(dir);
    let mut out = dir.to_owned();
    if d.len() > 0 && d[d.len() - 1] != '/' {
        out.append("/");
        proof {
            reveal_strlit("/");
        }
        assert("/"@ =~= seq!['/']);
    }
    out.append(name);
    out
}

/// Text read only when the resource exists: nothing when it does not, and
/// the read's text when the read succeeds.
pub fn text_if_present(present: bool, read: Option<Result<String, ResourceError>>) -> (r: Option<String>)
    requires
        present <==> read is Some,
    ensures
        !present ==> r is None,
        present ==> match read->0 {
            Ok(t) => r == Some(t),
            Err(_) => r is None,
        },
{
    match read {
        Some(Ok(t)) => Some(t),
        _ => None,
    }
}

/// All resource reads go through one source; the base directory is kept for
/// the frontend's asset URLs.
pub struct ResourceManager<S: ResourceSource> {
    source: S,
    base_path: String,
}

impl<S: ResourceSource> ResourceManager<S> {
    /// The base directory.
    pub closed spec fn base(&self) -> Seq<char> {
        self.base_path@
    }

    /// The source reads go through.
    pub closed spec fn held_source(&self) -> S {
        self.source
    }

    /// A manager over the given source, with the given base directory.
    pub fn with_source(source: S, base_path: &str) -> (r: Self)
        ensures
            r.base() == base_path@,
            r.held_source() == source,
    {
        ResourceManager { source, base_path: base_path.to_owned() }
    }

    /// Reads a text resource through the source: one of the source's
    /// answers.
    pub fn read_text(&self, path: &LogicalPath) -> (r: Result<String, ResourceError>)
        ensures
            self.held_source().text_answer(path@, r),
    {
        self.source.read_text(path)
    }

    /// Reads a binary resource through the source: one of the source's
    /// answers.
    pub fn read_bytes(&self, path: &LogicalPath) -> (r: Result<Vec<u8>, ResourceError>)
        ensures
            self.held_source().bytes_answer(path@, r),
    {
        self.source.read_bytes(path)
    }

    /// Whether the source has the resource: the source's answer.
    pub fn resource_exists(&self, path: &LogicalPath) -> (r: bool)
        ensures
            self.held_source().exists_answer(path@, r),
    {
        self.source.contains(path)
    }

    /// The text of a resource, or nothing when it does not exist or cannot
    /// be read (see [`text_if_present`]): the source is asked whether the
    /// resource exists, and only then for its text.
    pub fn read_text_optional(&self, path: &LogicalPath) -> (r: Option<String>)
        ensures
            r matches Some(t) ==> self.held_source().exists_answer(path@, true)
                && self.held_source().text_answer(path@, Ok(t)),
            r is None ==> self.held_source().exists_answer(path@, false) || exists|
                e: ResourceError,
            |
                self.held_source().exists_answer(path@, true) && #[trigger] self.held_source().text_answer(
                    path@,
                    Err(e),
                ),
    {
        if !self.source.contains(path) {
            return text_if_present(false, None);
        }
        let read = self.read_text(path);
        proof {
            if read is Err {
                assert(self.held_source().text_answer(path@, Err(read->Err_0)));
            }
        }
        text_if_present(true, Some(read))
    }

    /// The file-system path the frontend's asset protocol uses for a resource.
    pub fn resolve_fs_path(&self, path: &LogicalPath) -> (r: String)
        ensures
            r@ == join_path(self.base(), path@),
    {
        join_text(self.base_path.as_str(), path.as_str())
    }

    /// The base directory.
    pub fn base_path(&self) -> (r: &str)
        ensures
            r@ == self.base(),
    {
        self.base_path.as_str()
    }

    /// The source.
    pub fn source(&self) -> (r: &S)
        ensures
            *r == self.held_source(),
    {
        &self.source
    }
}

} // verus!
