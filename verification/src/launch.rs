//! Start-up decisions: where configured paths resolve, which archive is
//! opened, and how the headless harness reads its settings.

use vstd::prelude::*;
use crate::resources::join_text;
use crate::saves::join_path;
use crate::text::{to_chars, chars_equal_str, parse_u64, parse_u64_text};

verus! {

/// A path is absolute when it begins with `/`.
pub open spec fn is_absolute(p: Seq<char>) -> bool {
    p.len() > 0 && p[0] == '/'
}

/// A configured path: kept when absolute, otherwise taken relative to the
/// project root.
pub open spec fn resolved_under(root: Seq<char>, p: Seq<char>) -> Seq<char> {
    if is_absolute(p) {
        p
    } else {
        join_path(root, p)
    }
}

/// Resolves a configured path against the project root.
pub fn resolve_under_root(root: &str, path: &str) -> (r: String)
    ensures
        r@ == resolved_under(root@, path@),
{
    let v = to_chars(path);
    if v.len() > 0 && v[0] == '/' {
        path.to_owned()
    } else {
        join_text(root, path)
    }
}

/// The archive opened in ZIP mode: the configured ZIP path (default
/// `assets.zip`), resolved against the project root.
pub fn zip_archive_path(project_root: &str, zip_path: Option<&str>) -> (r: String)
    ensures
        r@ == resolved_under(
            project_root@,
            match zip_path {
                Some(z) => z@,
                None => "assets.zip"@,
            },
        ),
{
    let rel = match zip_path {
        Some(z) => z,
        None => "assets.zip",
    };
    resolve_under_root(project_root, rel)
}

/// Where the headless harness writes its trace bundle by default:
/// `<root>/artifacts/<host>/harness-cli-bundle.json`.
pub fn default_output_path(project_root: &str, host: &str) -> (r: String)
    ensures
        r@ == join_path(join_path(join_path(project_root@, "artifacts"@), host@), "harness-cli-bundle.json"@),
{
    let a = join_text(project_root, "artifacts");
    let b = join_text(a.as_str(), host);
    join_text(b.as_str(), "harness-cli-bundle.json")
}

/// The environment values the harness reads as "on".
pub open spec fn is_truthy_flag(v: Seq<char>) -> bool {
    v == "1"@ || v == "true"@ || v == "TRUE"@ || v == "yes"@ || v == "YES"@
}

/// A boolean harness setting: its default when unset, otherwise whether the
/// value is one of `1`, `true`, `TRUE`, `yes`, `YES`.
pub fn env_flag(value: Option<&str>, default: bool) -> (r: bool)
    ensures
        r == match value {
            Some(v) => is_truthy_flag(v@),
            None => default,
        },
{
    match value {
        Some(v) => {
            let c = to_chars(v);
            chars_equal_str(&c, "1") || chars_equal_str(&c, "true") || chars_equal_str(&c, "TRUE")
                || chars_equal_str(&c, "yes") || chars_equal_str(&c, "YES")
        },
        None => default,
    }
}

/// A count harness setting: its default when unset; a value must parse as a
/// `usize`, else the setting is rejected.
pub fn env_count(value: Option<&str>, default: usize) -> (r: Option<usize>)
    ensures
        match value {
            None => r == Some(default),
            Some(v) => match parse_u64_text(v@) {
                Some(n) => if n <= usize::MAX {
                    r == Some(n as usize)
                } else {
                    r is None
                },
                None => r is None,
            },
        },
{
    match value {
        None => Some(default),
        Some(v) => match parse_u64(v) {
            Some(n) => {
                if n <= usize::MAX as u64 {
                    Some(n as usize)
                } else {
                    None
                }
            },
            None => None,
        },
    }
}

/// Map locations are enabled unless the map file says otherwise.
pub fn default_true() -> (r: bool)
    ensures
        r,
{
    true
}

} // verus!
