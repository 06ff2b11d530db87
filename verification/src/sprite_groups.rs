//! Which character group's anchor and pre-scale a sprite uses: an explicit
//! sprite-to-group mapping first, then a group inferred from the sprite's
//! path, else the defaults.

use vstd::prelude::*;
use crate::resources::{file_name_of, parent_dir_of, normalized, normalize_logical_path, find_tail};
use crate::text::{
    last_index_of, lemma_last_index_of, first_index_of, find_last, find_first_char, to_chars,
    string_from_chars, chars_equal_str,
};

verus! {

/// Directory names too generic to name a group.
pub open spec fn generic_dir(name: Seq<char>) -> bool {
    name == "characters"@ || name == "sprites"@ || name == "images"@ || name == "assets"@
}

/// `Path::file_stem` of a file name: the name up to its last `.`, unless
/// that `.` is the first character (or the name is `..`).
pub open spec fn stem_of_name(name: Seq<char>) -> Seq<char> {
    if name == seq!['.', '.'] {
        name
    } else {
        match last_index_of(name, '.') {
            Some(i) => if i == 0 {
                name
            } else {
                name.take(i)
            },
            None => name,
        }
    }
}

/// The text before the first `c`, if `c` occurs.
pub open spec fn before_first(s: Seq<char>, c: char) -> Option<Seq<char>> {
    match first_index_of(s, c) {
        Some(p) => Some(s.take(p)),
        None => None,
    }
}

/// A group name read from a file stem: the part before the first `-`, else
/// before the first `_`, else before the first space, else the whole stem.
pub open spec fn group_from_stem(stem: Seq<char>) -> Seq<char> {
    match before_first(stem, '-') {
        Some(x) => x,
        None => match before_first(stem, '_') {
            Some(x) => x,
            None => match before_first(stem, ' ') {
                Some(x) => x,
                None => stem,
            },
        },
    }
}

/// The group a normalised sprite path suggests: the directory holding the
/// file unless that directory is generic (or there is none), else the start
/// of the file's stem; an empty path suggests `default`.
pub open spec fn inferred_group(p: Seq<char>) -> Seq<char> {
    if p.len() == 0 {
        "default"@
    } else if last_index_of(p, '/') is Some && !generic_dir(file_name_of(parent_dir_of(p))) {
        file_name_of(parent_dir_of(p))
    } else {
        group_from_stem(stem_of_name(file_name_of(p)))
    }
}

/// The value of the first pair whose key is `key`.
pub open spec fn lookup(pairs: Seq<(Seq<char>, Seq<char>)>, key: Seq<char>) -> Option<Seq<char>>
    decreases pairs.len(),
{
    if pairs.len() == 0 {
        None
    } else if pairs[0].0 == key {
        Some(pairs[0].1)
    } else {
        lookup(pairs.drop_first(), key)
    }
}

/// The group whose configuration a sprite uses, among the groups that have
/// one: the group mapped to the raw path (or, when the raw path is not
/// mapped, to its normal form) if it has a configuration; else the inferred
/// group if it has one; else none, and the defaults apply.
pub open spec fn chosen_group(
    sprites: Seq<(Seq<char>, Seq<char>)>,
    groups: Seq<Seq<char>>,
    raw: Seq<char>,
) -> Option<Seq<char>> {
    let norm = normalized(raw);
    let explicit = match lookup(sprites, raw) {
        Some(g) => Some(g),
        None => lookup(sprites, norm),
    };
    if explicit is Some && groups.contains(explicit->0) {
        explicit
    } else if groups.contains(inferred_group(norm)) {
        Some(inferred_group(norm))
    } else {
        None
    }
}

pub open spec fn pairs_view(v: Seq<(String, String)>) -> Seq<(Seq<char>, Seq<char>)> {
    v.map_values(|p: (String, String)| (p.0@, p.1@))
}

pub open spec fn names_view(v: Seq<String>) -> Seq<Seq<char>> {
    v.map_values(|s: String| s@)
}

fn prefix_chars(v: &Vec<char>, n: usize) -> (r: Vec<char>)
    requires
        n <= v.len(),
    ensures
        r@ == v@.take(n as int),
{
    let mut out: Vec<char> = Vec::new();
    let mut k: usize = 0;
    while k < n
        invariant
            k <= n <= v.len(),
            out@ == v@.take(k as int),
        decreases n - k,
    {
        out.push(v[k]);
        k += 1;
        assert(v@.take(k as int) =~= v@.take(k - 1).push(v@[k - 1]));
    }
    out
}

fn is_generic_dir(name: &Vec<char>) -> (r: bool)
    ensures
        r == generic_dir(name@),
{
    chars_equal_str(name, "characters") || chars_equal_str(name, "sprites") || chars_equal_str(
        name,
        "images",
    ) || chars_equal_str(name, "assets")
}

fn stem_chars(name: &Vec<char>) -> (r: Vec<char>)
    ensures
        r@ == stem_of_name(name@),
{
    if name.len() == 2 && name[0] == '.' && name[1] == '.' {
        assert(name@ =~= seq!['.', '.']);
        return prefix_chars(name, 2);
    }
    assert(name@ != seq!['.', '.']) by {
        if name@ == seq!['.', '.'] {
            assert(name@.len() == 2 && name@[0] == '.' && name@[1] == '.');
        }
    }
    match find_last(name, '.') {
        Some(i) => {
            proof {
                lemma_last_index_of(name@, '.');
            }
            if i == 0 {
                prefix_chars(name, name.len())
            } else {
                prefix_chars(name, i)
            }
        },
        None => prefix_chars(name, name.len()),
    }
}

fn group_from_stem_chars(stem: &Vec<char>) -> (r: Vec<char>)
    ensures
        r@ == group_from_stem(stem@),
{
    match find_first_char(stem, '-') {
        Some(p) => prefix_chars(stem, p),
        None => match find_first_char(stem, '_') {
            Some(p) => prefix_chars(stem, p),
            None => match find_first_char(stem, ' ') {
                Some(p) => prefix_chars(stem, p),
                None => prefix_chars(stem, stem.len()),
            },
        },
    }
}

/// The group a normalised sprite path suggests (see [`inferred_group`]).
pub fn infer_group_id(sprite_path: &str) -> (r: String)
    ensures
        r@ == inferred_group(sprite_path@),
{
    let chars = to_chars(sprite_path);
    if chars.len() == 0 {
        let r = "default".to_owned();
        return r;
    }
    proof {
        lemma_last_index_of(chars@, '/');
    }
    match find_last(&chars, '/') {
        Some(i) => {
            let parent = prefix_chars(&chars, i);
            assert(parent@ == parent_dir_of(sprite_path@));
            let pname = find_tail(&parent, '/');
            assert(pname@ == file_name_of(parent_dir_of(sprite_path@)));
            if !is_generic_dir(&pname) {
                return string_from_chars(&pname);
            }
        },
        None => {},
    }
    let name = find_tail(&chars, '/');
    assert(name@ == file_name_of(sprite_path@));
    let stem = stem_chars(&name);
    string_from_chars(&group_from_stem_chars(&stem))
}

fn lookup_pairs(pairs: &Vec<(String, String)>, key: &str) -> (r: Option<String>)
    ensures
        match lookup(pairs_view(pairs@), key@) {
            Some(g) => r matches Some(x) && x@ == g,
            None => r is None,
        },
{
    let ghost pv = pairs_view(pairs@);
    let mut i: usize = 0;
    assert(pv.skip(0) =~= pv);
    while i < pairs.len()
        invariant
            i <= pairs@.len(),
            pv == pairs_view(pairs@),
            lookup(pv, key@) == lookup(pv.skip(i as int), key@),
        decreases pairs.len() - i,
    {
        assert(pv.skip(i as int)[0] == (pairs@[i as int].0@, pairs@[i as int].1@));
        if chars_equal_str(&to_chars(pairs[i].0.as_str()), key) {
            return Some(pairs[i].1.clone());
        }
        assert(pv.skip(i as int).drop_first() =~= pv.skip(i + 1));
        i += 1;
    }
    assert(pv.skip(i as int).len() == 0);
    None
}

fn has_name(names: &Vec<String>, name: &str) -> (r: bool)
    ensures
        r == names_view(names@).contains(name@),
{
    let ghost nv = names_view(names@);
    let mut i: usize = 0;
    while i < names.len()
        invariant
            i <= names@.len(),
            nv == names_view(names@),
            forall|j: int| 0 <= j < i ==> nv[j] != name@,
        decreases names.len() - i,
    {
        if chars_equal_str(&to_chars(names[i].as_str()), name) {
            assert(nv[i as int] == name@);
            return true;
        }
        i += 1;
    }
    false
}

/// The group whose configuration a sprite uses, given the sprite-to-group
/// mapping and the names of the groups that have a configuration; none
/// means the defaults (see [`chosen_group`]).
pub fn group_for_sprite(sprites: &Vec<(String, String)>, groups: &Vec<String>, sprite_path: &str) -> (r:
    Option<String>)
    ensures
        match chosen_group(pairs_view(sprites@), names_view(groups@), sprite_path@) {
            Some(g) => r matches Some(x) && x@ == g,
            None => r is None,
        },
{
    let norm = normalize_logical_path(sprite_path);
    let explicit = match lookup_pairs(sprites, sprite_path) {
        Some(g) => Some(g),
        None => lookup_pairs(sprites, norm.as_str()),
    };
    match explicit {
        Some(g) => {
            if has_name(groups, g.as_str()) {
                return Some(g);
            }
        },
        None => {},
    }
    let inferred = infer_group_id(norm.as_str());
    if has_name(groups, inferred.as_str()) {
        Some(inferred)
    } else {
        None
    }
}

/// Selects the mappings whose group has no configuration.
pub open spec fn unconfigured(groups: Seq<Seq<char>>) -> spec_fn((Seq<char>, Seq<char>)) -> bool {
    |p: (Seq<char>, Seq<char>)| !groups.contains(p.1)
}

/// The sprite mappings that name a group without a configuration, in the
/// order given: each is reported as an unknown group at start-up.
pub fn unknown_group_sprites(sprites: &Vec<(String, String)>, groups: &Vec<String>) -> (r: Vec<
    (String, String),
>)
    ensures
        pairs_view(r@) == pairs_view(sprites@).filter(unconfigured(names_view(groups@))),
{
    let ghost pv = pairs_view(sprites@);
    let ghost pred = unconfigured(names_view(groups@));
    let mut out: Vec<(String, String)> = Vec::new();
    let mut i: usize = 0;
    assert(pairs_view(out@) =~= pv.take(0).filter(pred)) by {
        reveal(Seq::filter);
    }
    while i < sprites.len()
        invariant
            i <= sprites@.len(),
            pv == pairs_view(sprites@),
            pred == unconfigured(names_view(groups@)),
            pairs_view(out@) == pv.take(i as int).filter(pred),
        decreases sprites.len() - i,
    {
        let ghost e = pv[i as int];
        proof {
            assert(pv.take(i + 1) =~= pv.take(i as int).push(e));
            pv.take(i as int).lemma_filter_push(e, pred);
        }
        if !has_name(groups, sprites[i].1.as_str()) {
            let ghost before = out@;
            out.push((sprites[i].0.clone(), sprites[i].1.clone()));
            assert(pairs_view(out@) =~= pairs_view(before).push(e));
        }
        i += 1;
    }
    assert(pv.take(sprites@.len() as int) =~= pv);
    out
}

} // verus!
