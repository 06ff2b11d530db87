//! What a normalised logical path looks like, and why normalising it again
//! changes nothing but a further `assets/` prefix.

use vstd::prelude::*;
use crate::resources::{
    slashify, strip_dot_slash, split_slash, split_slash_from, apply_component, resolve_components,
    join_slash, assets_prefix, strip_assets_prefix, normalized,
};
use crate::text::has_prefix;

verus! {

/// A component that normalisation keeps: not empty, not `.` or `..`, and free
/// of both separators.
pub open spec fn clean_component(c: Seq<char>) -> bool {
    &&& c.len() > 0
    &&& c != seq!['.']
    &&& c != seq!['.', '.']
    &&& !c.contains('/')
    &&& !c.contains('\\')
}

pub open spec fn clean_components(cs: Seq<Seq<char>>) -> bool {
    forall|i: int| 0 <= i < cs.len() ==> #[trigger] clean_component(cs[i])
}

/// The components of a path: none for the empty path, else its `/` pieces.
pub open spec fn path_components(p: Seq<char>) -> Seq<Seq<char>> {
    if p.len() == 0 {
        Seq::empty()
    } else {
        split_slash(p)
    }
}

/// A path in normal form: its components are all clean.
pub open spec fn is_normal_path(p: Seq<char>) -> bool {
    clean_components(path_components(p))
}

proof fn lemma_slashify_free(raw: Seq<char>)
    ensures
        !slashify(raw).contains('\\'),
{
    if slashify(raw).contains('\\') {
        let i = choose|i: int| 0 <= i < slashify(raw).len() && slashify(raw)[i] == '\\';
        assert(slashify(raw)[i] == (if raw[i] == '\\' { '/' } else { raw[i] }));
    }
}

proof fn lemma_strip_dot_slash_free(s: Seq<char>)
    requires
        !s.contains('\\'),
    ensures
        !strip_dot_slash(s).contains('\\'),
{
    if strip_dot_slash(s).contains('\\') {
        let i = choose|i: int|
            0 <= i < strip_dot_slash(s).len() && strip_dot_slash(s)[i] == '\\';
        if has_prefix(s, seq!['.', '/']) {
            assert(s[i + 2] == '\\');
        } else {
            assert(s[i] == '\\');
        }
    }
}

/// Every piece of a split is free of `/`, and of `\` where the input was.
proof fn lemma_split_pieces(s: Seq<char>, cur: Seq<char>)
    requires
        !s.contains('\\'),
        !cur.contains('\\'),
        !cur.contains('/'),
    ensures
        forall|i: int|
            0 <= i < split_slash_from(s, cur).len() ==> {
                let p = #[trigger] split_slash_from(s, cur)[i];
                !p.contains('/') && !p.contains('\\')
            },
    decreases s.len(),
{
    if s.len() == 0 {
        assert(split_slash_from(s, cur) == seq![cur]);
        assert(seq![cur][0] == cur);
    } else {
        assert(!s.drop_first().contains('\\')) by {
            if s.drop_first().contains('\\') {
                let k = choose|k: int| 0 <= k < s.drop_first().len() && s.drop_first()[k] == '\\';
                assert(s[k + 1] == '\\');
            }
        }
        if s[0] == '/' {
            assert(!Seq::<char>::empty().contains('/'));
            assert(!Seq::<char>::empty().contains('\\'));
            lemma_split_pieces(s.drop_first(), Seq::empty());
            let rest = split_slash_from(s.drop_first(), Seq::empty());
            assert forall|i: int| 0 <= i < (seq![cur] + rest).len() implies {
                let p = #[trigger] (seq![cur] + rest)[i];
                !p.contains('/') && !p.contains('\\')
            } by {
                if i > 0 {
                    assert((seq![cur] + rest)[i] == rest[i - 1]);
                }
            }
        } else {
            let next = cur.push(s[0]);
            assert(!next.contains('/') && !next.contains('\\')) by {
                if next.contains('/') {
                    let k = choose|k: int| 0 <= k < next.len() && next[k] == '/';
                    if k < cur.len() {
                        assert(cur[k] == '/');
                    }
                }
                if next.contains('\\') {
                    let k = choose|k: int| 0 <= k < next.len() && next[k] == '\\';
                    if k < cur.len() {
                        assert(cur[k] == '\\');
                    } else {
                        assert(s[0] == '\\');
                    }
                }
            }
            lemma_split_pieces(s.drop_first(), next);
            assert(split_slash_from(s, cur) == split_slash_from(s.drop_first(), next));
        }
    }
}

/// Resolving separator-free pieces onto a clean stack leaves a clean stack.
proof fn lemma_resolve_clean(stack: Seq<Seq<char>>, comps: Seq<Seq<char>>)
    requires
        clean_components(stack),
        forall|i: int|
            0 <= i < comps.len() ==> !(#[trigger] comps[i]).contains('/') && !comps[i].contains(
                '\\',
            ),
    ensures
        clean_components(resolve_components(stack, comps)),
    decreases comps.len(),
{
    if comps.len() > 0 {
        let next = apply_component(stack, comps[0]);
        assert(clean_components(next)) by {
            let c = comps[0];
            if c.len() == 0 || c == seq!['.'] {
            } else if c == seq!['.', '.'] {
                if stack.len() > 0 {
                    assert forall|i: int| 0 <= i < next.len() implies #[trigger] clean_component(
                        next[i],
                    ) by {
                        assert(next[i] == stack[i]);
                    }
                }
            } else {
                assert forall|i: int| 0 <= i < next.len() implies #[trigger] clean_component(
                    next[i],
                ) by {
                    if i < stack.len() {
                        assert(next[i] == stack[i]);
                    }
                }
            }
        }
        assert forall|i: int| 0 <= i < comps.drop_first().len() implies !(
        #[trigger] comps.drop_first()[i]).contains('/') && !comps.drop_first()[i].contains('\\') by {
            assert(comps.drop_first()[i] == comps[i + 1]);
        }
        lemma_resolve_clean(next, comps.drop_first());
    }
}

/// Clean components resolve onto a stack unchanged.
proof fn lemma_resolve_identity(stack: Seq<Seq<char>>, cs: Seq<Seq<char>>)
    requires
        clean_components(cs),
    ensures
        resolve_components(stack, cs) == stack + cs,
    decreases cs.len(),
{
    if cs.len() == 0 {
        assert(stack + cs =~= stack);
    } else {
        assert(clean_component(cs[0]));
        assert(apply_component(stack, cs[0]) == stack.push(cs[0]));
        assert forall|i: int| 0 <= i < cs.drop_first().len() implies #[trigger] clean_component(
            cs.drop_first()[i],
        ) by {
            assert(cs.drop_first()[i] == cs[i + 1]);
        }
        lemma_resolve_identity(stack.push(cs[0]), cs.drop_first());
        assert(stack.push(cs[0]) + cs.drop_first() =~= stack + cs);
    }
}

/// `join_slash` read from the left.
proof fn lemma_join_cons(cs: Seq<Seq<char>>)
    requires
        cs.len() >= 2,
    ensures
        join_slash(cs) == cs[0] + seq!['/'] + join_slash(cs.drop_first()),
    decreases cs.len(),
{
    if cs.len() == 2 {
        assert(cs.drop_last().len() == 1);
        assert(cs.drop_first().len() == 1);
        assert(join_slash(cs.drop_last()) == cs[0]);
        assert(join_slash(cs.drop_first()) == cs[1]);
    } else {
        lemma_join_cons(cs.drop_last());
        assert(cs.drop_last().drop_first() =~= cs.drop_first().drop_last());
        assert(cs.drop_first().last() == cs.last());
        assert(join_slash(cs.drop_first()) == join_slash(cs.drop_first().drop_last()) + seq!['/']
            + cs.last());
        assert(cs.drop_last()[0] == cs[0]);
        let a = cs[0];
        let b = join_slash(cs.drop_first().drop_last());
        assert(a + seq!['/'] + b + seq!['/'] + cs.last() =~= a + seq!['/'] + (b + seq!['/']
            + cs.last()));
    }
}

/// A separator-free prefix goes into the piece being built.
proof fn lemma_split_prefix(a: Seq<char>, s: Seq<char>, cur: Seq<char>)
    requires
        !a.contains('/'),
    ensures
        split_slash_from(a + s, cur) == split_slash_from(s, cur + a),
    decreases a.len(),
{
    if a.len() == 0 {
        assert(a + s =~= s);
        assert(cur + a =~= cur);
    } else {
        assert((a + s)[0] == a[0]);
        assert((a + s).drop_first() =~= a.drop_first() + s);
        assert(!a.drop_first().contains('/')) by {
            if a.drop_first().contains('/') {
                let k = choose|k: int| 0 <= k < a.drop_first().len() && a.drop_first()[k] == '/';
                assert(a[k + 1] == '/');
            }
        }
        lemma_split_prefix(a.drop_first(), s, cur.push(a[0]));
        assert(cur.push(a[0]) + a.drop_first() =~= cur + a);
    }
}

/// Splitting a join of separator-free components gives them back.
proof fn lemma_split_join(cs: Seq<Seq<char>>)
    requires
        cs.len() >= 1,
        forall|i: int| 0 <= i < cs.len() ==> !(#[trigger] cs[i]).contains('/'),
    ensures
        split_slash(join_slash(cs)) == cs,
    decreases cs.len(),
{
    if cs.len() == 1 {
        lemma_split_prefix(cs[0], Seq::empty(), Seq::empty());
        assert(cs[0] + Seq::<char>::empty() =~= cs[0]);
        assert(Seq::<char>::empty() + cs[0] =~= cs[0]);
        assert(cs =~= seq![cs[0]]);
    } else {
        lemma_join_cons(cs);
        let rest = join_slash(cs.drop_first());
        assert(cs[0] + seq!['/'] + rest =~= cs[0] + (seq!['/'] + rest));
        lemma_split_prefix(cs[0], seq!['/'] + rest, Seq::empty());
        assert(Seq::<char>::empty() + cs[0] =~= cs[0]);
        assert((seq!['/'] + rest).drop_first() =~= rest);
        assert forall|i: int| 0 <= i < cs.drop_first().len() implies !(
        #[trigger] cs.drop_first()[i]).contains('/') by {
            assert(cs.drop_first()[i] == cs[i + 1]);
        }
        lemma_split_join(cs.drop_first());
        assert(seq![cs[0]] + cs.drop_first() =~= cs);
    }
}

/// The components of a join of clean components are those components.
proof fn lemma_components_of_join(cs: Seq<Seq<char>>)
    requires
        clean_components(cs),
    ensures
        path_components(join_slash(cs)) == cs,
{
    if cs.len() == 0 {
        assert(path_components(join_slash(cs)) =~= cs);
    } else {
        assert forall|i: int| 0 <= i < cs.len() implies !(#[trigger] cs[i]).contains('/') by {
            assert(clean_component(cs[i]));
        }
        if cs.len() == 1 {
            assert(clean_component(cs[0]));
        } else {
            lemma_join_cons(cs);
        }
        assert(join_slash(cs).len() > 0) by {
            assert(clean_component(cs[0]));
        }
        lemma_split_join(cs);
    }
}

proof fn lemma_join_free(cs: Seq<Seq<char>>)
    requires
        clean_components(cs),
    ensures
        !join_slash(cs).contains('\\'),
    decreases cs.len(),
{
    if cs.len() >= 2 {
        assert forall|i: int| 0 <= i < cs.drop_last().len() implies #[trigger] clean_component(
            cs.drop_last()[i],
        ) by {
            assert(cs.drop_last()[i] == cs[i]);
        }
        lemma_join_free(cs.drop_last());
        let a = join_slash(cs.drop_last());
        let l = cs.last();
        assert(clean_component(cs[cs.len() - 1]));
        if (a + seq!['/'] + l).contains('\\') {
            let k = choose|k: int| 0 <= k < (a + seq!['/'] + l).len() && (a + seq!['/'] + l)[k] == '\\';
            if k < a.len() {
                assert(a[k] == '\\');
            } else if k > a.len() {
                assert(l[k - a.len() - 1] == '\\');
            }
        }
    } else if cs.len() == 1 {
        assert(clean_component(cs[0]));
    }
}

/// A join of clean components does not begin with `./`.
proof fn lemma_join_no_dot_slash(cs: Seq<Seq<char>>)
    requires
        clean_components(cs),
    ensures
        !has_prefix(join_slash(cs), seq!['.', '/']),
{
    if cs.len() > 0 {
        let c = cs[0];
        assert(clean_component(c));
        let j = join_slash(cs);
        if cs.len() >= 2 {
            lemma_join_cons(cs);
        }
        assert(j.len() >= c.len());
        assert(forall|k: int| 0 <= k < c.len() ==> j[k] == c[k]);
        if has_prefix(j, seq!['.', '/']) {
            assert(j.take(2)[0] == '.' && j.take(2)[1] == '/');
            if c.len() >= 2 {
                assert(c[1] == '/');
            } else {
                assert(c.len() == 1);
                assert(c[0] == '.');
                assert(c =~= seq!['.']);
            }
        }
    }
}

/// Stripping `assets/` from a join of clean components leaves a join of
/// clean components.
proof fn lemma_strip_prefix_of_join(cs: Seq<Seq<char>>) -> (rest: Seq<Seq<char>>)
    requires
        clean_components(cs),
    ensures
        clean_components(rest),
        strip_assets_prefix(join_slash(cs)) == join_slash(rest),
{
    let j = join_slash(cs);
    if has_prefix(j, assets_prefix()) {
        assert(j.take(7) == assets_prefix());
        assert(j.take(7)[6] == '/');
        assert(cs.len() > 0);
        let c = cs[0];
        assert(clean_component(c));
        if cs.len() == 1 {
            assert(j == c);
            assert(c[6] == '/');
            assert(false);
        }
        lemma_join_cons(cs);
        let tail = join_slash(cs.drop_first());
        assert(j == c + seq!['/'] + tail);
        assert(forall|k: int| 0 <= k < c.len() ==> j[k] == c[k]);
        assert(j[c.len() as int] == '/');
        if c.len() > 6 {
            assert(j[6] == c[6]);
        }
        if c.len() < 6 {
            assert(j.take(7)[c.len() as int] == assets_prefix()[c.len() as int]);
        }
        assert(c.len() == 6);
        assert(j.skip(7) =~= tail);
        assert forall|i: int| 0 <= i < cs.drop_first().len() implies #[trigger] clean_component(
            cs.drop_first()[i],
        ) by {
            assert(cs.drop_first()[i] == cs[i + 1]);
        }
        cs.drop_first()
    } else {
        cs
    }
}

/// The normal form of any raw path is a join of clean components.
proof fn lemma_normalized_join(raw: Seq<char>) -> (cs: Seq<Seq<char>>)
    ensures
        clean_components(cs),
        normalized(raw) == join_slash(cs),
{
    let s = strip_dot_slash(slashify(raw));
    lemma_slashify_free(raw);
    lemma_strip_dot_slash_free(slashify(raw));
    assert(!Seq::<char>::empty().contains('/'));
    assert(!Seq::<char>::empty().contains('\\'));
    lemma_split_pieces(s, Seq::empty());
    lemma_resolve_clean(Seq::empty(), split_slash(s));
    let kept = resolve_components(Seq::empty(), split_slash(s));
    lemma_strip_prefix_of_join(kept)
}

/// A normalised path is in normal form: it has no `\`, and every component
/// between its `/` separators is non-empty and neither `.` nor `..`.
pub proof fn lemma_normalized_is_normal(raw: Seq<char>)
    ensures
        is_normal_path(normalized(raw)),
        !normalized(raw).contains('\\'),
        join_slash(path_components(normalized(raw))) == normalized(raw),
{
    let cs = lemma_normalized_join(raw);
    lemma_components_of_join(cs);
    lemma_join_free(cs);
}

/// Normalising a normalised path again changes it only by stripping one more
/// leading `assets/`; so a normalised path that does not begin with
/// `assets/` is its own normal form.
pub proof fn lemma_normalize_twice(raw: Seq<char>)
    ensures
        normalized(normalized(raw)) == strip_assets_prefix(normalized(raw)),
        !has_prefix(normalized(raw), assets_prefix()) ==> normalized(normalized(raw)) == normalized(
            raw,
        ),
{
    let cs = lemma_normalized_join(raw);
    let n = normalized(raw);
    lemma_join_free(cs);
    assert(slashify(n) =~= n) by {
        assert forall|i: int| 0 <= i < n.len() implies slashify(n)[i] == n[i] by {
            if n[i] == '\\' {
                assert(n.contains('\\'));
            }
        }
    }
    lemma_join_no_dot_slash(cs);
    assert(strip_dot_slash(n) == n);
    if cs.len() == 0 {
        assert(n.len() == 0);
        assert(split_slash(n) =~= seq![Seq::<char>::empty()]);
        assert(resolve_components(Seq::empty(), seq![Seq::<char>::empty()]) == resolve_components(
            Seq::<Seq<char>>::empty(),
            seq![Seq::<char>::empty()].drop_first(),
        ));
        assert(seq![Seq::<char>::empty()].drop_first() =~= Seq::<Seq<char>>::empty());
        assert(resolve_components(Seq::empty(), split_slash(n)) =~= cs);
    } else {
        lemma_components_of_join(cs);
        assert(split_slash(n) == cs);
        lemma_resolve_identity(Seq::empty(), cs);
        assert(Seq::<Seq<char>>::empty() + cs =~= cs);
    }
}

} // verus!
