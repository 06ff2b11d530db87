//! Persistent script variables (`$persistent.key`), kept across sessions.

use vstd::prelude::*;
use crate::text::{to_chars, chars_equal_str};

verus! {

/// A script variable's value. A float is held by its IEEE-754 bit pattern
/// (`f64::to_bits`), which the host converts at its edge.
#[derive(Debug, Clone, PartialEq)]
pub enum VarValue {
    Bool(bool),
    Int(i64),
    Float(u64),
    String(String),
}

/// A copy of a value.
pub fn copy_value(v: &VarValue) -> (r: VarValue)
    ensures
        r == *v,
{
    match v {
        VarValue::Bool(b) => VarValue::Bool(*b),
        VarValue::Int(i) => VarValue::Int(*i),
        VarValue::Float(f) => VarValue::Float(*f),
        VarValue::String(s) => VarValue::String(s.clone()),
    }
}

/// The map written by a list of `(key, value)` pairs, later pairs winning.
pub open spec fn pairs_to_map(pairs: Seq<(String, VarValue)>) -> Map<Seq<char>, VarValue>
    decreases pairs.len(),
{
    if pairs.len() == 0 {
        Map::empty()
    } else {
        pairs_to_map(pairs.drop_last()).insert(pairs.last().0@, pairs.last().1)
    }
}

/// Persistent variables and the directory their file lives in.
pub struct PersistentStore {
    saves_dir: String,
    variables: Vec<(String, VarValue)>,
}

impl View for PersistentStore {
    type V = Map<Seq<char>, VarValue>;

    /// The variables by name.
    closed spec fn view(&self) -> Map<Seq<char>, VarValue> {
        pairs_to_map(self.variables@)
    }
}

impl PersistentStore {
    /// The directory the variables file lives in.
    pub closed spec fn dir(&self) -> Seq<char> {
        self.saves_dir@
    }

    /// The directory the variables file lives in.
    pub fn saves_dir(&self) -> (r: &str)
        ensures
            r@ == self.dir(),
    {
        self.saves_dir.as_str()
    }

    /// No two stored variables share a name.
    pub closed spec fn wf(&self) -> bool {
        forall|i: int, j: int|
            0 <= i < j < self.variables@.len() ==> #[trigger] self.variables@[i].0@
                != #[trigger] self.variables@[j].0@
    }

    /// An empty store with no directory.
    pub fn empty() -> (r: Self)
        ensures
            r.wf(),
            r@ == Map::<Seq<char>, VarValue>::empty(),
            r.dir() == Seq::<char>::empty(),
    {
        PersistentStore { saves_dir: String::new(), variables: Vec::new() }
    }

    /// A store of the given variables, kept in the given directory.
    pub fn with_variables(saves_dir: String, vars: Vec<(String, VarValue)>) -> (r: Self)
        ensures
            r.wf(),
            r@ == pairs_to_map(vars@),
            r.dir() == saves_dir@,
    {
        let ghost dir = saves_dir@;
        let mut store = PersistentStore { saves_dir, variables: Vec::new() };
        assert(store@ =~= pairs_to_map(vars@.take(0)));
        let mut i: usize = 0;
        while i < vars.len()
            invariant
                i <= vars.len(),
                store.dir() == dir,
                store.wf(),
                store@ == pairs_to_map(vars@.take(i as int)),
            decreases vars.len() - i,
        {
            let key = vars[i].0.clone();
            let value = copy_value(&vars[i].1);
            store.insert(key, value);
            assert(vars@.take(i + 1).drop_last() =~= vars@.take(i as int));
            i += 1;
        }
        assert(vars@.take(vars.len() as int) =~= vars@);
        store
    }

    /// Position of `key` among the stored pairs.
    fn position_of(&self, key: &str) -> (r: Option<usize>)
        requires
            self.wf(),
        ensures
            match r {
                Some(i) => i < self.variables@.len() && self.variables@[i as int].0@ == key@,
                None => forall|i: int|
                    0 <= i < self.variables@.len() ==> self.variables@[i].0@ != key@,
            },
    {
        let mut i: usize = 0;
        while i < self.variables.len()
            invariant
                i <= self.variables@.len(),
                forall|j: int| 0 <= j < i ==> self.variables@[j].0@ != key@,
            decreases self.variables.len() - i,
        {
            if chars_equal_str(&to_chars(self.variables[i].0.as_str()), key) {
                return Some(i);
            }
            i += 1;
        }
        None
    }

    /// The value stored under `key`.
    pub fn get(&self, key: &str) -> (r: Option<&VarValue>)
        requires
            self.wf(),
        ensures
            match r {
                Some(v) => self@.contains_key(key@) && self@[key@] == *v,
                None => !self@.contains_key(key@),
            },
    {
        proof {
            lemma_pairs_to_map_lookup(self.variables@);
        }
        match self.position_of(key) {
            Some(i) => Some(&self.variables[i].1),
            None => None,
        }
    }

    /// Stores `value` under `key`, replacing any earlier value.
    pub fn insert(&mut self, key: String, value: VarValue)
        requires
            old(self).wf(),
        ensures
            final(self).wf(),
            final(self)@ == old(self)@.insert(key@, value),
            final(self).dir() == old(self).dir(),
    {
        proof {
            lemma_pairs_to_map_lookup(self.variables@);
        }
        match self.position_of(key.as_str()) {
            Some(i) => {
                let ghost before = self.variables@;
                self.variables.set(i, (key, value));
                proof {
                    lemma_pairs_to_map_set(before, i as int, self.variables@[i as int]);
                }
            },
            None => {
                let ghost before = self.variables@;
                self.variables.push((key, value));
                assert(self.variables@.drop_last() =~= before);
            },
        }
    }

    /// Merges variables from the runtime into the store; runtime values win.
    pub fn merge_from(&mut self, vars: &Vec<(String, VarValue)>)
        requires
            old(self).wf(),
        ensures
            final(self).wf(),
            final(self)@ == old(self)@.union_prefer_right(pairs_to_map(vars@)),
            final(self).dir() == old(self).dir(),
    {
        let ghost start = self@;
        let mut i: usize = 0;
        assert(start.union_prefer_right(pairs_to_map(vars@.take(0))) =~= start);
        while i < vars.len()
            invariant
                i <= vars.len(),
                self.wf(),
                self.dir() == old(self).dir(),
                start == old(self)@,
                self@ == start.union_prefer_right(pairs_to_map(vars@.take(i as int))),
            decreases vars.len() - i,
        {
            let key = vars[i].0.clone();
            let value = copy_value(&vars[i].1);
            self.insert(key, value);
            assert(vars@.take(i + 1).drop_last() =~= vars@.take(i as int));
            assert(self@ =~= start.union_prefer_right(pairs_to_map(vars@.take(i + 1))));
            i += 1;
        }
        assert(vars@.take(vars.len() as int) =~= vars@);
    }

    /// The stored variables as `(name, value)` pairs, for writing to disk.
    pub fn entries(&self) -> (r: &Vec<(String, VarValue)>)
        ensures
            pairs_to_map(r@) == self@,
    {
        &self.variables
    }
}

/// With distinct names, the map of the pairs holds exactly each pair.
proof fn lemma_pairs_to_map_lookup(pairs: Seq<(String, VarValue)>)
    requires
        forall|i: int, j: int|
            0 <= i < j < pairs.len() ==> #[trigger] pairs[i].0@ != #[trigger] pairs[j].0@,
    ensures
        forall|k: Seq<char>|
            #![trigger pairs_to_map(pairs).contains_key(k)]
            pairs_to_map(pairs).contains_key(k) <==> exists|i: int|
                0 <= i < pairs.len() && pairs[i].0@ == k,
        forall|i: int|
            0 <= i < pairs.len() ==> #[trigger] pairs_to_map(pairs)[pairs[i].0@] == pairs[i].1,
    decreases pairs.len(),
{
    if pairs.len() > 0 {
        let rest = pairs.drop_last();
        lemma_pairs_to_map_lookup(rest);
        assert forall|k: Seq<char>|
            #![trigger pairs_to_map(pairs).contains_key(k)]
            pairs_to_map(pairs).contains_key(k) implies exists|i: int|
                0 <= i < pairs.len() && pairs[i].0@ == k by {
            if k == pairs.last().0@ {
                assert(pairs[pairs.len() - 1].0@ == k);
            } else {
                assert(pairs_to_map(rest).contains_key(k));
                let i = choose|i: int| 0 <= i < rest.len() && rest[i].0@ == k;
                assert(pairs[i].0@ == k);
            }
        }
        assert forall|k: Seq<char>|
            #![trigger pairs_to_map(pairs).contains_key(k)]
            (exists|i: int| 0 <= i < pairs.len() && pairs[i].0@ == k) implies pairs_to_map(
                pairs,
            ).contains_key(k) by {
            let i = choose|i: int| 0 <= i < pairs.len() && pairs[i].0@ == k;
            if i < pairs.len() - 1 {
                assert(rest[i].0@ == k);
                assert(pairs_to_map(rest).contains_key(k));
            }
        }
        assert forall|i: int| 0 <= i < pairs.len() implies #[trigger] pairs_to_map(
            pairs,
        )[pairs[i].0@] == pairs[i].1 by {
            if i < pairs.len() - 1 {
                assert(rest[i] == pairs[i]);
                assert(pairs[i].0@ != pairs[pairs.len() - 1].0@);
                assert(pairs_to_map(rest)[rest[i].0@] == rest[i].1);
                assert(pairs_to_map(pairs) == pairs_to_map(rest).insert(
                    pairs.last().0@,
                    pairs.last().1,
                ));
            }
        }
    }
}

/// Replacing the pair at `i` by one with the same name replaces that value.
proof fn lemma_pairs_to_map_set(pairs: Seq<(String, VarValue)>, i: int, p: (String, VarValue))
    requires
        0 <= i < pairs.len(),
        pairs[i].0@ == p.0@,
        forall|a: int, b: int|
            0 <= a < b < pairs.len() ==> #[trigger] pairs[a].0@ != #[trigger] pairs[b].0@,
    ensures
        pairs_to_map(pairs.update(i, p)) == pairs_to_map(pairs).insert(p.0@, p.1),
    decreases pairs.len(),
{
    let updated = pairs.update(i, p);
    if i == pairs.len() - 1 {
        assert(updated.drop_last() =~= pairs.drop_last());
        assert(pairs_to_map(updated) =~= pairs_to_map(pairs).insert(p.0@, p.1));
    } else {
        let rest = pairs.drop_last();
        lemma_pairs_to_map_set(rest, i, p);
        assert(updated.drop_last() =~= rest.update(i, p));
        assert(pairs[i].0@ != pairs.last().0@);
        assert(pairs_to_map(updated) =~= pairs_to_map(pairs).insert(p.0@, p.1));
    }
}

/// Merging is last-writer-wins: a merged variable reads back as the merged
/// value, and untouched variables keep their stored value.
pub proof fn lemma_merge_reads_back(
    stored: Map<Seq<char>, VarValue>,
    vars: Seq<(String, VarValue)>,
    key: Seq<char>,
)
    ensures
        pairs_to_map(vars).contains_key(key) ==> stored.union_prefer_right(
            pairs_to_map(vars),
        )[key] == pairs_to_map(vars)[key],
        !pairs_to_map(vars).contains_key(key) ==> stored.union_prefer_right(
            pairs_to_map(vars),
        ).contains_key(key) == stored.contains_key(key) && (stored.contains_key(key)
            ==> stored.union_prefer_right(pairs_to_map(vars))[key] == stored[key]),
{
}

} // verus!
