//! Save-slot bookkeeping: where each slot, thumbnail and the continue save
//! live, which directory entries are slot files, and the save-list order.
//!
//! Layout of the saves directory:
//! `continue.json`, `slot_001.json`, `slot_002.json`, … and `thumb_NNN.png`.

use vstd::prelude::*;
use vstd::string::{StringSliceAdditionalSpecFns, StringExecFns};
use vstd::utf8::{
    is_char_boundary, encode_utf8, encode_scalar, encode_utf8_valid_utf8,
    is_char_boundary_iff_not_is_continuation_byte,
};
use crate::text::{decimal, digit_char, has_suffix, to_chars, u64_to_decimal, string_from_chars};

verus! {

/// The largest slot number offered to the player.
pub const MAX_SAVE_SLOTS: u32 = 99;

// ── paths ───────────────────────────────────────────────────────────────────

/// `Path::join` of a relative name onto a directory: the name itself when the
/// directory is empty, otherwise the two separated by one `/`.
pub open spec fn join_path(dir: Seq<char>, name: Seq<char>) -> Seq<char> {
    if dir.len() == 0 {
        name
    } else if dir.last() == '/' {
        dir + name
    } else {
        dir + seq!['/'] + name
    }
}

/// Decimal digits left-padded with zeros to at least three (`{:03}`).
pub open spec fn pad3(d: Seq<char>) -> Seq<char> {
    if d.len() >= 3 {
        d
    } else {
        Seq::new((3 - d.len()) as nat, |i: int| '0') + d
    }
}

pub open spec fn slot_file_name(slot: nat) -> Seq<char> {
    "slot_"@ + pad3(decimal(slot)) + ".json"@
}

pub open spec fn thumbnail_file_name(slot: nat) -> Seq<char> {
    "thumb_"@ + pad3(decimal(slot)) + ".png"@
}

pub open spec fn continue_file_name() -> Seq<char> {
    "continue.json"@
}

/// `Path::exists`: whether something is at the path right now.
#[verifier::external_body]
pub(crate) fn path_exists(path: &str) -> (r: bool) {
    std::path::Path::new(path).exists()
}

fn append_chars(out: &mut Vec<char>, s: &Vec<char>)
    ensures
        final(out)@ == old(out)@ + s@,
{
    let mut i: usize = 0;
    let ghost start = out@;
    while i < s.len()
        invariant
            i <= s.len(),
            out@ == start + s@.take(i as int),
        decreases s.len() - i,
    {
        out.push(s[i]);
        i += 1;
        assert(s@.take(i as int) =~= s@.take(i - 1).push(s@[i - 1]));
    }
    assert(s@.take(s.len() as int) =~= s@);
}

/// The directory joined with a file name.
fn join_dir(dir: &str, name: &Vec<char>) -> (r: String)
    ensures
        r@ == join_path(dir@, name@),
{
    let mut out = to_chars(dir);
    if out.len() > 0 && out[out.len() - 1] != '/' {
        out.push('/');
    }
    append_chars(&mut out, name);
    string_from_chars(&out)
}

/// The zero-padded decimal text of a slot.
fn padded_slot(slot: u32) -> (r: Vec<char>)
    ensures
        r@ == pad3(decimal(slot as nat)),
{
    let digits = u64_to_decimal(slot as u64);
    let mut out: Vec<char> = Vec::new();
    let mut k: usize = digits.len();
    while k < 3
        invariant
            digits.len() <= k,
            k <= 3 || k == digits.len(),
            out@ == Seq::new((k - digits.len()) as nat, |i: int| '0'),
        decreases 3 - k,
    {
        out.push('0');
        k += 1;
        assert(out@ =~= Seq::new((k - digits.len()) as nat, |i: int| '0'));
    }
    append_chars(&mut out, &digits);
    assert(out@ =~= pad3(decimal(slot as nat)));
    out
}

/// The save manager for one saves directory.
pub struct SaveManager {
    saves_dir: String,
}

impl View for SaveManager {
    type V = Seq<char>;

    /// The saves directory.
    closed spec fn view(&self) -> Seq<char> {
        self.saves_dir@
    }
}

impl SaveManager {
    /// A manager for the given saves directory.
    pub fn new(saves_dir: &str) -> (r: Self)
        ensures
            r@ == saves_dir@,
    {
        SaveManager { saves_dir: saves_dir.to_owned() }
    }

    /// The saves directory.
    pub fn saves_dir(&self) -> (r: &str)
        ensures
            r@ == self@,
    {
        self.saves_dir.as_str()
    }

    /// Where a slot's save file lives: `slot_NNN.json`.
    pub fn slot_path(&self, slot: u32) -> (r: String)
        ensures
            r@ == join_path(self@, slot_file_name(slot as nat)),
    {
        let mut name = to_chars("slot_");
        append_chars(&mut name, &padded_slot(slot));
        append_chars(&mut name, &to_chars(".json"));
        join_dir(self.saves_dir.as_str(), &name)
    }

    /// Where a slot's thumbnail lives: `thumb_NNN.png`.
    pub fn thumbnail_path(&self, slot: u32) -> (r: String)
        ensures
            r@ == join_path(self@, thumbnail_file_name(slot as nat)),
    {
        let mut name = to_chars("thumb_");
        append_chars(&mut name, &padded_slot(slot));
        append_chars(&mut name, &to_chars(".png"));
        join_dir(self.saves_dir.as_str(), &name)
    }

    /// Where the continue save lives.
    pub fn continue_path(&self) -> (r: String)
        ensures
            r@ == join_path(self@, continue_file_name()),
    {
        join_dir(self.saves_dir.as_str(), &to_chars("continue.json"))
    }

    /// Whether the slot's save file exists. The answer comes from the file
    /// system at the moment of the call, so nothing is promised about it.
    pub fn slot_exists(&self, slot: u32) -> bool {
        let p = self.slot_path(slot);
        path_exists(p.as_str())
    }

    /// Whether the continue save exists (read from the file system).
    pub fn has_continue(&self) -> bool {
        let p = self.continue_path();
        path_exists(p.as_str())
    }
}


// ── listing ─────────────────────────────────────────────────────────────────

pub open spec fn slot_prefix_bytes() -> Seq<u8> {
    seq![0x73u8, 0x6c, 0x6f, 0x74, 0x5f]
}

pub open spec fn json_suffix_bytes() -> Seq<u8> {
    seq![0x2eu8, 0x6a, 0x73, 0x6f, 0x6e]
}

pub open spec fn is_digit_byte(b: u8) -> bool {
    0x30 <= b <= 0x39
}

/// `u32::from_str` on three bytes: three digits, or `+` and two digits.
pub open spec fn three_byte_number(b0: u8, b1: u8, b2: u8) -> Option<u32> {
    if b0 == 0x2b && is_digit_byte(b1) && is_digit_byte(b2) {
        Some(((b1 - 0x30) * 10 + (b2 - 0x30)) as u32)
    } else if is_digit_byte(b0) && is_digit_byte(b1) && is_digit_byte(b2) {
        Some(((b0 - 0x30) * 100 + (b1 - 0x30) * 10 + (b2 - 0x30)) as u32)
    } else {
        None
    }
}

/// Whether the bytes begin with `slot_` and end with `.json`.
pub open spec fn looks_like_slot_file(b: Seq<u8>) -> bool {
    &&& b.len() >= 5
    &&& b.take(5) == slot_prefix_bytes()
    &&& b.skip(b.len() - 5) == json_suffix_bytes()
}

/// The slot a file name stands for: `slot_` + the number in bytes 5..8 + `.json`.
pub open spec fn slot_of_file_name(b: Seq<u8>) -> Option<u32> {
    if looks_like_slot_file(b) && b.len() >= 8 {
        three_byte_number(b[5], b[6], b[7])
    } else {
        None
    }
}

/// The bytes 5..8 of a `slot_*.json` name are taken as one slice of the
/// name, so that slice must start and end on character boundaries.
pub open spec fn slot_name_sliceable(b: Seq<u8>) -> bool {
    looks_like_slot_file(b) ==> b.len() >= 8 && is_char_boundary(b, 5) && is_char_boundary(b, 8)
}

/// Whether the save list can read the name: a `slot_*.json` name must have
/// character boundaries at bytes 5 and 8.
pub fn slot_name_readable(name: &str) -> (r: bool)
    ensures
        r == slot_name_sliceable(name.spec_bytes()),
{
    let b = name.as_bytes();
    let n = b.len();
    if n < 5 {
        return true;
    }
    let prefix_ok = b[0] == 0x73 && b[1] == 0x6c && b[2] == 0x6f && b[3] == 0x74 && b[4] == 0x5f;
    let suffix_ok = b[n - 5] == 0x2e && b[n - 4] == 0x6a && b[n - 3] == 0x73 && b[n - 2] == 0x6f
        && b[n - 1] == 0x6e;
    assert(prefix_ok <==> b@.take(5) == slot_prefix_bytes()) by {
        if b@.take(5) == slot_prefix_bytes() {
            assert(b@.take(5)[0] == b@[0] && b@.take(5)[4] == b@[4]);
            assert(b@.take(5)[1] == b@[1] && b@.take(5)[2] == b@[2] && b@.take(5)[3] == b@[3]);
        }
        if prefix_ok {
            assert(b@.take(5) =~= slot_prefix_bytes());
        }
    }
    assert(suffix_ok <==> b@.skip(n - 5) == json_suffix_bytes()) by {
        let t = b@.skip(n - 5);
        if t == json_suffix_bytes() {
            assert(t[0] == b@[n - 5] && t[1] == b@[n - 4] && t[2] == b@[n - 3]);
            assert(t[3] == b@[n - 2] && t[4] == b@[n - 1]);
        }
        if suffix_ok {
            assert(t =~= json_suffix_bytes());
        }
    }
    if !(prefix_ok && suffix_ok) {
        return true;
    }
    n >= 8 && name.is_char_boundary(5) && name.is_char_boundary(8)
}

fn digit_byte(b: u8) -> (r: bool)
    ensures
        r == is_digit_byte(b),
{
    0x30 <= b && b <= 0x39
}

/// The slot number of a directory entry's file name, if it is a slot file.
pub fn parse_slot_file_name(name: &str) -> (r: Option<u32>)
    requires
        slot_name_sliceable(name.spec_bytes()),
    ensures
        r == slot_of_file_name(name.spec_bytes()),
{
    let b = name.as_bytes();
    let n = b.len();
    if n < 5 {
        return None;
    }
    let prefix_ok = b[0] == 0x73 && b[1] == 0x6c && b[2] == 0x6f && b[3] == 0x74 && b[4] == 0x5f;
    let suffix_ok = b[n - 5] == 0x2e && b[n - 4] == 0x6a && b[n - 3] == 0x73 && b[n - 2] == 0x6f
        && b[n - 1] == 0x6e;
    assert(prefix_ok <==> b@.take(5) == slot_prefix_bytes()) by {
        if b@.take(5) == slot_prefix_bytes() {
            assert(b@.take(5)[0] == b@[0] && b@.take(5)[4] == b@[4]);
            assert(b@.take(5)[1] == b@[1] && b@.take(5)[2] == b@[2] && b@.take(5)[3] == b@[3]);
        }
        if prefix_ok {
            assert(b@.take(5) =~= slot_prefix_bytes());
        }
    }
    assert(suffix_ok <==> b@.skip(n - 5) == json_suffix_bytes()) by {
        let t = b@.skip(n - 5);
        if t == json_suffix_bytes() {
            assert(t[0] == b@[n - 5] && t[1] == b@[n - 4] && t[2] == b@[n - 3]);
            assert(t[3] == b@[n - 2] && t[4] == b@[n - 1]);
        }
        if suffix_ok {
            assert(t =~= json_suffix_bytes());
        }
    }
    if !(prefix_ok && suffix_ok) || n < 8 {
        return None;
    }
    let b0 = b[5];
    let b1 = b[6];
    let b2 = b[7];
    if b0 == 0x2b && digit_byte(b1) && digit_byte(b2) {
        Some(((b1 - 0x30) as u32) * 10 + ((b2 - 0x30) as u32))
    } else if digit_byte(b0) && digit_byte(b1) && digit_byte(b2) {
        Some(((b0 - 0x30) as u32) * 100 + ((b1 - 0x30) as u32) * 10 + ((b2 - 0x30) as u32))
    } else {
        None
    }
}

/// The three zero-padded digits of a slot below 1000.
proof fn lemma_pad3_digits(slot: nat)
    requires
        slot < 1000,
    ensures
        pad3(decimal(slot)) == seq![
            digit_char(slot / 100),
            digit_char((slot / 10) % 10),
            digit_char(slot % 10),
        ],
{
    if slot < 10 {
        assert(decimal(slot) == seq![digit_char(slot)]);
        assert(pad3(decimal(slot)) =~= seq!['0', '0', digit_char(slot)]);
    } else if slot < 100 {
        assert(decimal(slot / 10) == seq![digit_char(slot / 10)]);
        assert(decimal(slot) =~= seq![digit_char(slot / 10), digit_char(slot % 10)]);
        assert(pad3(decimal(slot)) =~= seq!['0', digit_char(slot / 10), digit_char(slot % 10)]);
    } else {
        let t = slot / 10;
        assert(10 <= t < 100);
        assert(decimal(t / 10) == seq![digit_char(t / 10)]);
        assert(decimal(t) =~= seq![digit_char(t / 10), digit_char(t % 10)]);
        assert(t / 10 == slot / 100);
        assert(decimal(slot) =~= seq![digit_char(slot / 100), digit_char(t % 10), digit_char(slot % 10)]);
    }
}

/// UTF-8 of ASCII text is one byte per character, each the character's code.
proof fn lemma_ascii_encoding(chars: Seq<char>)
    requires
        forall|i: int| 0 <= i < chars.len() ==> (#[trigger] chars[i] as u32) < 0x80,
    ensures
        encode_utf8(chars).len() == chars.len(),
        forall|i: int| 0 <= i < chars.len() ==> #[trigger] encode_utf8(chars)[i] as u32 == chars[i] as u32,
    decreases chars.len(),
{
    if chars.len() > 0 {
        let c = chars[0] as u32;
        assert(c < 0x80);
        assert(c < 0x80 ==> (c & 0x7f) == c) by (bit_vector);
        assert(encode_scalar(c) == seq![(c & 0x7f) as u8]);
        assert forall|i: int| 0 <= i < chars.drop_first().len() implies (
        #[trigger] chars.drop_first()[i] as u32) < 0x80 by {
            assert(chars.drop_first()[i] == chars[i + 1]);
        }
        lemma_ascii_encoding(chars.drop_first());
        assert forall|i: int| 0 <= i < chars.len() implies #[trigger] encode_utf8(chars)[i] as u32
            == chars[i] as u32 by {
            if i > 0 {
                assert(encode_utf8(chars)[i] == encode_utf8(chars.drop_first())[i - 1]);
                assert(chars.drop_first()[i - 1] == chars[i]);
            }
        }
    }
}

/// A slot's file name, read back by the save list, names that slot again.
/// This holds for every slot below 1000; from 1000 on, the name has more
/// than three digits and only the first three are read.
pub proof fn lemma_slot_file_name_round_trip(slot: u32)
    requires
        slot < 1000,
    ensures
        slot_name_sliceable(encode_utf8(slot_file_name(slot as nat))),
        slot_of_file_name(encode_utf8(slot_file_name(slot as nat))) == Some(slot),
{
    let n = slot as nat;
    lemma_pad3_digits(n);
    reveal_strlit("slot_");
    reveal_strlit(".json");
    let d0 = digit_char(n / 100);
    let d1 = digit_char((n / 10) % 10);
    let d2 = digit_char(n % 10);
    let name = slot_file_name(n);
    assert(name =~= seq!['s', 'l', 'o', 't', '_', d0, d1, d2, '.', 'j', 's', 'o', 'n']);
    lemma_ascii_encoding(name);
    let b = encode_utf8(name);
    assert(b.len() == 13);
    assert(b.take(5) =~= slot_prefix_bytes());
    assert(b.skip(8) =~= json_suffix_bytes());
    assert(b[5] as u32 == d0 as u32 && b[6] as u32 == d1 as u32 && b[7] as u32 == d2 as u32);
    encode_utf8_valid_utf8(name);
    is_char_boundary_iff_not_is_continuation_byte(b, 5);
    is_char_boundary_iff_not_is_continuation_byte(b, 8);
    assert(n == (n / 100) * 100 + ((n / 10) % 10) * 10 + n % 10);
}

/// A listed save: its slot and the path of its file.
pub type SlotEntry = (u32, String);

/// The abstract form of listed saves: slot and path text.
pub open spec fn entries_view(v: Seq<SlotEntry>) -> Seq<(u32, Seq<char>)> {
    v.map_values(|e: SlotEntry| (e.0, e.1@))
}

/// The slot files among the directory entries, in directory order, each with
/// its path inside the saves directory.
pub open spec fn slot_files(dir: Seq<char>, names: Seq<String>) -> Seq<(u32, Seq<char>)>
    decreases names.len(),
{
    if names.len() == 0 {
        Seq::empty()
    } else {
        let rest = slot_files(dir, names.drop_last());
        match slot_of_file_name(encode_utf8(names.last()@)) {
            Some(slot) => rest.push((slot, join_path(dir, names.last()@))),
            None => rest,
        }
    }
}

/// Selects the entries of one slot.
pub open spec fn has_slot(k: u32) -> spec_fn((u32, Seq<char>)) -> bool {
    |e: (u32, Seq<char>)| e.0 == k
}

/// Ascending by slot.
pub open spec fn sorted_by_slot(s: Seq<(u32, Seq<char>)>) -> bool {
    forall|i: int, j: int| 0 <= i < j < s.len() ==> #[trigger] s[i].0 <= #[trigger] s[j].0
}

/// `s` is `input` stably sorted by slot: ascending, and the entries of every
/// slot appear in their original order.
pub open spec fn stable_sorted_by_slot(input: Seq<(u32, Seq<char>)>, s: Seq<(u32, Seq<char>)>) -> bool {
    &&& sorted_by_slot(s)
    &&& forall|k: u32| #[trigger] s.filter(has_slot(k)) == input.filter(has_slot(k))
}

proof fn lemma_filter_insert(
    s: Seq<(u32, Seq<char>)>,
    p: int,
    x: (u32, Seq<char>),
    k: u32,
)
    requires
        0 <= p <= s.len(),
        forall|j: int| 0 <= j < p ==> s[j].0 <= x.0,
        forall|j: int| p <= j < s.len() ==> s[j].0 > x.0,
    ensures
        s.insert(p, x).filter(has_slot(k)) == if x.0 == k {
            s.filter(has_slot(k)).push(x)
        } else {
            s.filter(has_slot(k))
        },
{
    let a = s.subrange(0, p);
    let b = s.subrange(p, s.len() as int);
    assert(s =~= a + b);
    assert(s.insert(p, x) =~= a.push(x) + b);
    Seq::filter_distributes_over_add(a, b, has_slot(k));
    Seq::filter_distributes_over_add(a.push(x), b, has_slot(k));
    a.lemma_filter_push(x, has_slot(k));
    if x.0 == k {
        assert forall|j: int| 0 <= j < b.len() implies !has_slot(k)(b[j]) by {
            assert(b[j] == s[p + j]);
        }
        b.lemma_all_neg_filter_empty(has_slot(k));
        assert(b.filter(has_slot(k)) =~= Seq::<(u32, Seq<char>)>::empty());
        assert(a.filter(has_slot(k)).push(x) + b.filter(has_slot(k)) =~= (a.filter(has_slot(k))
            + b.filter(has_slot(k))).push(x));
    }
}

/// Sorts listed saves by slot, keeping the directory order among equal slots.
fn sort_by_slot(input: Vec<SlotEntry>) -> (r: Vec<SlotEntry>)
    ensures
        stable_sorted_by_slot(entries_view(input@), entries_view(r@)),
{
    let ghost iv = entries_view(input@);
    let mut out: Vec<SlotEntry> = Vec::new();
    let mut i: usize = 0;
    let n = input.len();
    proof {
        assert forall|k: u32| #[trigger] entries_view(out@).filter(has_slot(k)) == iv.take(0).filter(
            has_slot(k),
        ) by {
            assert(entries_view(out@) =~= Seq::<(u32, Seq<char>)>::empty());
            assert(iv.take(0) =~= Seq::<(u32, Seq<char>)>::empty());
            reveal(Seq::filter);
        }
    }
    while i < n
        invariant
            n == input@.len(),
            i <= n,
            iv == entries_view(input@),
            sorted_by_slot(entries_view(out@)),
            forall|k: u32|
                #[trigger] entries_view(out@).filter(has_slot(k)) == iv.take(i as int).filter(
                    has_slot(k),
                ),
        decreases n - i,
    {
        let x: SlotEntry = (input[i].0, input[i].1.clone());
        let mut p: usize = 0;
        while p < out.len() && out[p].0 <= x.0
            invariant
                p <= out@.len(),
                forall|j: int| 0 <= j < p ==> out@[j].0 <= x.0,
            decreases out@.len() - p,
        {
            p += 1;
        }
        let ghost ov = entries_view(out@);
        let ghost xv = (x.0, x.1@);
        proof {
            assert forall|j: int| p <= j < ov.len() implies ov[j].0 > xv.0 by {
                if p < ov.len() {
                    assert(ov[p as int].0 > xv.0);
                    assert(ov[p as int].0 <= ov[j].0);
                }
            }
        }
        out.insert(p, x);
        proof {
            assert(entries_view(out@) =~= ov.insert(p as int, xv));
            assert(iv.take(i + 1) =~= iv.take(i as int).push(xv));
            assert forall|k: u32| #[trigger] entries_view(out@).filter(has_slot(k)) == iv.take(
                i + 1,
            ).filter(has_slot(k)) by {
                lemma_filter_insert(ov, p as int, xv, k);
                iv.take(i as int).lemma_filter_push(xv, has_slot(k));
            }
            let nv = entries_view(out@);
            assert forall|a: int, b: int| 0 <= a < b < nv.len() implies #[trigger] nv[a].0
                <= #[trigger] nv[b].0 by {
                if b < p {
                    assert(nv[a] == ov[a] && nv[b] == ov[b]);
                } else if b == p {
                    assert(nv[a] == ov[a]);
                } else if a < p {
                    assert(nv[a] == ov[a] && nv[b] == ov[b - 1]);
                } else if a == p {
                    assert(nv[b] == ov[b - 1]);
                } else {
                    assert(nv[a] == ov[a - 1] && nv[b] == ov[b - 1]);
                }
            }
        }
        i += 1;
    }
    assert(iv.take(n as int) =~= iv);
    out
}

impl SaveManager {
    /// The saves listed by slot, given the names of the saves directory's
    /// entries (as read from the directory): every `slot_NNN.json` file with
    /// its path, ascending by slot, directory order kept among equal slots.
    pub fn list_saves_from(&self, names: &Vec<String>) -> (r: Vec<SlotEntry>)
        requires
            forall|i: int| 0 <= i < names@.len() ==> slot_name_sliceable(
                encode_utf8(#[trigger] names@[i]@),
            ),
        ensures
            stable_sorted_by_slot(slot_files(self@, names@), entries_view(r@)),
    {
        let mut found: Vec<SlotEntry> = Vec::new();
        let mut i: usize = 0;
        while i < names.len()
            invariant
                i <= names@.len(),
                forall|j: int| 0 <= j < names@.len() ==> slot_name_sliceable(
                    encode_utf8(#[trigger] names@[j]@),
                ),
                entries_view(found@) == slot_files(self@, names@.take(i as int)),
            decreases names.len() - i,
        {
            let name = names[i].as_str();
            assert(names@.take(i + 1).drop_last() =~= names@.take(i as int));
            assert(names@.take(i + 1).last() == names@[i as int]);
            match parse_slot_file_name(name) {
                Some(slot) => {
                    let path = join_dir(self.saves_dir.as_str(), &to_chars(name));
                    let ghost before = found@;
                    found.push((slot, path));
                    assert(entries_view(found@) =~= entries_view(before).push((slot, path@)));
                },
                None => {},
            }
            i += 1;
        }
        assert(names@.take(names.len() as int) =~= names@);
        sort_by_slot(found)
    }
}


// ── save information ────────────────────────────────────────────────────────

/// What the save list shows of one save.
#[derive(Debug, Clone)]
pub struct SaveInfo {
    pub slot: Option<u32>,
    pub timestamp: String,
    pub chapter_title: Option<String>,
    pub script_id: String,
    pub play_time_secs: u64,
}

/// The `%Y-%m-%d %H:%M` text of the UTC time `secs` seconds after the Unix
/// epoch, as chrono renders it; none when chrono cannot represent that time.
pub uninterp spec fn utc_minute_text(secs: int) -> Option<Seq<char>>;

/// `DateTime::<Utc>::from_timestamp(secs, 0)` rendered with
/// `format("%Y-%m-%d %H:%M")`. The result is named by [`utc_minute_text`].
#[verifier::external_body]
fn format_utc_minute(secs: i64) -> (r: Option<String>)
    ensures
        match utc_minute_text(secs as int) {
            Some(t) => r is Some && r->0@ == t,
            None => r is None,
        },
{
    chrono::DateTime::<chrono::Utc>::from_timestamp(secs, 0).map(|dt| dt.format("%Y-%m-%d %H:%M").to_string())
}

/// The seconds as chrono receives them: `u64 as i64`, wrapping above `i64::MAX`.
pub open spec fn wrap_i64(secs: u64) -> int {
    if secs <= i64::MAX {
        secs as int
    } else {
        secs - 0x1_0000_0000_0000_0000int
    }
}

fn u64_as_i64(secs: u64) -> (r: i64)
    ensures
        r as int == wrap_i64(secs),
{
    if secs <= i64::MAX as u64 {
        secs as i64
    } else {
        let below: u64 = secs - (i64::MAX as u64) - 1;
        let r: i64 = i64::MIN + (below as i64);
        r
    }
}

/// The timestamp shown for a save: a number of seconds is rendered as a UTC
/// date and minute; anything else is shown as it is.
pub open spec fn shown_timestamp(ts: Seq<char>) -> Seq<char> {
    match crate::text::parse_u64_text(ts) {
        Some(secs) => match utc_minute_text(wrap_i64(secs)) {
            Some(t) => t,
            None => ts,
        },
        None => ts,
    }
}

/// What a save file holds that its list entry shows: the metadata's
/// timestamp, chapter title and play time, and the script it stands in.
#[derive(Debug, Clone)]
pub struct SaveSummary {
    pub timestamp: String,
    pub chapter_title: Option<String>,
    pub script_id: String,
    pub play_time_secs: u64,
}

/// The list entry of a save in `slot`: none when the slot's save could not
/// be read, else its summary under that slot.
pub fn save_info(slot: u32, read: Option<SaveSummary>) -> (r: Option<SaveInfo>)
    ensures
        match read {
            None => r is None,
            Some(d) => r == Some(
                SaveInfo {
                    slot: Some(slot),
                    timestamp: d.timestamp,
                    chapter_title: d.chapter_title,
                    script_id: d.script_id,
                    play_time_secs: d.play_time_secs,
                },
            ),
        },
{
    match read {
        None => None,
        Some(d) => Some(
            SaveInfo {
                slot: Some(slot),
                timestamp: d.timestamp,
                chapter_title: d.chapter_title,
                script_id: d.script_id,
                play_time_secs: d.play_time_secs,
            },
        ),
    }
}

impl SaveInfo {
    /// The timestamp as readable text (see [`shown_timestamp`]).
    pub fn formatted_timestamp(&self) -> (r: String)
        ensures
            r@ == shown_timestamp(self.timestamp@),
    {
        match crate::text::parse_u64(self.timestamp.as_str()) {
            Some(secs) => match format_utc_minute(u64_as_i64(secs)) {
                Some(t) => t,
                None => self.timestamp.clone(),
            },
            None => self.timestamp.clone(),
        }
    }
}

/// The character of a six-bit value in the standard Base64 alphabet
/// (`A`-`Z`, `a`-`z`, `0`-`9`, `+`, `/`).
pub open spec fn base64_digit(v: int) -> char {
    if v < 26 {
        (65 + v) as char
    } else if v < 52 {
        (97 + v - 26) as char
    } else if v < 62 {
        (48 + v - 52) as char
    } else if v == 62 {
        '+'
    } else {
        '/'
    }
}

/// The standard padded Base64 text of the bytes (RFC 4648): every three
/// bytes become four characters of six bits each, high bits first; a last
/// group of one or two bytes is filled with zero bits and padded with `=`.
pub open spec fn base64_standard(bytes: Seq<u8>) -> Seq<char>
    decreases bytes.len(),
{
    if bytes.len() == 0 {
        Seq::empty()
    } else if bytes.len() == 1 {
        let a = bytes[0] as int;
        seq![base64_digit(a / 4), base64_digit((a % 4) * 16), '=', '=']
    } else if bytes.len() == 2 {
        let a = bytes[0] as int;
        let b = bytes[1] as int;
        seq![base64_digit(a / 4), base64_digit((a % 4) * 16 + b / 16), base64_digit((b % 16) * 4), '=']
    } else {
        let a = bytes[0] as int;
        let b = bytes[1] as int;
        let c = bytes[2] as int;
        seq![
            base64_digit(a / 4),
            base64_digit((a % 4) * 16 + b / 16),
            base64_digit((b % 16) * 4 + c / 64),
            base64_digit(c % 64),
        ] + base64_standard(bytes.subrange(3, bytes.len() as int))
    }
}

/// `base64::engine::general_purpose::STANDARD.encode`: the standard padded
/// encoding [`base64_standard`], four characters per started three-byte
/// group.
#[verifier::external_body]
fn base64_encode(bytes: &[u8]) -> (r: String)
    requires
        (bytes@.len() + 2) / 3 * 4 <= usize::MAX,
    ensures
        r@ == base64_standard(bytes@),
{
    base64::Engine::encode(&base64::engine::general_purpose::STANDARD, bytes)
}

/// A thumbnail's PNG bytes as the Base64 text the frontend displays.
pub fn encode_thumbnail_base64(png_bytes: &[u8]) -> (r: String)
    requires
        (png_bytes@.len() + 2) / 3 * 4 <= usize::MAX,
    ensures
        r@ == base64_standard(png_bytes@),
        r@.len() == (png_bytes@.len() + 2) / 3 * 4,
{
    proof {
        lemma_base64_len(png_bytes@);
    }
    base64_encode(png_bytes)
}

/// The encoding has four characters per started three-byte group.
pub proof fn lemma_base64_len(bytes: Seq<u8>)
    ensures
        base64_standard(bytes).len() == (bytes.len() + 2) / 3 * 4,
    decreases bytes.len(),
{
    if bytes.len() >= 3 {
        lemma_base64_len(bytes.subrange(3, bytes.len() as int));
    }
}

/// `base64::engine::general_purpose::STANDARD.decode`. That engine accepts
/// only canonical padded text without trailing bits, so it succeeds exactly
/// on the texts that some bytes encode to ([`base64_standard`]), and yields
/// those bytes; otherwise the text is the `DecodeError`'s message.
#[verifier::external_body]
fn base64_decode(text: &str) -> (r: Result<Vec<u8>, String>)
    ensures
        r matches Ok(b) ==> base64_standard(b@) == text@,
        r is Err <==> !(exists|b: Seq<u8>| #[trigger] base64_standard(b) == text@),
{
    base64::Engine::decode(&base64::engine::general_purpose::STANDARD, text).map_err(|e| e.to_string())
}

/// Thumbnail bytes from the Base64 text the frontend sends: the bytes whose
/// standard encoding is the text, or an error starting `base64 decode: `
/// when no bytes encode to it.
pub fn decode_thumbnail_base64(text: &str) -> (r: Result<Vec<u8>, String>)
    ensures
        r matches Ok(b) ==> base64_standard(b@) == text@,
        r is Err <==> !(exists|b: Seq<u8>| #[trigger] base64_standard(b) == text@),
        r matches Err(e) ==> e@.len() >= "base64 decode: "@.len() && e@.take(
            "base64 decode: "@.len() as int,
        ) == "base64 decode: "@,
{
    match base64_decode(text) {
        Ok(b) => Ok(b),
        Err(e) => {
            let mut m = "base64 decode: ".to_owned();
            m.append(e.as_str());
            assert(m@.take("base64 decode: "@.len() as int) =~= "base64 decode: "@);
            Err(m)
        },
    }
}

} // verus!
