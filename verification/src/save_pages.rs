//! The pages of the save/load screen: which slots each page shows, how a
//! page is labelled, and what clicking a slot does.

use vstd::prelude::*;
use crate::control::QUICK_SAVE_SLOT;
use crate::text::{decimal, u64_to_decimal, string_from_chars};
use vstd::string::StringExecFns;

verus! {

/// Slots shown on one page.
pub const SLOTS_PER_PAGE: u32 = 6;

/// A page of the save/load screen.
#[derive(Debug, Clone, Copy, PartialEq, Eq, Structural)]
pub enum PageKind {
    /// Automatic saves.
    Auto,
    /// The quick-save page.
    Quick,
    /// A manual page, numbered from 1 to 9.
    Manual(u32),
}

/// A page can be shown when it is not a manual page numbered 0, and its
/// slots fit in a `u32`.
pub open spec fn page_ok(p: PageKind) -> bool {
    match p {
        PageKind::Manual(n) => 1 <= n && (n - 1) * 6 + 1 + 6 <= u32::MAX,
        _ => true,
    }
}

/// The first slot of a page.
pub open spec fn first_slot(p: PageKind) -> int {
    match p {
        PageKind::Auto => 61,
        PageKind::Quick => 55,
        PageKind::Manual(n) => (n - 1) * 6 + 1,
    }
}

/// Whether a page shows a slot.
pub open spec fn page_shows(p: PageKind, slot: int) -> bool {
    first_slot(p) <= slot < first_slot(p) + 6
}

/// The pages in the order the pagination lists them.
pub open spec fn page_order() -> Seq<PageKind> {
    seq![
        PageKind::Auto,
        PageKind::Quick,
        PageKind::Manual(1),
        PageKind::Manual(2),
        PageKind::Manual(3),
        PageKind::Manual(4),
        PageKind::Manual(5),
        PageKind::Manual(6),
        PageKind::Manual(7),
        PageKind::Manual(8),
        PageKind::Manual(9),
    ]
}

/// The label of a page on its button.
pub open spec fn page_label(p: PageKind) -> Seq<char> {
    match p {
        PageKind::Auto => "A"@,
        PageKind::Quick => "Q"@,
        PageKind::Manual(n) => if 1 <= n <= 9 {
            decimal(n as nat)
        } else {
            "?"@
        },
    }
}

impl PageKind {
    /// The first slot the page shows.
    pub fn start_slot(self) -> (r: u32)
        requires
            page_ok(self),
        ensures
            r == first_slot(self),
    {
        match self {
            PageKind::Auto => 61,
            PageKind::Quick => 55,
            PageKind::Manual(n) => (n - 1) * SLOTS_PER_PAGE + 1,
        }
    }

    /// The page's button label.
    pub fn label(self) -> (r: String)
        ensures
            r@ == page_label(self),
    {
        match self {
            PageKind::Auto => "A".to_owned(),
            PageKind::Quick => "Q".to_owned(),
            PageKind::Manual(n) => {
                if 1 <= n && n <= 9 {
                    string_from_chars(&u64_to_decimal(n as u64))
                } else {
                    "?".to_owned()
                }
            },
        }
    }

    /// Every page, in pagination order.
    pub fn all() -> (r: Vec<PageKind>)
        ensures
            r@ == page_order(),
    {
        let mut pages = vec![PageKind::Auto, PageKind::Quick];
        let mut n: u32 = 1;
        while n <= 9
            invariant
                1 <= n <= 10,
                pages@ == page_order().take(n + 1),
            decreases 10 - n,
        {
            pages.push(PageKind::Manual(n));
            assert(page_order().take(n + 2) =~= page_order().take(n + 1).push(PageKind::Manual(n)));
            n += 1;
        }
        assert(page_order().take(11) =~= page_order());
        pages
    }

    /// The slots the page shows, in order.
    pub fn slots(self) -> (r: Vec<u32>)
        requires
            page_ok(self),
        ensures
            r@.len() == 6,
            forall|i: int| 0 <= i < 6 ==> #[trigger] r@[i] == first_slot(self) + i,
    {
        let start = self.start_slot();
        let mut out: Vec<u32> = Vec::new();
        let mut k: u32 = 0;
        while k < SLOTS_PER_PAGE
            invariant
                k <= 6,
                start == first_slot(self),
                start + 6 <= u32::MAX,
                out@.len() == k,
                forall|i: int| 0 <= i < k ==> #[trigger] out@[i] == start + i,
            decreases 6 - k,
        {
            out.push(start + k);
            k += 1;
        }
        out
    }
}

/// One slot tile of a page: the slot and whether a save is listed for it.
pub open spec fn tiles_of(listed: Seq<u32>, p: PageKind) -> Seq<(u32, bool)> {
    Seq::new(6, |i: int| ((first_slot(p) + i) as u32, listed.contains((first_slot(p) + i) as u32)))
}

/// The tiles of a page, given the slots the save list holds.
pub fn page_tiles(listed: &Vec<u32>, page: PageKind) -> (r: Vec<(u32, bool)>)
    requires
        page_ok(page),
    ensures
        r@ == tiles_of(listed@, page),
{
    let slots = page.slots();
    let mut out: Vec<(u32, bool)> = Vec::new();
    let mut i: usize = 0;
    while i < slots.len()
        invariant
            i <= 6,
            slots@.len() == 6,
            forall|k: int| 0 <= k < 6 ==> #[trigger] slots@[k] == first_slot(page) + k,
            out@ == tiles_of(listed@, page).take(i as int),
        decreases 6 - i,
    {
        let slot = slots[i];
        let mut found = false;
        let mut j: usize = 0;
        while j < listed.len()
            invariant
                j <= listed@.len(),
                found == exists|k: int| 0 <= k < j && listed@[k] == slot,
            decreases listed.len() - j,
        {
            if listed[j] == slot {
                found = true;
            }
            j += 1;
        }
        proof {
            assert(slots@[i as int] == first_slot(page) + i);
            if found {
                let k = choose|k: int| 0 <= k < j && listed@[k] == slot;
                assert(listed@.contains(slot));
            }
        }
        out.push((slot, found));
        assert(tiles_of(listed@, page).take(i + 1) =~= tiles_of(listed@, page).take(i as int).push(
            (slot, found),
        ));
        i += 1;
    }
    assert(tiles_of(listed@, page).take(6) =~= tiles_of(listed@, page));
    out
}

/// What clicking a slot tile does.
#[derive(Debug, Clone, PartialEq)]
pub enum SlotClick {
    /// Save into the slot; overwriting an existing save also shows the
    /// confirmation text.
    Save { confirm: Option<String> },
    /// Load the slot's save.
    Load,
    /// Nothing (an empty slot while loading).
    Nothing,
}

/// The confirmation shown when a save is overwritten.
pub open spec fn overwrite_prompt(slot: u32) -> Seq<char> {
    "覆盖 Slot "@ + decimal(slot as nat) + " 的存档？"@
}

/// Decides what clicking a slot tile does: in save mode the slot is saved
/// (with a confirmation text when a save is overwritten); in load mode an
/// existing save is loaded and an empty slot ignored.
pub fn slot_click(save_mode: bool, slot: u32, exists: bool) -> (r: SlotClick)
    ensures
        save_mode && exists ==> (r matches SlotClick::Save { confirm: Some(c) } && c@
            == overwrite_prompt(slot)),
        save_mode && !exists ==> r matches SlotClick::Save { confirm: None },
        !save_mode && exists ==> r is Load,
        !save_mode && !exists ==> r is Nothing,
{
    if save_mode {
        if exists {
            let mut c = "覆盖 Slot ".to_owned();
            let n = string_from_chars(&u64_to_decimal(slot as u64));
            c.append(n.as_str());
            c.append(" 的存档？");
            SlotClick::Save { confirm: Some(c) }
        } else {
            SlotClick::Save { confirm: None }
        }
    } else if exists {
        SlotClick::Load
    } else {
        SlotClick::Nothing
    }
}

/// The pages split slots 1 to 66 among themselves: every such slot is
/// shown by exactly one page, and no page shows any other slot; the quick
/// save slot is on the quick-save page.
pub proof fn lemma_pages_partition_slots(slot: int)
    ensures
        1 <= slot <= 66 ==> exists|i: int|
            0 <= i < 11 && #[trigger] page_shows(page_order()[i], slot),
        forall|i: int, j: int|
            0 <= i < j < 11 ==> !(#[trigger] page_shows(page_order()[i], slot) && #[trigger] page_shows(
                page_order()[j],
                slot,
            )),
        forall|i: int| 0 <= i < 11 ==> #[trigger] page_shows(page_order()[i], slot) ==> 1 <= slot
            <= 66,
        page_shows(PageKind::Quick, QUICK_SAVE_SLOT as int),
{
    let o = page_order();
    assert(o[0] == PageKind::Auto && o[1] == PageKind::Quick);
    assert(forall|k: int| 2 <= k < 11 ==> #[trigger] o[k] == PageKind::Manual((k - 1) as u32));
    assert(forall|k: int| 2 <= k < 11 ==> #[trigger] first_slot(o[k]) == (k - 2) * 6 + 1);
    if 1 <= slot <= 66 {
        if slot >= 61 {
            assert(page_shows(o[0], slot));
        } else if slot >= 55 {
            assert(page_shows(o[1], slot));
        } else {
            let k = (slot - 1) / 6 + 2;
            assert(2 <= k < 11);
            assert(page_shows(o[k], slot));
        }
    }
}

} // verus!
