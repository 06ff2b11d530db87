use ring_host::save_pages::{page_tiles, slot_click, PageKind, SlotClick};
use ring_host::sprite_groups::{group_for_sprite, infer_group_id, unknown_group_sprites};
use ring_host::toast::{ToastQueue, ToastType};

#[test]
fn pages_start_slots_and_labels() {
    assert_eq!(PageKind::Auto.start_slot(), 61);
    assert_eq!(PageKind::Quick.start_slot(), 55);
    assert_eq!(PageKind::Manual(1).start_slot(), 1);
    assert_eq!(PageKind::Manual(9).start_slot(), 49);
    assert_eq!(PageKind::Auto.label(), "A");
    assert_eq!(PageKind::Quick.label(), "Q");
    assert_eq!(PageKind::Manual(3).label(), "3");
    assert_eq!(PageKind::Manual(12).label(), "?");
    let all = PageKind::all();
    assert_eq!(all.len(), 11);
    assert_eq!(all[0], PageKind::Auto);
    assert_eq!(all[1], PageKind::Quick);
    assert_eq!(all[10], PageKind::Manual(9));
    assert_eq!(PageKind::Manual(2).slots(), vec![7, 8, 9, 10, 11, 12]);
}

#[test]
fn page_tiles_mark_listed_slots() {
    let tiles = page_tiles(&vec![2, 5, 40], PageKind::Manual(1));
    assert_eq!(tiles, vec![(1, false), (2, true), (3, false), (4, false), (5, true), (6, false)]);
}

#[test]
fn slot_clicks() {
    assert_eq!(slot_click(true, 3, true), SlotClick::Save { confirm: Some("覆盖 Slot 3 的存档？".to_string()) });
    assert_eq!(slot_click(true, 3, false), SlotClick::Save { confirm: None });
    assert_eq!(slot_click(false, 3, true), SlotClick::Load);
    assert_eq!(slot_click(false, 3, false), SlotClick::Nothing);
}

#[test]
fn toasts_get_increasing_ids_and_leave_by_id() {
    let mut q = ToastQueue::new();
    q.info("a".to_string());
    q.success("b".to_string());
    q.push("c".to_string(), ToastType::Warning);
    q.error("d".to_string());
    assert_eq!(q.next_id(), 4);
    let ids: Vec<u64> = q.messages.iter().map(|m| m.id).collect();
    assert_eq!(ids, [0, 1, 2, 3]);
    q.remove(1);
    let texts: Vec<&str> = q.messages.iter().map(|m| m.text.as_str()).collect();
    assert_eq!(texts, ["a", "c", "d"]);
    assert_eq!(q.messages[1].toast_type, ToastType::Warning);
    q.remove(9);
    assert_eq!(q.messages.len(), 3);
    q.push("e".to_string(), ToastType::Info);
    assert_eq!(q.messages[3].id, 4);
    q.remove(4);
    assert_eq!(q.messages.len(), 3);
}

fn pairs(list: &[(&str, &str)]) -> Vec<(String, String)> {
    list.iter().map(|(a, b)| (a.to_string(), b.to_string())).collect()
}

fn names(list: &[&str]) -> Vec<String> {
    list.iter().map(|s| s.to_string()).collect()
}

#[test]
fn group_ids_are_inferred_from_paths() {
    assert_eq!(infer_group_id("characters/alice/happy.png"), "alice");
    assert_eq!(infer_group_id("characters/alice-happy.png"), "alice");
    assert_eq!(infer_group_id("sprites/bob_sad.png"), "bob");
    assert_eq!(infer_group_id("carol smile.png"), "carol");
    assert_eq!(infer_group_id("a_b-c.png"), "a_b");
    assert_eq!(infer_group_id("images/.hidden"), ".hidden");
    assert_eq!(infer_group_id("images/x.y.png"), "x.y");
    assert_eq!(infer_group_id(""), "default");
}

#[test]
fn group_choice_prefers_explicit_mapping() {
    let sprites = pairs(&[("characters/villain.png", "missing_group"), ("a/hero2.png", "hero")]);
    let groups = names(&["hero", "villain", "alice"]);
    assert_eq!(group_for_sprite(&sprites, &groups, "a/hero2.png"), Some("hero".to_string()));
    assert_eq!(group_for_sprite(&sprites, &groups, "./a/hero2.png"), Some("hero".to_string()));
    assert_eq!(group_for_sprite(&sprites, &groups, "characters/villain.png"), Some("villain".to_string()));
    assert_eq!(group_for_sprite(&sprites, &groups, "characters/alice/x.png"), Some("alice".to_string()));
    assert_eq!(group_for_sprite(&sprites, &groups, "characters/zed.png"), None);
}

#[test]
fn parse_and_validate_accepts_comment_and_reports_unknown_group() {
    let sprites = pairs(&[("characters/villain.png", "missing_group")]);
    let groups = names(&["hero"]);
    let unknown = unknown_group_sprites(&sprites, &groups);
    assert!(unknown.iter().any(|(_, group)| group == "missing_group"));
    assert!(unknown_group_sprites(&pairs(&[("x.png", "hero")]), &groups).is_empty());
}
