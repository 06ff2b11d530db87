use base64::Engine;
use ring_host::saves::{save_info, SaveSummary};
use ring_host::saves::{decode_thumbnail_base64, encode_thumbnail_base64, parse_slot_file_name, SaveInfo, SaveManager, MAX_SAVE_SLOTS};

fn names(list: &[&str]) -> Vec<String> {
    list.iter().map(|s| s.to_string()).collect()
}

#[test]
fn slot_thumbnail_and_continue_paths() {
    let sm = SaveManager::new("saves");
    assert_eq!(sm.saves_dir(), "saves");
    assert_eq!(sm.slot_path(1), "saves/slot_001.json");
    assert_eq!(sm.slot_path(42), "saves/slot_042.json");
    assert_eq!(sm.slot_path(1234), "saves/slot_1234.json");
    assert_eq!(sm.thumbnail_path(7), "saves/thumb_007.png");
    assert_eq!(sm.continue_path(), "saves/continue.json");
    assert_eq!(SaveManager::new("saves/").slot_path(3), "saves/slot_003.json");
    assert_eq!(SaveManager::new("").continue_path(), "continue.json");
    assert_eq!(MAX_SAVE_SLOTS, 99);
}

#[test]
fn slot_file_names_parse_to_their_slot() {
    assert_eq!(parse_slot_file_name("slot_001.json"), Some(1));
    assert_eq!(parse_slot_file_name("slot_099.json"), Some(99));
    assert_eq!(parse_slot_file_name("slot_+12.json"), Some(12));
    assert_eq!(parse_slot_file_name("slot_1234.json"), Some(123));
    assert_eq!(parse_slot_file_name("slot_ab1.json"), None);
    assert_eq!(parse_slot_file_name("continue.json"), None);
    assert_eq!(parse_slot_file_name("thumb_001.png"), None);
    assert_eq!(parse_slot_file_name("slot_001.png"), None);
}

#[test]
fn slot_path_round_trips_through_listing() {
    let sm = SaveManager::new("d");
    for slot in [0u32, 5, 55, 99, 999] {
        let name = format!("slot_{slot:03}.json");
        assert!(sm.slot_path(slot).ends_with(&name));
        assert_eq!(parse_slot_file_name(&name), Some(slot));
    }
}

#[test]
fn list_saves_returns_sorted_slots() {
    let sm = SaveManager::new("saves");
    let found = sm.list_saves_from(&names(&[
        "slot_005.json",
        "thumb_005.png",
        "slot_001.json",
        "continue.json",
        "slot_003.json",
    ]));
    let slots: Vec<u32> = found.iter().map(|(s, _)| *s).collect();
    assert_eq!(slots, [1, 3, 5]);
    assert_eq!(found[0].1, "saves/slot_001.json");
}

#[test]
fn list_saves_empty_when_no_dir() {
    let sm = SaveManager::new("missing");
    assert!(sm.list_saves_from(&Vec::new()).is_empty());
}

#[test]
fn list_saves_keeps_directory_order_among_equal_slots() {
    let sm = SaveManager::new("s");
    let found = sm.list_saves_from(&names(&["slot_+02.json", "slot_009.json", "slot_002.json"]));
    assert_eq!(
        found,
        vec![
            (2, "s/slot_+02.json".to_string()),
            (2, "s/slot_002.json".to_string()),
            (9, "s/slot_009.json".to_string()),
        ]
    );
}

fn info(ts: &str) -> SaveInfo {
    SaveInfo {
        slot: Some(1),
        timestamp: ts.to_string(),
        chapter_title: None,
        script_id: "main".to_string(),
        play_time_secs: 0,
    }
}

#[test]
fn timestamps_render_as_utc_minutes() {
    assert_eq!(info("0").formatted_timestamp(), "1970-01-01 00:00");
    assert_eq!(info("1700000000").formatted_timestamp(), "2023-11-14 22:13");
    assert_eq!(info("+60").formatted_timestamp(), "1970-01-01 00:01");
    assert_eq!(info("yesterday").formatted_timestamp(), "yesterday");
    assert_eq!(info("").formatted_timestamp(), "");
    assert_eq!(info("18446744073709551615").formatted_timestamp(), "1969-12-31 23:59");
}

#[test]
fn thumbnail_roundtrip() {
    let png_bytes: &[u8] = b"\x89PNG\r\n\x1a\n";
    let b64 = encode_thumbnail_base64(png_bytes);
    assert_eq!(b64.len(), 12);
    let decoded = base64::engine::general_purpose::STANDARD.decode(b64).unwrap();
    assert_eq!(&decoded[..], png_bytes);
}

#[test]
fn thumbnail_base64_exact_text() {
    assert_eq!(encode_thumbnail_base64(b"abc"), "YWJj");
    assert_eq!(encode_thumbnail_base64(b"ab"), "YWI=");
    assert_eq!(encode_thumbnail_base64(b""), "");
    assert_eq!(encode_thumbnail_base64(b"M"), "TQ==");
    assert_eq!(encode_thumbnail_base64(&[251u8, 255, 191]), "+/+/");
    assert_eq!(encode_thumbnail_base64(b"Man is"), "TWFuIGlz");
}

#[test]
fn thumbnail_base64_decodes_canonical_text_only() {
    assert_eq!(decode_thumbnail_base64("YWJj"), Ok(b"abc".to_vec()));
    assert_eq!(decode_thumbnail_base64("YWI="), Ok(b"ab".to_vec()));
    assert_eq!(decode_thumbnail_base64(""), Ok(Vec::new()));
    let png: &[u8] = b"\x89PNG\r\n\x1a\n";
    assert_eq!(decode_thumbnail_base64(&encode_thumbnail_base64(png)).unwrap(), png);
    for bad in ["YWI", "YWJ=", "Y!==", "YWJj\n"] {
        let e = decode_thumbnail_base64(bad).unwrap_err();
        assert!(e.starts_with("base64 decode: "), "{e}");
    }
}

#[test]
fn save_info_maps_the_summary_under_its_slot() {
    assert!(save_info(3, None).is_none());
    let s = SaveSummary {
        timestamp: "1700000000".to_string(),
        chapter_title: Some("Chapter 2".to_string()),
        script_id: "main".to_string(),
        play_time_secs: 3600,
    };
    let info = save_info(3, Some(s)).unwrap();
    assert_eq!(info.slot, Some(3));
    assert_eq!(info.timestamp, "1700000000");
    assert_eq!(info.chapter_title.as_deref(), Some("Chapter 2"));
    assert_eq!(info.script_id, "main");
    assert_eq!(info.play_time_secs, 3600);
}
