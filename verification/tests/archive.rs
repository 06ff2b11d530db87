use std::io::Write;

use ring_host::resources::{LogicalPath, ResourceError, ResourceManager, ResourceSource};
use ring_host::zip_source::ZipSource;

fn create_test_zip(entries: &[(&str, &[u8])]) -> Vec<u8> {
    let mut writer = zip::ZipWriter::new(std::io::Cursor::new(Vec::new()));
    let options = zip::write::SimpleFileOptions::default();
    for (name, content) in entries {
        writer.start_file(*name, options).unwrap();
        writer.write_all(content).unwrap();
    }
    writer.finish().unwrap().into_inner()
}

fn open(entries: &[(&str, &[u8])]) -> ZipSource {
    ZipSource::open_bytes("test_assets.zip", create_test_zip(entries)).unwrap()
}

#[test]
fn zip_source_read_text() {
    let source = open(&[("scripts/main.rks", b"Hello from ZIP"), ("ui/screens.json", b"{}")]);
    let path = LogicalPath::new("scripts/main.rks");
    assert!(source.contains(&path));
    assert_eq!(source.read_text(&path).unwrap(), "Hello from ZIP");

    let ui_path = LogicalPath::new("ui/screens.json");
    assert_eq!(source.read_text(&ui_path).unwrap(), "{}");

    let missing = LogicalPath::new("nope.txt");
    assert!(!source.contains(&missing));
    assert!(source.read_text(&missing).is_err());
}

#[test]
fn resources_zip_source_read_text() {
    let source = open(&[("scripts/main.rks", b"Hello from ZIP")]);
    let path = LogicalPath::new("scripts/main.rks");
    assert!(source.contains(&path));
    assert_eq!(source.read_text(&path).unwrap(), "Hello from ZIP");
}

#[test]
fn zip_source_read_bytes() {
    let data: &[u8] = &[0xFF, 0xD8, 0xFF, 0xE0];
    let source = open(&[("img/test.jpg", data)]);
    let path = LogicalPath::new("img/test.jpg");
    assert_eq!(source.read_bytes(&path).unwrap(), data);
}

#[test]
fn resource_manager_with_zip_source() {
    let source = open(&[("test.txt", b"via manager")]);
    let rm = ResourceManager::with_source(source, "/fake/base");
    let path = LogicalPath::new("test.txt");
    assert_eq!(rm.read_text(&path).unwrap(), "via manager");
    assert_eq!(rm.base_path(), "/fake/base");
}

#[test]
fn resources_resource_manager_with_zip_source() {
    let source = open(&[("test.txt", b"via manager")]);
    let rm = ResourceManager::with_source(source, "/fake/base");
    let path = LogicalPath::new("test.txt");
    assert_eq!(rm.read_text(&path).unwrap(), "via manager");
}

#[test]
fn zip_manifest_via_resource_manager() {
    let manifest_json = br#"{"characters":{},"presets":{},"defaults":{"anchor":{"x":0.5,"y":1.0},"pre_scale":1.0}}"#;
    let source = open(&[("characters.json", manifest_json)]);
    let rm = ResourceManager::with_source(source, "/fake/base");
    let path = LogicalPath::new("characters.json");
    let content = rm.read_text(&path).unwrap();
    let manifest: serde_json::Value = serde_json::from_str(&content).unwrap();
    assert!(manifest.get("defaults").is_some());
}

#[test]
fn zip_entries_are_indexed_in_normal_form() {
    let source = open(&[("assets/bg/sky.png", b"png"), ("bad.txt", &[0xff, 0xfe])]);
    assert!(source.contains(&LogicalPath::new("bg/sky.png")));
    assert!(source.read_bytes(&LogicalPath::new("bg/sky.png")).is_err());
    match source.read_text(&LogicalPath::new("bad.txt")) {
        Err(ResourceError::LoadFailed { path, kind, message }) => {
            assert_eq!(path, "bad.txt");
            assert_eq!(kind, "text");
            assert!(message.starts_with("UTF-8 解码失败: "));
        }
        other => panic!("unexpected {other:?}"),
    }
    match source.read_bytes(&LogicalPath::new("none.bin")) {
        Err(ResourceError::NotFound { path }) => assert_eq!(path, "none.bin"),
        other => panic!("unexpected {other:?}"),
    }
}

#[test]
fn unreadable_archives_are_load_failures() {
    match ZipSource::open_bytes("broken.zip", b"not a zip".to_vec()) {
        Err(ResourceError::LoadFailed { path, kind, .. }) => {
            assert_eq!(path, "broken.zip");
            assert_eq!(kind, "zip");
        }
        _ => panic!("expected a load failure"),
    }
}

#[test]
fn zip_source_reads_stored_and_deflated_entries() {
    let mut writer = zip::ZipWriter::new(std::io::Cursor::new(Vec::new()));
    let stored = zip::write::SimpleFileOptions::default().compression_method(zip::CompressionMethod::Stored);
    let deflated = zip::write::SimpleFileOptions::default().compression_method(zip::CompressionMethod::Deflated);
    writer.start_file("a.txt", stored).unwrap();
    writer.write_all(b"plain plain plain").unwrap();
    writer.start_file("b.txt", deflated).unwrap();
    writer.write_all(b"packed packed packed packed").unwrap();
    let bytes = writer.finish().unwrap().into_inner();
    let source = ZipSource::open_bytes("mixed.zip", bytes).unwrap();
    assert_eq!(source.read_text(&LogicalPath::new("a.txt")).unwrap(), "plain plain plain");
    assert_eq!(source.read_text(&LogicalPath::new("b.txt")).unwrap(), "packed packed packed packed");
}
