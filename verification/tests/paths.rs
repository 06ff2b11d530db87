use ring_host::protocol::{percent_decode, guess_mime, inject_engine_sdk, game_complete_result, route_asset_request, AssetRoute, parse_host_screen, parse_playback_mode};
use ring_host::render::{HostScreen, PlaybackMode};
use ring_host::resources::{normalize_logical_path, guess_mime_type, LogicalPath, FsSource, ResourceError, ResourceManager, ResourceSource};

#[test]
fn percent_decode_plain_ascii_passthrough() {
    assert_eq!(percent_decode("hello/world.png"), "hello/world.png");
    assert_eq!(percent_decode(""), "");
}

#[test]
fn percent_decode_encoded_chars() {
    assert_eq!(percent_decode("%E4%B8%AD%E6%96%87"), "中文");
}

#[test]
fn percent_decode_partial_mixed() {
    assert_eq!(percent_decode("hello%20world"), "hello world");
}

#[test]
fn percent_decode_incomplete_sequence_left_as_is() {
    let result = percent_decode("test%");
    assert_eq!(result, "test%");
}

#[test]
fn percent_decode_invalid_utf8_returns_input() {
    assert_eq!(percent_decode("a%FFb"), "a%FFb");
}

#[test]
fn percent_decode_keeps_percent_without_two_hex_digits() {
    assert_eq!(percent_decode("%+1"), "%+1");
    assert_eq!(percent_decode("%+41"), "%+41");
    assert_eq!(percent_decode("x%+Ay"), "x%+Ay");
    assert_eq!(percent_decode("%zz1"), "%zz1");
    assert_eq!(percent_decode("%中"), "%中");
    assert_eq!(percent_decode("a%4中"), "a%4中");
    assert_eq!(percent_decode("%中%41"), "%中A");
}

#[test]
fn percent_decode_lowercase_hex() {
    assert_eq!(percent_decode("%2f%2F"), "//");
}

#[test]
fn resources_normalize_strips_assets_prefix() {
    assert_eq!(normalize_logical_path("assets/bg/sky.png"), "bg/sky.png");
}

#[test]
fn resources_normalize_resolves_dotdot() {
    assert_eq!(normalize_logical_path("scripts/../bg/sky.png"), "bg/sky.png");
}

#[test]
fn normalize_strips_assets_prefix() {
    assert_eq!(normalize_logical_path("assets/bg/sky.png"), "bg/sky.png");
}

#[test]
fn normalize_resolves_dotdot() {
    assert_eq!(normalize_logical_path("scripts/../bg/sky.png"), "bg/sky.png");
}

#[test]
fn normalize_backslashes_dot_and_empty_components() {
    assert_eq!(normalize_logical_path(".\\scripts\\.\\main.md"), "scripts/main.md");
    assert_eq!(normalize_logical_path("a//b/./c/"), "a/b/c");
    assert_eq!(normalize_logical_path("../../x"), "x");
    assert_eq!(normalize_logical_path(""), "");
    assert_eq!(normalize_logical_path("/abs/path"), "abs/path");
}

#[test]
fn normalize_strips_assets_prefix_only_once() {
    assert_eq!(normalize_logical_path("assets/assets/x.png"), "assets/x.png");
    assert_eq!(normalize_logical_path("assets"), "assets");
}

#[test]
fn logical_path_parts() {
    let p = LogicalPath::new("assets/bg/sky.night.png");
    assert_eq!(p.as_str(), "bg/sky.night.png");
    assert_eq!(p.file_stem(), "sky.night");
    assert_eq!(p.parent_dir(), "bg");
    let q = LogicalPath::new("readme");
    assert_eq!(q.file_stem(), "readme");
    assert_eq!(q.parent_dir(), "");
    assert_eq!(q.to_text(), "readme");
    assert_eq!(q.to_path_buf(), std::path::PathBuf::from("readme"));
}

#[test]
fn logical_path_join() {
    let base = LogicalPath::new("scripts/chapter1");
    assert_eq!(base.join("../bg/a.png").as_str(), "scripts/bg/a.png");
    let empty = LogicalPath::new("");
    assert_eq!(empty.join("assets/x.md").as_str(), "x.md");
}

#[test]
fn resources_guess_mime_common_types() {
    assert_eq!(guess_mime_type("bg/sky.png"), "image/png");
    assert_eq!(guess_mime_type("bgm/track.mp3"), "audio/mpeg");
    assert_eq!(guess_mime_type("unknown.xyz"), "application/octet-stream");
}

#[test]
fn guess_mime_common_types() {
    assert_eq!(guess_mime_type("bg/sky.png"), "image/png");
    assert_eq!(guess_mime_type("bg/sky.jpg"), "image/jpeg");
    assert_eq!(guess_mime_type("bg/sky.jpeg"), "image/jpeg");
    assert_eq!(guess_mime_type("bg/sky.webp"), "image/webp");
    assert_eq!(guess_mime_type("bgm/track.mp3"), "audio/mpeg");
    assert_eq!(guess_mime_type("bgm/track.ogg"), "audio/ogg");
    assert_eq!(guess_mime_type("video/op.mp4"), "video/mp4");
    assert_eq!(guess_mime_type("ui/layout.json"), "application/json");
    assert_eq!(guess_mime_type("gui/theme.css"), "text/css");
    assert_eq!(guess_mime_type("fonts/noto.woff2"), "font/woff2");
    assert_eq!(guess_mime_type("unknown.xyz"), "application/octet-stream");
}

#[test]
fn guess_mime_case_insensitive() {
    assert_eq!(guess_mime_type("BG/SKY.PNG"), "image/png");
    assert_eq!(guess_mime_type("track.MP3"), "audio/mpeg");
}

#[test]
fn guess_mime_without_dot_uses_whole_name() {
    assert_eq!(guess_mime_type("json"), "application/json");
    assert_eq!(guess_mime_type("scripts/main.rks"), "text/plain");
}

#[test]
fn page_mime_is_case_sensitive() {
    assert_eq!(guess_mime("a/b.html"), "text/html");
    assert_eq!(guess_mime("a/b.HTML"), "application/octet-stream");
    assert_eq!(guess_mime("a/b.flac"), "audio/flac");
    assert_eq!(guess_mime("a/b.js"), "application/javascript");
}

#[test]
fn fs_source_resolves_under_base() {
    let source = FsSource::new("/nonexistent_dir_ring_test");
    let path = LogicalPath::new("nope.txt");
    assert_eq!(source.resolve(&path), "/nonexistent_dir_ring_test/nope.txt");
    assert_eq!(FsSource::new("base/").resolve(&path), "base/nope.txt");
    assert_eq!(FsSource::new("").resolve(&path), "nope.txt");
    assert_eq!(source.base_path(), "/nonexistent_dir_ring_test");
}

struct Fixed;

impl ResourceSource for Fixed {
    fn read_text(&self, path: &LogicalPath) -> Result<String, ResourceError> {
        if path.as_str() == "a.txt" {
            Ok("alpha".to_string())
        } else {
            Err(ResourceError::NotFound { path: path.as_str().to_string() })
        }
    }
    fn read_bytes(&self, path: &LogicalPath) -> Result<Vec<u8>, ResourceError> {
        self.read_text(path).map(|s| s.into_bytes())
    }
    fn contains(&self, path: &LogicalPath) -> bool {
        path.as_str() == "a.txt"
    }
}

#[test]
fn resource_manager_delegates_to_source() {
    let rm = ResourceManager::with_source(Fixed, "/fake/base");
    assert_eq!(rm.read_text(&LogicalPath::new("a.txt")).unwrap(), "alpha");
    assert_eq!(rm.read_bytes(&LogicalPath::new("./a.txt")).unwrap(), b"alpha".to_vec());
    assert!(rm.resource_exists(&LogicalPath::new("a.txt")));
    assert_eq!(rm.read_text_optional(&LogicalPath::new("b.txt")), None);
    assert_eq!(rm.read_text_optional(&LogicalPath::new("a.txt")), Some("alpha".to_string()));
    assert_eq!(rm.base_path(), "/fake/base");
    assert_eq!(rm.resolve_fs_path(&LogicalPath::new("bg/x.png")), "/fake/base/bg/x.png");
}

#[test]
fn resource_error_messages() {
    let e = ResourceError::LoadFailed { path: "p".into(), kind: "zip".into(), message: "m".into() };
    assert_eq!(e.message(), "加载 zip 资源失败: p - m");
    assert_eq!(ResourceError::NotFound { path: "q".into() }.message(), "资源未找到: q");
}

#[test]
fn host_screen_and_playback_names() {
    assert_eq!(parse_host_screen("ingame"), Ok(HostScreen::InGame));
    assert_eq!(parse_host_screen("ingame_menu"), Ok(HostScreen::InGameMenu));
    assert_eq!(parse_host_screen("title"), Ok(HostScreen::Title));
    assert_eq!(parse_host_screen("Title"), Err("未知 host_screen: Title".to_string()));
    assert_eq!(parse_playback_mode("skip"), Ok(PlaybackMode::Skip));
    assert_eq!(parse_playback_mode("fast"), Err("未知 playback_mode: fast".to_string()));
}

#[test]
fn sdk_injected_after_first_head() {
    assert_eq!(inject_engine_sdk("<html><head><title>x</title></head>", "S"), "<html><head><script>S</script><title>x</title></head>");
    assert_eq!(inject_engine_sdk("<HEAD></HEAD>", "S"), "<HEAD><script>S</script></HEAD>");
    assert_eq!(inject_engine_sdk("<p>hi</p>", "S"), "<script>S</script><p>hi</p>");
}

#[test]
fn game_complete_result_reads_first_result_param() {
    assert_eq!(game_complete_result("a=1&result=win%20big&result=lose"), "win big");
    assert_eq!(game_complete_result("foo=bar"), "");
    assert_eq!(game_complete_result(""), "");
    assert_eq!(game_complete_result("result"), "");
    assert_eq!(game_complete_result("result=a=b"), "a=b");
}

#[test]
fn asset_requests_route_by_path() {
    assert!(matches!(route_asset_request("/__game_complete"), AssetRoute::GameComplete));
    assert!(matches!(route_asset_request("//engine-sdk.js"), AssetRoute::EngineSdk));
    match route_asset_request("/games/g1/index.html") {
        AssetRoute::File { path, mime, inject_sdk } => {
            assert_eq!(path, "games/g1/index.html");
            assert_eq!(mime, "text/html");
            assert!(inject_sdk);
        }
        _ => panic!("expected a file"),
    }
    match route_asset_request("/bg/%E4%B8%AD.png") {
        AssetRoute::File { path, mime, inject_sdk } => {
            assert_eq!(path, "bg/中.png");
            assert_eq!(mime, "image/png");
            assert!(!inject_sdk);
        }
        _ => panic!("expected a file"),
    }
}

#[test]
fn fs_source_not_found() {
    let source = FsSource::new("/nonexistent_dir_ring_test");
    let path = LogicalPath::new("nope.txt");
    assert!(!source.contains(&path));
    let outcome = source.text_outcome(&path, Err("No such file or directory (os error 2)".to_string()));
    assert!(outcome.is_err());
    match outcome {
        Err(ResourceError::LoadFailed { path, kind, message }) => {
            assert_eq!(path, "/nonexistent_dir_ring_test/nope.txt");
            assert_eq!(kind, "text");
            assert_eq!(message, "No such file or directory (os error 2)");
        }
        _ => panic!("expected a load failure"),
    }
}

#[test]
fn fs_outcomes_pass_reads_through() {
    let source = FsSource::new("base");
    let path = LogicalPath::new("a/b.bin");
    assert_eq!(source.text_outcome(&path, Ok("t".to_string())).unwrap(), "t");
    assert_eq!(source.bytes_outcome(&path, Ok(vec![1, 2])).unwrap(), vec![1, 2]);
    match source.bytes_outcome(&path, Err("denied".to_string())) {
        Err(ResourceError::LoadFailed { path, kind, .. }) => {
            assert_eq!(path, "base/a/b.bin");
            assert_eq!(kind, "file");
        }
        _ => panic!("expected a load failure"),
    }
}

#[test]
fn normalizing_twice_strips_at_most_one_more_prefix() {
    for raw in ["a/./b/../c", "./assets/x\\y", "", "..", "assets/assets/z", "/x//y/"] {
        let once = normalize_logical_path(raw);
        let twice = normalize_logical_path(&once);
        let expected = once.strip_prefix("assets/").unwrap_or(&once).to_string();
        assert_eq!(twice, expected);
        assert!(!once.contains('\\'));
        assert!(once.is_empty() || once.split('/').all(|c| !c.is_empty() && c != "." && c != ".."));
    }
    assert_eq!(normalize_logical_path("assets/assets/z"), "assets/z");
    assert_eq!(normalize_logical_path("assets/z"), "z");
}

#[test]
fn mime_guess_ignores_ascii_case() {
    assert_eq!(guess_mime_type("A/B.WoFf2"), guess_mime_type("a/b.woff2"));
    assert_eq!(guess_mime_type("X.JSON"), "application/json");
}

#[test]
fn logical_paths_convert_to_path_bufs() {
    let p = LogicalPath::new("./bg\\sky.png");
    assert_eq!(p.to_path_buf(), std::path::PathBuf::from("bg/sky.png"));
    assert_eq!(p.to_text(), "bg/sky.png");
}
