use ring_host::config::{blank, validate_config, AssetSourceType, ConfigError, DebugConfig, ResourceConfig, ValidationFacts, WindowConfig};

fn facts() -> ValidationFacts {
    ValidationFacts {
        assets_root_text: "\"/game/assets\"".to_string(),
        assets_dir_exists: true,
        zip_path_text: "\"/game/assets.zip\"".to_string(),
        zip_file_exists: false,
        volume_problem: None,
    }
}

fn check(source: AssetSourceType, zip: Option<&str>, manifest: &str, start: &str, f: &ValidationFacts) -> Result<(), ConfigError> {
    validate_config(
        source,
        zip,
        manifest,
        start,
        &WindowConfig::default(),
        &DebugConfig::default(),
        &ResourceConfig::default(),
        f,
    )
}

#[test]
fn validate_rejects_empty_start_script_path() {
    let error = check(AssetSourceType::Fs, None, "characters.json", "", &facts()).unwrap_err().message();
    assert!(error.contains("start_script_path"));
    assert_eq!(error, "配置校验失败: start_script_path 不能为空");
}

#[test]
fn validation_rules_in_order() {
    let ok = facts();
    assert_eq!(check(AssetSourceType::Fs, None, "characters.json", "scripts/main.rks", &ok), Ok(()));
    let mut no_dir = facts();
    no_dir.assets_dir_exists = false;
    assert_eq!(
        check(AssetSourceType::Fs, None, " ", "", &no_dir),
        Err(ConfigError::ValidationFailed("资源目录不存在: \"/game/assets\"".to_string()))
    );
    assert_eq!(
        check(AssetSourceType::Zip, None, "m", "s", &ok),
        Err(ConfigError::ValidationFailed("asset_source=zip 时必须提供 zip_path".to_string()))
    );
    assert_eq!(
        check(AssetSourceType::Zip, Some("assets.zip"), "m", "s", &ok),
        Err(ConfigError::ValidationFailed("ZIP 资源文件不存在: \"/game/assets.zip\"".to_string()))
    );
    assert_eq!(
        check(AssetSourceType::Fs, None, " \t", "s", &ok),
        Err(ConfigError::ValidationFailed("manifest_path 不能为空".to_string()))
    );
    let mut loud = facts();
    loud.volume_problem = Some("audio.bgm_volume 必须在 0.0..=1.0 范围内".to_string());
    assert_eq!(
        check(AssetSourceType::Fs, None, "m", "s", &loud),
        Err(ConfigError::ValidationFailed("audio.bgm_volume 必须在 0.0..=1.0 范围内".to_string()))
    );
}

#[test]
fn zero_sizes_are_rejected() {
    let f = facts();
    let mut w = WindowConfig::default();
    w.height = 0;
    assert_eq!(
        validate_config(AssetSourceType::Fs, None, "m", "s", &w, &DebugConfig::default(), &ResourceConfig::default(), &f),
        Err(ConfigError::ValidationFailed("window.width / window.height 必须大于 0".to_string()))
    );
    let mut d = DebugConfig::default();
    d.recording_buffer_size_mb = 0;
    assert_eq!(
        validate_config(AssetSourceType::Fs, None, "m", "s", &WindowConfig::default(), &d, &ResourceConfig::default(), &f),
        Err(ConfigError::ValidationFailed("debug.recording_buffer_size_mb 必须大于 0".to_string()))
    );
    let r = ResourceConfig { texture_cache_size_mb: 0 };
    assert_eq!(
        validate_config(AssetSourceType::Fs, None, "m", "s", &WindowConfig::default(), &DebugConfig::default(), &r, &f),
        Err(ConfigError::ValidationFailed("resources.texture_cache_size_mb 必须大于 0".to_string()))
    );
}

#[test]
fn defaults_and_messages() {
    let w = WindowConfig::default();
    assert_eq!((w.width, w.height, w.title.as_str(), w.fullscreen), (1920, 1080, "Ring VN Engine", false));
    let d = DebugConfig::default();
    assert!(d.script_check);
    assert_eq!(d.log_level.as_deref(), Some("info"));
    assert_eq!(d.recording_buffer_size_mb, 8);
    assert_eq!(d.recording_output_dir, "recordings");
    assert_eq!(ResourceConfig::default().texture_cache_size_mb, 256);
    assert_eq!(AssetSourceType::default(), AssetSourceType::Fs);
    assert_eq!(ConfigError::LoadFailed("x".to_string()).message(), "配置加载失败: x");
    assert!(blank(" \u{3000}\n"));
    assert!(!blank(" a "));
}
