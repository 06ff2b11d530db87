//! The run-time configuration contract and its validation rules.

use vstd::prelude::*;
use vstd::string::StringExecFns;
use crate::text::to_chars;

verus! {

/// Where assets are read from.
#[derive(Debug, Clone, Copy, PartialEq, Eq, Structural)]
pub enum AssetSourceType {
    /// The file system (development).
    Fs,
    /// A ZIP archive (release).
    Zip,
}

impl Default for AssetSourceType {
    fn default() -> (r: Self)
        ensures
            r == AssetSourceType::Fs,
    {
        AssetSourceType::Fs
    }
}

/// Window settings.
#[derive(Debug, Clone)]
pub struct WindowConfig {
    pub width: u32,
    pub height: u32,
    pub title: String,
    pub fullscreen: bool,
}

impl Default for WindowConfig {
    fn default() -> (r: Self)
        ensures
            r.width == 1920,
            r.height == 1080,
            r.title@ == "Ring VN Engine"@,
            !r.fullscreen,
    {
        WindowConfig { width: 1920, height: 1080, title: "Ring VN Engine".to_owned(), fullscreen: false }
    }
}

/// Debugging settings.
#[derive(Debug, Clone)]
pub struct DebugConfig {
    pub script_check: bool,
    pub log_level: Option<String>,
    pub log_file: Option<String>,
    pub recording_buffer_size_mb: u32,
    pub recording_output_dir: String,
}

impl Default for DebugConfig {
    fn default() -> (r: Self)
        ensures
            r.script_check,
            r.log_level matches Some(l) && l@ == "info"@,
            r.log_file is None,
            r.recording_buffer_size_mb == 8,
            r.recording_output_dir@ == "recordings"@,
    {
        DebugConfig {
            script_check: true,
            log_level: Some("info".to_owned()),
            log_file: None,
            recording_buffer_size_mb: 8,
            recording_output_dir: "recordings".to_owned(),
        }
    }
}

/// Resource settings.
#[derive(Debug, Clone)]
pub struct ResourceConfig {
    pub texture_cache_size_mb: u32,
}

impl Default for ResourceConfig {
    fn default() -> (r: Self)
        ensures
            r.texture_cache_size_mb == 256,
    {
        ResourceConfig { texture_cache_size_mb: 256 }
    }
}

/// Why the configuration is unusable.
#[derive(Debug, Clone, PartialEq)]
pub enum ConfigError {
    LoadFailed(String),
    ValidationFailed(String),
}

impl ConfigError {
    /// The error as text.
    pub fn message(&self) -> (r: String)
        ensures
            r@ == match self {
                ConfigError::LoadFailed(m) => "配置加载失败: "@ + m@,
                ConfigError::ValidationFailed(m) => "配置校验失败: "@ + m@,
            },
    {
        match self {
            ConfigError::LoadFailed(m) => {
                let mut s = "配置加载失败: ".to_owned();
                s.append(m.as_str());
                s
            },
            ConfigError::ValidationFailed(m) => {
                let mut s = "配置校验失败: ".to_owned();
                s.append(m.as_str());
                s
            },
        }
    }
}

/// `char::is_whitespace`: the Unicode `White_Space` characters.
pub open spec fn is_unicode_whitespace(c: char) -> bool {
    ||| '\u{9}' <= c <= '\u{d}'
    ||| c == ' '
    ||| c == '\u{85}'
    ||| c == '\u{a0}'
    ||| c == '\u{1680}'
    ||| '\u{2000}' <= c <= '\u{200a}'
    ||| c == '\u{2028}'
    ||| c == '\u{2029}'
    ||| c == '\u{202f}'
    ||| c == '\u{205f}'
    ||| c == '\u{3000}'
}

/// `s.trim().is_empty()`: the text is blank.
pub open spec fn is_blank(s: Seq<char>) -> bool {
    forall|i: int| 0 <= i < s.len() ==> is_unicode_whitespace(#[trigger] s[i])
}

fn whitespace(c: char) -> (r: bool)
    ensures
        r == is_unicode_whitespace(c),
{
    ('\u{9}' <= c && c <= '\u{d}') || c == ' ' || c == '\u{85}' || c == '\u{a0}' || c == '\u{1680}'
        || ('\u{2000}' <= c && c <= '\u{200a}') || c == '\u{2028}' || c == '\u{2029}' || c
        == '\u{202f}' || c == '\u{205f}' || c == '\u{3000}'
}

/// Whether the text is blank.
pub fn blank(s: &str) -> (r: bool)
    ensures
        r == is_blank(s@),
{
    let v = to_chars(s);
    let mut i: usize = 0;
    while i < v.len()
        invariant
            i <= v.len(),
            v@ == s@,
            forall|j: int| 0 <= j < i ==> is_unicode_whitespace(#[trigger] v@[j]),
        decreases v.len() - i,
    {
        if !whitespace(v[i]) {
            return false;
        }
        i += 1;
    }
    true
}

/// What validation looks at besides the configuration's own fields: facts
/// about the file system and the audio volumes, established by the caller.
pub struct ValidationFacts {
    /// `{:?}` text of the resolved assets directory.
    pub assets_root_text: String,
    /// Whether that directory exists.
    pub assets_dir_exists: bool,
    /// `{:?}` text of the resolved ZIP path (when a ZIP path is configured).
    pub zip_path_text: String,
    /// Whether that ZIP file exists.
    pub zip_file_exists: bool,
    /// The message for the first volume outside `0.0..=1.0`, if any.
    pub volume_problem: Option<String>,
}

/// The first rule the configuration breaks, as the message that reports it;
/// none when every rule holds. The rules are checked in this order: the asset
/// source, the manifest path, the start script path, the window size, the
/// volumes, the recording buffer and the texture cache.
pub open spec fn first_violation(
    source: AssetSourceType,
    has_zip_path: bool,
    manifest_path: Seq<char>,
    start_script_path: Seq<char>,
    window: WindowConfig,
    debug: DebugConfig,
    resources: ResourceConfig,
    facts: ValidationFacts,
) -> Option<Seq<char>> {
    if source == AssetSourceType::Fs && !facts.assets_dir_exists {
        Some("资源目录不存在: "@ + facts.assets_root_text@)
    } else if source == AssetSourceType::Zip && !has_zip_path {
        Some("asset_source=zip 时必须提供 zip_path"@)
    } else if source == AssetSourceType::Zip && !facts.zip_file_exists {
        Some("ZIP 资源文件不存在: "@ + facts.zip_path_text@)
    } else if is_blank(manifest_path) {
        Some("manifest_path 不能为空"@)
    } else if is_blank(start_script_path) {
        Some("start_script_path 不能为空"@)
    } else if window.width == 0 || window.height == 0 {
        Some("window.width / window.height 必须大于 0"@)
    } else if facts.volume_problem is Some {
        Some(facts.volume_problem->0@)
    } else if debug.recording_buffer_size_mb == 0 {
        Some("debug.recording_buffer_size_mb 必须大于 0"@)
    } else if resources.texture_cache_size_mb == 0 {
        Some("resources.texture_cache_size_mb 必须大于 0"@)
    } else {
        None
    }
}

fn failed(msg: &str) -> (r: Result<(), ConfigError>)
    ensures
        r matches Err(ConfigError::ValidationFailed(m)) && m@ == msg@,
{
    Err(ConfigError::ValidationFailed(msg.to_owned()))
}

fn failed_with(prefix: &str, detail: &str) -> (r: Result<(), ConfigError>)
    ensures
        r matches Err(ConfigError::ValidationFailed(m)) && m@ == prefix@ + detail@,
{
    let mut m = prefix.to_owned();
    m.append(detail);
    Err(ConfigError::ValidationFailed(m))
}

/// Validates the configuration: the first broken rule is reported as a
/// validation failure with its message (see [`first_violation`]).
pub fn validate_config(
    source: AssetSourceType,
    zip_path: Option<&str>,
    manifest_path: &str,
    start_script_path: &str,
    window: &WindowConfig,
    debug: &DebugConfig,
    resources: &ResourceConfig,
    facts: &ValidationFacts,
) -> (r: Result<(), ConfigError>)
    ensures
        match first_violation(
            source,
            zip_path is Some,
            manifest_path@,
            start_script_path@,
            *window,
            *debug,
            *resources,
            *facts,
        ) {
            Some(m) => r matches Err(ConfigError::ValidationFailed(e)) && e@ == m,
            None => r is Ok,
        },
{
    match source {
        AssetSourceType::Fs => {
            if !facts.assets_dir_exists {
                return failed_with("资源目录不存在: ", facts.assets_root_text.as_str());
            }
        },
        AssetSourceType::Zip => {
            if zip_path.is_none() {
                return failed("asset_source=zip 时必须提供 zip_path");
            }
            if !facts.zip_file_exists {
                return failed_with("ZIP 资源文件不存在: ", facts.zip_path_text.as_str());
            }
        },
    }
    if blank(manifest_path) {
        return failed("manifest_path 不能为空");
    }
    if blank(start_script_path) {
        return failed("start_script_path 不能为空");
    }
    if window.width == 0 || window.height == 0 {
        return failed("window.width / window.height 必须大于 0");
    }
    match &facts.volume_problem {
        Some(m) => {
            return failed(m.as_str());
        },
        None => {},
    }
    if debug.recording_buffer_size_mb == 0 {
        return failed("debug.recording_buffer_size_mb 必须大于 0");
    }
    if resources.texture_cache_size_mb == 0 {
        return failed("resources.texture_cache_size_mb 必须大于 0");
    }
    Ok(())
}

} // verus!
