//! The user's configuration and its defaults.
use vstd::prelude::*;

use crate::text::str_eq;

verus! {

pub struct Config {
    pub theme: ThemeConfig,
    pub features: FeaturesConfig,
    pub emojis: EmojisConfig,
    pub timeouts: TimeoutsConfig,
    pub display: DisplayConfig,
    pub cache: CacheConfig,
    pub labels: LabelsConfig,
    pub context_window: ContextWindowConfig,
    pub usage_limits: UsageLimitsConfig,
    pub session_info: SessionInfoConfig,
}

pub struct ThemeConfig {
    pub name: String,
    pub dynamic: Option<DynamicThemeConfig>,
}

pub struct DynamicThemeConfig {
    pub enabled: bool,
    pub mode: Option<String>,
    pub day_theme: Option<String>,
    pub night_theme: Option<String>,
}

pub struct FeaturesConfig {
    pub show_commits: bool,
    pub show_version: bool,
    pub show_mcp_status: bool,
    pub show_session_info: bool,
    pub show_context_window: bool,
    pub show_usage_limits: bool,
    pub show_code_productivity: bool,
    pub show_cost_tracking: bool,
    pub show_reset_info: bool,
    pub show_submodules: bool,
    pub show_prayer_times: bool,
}

pub struct EmojisConfig {
    pub opus: String,
    pub haiku: String,
    pub sonnet: String,
    pub default_model: String,
    pub clean_status: String,
    pub dirty_status: String,
}

pub struct TimeoutsConfig {
    pub mcp: String,
    pub version: String,
    pub ccusage: String,
}

pub struct DisplayConfig {
    pub lines: u8,
    pub line1: Option<LineConfig>,
    pub line2: Option<LineConfig>,
    pub line3: Option<LineConfig>,
    pub line4: Option<LineConfig>,
    pub time_format: String,
}

pub struct LineConfig {
    pub components: Vec<String>,
    pub separator: String,
    pub show_when_empty: bool,
}

pub struct CacheConfig {
    pub base_directory: String,
    pub enable_universal_caching: bool,
    pub durations: Option<CacheDurations>,
}

/// Seconds each kind of entry is cached.
pub struct CacheDurations {
    pub git_status: u64,
    pub mcp_server_list: u64,
    pub git_current_branch: u64,
}

pub struct LabelsConfig {
    pub mcp: String,
}

pub struct ContextWindowConfig {
    pub emoji: String,
    pub show_tokens: bool,
    /// Percent of the context window from which its use is shown as a warning.
    pub warn_threshold: u8,
    /// Percent of the context window from which its use is shown as critical.
    pub critical_threshold: u8,
}

pub struct UsageLimitsConfig {
    pub label: String,
    pub warn_threshold: u8,
    pub critical_threshold: u8,
    pub cache_ttl: u64,
}

pub struct SessionInfoConfig {
    pub show_id: bool,
    pub show_project: bool,
    pub id_length: usize,
}

/// A flag that is on unless configured otherwise.
pub fn bool_true() -> (r: bool)
    ensures
        r,
{
    true
}

pub fn default_theme_name() -> (r: String)
    ensures
        r@ == "catppuccin"@,
{
    String::from_str("catppuccin")
}

pub fn default_opus_emoji() -> (r: String)
    ensures
        r@ == "\u{1f9e0}"@,
{
    String::from_str("\u{1f9e0}")
}

pub fn default_haiku_emoji() -> (r: String)
    ensures
        r@ == "\u{26a1}"@,
{
    String::from_str("\u{26a1}")
}

pub fn default_sonnet_emoji() -> (r: String)
    ensures
        r@ == "\u{1f3b5}"@,
{
    String::from_str("\u{1f3b5}")
}

pub fn default_model_emoji() -> (r: String)
    ensures
        r@ == "\u{1f916}"@,
{
    String::from_str("\u{1f916}")
}

pub fn default_clean_emoji() -> (r: String)
    ensures
        r@ == "\u{2705}"@,
{
    String::from_str("\u{2705}")
}

pub fn default_dirty_emoji() -> (r: String)
    ensures
        r@ == "\u{1f4c1}"@,
{
    String::from_str("\u{1f4c1}")
}

pub fn default_timeout() -> (r: String)
    ensures
        r@ == "10s"@,
{
    String::from_str("10s")
}

pub fn default_display_lines() -> (r: u8)
    ensures
        r == 3,
{
    3
}

pub fn default_separator() -> (r: String)
    ensures
        r@ == " \u{2502} "@,
{
    String::from_str(" \u{2502} ")
}

pub fn default_time_format() -> (r: String)
    ensures
        r@ == "%I:%M %p"@,
{
    String::from_str("%I:%M %p")
}

pub fn default_cache_dir() -> (r: String)
    ensures
        r@ == "auto"@,
{
    String::from_str("auto")
}

pub fn default_cache_git_status() -> (r: u64)
    ensures
        r == 10,
{
    10
}

pub fn default_cache_mcp() -> (r: u64)
    ensures
        r == 120,
{
    120
}

pub fn default_cache_git_branch() -> (r: u64)
    ensures
        r == 10,
{
    10
}

pub fn default_mcp_label() -> (r: String)
    ensures
        r@ == "MCP"@,
{
    String::from_str("MCP")
}

pub fn default_ctx_emoji() -> (r: String)
    ensures
        r@ == "\u{1f9e0}"@,
{
    String::from_str("\u{1f9e0}")
}

pub fn default_warn_threshold() -> (r: u8)
    ensures
        r == 50,
{
    50
}

pub fn default_critical_threshold() -> (r: u8)
    ensures
        r == 90,
{
    90
}

pub fn default_usage_critical() -> (r: u8)
    ensures
        r == 80,
{
    80
}

pub fn default_limit_label() -> (r: String)
    ensures
        r@ == "Limit:"@,
{
    String::from_str("Limit:")
}

pub fn default_cache_ttl() -> (r: u64)
    ensures
        r == 300,
{
    300
}

pub fn default_id_length() -> (r: usize)
    ensures
        r == 8,
{
    8
}

impl ThemeConfig {
    pub open spec fn is_default(&self) -> bool {
        self.name@ == "catppuccin"@ && self.dynamic is None
    }
}

impl Default for ThemeConfig {
    fn default() -> (r: ThemeConfig)
        ensures
            r.is_default(),
    {
        ThemeConfig { name: default_theme_name(), dynamic: None }
    }
}

impl FeaturesConfig {
    pub open spec fn is_default(&self) -> bool {
        &&& self.show_commits
        &&& self.show_version
        &&& self.show_mcp_status
        &&& self.show_session_info
        &&& self.show_context_window
        &&& self.show_usage_limits
        &&& self.show_code_productivity
        &&& !self.show_cost_tracking
        &&& !self.show_reset_info
        &&& !self.show_submodules
        &&& !self.show_prayer_times
    }
}

impl Default for FeaturesConfig {
    fn default() -> (r: FeaturesConfig)
        ensures
            r.is_default(),
    {
        FeaturesConfig {
            show_commits: true,
            show_version: true,
            show_mcp_status: true,
            show_session_info: true,
            show_context_window: true,
            show_usage_limits: true,
            show_code_productivity: true,
            show_cost_tracking: false,
            show_reset_info: false,
            show_submodules: false,
            show_prayer_times: false,
        }
    }
}

impl EmojisConfig {
    pub open spec fn is_default(&self) -> bool {
        &&& self.opus@ == "\u{1f9e0}"@
        &&& self.haiku@ == "\u{26a1}"@
        &&& self.sonnet@ == "\u{1f3b5}"@
        &&& self.default_model@ == "\u{1f916}"@
        &&& self.clean_status@ == "\u{2705}"@
        &&& self.dirty_status@ == "\u{1f4c1}"@
    }
}

impl Default for EmojisConfig {
    fn default() -> (r: EmojisConfig)
        ensures
            r.is_default(),
    {
        EmojisConfig {
            opus: default_opus_emoji(),
            haiku: default_haiku_emoji(),
            sonnet: default_sonnet_emoji(),
            default_model: default_model_emoji(),
            clean_status: default_clean_emoji(),
            dirty_status: default_dirty_emoji(),
        }
    }
}

impl TimeoutsConfig {
    pub open spec fn is_default(&self) -> bool {
        self.mcp@ == "10s"@ && self.version@ == "10s"@ && self.ccusage@ == "10s"@
    }
}

impl Default for TimeoutsConfig {
    fn default() -> (r: TimeoutsConfig)
        ensures
            r.is_default(),
    {
        TimeoutsConfig { mcp: default_timeout(), version: default_timeout(), ccusage: default_timeout() }
    }
}

impl DisplayConfig {
    pub open spec fn is_default(&self) -> bool {
        &&& self.lines == 3
        &&& self.line1 is None
        &&& self.line2 is None
        &&& self.line3 is None
        &&& self.line4 is None
        &&& self.time_format@ == "%I:%M %p"@
    }
}

impl Default for DisplayConfig {
    fn default() -> (r: DisplayConfig)
        ensures
            r.is_default(),
    {
        DisplayConfig {
            lines: default_display_lines(),
            line1: None,
            line2: None,
            line3: None,
            line4: None,
            time_format: default_time_format(),
        }
    }
}

impl CacheConfig {
    pub open spec fn is_default(&self) -> bool {
        self.base_directory@ == "auto"@ && self.enable_universal_caching && self.durations is None
    }
}

impl Default for CacheConfig {
    fn default() -> (r: CacheConfig)
        ensures
            r.is_default(),
    {
        CacheConfig {
            base_directory: default_cache_dir(),
            enable_universal_caching: true,
            durations: None,
        }
    }
}

impl LabelsConfig {
    pub open spec fn is_default(&self) -> bool {
        self.mcp@ == "MCP"@
    }
}

impl Default for LabelsConfig {
    fn default() -> (r: LabelsConfig)
        ensures
            r.is_default(),
    {
        LabelsConfig { mcp: default_mcp_label() }
    }
}

impl ContextWindowConfig {
    pub open spec fn is_default(&self) -> bool {
        &&& self.emoji@ == "\u{1f9e0}"@
        &&& self.show_tokens
        &&& self.warn_threshold == 50
        &&& self.critical_threshold == 90
    }
}

impl Default for ContextWindowConfig {
    fn default() -> (r: ContextWindowConfig)
        ensures
            r.is_default(),
    {
        ContextWindowConfig {
            emoji: default_ctx_emoji(),
            show_tokens: true,
            warn_threshold: default_warn_threshold(),
            critical_threshold: default_critical_threshold(),
        }
    }
}

impl UsageLimitsConfig {
    pub open spec fn is_default(&self) -> bool {
        &&& self.label@ == "Limit:"@
        &&& self.warn_threshold == 50
        &&& self.critical_threshold == 80
        &&& self.cache_ttl == 300
    }
}

impl Default for UsageLimitsConfig {
    fn default() -> (r: UsageLimitsConfig)
        ensures
            r.is_default(),
    {
        UsageLimitsConfig {
            label: default_limit_label(),
            warn_threshold: default_warn_threshold(),
            critical_threshold: default_usage_critical(),
            cache_ttl: default_cache_ttl(),
        }
    }
}

impl SessionInfoConfig {
    pub open spec fn is_default(&self) -> bool {
        self.show_id && self.show_project && self.id_length == 8
    }
}

impl Default for SessionInfoConfig {
    fn default() -> (r: SessionInfoConfig)
        ensures
            r.is_default(),
    {
        SessionInfoConfig { show_id: bool_true(), show_project: bool_true(), id_length: default_id_length() }
    }
}

impl Config {
    pub open spec fn is_default(&self) -> bool {
        &&& self.theme.is_default()
        &&& self.features.is_default()
        &&& self.emojis.is_default()
        &&& self.timeouts.is_default()
        &&& self.display.is_default()
        &&& self.cache.is_default()
        &&& self.labels.is_default()
        &&& self.context_window.is_default()
        &&& self.usage_limits.is_default()
        &&& self.session_info.is_default()
    }
}

impl Default for Config {
    fn default() -> (r: Config)
        ensures
            r.is_default(),
    {
        Config {
            theme: ThemeConfig::default(),
            features: FeaturesConfig::default(),
            emojis: EmojisConfig::default(),
            timeouts: TimeoutsConfig::default(),
            display: DisplayConfig::default(),
            cache: CacheConfig::default(),
            labels: LabelsConfig::default(),
            context_window: ContextWindowConfig::default(),
            usage_limits: UsageLimitsConfig::default(),
            session_info: SessionInfoConfig::default(),
        }
    }
}

/// The configured emoji of a model family.
pub open spec fn emoji_for(cfg: Config, model_short: Seq<char>) -> Seq<char> {
    if model_short == "opus"@ {
        cfg.emojis.opus@
    } else if model_short == "sonnet"@ {
        cfg.emojis.sonnet@
    } else if model_short == "haiku"@ {
        cfg.emojis.haiku@
    } else {
        cfg.emojis.default_model@
    }
}

/// The emoji of a model family, from the configuration.
pub fn model_emoji<'a>(model_short: &str, cfg: &'a Config) -> (r: &'a str)
    ensures
        r@ == emoji_for(*cfg, model_short@),
{
    if str_eq(model_short, "opus") {
        cfg.emojis.opus.as_str()
    } else if str_eq(model_short, "sonnet") {
        cfg.emojis.sonnet.as_str()
    } else if str_eq(model_short, "haiku") {
        cfg.emojis.haiku.as_str()
    } else {
        cfg.emojis.default_model.as_str()
    }
}

} // verus!
