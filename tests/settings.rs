use statusline::config::default_cache_git_branch;
use statusline::config::default_cache_git_status;
use statusline::config::default_cache_mcp;
use statusline::config::default_separator;
use statusline::config::model_emoji;
use statusline::config::Config;
use statusline::theme::Theme;

#[test]
fn theme_by_name() {
    assert_eq!(Theme::from_name("classic").red, "\x1b[31m");
    assert_eq!(Theme::from_name("garden").green, "\x1b[38;2;176;196;145m");
    assert_eq!(Theme::from_name("catppuccin").blue, "\x1b[38;2;137;180;250m");
    assert_eq!(Theme::from_name("other").blue, "\x1b[38;2;137;180;250m");
    assert_eq!(Theme::classic().reset, "\x1b[0m");
}

#[test]
fn configuration_defaults() {
    let c = Config::default();
    assert_eq!(c.theme.name, "catppuccin");
    assert!(c.features.show_context_window && !c.features.show_cost_tracking);
    assert_eq!(c.timeouts.mcp, "10s");
    assert_eq!(c.display.lines, 3);
    assert_eq!(c.display.time_format, "%I:%M %p");
    assert_eq!(c.cache.base_directory, "auto");
    assert_eq!(c.labels.mcp, "MCP");
    assert_eq!((c.context_window.warn_threshold, c.context_window.critical_threshold), (50, 90));
    assert_eq!((c.usage_limits.critical_threshold, c.usage_limits.cache_ttl), (80, 300));
    assert_eq!(c.session_info.id_length, 8);
    assert_eq!(
        (default_cache_git_status(), default_cache_mcp(), default_cache_git_branch()),
        (10, 120, 10)
    );
    assert_eq!(default_separator(), " \u{2502} ");
}

#[test]
fn model_emojis() {
    let c = Config::default();
    assert_eq!(model_emoji("opus", &c), "\u{1f9e0}");
    assert_eq!(model_emoji("sonnet", &c), "\u{1f3b5}");
    assert_eq!(model_emoji("haiku", &c), "\u{26a1}");
    assert_eq!(model_emoji("other", &c), "\u{1f916}");
}
