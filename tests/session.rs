use statusline::session::working_dir;
use statusline::session::WorkspaceInfo;
use statusline::session::capitalize_first;
use statusline::session::collect;
use statusline::session::extract_model_version;
use statusline::session::session_from_input;
use statusline::session::shorten_model_name;
use statusline::session::ModelInfo;

#[test]
fn model_families() {
    assert_eq!(shorten_model_name("acme-opus-4-6"), "opus");
    assert_eq!(shorten_model_name("ACME-SONNET-4"), "sonnet");
    assert_eq!(shorten_model_name("x-haiku"), "haiku");
    assert_eq!(shorten_model_name("org/Model-X"), "Model-X");
    assert_eq!(shorten_model_name("plain"), "plain");
    assert_eq!(shorten_model_name("a/b/"), "");
}

#[test]
fn capitalizes_first_character() {
    assert_eq!(capitalize_first("opus"), "Opus");
    assert_eq!(capitalize_first(""), "");
    assert_eq!(capitalize_first("\u{df}x"), "SSx");
}

#[test]
fn model_versions() {
    assert_eq!(extract_model_version("acme-opus-4-6").as_deref(), Some("4.6"));
    assert_eq!(extract_model_version("acme-sonnet-4-5-20250929").as_deref(), Some("4.5"));
    assert_eq!(extract_model_version("acme-haiku-3"), None);
    assert_eq!(extract_model_version("nothing-1-2"), None);
    assert_eq!(extract_model_version("Opus-10-x-2").as_deref(), Some("10.2"));
}

#[test]
fn session_from_model_id() {
    let m = ModelInfo { id: Some("acme-opus-4-6".to_string()), display_name: None };
    let s = session_from_input(Some(&m), Some("2.1.34"), Some("abc".to_string()), "");
    assert_eq!(s.model, "acme-opus-4-6");
    assert_eq!(s.model_short, "opus");
    assert_eq!(s.model_display, "Opus 4.6");
    assert_eq!(s.cc_version, "2.1.34");
    assert_eq!(s.session_id.as_deref(), Some("abc"));
}

#[test]
fn display_name_kept_when_it_has_a_version() {
    let m = ModelInfo { id: Some("acme-opus-4-6".to_string()), display_name: Some("Opus 4.1".to_string()) };
    let s = session_from_input(Some(&m), None, None, "");
    assert_eq!(s.model_display, "Opus 4.1");
    let m2 = ModelInfo { id: Some("acme-opus-4-6".to_string()), display_name: Some("Opus".to_string()) };
    assert_eq!(session_from_input(Some(&m2), None, None, "").model_display, "Opus 4.6");
}

#[test]
fn session_from_fallback_model() {
    let s = collect("acme-haiku-3");
    assert_eq!(s.model, "acme-haiku-3");
    assert_eq!(s.model_short, "haiku");
    assert_eq!(s.model_display, "Haiku");
    assert_eq!(s.cc_version, "");
}

#[test]
fn unknown_session() {
    let m = ModelInfo { id: None, display_name: Some("Shown".to_string()) };
    let s = session_from_input(Some(&m), None, None, "");
    assert_eq!((s.model.as_str(), s.model_short.as_str(), s.model_display.as_str()), ("unknown", "unknown", "Unknown"));
}

#[test]
fn working_directory_choice() {
    let w = WorkspaceInfo { current_dir: Some("/w".to_string()), project_dir: None };
    assert_eq!(working_dir(Some(&w), Some("/c")).as_deref(), Some("/w"));
    let e = WorkspaceInfo { current_dir: None, project_dir: Some("/p".to_string()) };
    assert_eq!(working_dir(Some(&e), Some("/c")).as_deref(), Some("/c"));
    assert_eq!(working_dir(None, None), None);
}
