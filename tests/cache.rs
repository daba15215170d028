use statusline::cache::classify_age;
use statusline::cache::sanitize_key;
use statusline::cache::Cache;
use statusline::cache::Freshness;

#[test]
fn sanitize_keeps_allowed_characters() {
    assert_eq!(sanitize_key("docker_containers-2"), "docker_containers-2");
}

#[test]
fn sanitize_replaces_disallowed_characters() {
    assert_eq!(sanitize_key("a/b c.d"), "a_b_c_d");
}

#[test]
fn sanitize_is_idempotent() {
    for key in ["a/b", "usage limits!", "", "__", "x.y.z", "caf\u{e9}/1"] {
        let once = sanitize_key(key);
        assert_eq!(sanitize_key(&once), once);
    }
}

#[test]
fn sanitize_keeps_unicode_letters() {
    assert_eq!(sanitize_key("caf\u{e9}"), "caf\u{e9}");
}

#[test]
fn sanitize_may_collide() {
    assert_eq!(sanitize_key("a.b"), sanitize_key("a:b"));
}

#[test]
fn key_path_joins_directory_and_name() {
    let c = Cache::with_dir("/tmp/cache");
    assert_eq!(c.key_path("mcp cli"), "/tmp/cache/mcp_cli");
    let d = Cache::with_dir("/tmp/cache/");
    assert_eq!(d.key_path("k"), "/tmp/cache/k");
    assert_eq!(c.dir(), "/tmp/cache");
}

#[test]
fn fresh_entry_within_ttl() {
    assert_eq!(classify_age(Some((0, 0)), 30), Freshness::Fresh);
    assert_eq!(classify_age(Some((30, 0)), 30), Freshness::Fresh);
}

#[test]
fn stale_entry_beyond_ttl() {
    assert_eq!(classify_age(Some((30, 1)), 30), Freshness::Stale);
    assert_eq!(classify_age(Some((31, 0)), 30), Freshness::Stale);
    assert_eq!(classify_age(Some((1, 0)), 0), Freshness::Stale);
}

#[test]
fn missing_entry() {
    assert_eq!(classify_age(None, 30), Freshness::Missing);
}

#[test]
fn default_cache_directory_is_named() {
    let c = Cache::new();
    assert!(c.dir().ends_with("statusline-rs") || c.dir().ends_with("statusline-rs-cache"));
}
