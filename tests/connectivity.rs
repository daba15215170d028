use statusline::mcp::collect;
use statusline::mcp::parse_mcp_output;
use statusline::mcp::servers_from_config;
use statusline::mcp::ConfiguredServer;
use statusline::mcp::McpStep;

fn names(info: &statusline::mcp::McpInfo) -> Vec<(String, bool)> {
    info.servers.iter().map(|s| (s.name.clone(), s.connected)).collect()
}

#[test]
fn parses_connected_and_disconnected() {
    let info = parse_mcp_output("  alpha  \u{2713} Connected\n  beta  \u{2717} Disconnected").unwrap();
    assert_eq!(names(&info), vec![("alpha".to_string(), true), ("beta".to_string(), false)]);
    assert_eq!(info.total, 2);
    assert_eq!(info.connected, 1);
}

#[test]
fn skips_headers_and_blank_lines() {
    let out = "Checking MCP server health...\n\nMCP servers:\n---\n  gamma: \u{274c} Error\n";
    let info = parse_mcp_output(out).unwrap();
    assert_eq!(names(&info), vec![("gamma".to_string(), false)]);
    assert_eq!(info.connected, 0);
}

#[test]
fn status_words_without_regard_to_case() {
    let info = parse_mcp_output("delta CONNECTED\r\nepsilon error").unwrap();
    assert_eq!(names(&info), vec![("delta".to_string(), true), ("epsilon".to_string(), false)]);
}

#[test]
fn lines_without_status_still_name_servers() {
    let info = parse_mcp_output("one two\n  three\nMCP x\nNo servers").unwrap();
    let expected: Vec<(String, bool)> =
        ["one", "three", "MCP", "No"].iter().map(|n| (n.to_string(), false)).collect();
    assert_eq!(names(&info), expected);
}

#[test]
fn falls_back_to_bare_names() {
    let info = parse_mcp_output("\u{2713} alpha\n  Connected beta\nMCP servers\nNo MCP").unwrap();
    assert_eq!(names(&info), vec![("\u{2713}".to_string(), false), ("Connected".to_string(), false)]);
    assert_eq!(info.total, 2);
    assert_eq!(info.connected, 0);
}

#[test]
fn nothing_found() {
    assert!(parse_mcp_output("").is_none());
    assert!(parse_mcp_output("Checking\n---\n   \n").is_none());
}

#[test]
fn configured_servers_not_disabled() {
    let cfg = vec![
        ConfiguredServer { name: "a".to_string(), disabled: None },
        ConfiguredServer { name: "b".to_string(), disabled: Some(true) },
        ConfiguredServer { name: "c".to_string(), disabled: Some(false) },
    ];
    let info = servers_from_config(&cfg);
    assert_eq!(names(&info), vec![("a".to_string(), false), ("c".to_string(), false)]);
    assert_eq!(info.total, 2);
}

#[test]
fn cascade_serves_cache_first() {
    let out = collect(
        || Some("  alpha  \u{2713} Connected".to_string()),
        || panic!("no tool call expected"),
        || panic!("no config read expected"),
    );
    assert_eq!(names(&out.info), vec![("alpha".to_string(), true)]);
    assert_eq!(out.answered, McpStep::Cached);
    assert_eq!(out.to_cache, None);
}

#[test]
fn readable_tool_listing_is_cached() {
    let out = collect(|| Some("Checking".to_string()), || Some("beta \u{2713}".to_string()), || panic!("no config read expected"));
    assert_eq!(out.answered, McpStep::Tool);
    assert_eq!(out.to_cache.as_deref(), Some("beta \u{2713}"));
}

#[test]
fn unreadable_tool_listing_is_not_cached() {
    let out = collect(|| None, || Some("---\n".to_string()), || Vec::new());
    assert_eq!(out.answered, McpStep::Config);
    assert_eq!(out.to_cache, None);
}

#[test]
fn cascade_falls_back_to_config() {
    let info = collect(
        || None,
        || None,
        || vec![ConfiguredServer { name: "z".to_string(), disabled: None }],
    )
    .info;
    assert_eq!(names(&info), vec![("z".to_string(), false)]);
}

#[test]
fn cascade_with_nothing_available_is_empty() {
    let info = collect(|| None, || None, || Vec::new()).info;
    assert_eq!(info.total, 0);
    assert_eq!(info.connected, 0);
    assert!(info.servers.is_empty());
}
