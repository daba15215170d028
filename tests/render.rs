use statusline::config::Config;
use statusline::git::git_info_from;
use statusline::mcp::parse_mcp_output;
use statusline::render::format_line1_in;
use statusline::render::format_line2;
use statusline::render::format_line3;
use statusline::render::format_line4;
use statusline::render::format_statusline;
use statusline::render::ContextLevel;
use statusline::render::ContextShown;
use statusline::session::collect as session_collect;
use statusline::snapshot::Snapshot;
use statusline::teams::Team;
use statusline::theme::Theme;
use statusline::usage_limits::UsageLimitsInfo;
use statusline::worktrees::linked_worktree;

fn snap() -> Snapshot {
    Snapshot::new(session_collect("acme-opus-4-6"), None, None)
}

#[test]
fn first_line_with_repository() {
    let t = Theme::classic();
    let mut s = snap();
    s.git = Some(git_info_from(None, "main".to_string(), Some(&vec![]), None));
    assert_eq!(
        format_line1_in(&t, &s, "~/p"),
        "\x1b[34m~/p\x1b[0m  \x1b[32m(main)\x1b[0m \x1b[32m\u{2713}\x1b[0m \u{1f4c1}"
    );
    s.git = None;
    assert_eq!(format_line1_in(&t, &s, "/x"), "\x1b[34m/x\x1b[0m \u{1f4c1}");
}

#[test]
fn second_line_parts() {
    let t = Theme::classic();
    let cfg = Config::default();
    let mut s = snap();
    s.lines_added = Some(3);
    s.session.cc_version = "2.1".to_string();
    let ctx = ContextShown { percent: "91".to_string(), level: ContextLevel::Critical };
    assert_eq!(
        format_line2(&cfg, &t, &s, Some(&ctx)),
        "\x1b[36m\u{1f9e0} Opus\x1b[0m \x1b[2m\u{2502}\x1b[0m \u{1f4c4} \x1b[32m+3\x1b[0m \u{2022} \x1b[31m-0\x1b[0m \x1b[2m\u{2502}\x1b[0m \x1b[35mCC:2.1\x1b[0m \x1b[2m\u{2502}\x1b[0m \x1b[31mCtx: 91%\x1b[0m"
    );
}

#[test]
fn second_line_from_dirty_tree() {
    let t = Theme::classic();
    let cfg = Config::default();
    let mut s = snap();
    s.git = Some(git_info_from(None, "b".to_string(), Some(&vec![128, 256, 512]), None));
    assert_eq!(
        format_line2(&cfg, &t, &s, None),
        "\x1b[36m\u{1f9e0} Opus\x1b[0m \x1b[2m\u{2502}\x1b[0m \u{1f4c4} \x1b[32m+2\x1b[0m \u{2022} \x1b[31m-1\x1b[0m"
    );
}

#[test]
fn third_line_servers_and_quota() {
    let t = Theme::classic();
    let mut s = snap();
    assert_eq!(format_line3(&t, &s), "");
    s.mcp = parse_mcp_output("a \u{2713}\nb \u{2717}").unwrap();
    let mut u = UsageLimitsInfo::new();
    u.five_hour_reset = Some("14:59".to_string());
    u.five_hour_percent = Some(42);
    u.seven_day_reset = Some("Wed 9:59 PM".to_string());
    u.seven_day_percent = Some(-1);
    s.usage = u;
    assert_eq!(
        format_line3(&t, &s),
        "\x1b[33mMCP:1/2\x1b[0m: \x1b[92ma\x1b[0m, \x1b[31m\x1b[9mb\x1b[29m\x1b[0m \x1b[2m\u{2502}\x1b[0m \u{23f1} 5H at 14:59 (?) 42% \u{2022} 7DAY Wed 9:59 PM (-1%)"
    );
}

#[test]
fn fourth_line_worktrees_and_teams() {
    let t = Theme::classic();
    let mut s = snap();
    assert_eq!(format_line4(&t, &s), "");
    s.worktrees.worktrees.push(linked_worktree("w", "/w", None));
    s.teams.teams.push(Team { name: "a".to_string(), member_count: 2 });
    s.teams.teams.push(Team { name: "b".to_string(), member_count: 3 });
    assert_eq!(
        format_line4(&t, &s),
        "\x1b[32m\u{1f333} ? [1 worktrees]\x1b[0m  \x1b[36m\u{1f465} team: 5 agents\x1b[0m"
    );
}

#[test]
fn whole_status_line_skips_empty_lines() {
    let t = Theme::classic();
    let cfg = Config::default();
    let s = snap();
    let out = format_statusline(&cfg, &t, &s, "/nowhere/x", None);
    assert_eq!(out.lines().count(), 2);
    assert!(out.ends_with("\x1b[36m\u{1f9e0} Opus\x1b[0m"));
}
