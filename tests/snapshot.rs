use statusline::containers::Container;
use statusline::containers::ContainerInfo;
use statusline::git::git_info_from;
use statusline::mcp::parse_mcp_output;
use statusline::session::collect as session_collect;
use statusline::snapshot::merge_results;
use statusline::snapshot::Snapshot;
use statusline::snapshot::Source;
use statusline::snapshot::SourceResult;
use statusline::teams::Team;
use statusline::teams::TeamsInfo;
use statusline::usage_limits::estimate_at;
use statusline::usage_limits::LocalClock;
use statusline::worktrees::WorktreeInfo;

fn results() -> Vec<SourceResult> {
    vec![
        SourceResult::Repository(Some(git_info_from(Some("/r".to_string()), "main".to_string(), Some(&vec![256]), Some((1, 2))))),
        SourceResult::Connectivity(parse_mcp_output("a \u{2713}\nb \u{2717}").unwrap()),
        SourceResult::Quota(estimate_at(LocalClock { weekday: 0, hour: 10, minute: 0 })),
        SourceResult::Containers(ContainerInfo {
            containers: vec![Container {
                name: "web".to_string(),
                status: "running".to_string(),
                image: "nginx".to_string(),
                cpu_percent: None,
                mem_usage: None,
            }],
        }),
        SourceResult::Worktrees(WorktreeInfo::new()),
        SourceResult::Teams(TeamsInfo { teams: vec![Team { name: "t".to_string(), member_count: 3 }] }),
    ]
}

fn summary(s: &Snapshot) -> String {
    format!(
        "{:?}|{}|{}/{}|{:?}|{:?}|{}|{}|{:?}|{:?}",
        s.git.as_ref().map(|g| (g.branch.clone(), g.is_clean, g.modified, g.ahead, g.behind)),
        s.mcp.servers.iter().map(|m| m.name.clone()).collect::<Vec<_>>().join(","),
        s.mcp.connected,
        s.mcp.total,
        s.usage.five_hour_reset,
        s.containers.containers.iter().map(|c| c.name.clone()).collect::<Vec<_>>(),
        s.worktrees.worktrees.len(),
        s.teams.teams.len(),
        s.lines_added,
        s.lines_removed,
    )
}

#[test]
fn merge_is_independent_of_arrival_order() {
    let forward = merge_results(Snapshot::new(session_collect(""), Some(5), None), results());
    let mut reversed = results();
    reversed.reverse();
    let backward = merge_results(Snapshot::new(session_collect(""), Some(5), None), reversed);
    let mut rotated = results();
    rotated.rotate_left(2);
    let third = merge_results(Snapshot::new(session_collect(""), Some(5), None), rotated);
    assert_eq!(summary(&forward), summary(&backward));
    assert_eq!(summary(&forward), summary(&third));
    assert_eq!(forward.git.as_ref().unwrap().modified, 1);
    assert_eq!(forward.mcp.connected, 1);
    assert_eq!(forward.usage.five_hour_reset.as_deref(), Some("15:00"));
}

#[test]
fn unreported_sources_keep_defaults() {
    let snap = merge_results(Snapshot::new(session_collect(""), None, None), Vec::new());
    assert!(snap.git.is_none());
    assert!(snap.mcp.servers.is_empty());
    assert_eq!(snap.mcp.total, 0);
    assert!(snap.usage.five_hour_reset.is_none());
    assert!(snap.containers.containers.is_empty());
    assert!(snap.worktrees.worktrees.is_empty());
    assert!(snap.teams.teams.is_empty());
    assert_eq!(snap.session.model, "unknown");
}

#[test]
fn pass_with_no_sources_is_blank() {
    let absent = vec![
        SourceResult::Repository(None),
        SourceResult::Connectivity(statusline::mcp::collect(|| None, || None, Vec::new).info),
        SourceResult::Containers(statusline::containers::collect(|| None, || None, || None).info),
        SourceResult::Worktrees(WorktreeInfo::new()),
        SourceResult::Teams(TeamsInfo::new()),
        SourceResult::Quota(statusline::usage_limits::collect(|| None, || None, || None).info),
    ];
    let snap = merge_results(Snapshot::new(session_collect(""), None, None), absent);
    assert!(snap.git.is_none());
    assert!(snap.mcp.servers.is_empty());
    assert!(snap.containers.containers.is_empty());
    assert!(snap.worktrees.worktrees.is_empty());
    assert!(snap.teams.teams.is_empty());
    assert!(snap.usage.five_hour_percent.is_none());
    assert!(snap.usage.five_hour_reset.is_some());
    assert!(snap.usage.seven_day_percent.is_none());
    assert!(snap.lines_added.is_none() && snap.lines_removed.is_none());
}

#[test]
fn apply_writes_the_field_of_its_source() {
    let mut snap = Snapshot::new(session_collect(""), None, None);
    let r = SourceResult::Teams(TeamsInfo { teams: vec![Team { name: "x".to_string(), member_count: 1 }] });
    assert_eq!(r.source(), Source::Teams);
    snap.apply(r);
    assert_eq!(snap.teams.teams.len(), 1);
    assert!(snap.git.is_none());
}
