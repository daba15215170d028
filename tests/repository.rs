use statusline::git::branch_name;
use statusline::git::git_info_from;
use statusline::git::tally_statuses;
use statusline::git::upstream_ref_name;
use statusline::git::HeadState;
use statusline::git::INDEX_NEW;
use statusline::git::INDEX_RENAMED;
use statusline::git::WT_DELETED;
use statusline::git::WT_MODIFIED;
use statusline::git::WT_NEW;
use statusline::paths::shorten_path_with;
use statusline::teams::read_team_member_count;
use statusline::teams::team_from;
use statusline::teams::TeamConfig;
use statusline::worktrees::linked_worktree;

#[test]
fn tallies_status_bits() {
    let t = tally_statuses(&vec![INDEX_NEW, WT_NEW | WT_MODIFIED, WT_DELETED, INDEX_RENAMED, 0]);
    assert!(!t.is_clean);
    assert_eq!(t.added, 2);
    assert_eq!(t.modified, 1);
    assert_eq!(t.deleted, 1);
}

#[test]
fn clean_tree() {
    let t = tally_statuses(&vec![0, 1 << 14]);
    assert!(t.is_clean);
    assert_eq!((t.added, t.deleted, t.modified), (0, 0, 0));
    assert!(tally_statuses(&Vec::new()).is_clean);
}

#[test]
fn branch_names() {
    let b = HeadState { is_branch: true, shorthand: Some("main".to_string()), target: Some("abcdef0123".to_string()) };
    assert_eq!(branch_name(Some(&b)), "main");
    let d = HeadState { is_branch: false, shorthand: Some("HEAD".to_string()), target: Some("0123456789abcdef".to_string()) };
    assert_eq!(branch_name(Some(&d)), "detached:0123456");
    let u = HeadState { is_branch: false, shorthand: None, target: None };
    assert_eq!(branch_name(Some(&u)), "unknown");
    assert_eq!(branch_name(None), "unknown");
    assert_eq!(upstream_ref_name("main"), "refs/remotes/origin/main");
}

#[test]
fn repository_state() {
    let g = git_info_from(None, "dev".to_string(), None, None);
    assert_eq!(g.repo_path, "");
    assert!(!g.is_clean);
    assert_eq!((g.ahead, g.behind), (0, 0));
    let h = git_info_from(Some("/src/".to_string()), "dev".to_string(), Some(&vec![]), Some((3, 4)));
    assert!(h.is_clean);
    assert_eq!((h.ahead, h.behind), (3, 4));
    assert_eq!(h.repo_path, "/src/");
}

#[test]
fn team_sizes() {
    let c = TeamConfig { members: Some(2), agents: Some(5), member_count: Some(9) };
    assert_eq!(read_team_member_count(&c), Some(2));
    let c2 = TeamConfig { members: None, agents: Some(5), member_count: Some(9) };
    assert_eq!(read_team_member_count(&c2), Some(5));
    let c3 = TeamConfig { members: None, agents: None, member_count: Some(9) };
    assert_eq!(read_team_member_count(&c3), Some(9));
    let c4 = TeamConfig { members: None, agents: None, member_count: None };
    assert_eq!(read_team_member_count(&c4), None);
    let t = team_from(None, Some(&c4));
    assert_eq!((t.name.as_str(), t.member_count), ("unknown", 0));
    let t2 = team_from(Some("alpha"), Some(&c3));
    assert_eq!((t2.name.as_str(), t2.member_count), ("alpha", 9));
}

#[test]
fn paths_relative_to_home() {
    assert_eq!(shorten_path_with("/home/u/src/x", "/home/u"), "~/src/x");
    assert_eq!(shorten_path_with("/opt/x", "/home/u"), "/opt/x");
    assert_eq!(shorten_path_with("/home/u", "/home/u"), "~");
}

#[test]
fn linked_worktrees() {
    let w = linked_worktree("feat", "/nowhere/wt/feat", Some("feat/x".to_string()));
    assert_eq!(w.name, "feat");
    assert_eq!(w.branch.as_deref(), Some("feat/x"));
    assert!(w.path == "/nowhere/wt/feat" || w.path.starts_with('~'));
    assert!(!w.is_main);
}
