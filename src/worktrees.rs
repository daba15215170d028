//! Linked worktrees of the repository.
use vstd::prelude::*;

use crate::paths::shorten_path;
use crate::paths::shortened;

verus! {

pub struct Worktree {
    pub name: String,
    pub branch: Option<String>,
    /// Shown relative to the home directory where it lies under it.
    pub path: String,
    /// Whether this is the main worktree rather than a linked one.
    pub is_main: bool,
}

pub struct WorktreeInfo {
    pub worktrees: Vec<Worktree>,
}

impl WorktreeInfo {
    pub fn new() -> (r: WorktreeInfo)
        ensures
            r.worktrees@.len() == 0,
    {
        WorktreeInfo { worktrees: Vec::new() }
    }
}

/// A linked worktree as listed: its name, its path, and the branch checked
/// out in it where that is known.
pub fn linked_worktree(name: &str, path: &str, branch: Option<String>) -> (r: Worktree)
    ensures
        r.name@ == name@,
        r.branch == branch,
        r.path@ == path@ || exists|home: Seq<char>| r.path@ == #[trigger] shortened(path@, home),
        !r.is_main,
{
    Worktree { name: String::from_str(name), branch, path: shorten_path(path), is_main: false }
}

} // verus!
