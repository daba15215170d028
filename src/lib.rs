//! Data collection for a terminal status line: collectors for repository
//! state, tool connectivity, containers, usage quota, worktrees and teams,
//! a time-to-live cache, and the merge of their results into one snapshot.
pub mod cache;
pub mod config;
pub mod containers;
pub mod git;
pub mod mcp;
pub mod paths;
pub mod render;
pub mod session;
pub mod snapshot;
pub mod teams;
pub mod text;
pub mod theme;
pub mod usage_limits;
pub mod worktrees;
