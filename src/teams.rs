//! Agent teams and their sizes.
use vstd::prelude::*;

verus! {

pub struct Team {
    pub name: String,
    pub member_count: usize,
}

pub struct TeamsInfo {
    pub teams: Vec<Team>,
}

impl TeamsInfo {
    pub fn new() -> (r: TeamsInfo)
        ensures
            r.teams@.len() == 0,
    {
        TeamsInfo { teams: Vec::new() }
    }
}

/// What a team's configuration says of its size: the length of its
/// `members` array, of its `agents` array, and its `member_count` number,
/// each where present with that type.
pub struct TeamConfig {
    pub members: Option<usize>,
    pub agents: Option<usize>,
    pub member_count: Option<u64>,
}

/// The size of a team: its members, else its agents, else its stated count.
pub open spec fn read_team_member_count_spec(config: TeamConfig) -> Option<usize> {
    if config.members is Some {
        config.members
    } else if config.agents is Some {
        config.agents
    } else {
        match config.member_count {
            Some(c) => Some(c as usize),
            None => None,
        }
    }
}

pub fn read_team_member_count(config: &TeamConfig) -> (r: Option<usize>)
    ensures
        r == read_team_member_count_spec(*config),
{
    if let Some(m) = config.members {
        return Some(m);
    }
    if let Some(a) = config.agents {
        return Some(a);
    }
    match config.member_count {
        Some(c) => Some(c as usize),
        None => None,
    }
}

/// A team found on disk: its directory's name (`unknown` where that is no
/// text) and its size (zero where its configuration gives none or cannot be
/// read).
pub fn team_from(dir_name: Option<&str>, config: Option<&TeamConfig>) -> (r: Team)
    ensures
        r.name@ == match dir_name {
            Some(n) => n@,
            None => "unknown"@,
        },
        r.member_count == match config {
            Some(c) => match read_team_member_count_spec(*c) {
                Some(n) => n,
                None => 0,
            },
            None => 0,
        },
{
    let name = match dir_name {
        Some(n) => String::from_str(n),
        None => String::from_str("unknown"),
    };
    let member_count = match config {
        Some(c) => match read_team_member_count(c) {
            Some(n) => n,
            None => 0,
        },
        None => 0,
    };
    Team { name, member_count }
}

} // verus!
