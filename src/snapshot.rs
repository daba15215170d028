//! The snapshot of one collection pass, and the merge of the collectors'
//! results into it.
use vstd::prelude::*;

use crate::containers::ContainerInfo;
use crate::git::GitInfo;
use crate::mcp::enabled_servers;
use crate::mcp::server_views;
use crate::mcp::ConfiguredServer;
use crate::usage_limits::answering_step;
use crate::usage_limits::is_clock_estimate;
use crate::usage_limits::ApiResponse;
use crate::usage_limits::LocalUsage;
use crate::usage_limits::UsageStep;
use crate::mcp::McpInfo;
use crate::session::SessionInfo;
use crate::teams::TeamsInfo;
use crate::usage_limits::UsageLimitsInfo;
use crate::worktrees::WorktreeInfo;

verus! {

/// The sources whose collectors run concurrently.
#[derive(Clone, Copy, PartialEq, Eq, Structural, Debug)]
pub enum Source {
    Repository,
    Quota,
    Connectivity,
    Containers,
    Worktrees,
    Teams,
}

/// A collector's result, tagged with its source.
pub enum SourceResult {
    Repository(Option<GitInfo>),
    Quota(UsageLimitsInfo),
    Connectivity(McpInfo),
    Containers(ContainerInfo),
    Worktrees(WorktreeInfo),
    Teams(TeamsInfo),
}

pub open spec fn source_of(r: SourceResult) -> Source {
    match r {
        SourceResult::Repository(_) => Source::Repository,
        SourceResult::Quota(_) => Source::Quota,
        SourceResult::Connectivity(_) => Source::Connectivity,
        SourceResult::Containers(_) => Source::Containers,
        SourceResult::Worktrees(_) => Source::Worktrees,
        SourceResult::Teams(_) => Source::Teams,
    }
}

impl SourceResult {
    pub fn source(&self) -> (r: Source)
        ensures
            r == source_of(*self),
    {
        match self {
            SourceResult::Repository(_) => Source::Repository,
            SourceResult::Quota(_) => Source::Quota,
            SourceResult::Connectivity(_) => Source::Connectivity,
            SourceResult::Containers(_) => Source::Containers,
            SourceResult::Worktrees(_) => Source::Worktrees,
            SourceResult::Teams(_) => Source::Teams,
        }
    }
}

/// Everything one pass collected. The context window's use, a float in the
/// session input, is taken from that input by the caller.
pub struct Snapshot {
    pub git: Option<GitInfo>,
    pub session: SessionInfo,
    pub mcp: McpInfo,
    pub usage: UsageLimitsInfo,
    pub containers: ContainerInfo,
    pub worktrees: WorktreeInfo,
    pub teams: TeamsInfo,
    /// Lines added in the session, from the session input.
    pub lines_added: Option<u64>,
    /// Lines removed in the session, from the session input.
    pub lines_removed: Option<u64>,
}

/// The snapshot with one result written into the field of its source.
pub open spec fn applied(s: Snapshot, r: SourceResult) -> Snapshot {
    match r {
        SourceResult::Repository(g) => Snapshot { git: g, ..s },
        SourceResult::Quota(u) => Snapshot { usage: u, ..s },
        SourceResult::Connectivity(m) => Snapshot { mcp: m, ..s },
        SourceResult::Containers(c) => Snapshot { containers: c, ..s },
        SourceResult::Worktrees(w) => Snapshot { worktrees: w, ..s },
        SourceResult::Teams(t) => Snapshot { teams: t, ..s },
    }
}

/// The snapshot with the results written in the order they came.
pub open spec fn merged(s: Snapshot, rs: Seq<SourceResult>) -> Snapshot
    decreases rs.len(),
{
    if rs.len() == 0 {
        s
    } else {
        merged(applied(s, rs[0]), rs.drop_first())
    }
}

/// Every list empty and every optional value absent, but the session and
/// the quota's reset estimate.
pub open spec fn is_blank(s: Snapshot) -> bool {
    &&& s.git is None
    &&& s.mcp.servers@.len() == 0
    &&& s.mcp.connected == 0
    &&& s.mcp.total == 0
    &&& s.usage.five_hour_percent is None
    &&& s.usage.seven_day_percent is None
    &&& s.usage.seven_day_reset is None
    &&& s.containers.containers@.len() == 0
    &&& s.worktrees.worktrees@.len() == 0
    &&& s.teams.teams@.len() == 0
    &&& s.lines_added is None
    &&& s.lines_removed is None
}

impl Snapshot {
    /// The snapshot before any collector reports: every source's field at
    /// its default.
    pub fn new(session: SessionInfo, lines_added: Option<u64>, lines_removed: Option<u64>) -> (r:
        Snapshot)
        ensures
            r.session == session,
            r.lines_added == lines_added,
            r.lines_removed == lines_removed,
            r.git is None,
            r.mcp.wf() && r.mcp.servers@.len() == 0,
            r.usage.is_empty(),
            r.containers.containers@.len() == 0,
            r.worktrees.worktrees@.len() == 0,
            r.teams.teams@.len() == 0,
    {
        Snapshot {
            git: None,
            session,
            mcp: McpInfo::new(),
            usage: UsageLimitsInfo::new(),
            containers: ContainerInfo::new(),
            worktrees: WorktreeInfo::new(),
            teams: TeamsInfo::new(),
            lines_added,
            lines_removed,
        }
    }

    /// Writes a collector's result into the field of its source.
    pub fn apply(&mut self, r: SourceResult)
        ensures
            *final(self) == applied(*old(self), r),
    {
        match r {
            SourceResult::Repository(g) => self.git = g,
            SourceResult::Quota(u) => self.usage = u,
            SourceResult::Connectivity(m) => self.mcp = m,
            SourceResult::Containers(c) => self.containers = c,
            SourceResult::Worktrees(w) => self.worktrees = w,
            SourceResult::Teams(t) => self.teams = t,
        }
    }
}

/// Merges the results, in the order they came, into the snapshot.
pub fn merge_results(initial: Snapshot, results: Vec<SourceResult>) -> (r: Snapshot)
    ensures
        r == merged(initial, results@),
{
    let mut snap = initial;
    let mut rest = results;
    while rest.len() > 0
        invariant
            merged(snap, rest@) == merged(initial, results@),
        decreases rest@.len(),
    {
        let ghost before = rest@;
        let r = rest.remove(0);
        assert(rest@ =~= before.drop_first());
        snap.apply(r);
    }
    snap
}

/// The last result of source `t` among `rs`.
pub open spec fn result_for(rs: Seq<SourceResult>, t: Source) -> Option<SourceResult>
    decreases rs.len(),
{
    if rs.len() == 0 {
        None
    } else {
        match result_for(rs.drop_first(), t) {
            Some(r) => Some(r),
            None => if source_of(rs[0]) == t {
                Some(rs[0])
            } else {
                None
            },
        }
    }
}

/// The snapshot whose fields come from the last result of their source,
/// where there is one.
pub open spec fn settled(s: Snapshot, rs: Seq<SourceResult>) -> Snapshot {
    Snapshot {
        git: match result_for(rs, Source::Repository) {
            Some(SourceResult::Repository(g)) => g,
            _ => s.git,
        },
        usage: match result_for(rs, Source::Quota) {
            Some(SourceResult::Quota(u)) => u,
            _ => s.usage,
        },
        mcp: match result_for(rs, Source::Connectivity) {
            Some(SourceResult::Connectivity(m)) => m,
            _ => s.mcp,
        },
        containers: match result_for(rs, Source::Containers) {
            Some(SourceResult::Containers(c)) => c,
            _ => s.containers,
        },
        worktrees: match result_for(rs, Source::Worktrees) {
            Some(SourceResult::Worktrees(w)) => w,
            _ => s.worktrees,
        },
        teams: match result_for(rs, Source::Teams) {
            Some(SourceResult::Teams(t)) => t,
            _ => s.teams,
        },
        ..s
    }
}

proof fn lemma_result_for_source(rs: Seq<SourceResult>, t: Source)
    ensures
        result_for(rs, t) matches Some(r) ==> source_of(r) == t && rs.contains(r),
        result_for(rs, t) is None ==> forall|i: int| 0 <= i < rs.len() ==> source_of(#[trigger] rs[i]) != t,
    decreases rs.len(),
{
    if rs.len() > 0 {
        let tail = rs.drop_first();
        lemma_result_for_source(tail, t);
        if let Some(r) = result_for(tail, t) {
            let j = choose|j: int| 0 <= j < tail.len() && tail[j] == r;
            assert(rs[j + 1] == r);
        }
        if result_for(rs, t) is None {
            assert forall|i: int| 0 <= i < rs.len() implies source_of(#[trigger] rs[i]) != t by {
                if i > 0 {
                    assert(rs[i] == tail[i - 1]);
                }
            }
        }
    }
}

proof fn lemma_merged_settles(s: Snapshot, rs: Seq<SourceResult>)
    ensures
        merged(s, rs) == settled(s, rs),
    decreases rs.len(),
{
    if rs.len() > 0 {
        let tail = rs.drop_first();
        let a = applied(s, rs[0]);
        lemma_merged_settles(a, tail);
        lemma_result_for_source(tail, Source::Repository);
        lemma_result_for_source(tail, Source::Quota);
        lemma_result_for_source(tail, Source::Connectivity);
        lemma_result_for_source(tail, Source::Containers);
        lemma_result_for_source(tail, Source::Worktrees);
        lemma_result_for_source(tail, Source::Teams);
    } else {
        assert(settled(s, rs) == s);
    }
}

/// No two results come from one source.
pub open spec fn one_per_source(rs: Seq<SourceResult>) -> bool {
    forall|i: int, j: int|
        0 <= i < rs.len() && 0 <= j < rs.len() && source_of(#[trigger] rs[i]) == source_of(
            #[trigger] rs[j],
        ) ==> i == j
}

proof fn lemma_result_for_unique(rs: Seq<SourceResult>, t: Source, x: SourceResult)
    requires
        one_per_source(rs),
        rs.contains(x),
        source_of(x) == t,
    ensures
        result_for(rs, t) == Some(x),
{
    lemma_result_for_source(rs, t);
    let i = choose|i: int| 0 <= i < rs.len() && rs[i] == x;
    match result_for(rs, t) {
        Some(y) => {
            let j = choose|j: int| 0 <= j < rs.len() && rs[j] == y;
            assert(source_of(rs[i]) == source_of(rs[j]));
        },
        None => {
            assert(source_of(rs[i]) != t);
        },
    }
}

proof fn lemma_same_result(rs1: Seq<SourceResult>, rs2: Seq<SourceResult>, t: Source)
    requires
        one_per_source(rs1),
        one_per_source(rs2),
        rs1.to_multiset() == rs2.to_multiset(),
    ensures
        result_for(rs1, t) == result_for(rs2, t),
{
    broadcast use vstd::seq_lib::group_to_multiset_ensures;

    lemma_result_for_source(rs1, t);
    lemma_result_for_source(rs2, t);
    match result_for(rs1, t) {
        Some(x) => {
            assert(rs1.to_multiset().count(x) > 0);
            assert(rs2.contains(x));
            lemma_result_for_unique(rs2, t, x);
        },
        None => match result_for(rs2, t) {
            Some(y) => {
                assert(rs2.to_multiset().count(y) > 0);
                assert(rs1.contains(y));
                let i = choose|i: int| 0 <= i < rs1.len() && rs1[i] == y;
                assert(source_of(rs1[i]) != t);
            },
            None => {},
        },
    }
}

/// The order in which the collectors report does not change the snapshot:
/// two deliveries of the same results, one per source, merge alike.
pub proof fn lemma_merge_order_irrelevant(s: Snapshot, rs1: Seq<SourceResult>, rs2: Seq<SourceResult>)
    requires
        one_per_source(rs1),
        one_per_source(rs2),
        rs1.to_multiset() == rs2.to_multiset(),
    ensures
        merged(s, rs1) == merged(s, rs2),
{
    lemma_merged_settles(s, rs1);
    lemma_merged_settles(s, rs2);
    lemma_same_result(rs1, rs2, Source::Repository);
    lemma_same_result(rs1, rs2, Source::Quota);
    lemma_same_result(rs1, rs2, Source::Connectivity);
    lemma_same_result(rs1, rs2, Source::Containers);
    lemma_same_result(rs1, rs2, Source::Worktrees);
    lemma_same_result(rs1, rs2, Source::Teams);
}

/// What a collector yields when none of its sources is there: no
/// repository, no servers, no containers, worktrees or teams, and a quota
/// without percentages or seven-day reset.
pub open spec fn is_absent_outcome(r: SourceResult) -> bool {
    match r {
        SourceResult::Repository(g) => g is None,
        SourceResult::Quota(u) => u.five_hour_percent is None && u.seven_day_percent is None
            && u.seven_day_reset is None,
        SourceResult::Connectivity(m) => m.servers@.len() == 0 && m.connected == 0 && m.total
            == 0,
        SourceResult::Containers(c) => c.containers@.len() == 0,
        SourceResult::Worktrees(w) => w.worktrees@.len() == 0,
        SourceResult::Teams(t) => t.teams@.len() == 0,
    }
}

/// A pass where no source is there yields a blank snapshot: every list
/// empty and every optional value absent, the quota's reset estimate aside.
pub proof fn lemma_blank_pass(s: Snapshot, rs: Seq<SourceResult>)
    requires
        is_blank(s),
        forall|i: int| 0 <= i < rs.len() ==> is_absent_outcome(#[trigger] rs[i]),
    ensures
        is_blank(merged(s, rs)),
    decreases rs.len(),
{
    if rs.len() > 0 {
        let tail = rs.drop_first();
        assert(is_absent_outcome(rs[0]));
        assert forall|i: int| 0 <= i < tail.len() implies is_absent_outcome(#[trigger] tail[i]) by {
            assert(tail[i] == rs[i + 1]);
        }
        lemma_blank_pass(applied(s, rs[0]), tail);
    }
}

/// A pass with no source at all gives a blank snapshot. Outside a
/// repository, with no cached entries, no tool, no runtime, no
/// configuration, no local usage file, no worktrees and no teams, the
/// collectors' outcomes are: no repository; the configured servers of an
/// empty configuration; the time estimate, the step that answers when no
/// cached, live or local reading is there; an unavailable container list;
/// no worktrees; no teams. Merged in any order, these leave every list
/// empty and every optional value absent, the estimate's reset aside.
pub proof fn lemma_pass_without_sources(
    s: Snapshot,
    mcp: McpInfo,
    usage: UsageLimitsInfo,
    containers: ContainerInfo,
    worktrees: WorktreeInfo,
    teams: TeamsInfo,
    order: Seq<SourceResult>,
)
    requires
        is_blank(s),
        mcp.wf(),
        server_views(mcp.servers@) == enabled_servers(Seq::<ConfiguredServer>::empty()),
        is_clock_estimate(usage),
        containers.containers@.len() == 0,
        worktrees.worktrees@.len() == 0,
        teams.teams@.len() == 0,
        forall|i: int|
            0 <= i < order.len() ==> #[trigger] order[i] == SourceResult::Repository(None)
                || order[i] == SourceResult::Connectivity(mcp) || order[i] == SourceResult::Quota(
                usage,
            ) || order[i] == SourceResult::Containers(containers) || order[i]
                == SourceResult::Worktrees(worktrees) || order[i] == SourceResult::Teams(teams),
    ensures
        answering_step(None::<ApiResponse>, None::<ApiResponse>, None::<LocalUsage>)
            == UsageStep::Estimate,
        is_blank(merged(s, order)),
        usage.five_hour_reset is Some,
{
    assert(mcp.servers@.len() == server_views(mcp.servers@).len());
    assert(server_views(mcp.servers@) =~= Seq::<(Seq<char>, bool)>::empty());
    assert forall|i: int| 0 <= i < order.len() implies is_absent_outcome(#[trigger] order[i]) by {
        assert(order[i] == order[i]);
    }
    lemma_blank_pass(s, order);
}

} // verus!
