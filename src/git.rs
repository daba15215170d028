//! Repository state: the branch, how the working tree differs from HEAD,
//! and how far the branch is from its upstream.
use vstd::prelude::*;

verus! {

pub struct GitInfo {
    pub branch: String,
    pub is_clean: bool,
    pub added: usize,
    pub deleted: usize,
    pub modified: usize,
    pub ahead: usize,
    pub behind: usize,
    pub repo_path: String,
}

/// The status bits of one file, as git reports them (`git2::Status::bits`).
pub const INDEX_NEW: u32 = 1;
pub const INDEX_MODIFIED: u32 = 2;
pub const INDEX_DELETED: u32 = 4;
pub const INDEX_RENAMED: u32 = 8;
pub const INDEX_TYPECHANGE: u32 = 16;
pub const WT_NEW: u32 = 128;
pub const WT_MODIFIED: u32 = 256;
pub const WT_DELETED: u32 = 512;
pub const WT_TYPECHANGE: u32 = 1024;
pub const WT_RENAMED: u32 = 2048;

/// A change staged in the index or made in the working tree.
pub open spec fn is_change(bits: u32) -> bool {
    bits & (INDEX_NEW | INDEX_MODIFIED | INDEX_DELETED | INDEX_RENAMED | INDEX_TYPECHANGE) != 0
        || bits & (WT_NEW | WT_MODIFIED | WT_DELETED | WT_RENAMED | WT_TYPECHANGE) != 0
}

pub open spec fn is_added(bits: u32) -> bool {
    bits & (INDEX_NEW | WT_NEW) != 0
}

pub open spec fn is_deleted(bits: u32) -> bool {
    bits & (INDEX_DELETED | WT_DELETED) != 0
}

pub open spec fn is_modified(bits: u32) -> bool {
    bits & (INDEX_MODIFIED | WT_MODIFIED) != 0
}

/// How many of the files satisfy `f`.
pub open spec fn count_where(s: Seq<u32>, f: spec_fn(u32) -> bool) -> nat
    decreases s.len(),
{
    if s.len() == 0 {
        0
    } else {
        count_where(s.drop_last(), f) + if f(s.last()) {
            1nat
        } else {
            0nat
        }
    }
}

proof fn lemma_count_bounded(s: Seq<u32>, f: spec_fn(u32) -> bool)
    ensures
        count_where(s, f) <= s.len(),
    decreases s.len(),
{
    if s.len() > 0 {
        lemma_count_bounded(s.drop_last(), f);
    }
}

/// The files' statuses summed up.
pub struct StatusTally {
    pub is_clean: bool,
    pub added: usize,
    pub deleted: usize,
    pub modified: usize,
}

/// Sums up the status bits of the files git lists.
pub fn tally_statuses(statuses: &Vec<u32>) -> (r: StatusTally)
    ensures
        r.is_clean == forall|i: int| 0 <= i < statuses@.len() ==> !is_change(#[trigger] statuses@[i]),
        r.added == count_where(statuses@, |b: u32| is_added(b)),
        r.deleted == count_where(statuses@, |b: u32| is_deleted(b)),
        r.modified == count_where(statuses@, |b: u32| is_modified(b)),
{
    let ghost s = statuses@;
    let mut clean = true;
    let mut added: usize = 0;
    let mut deleted: usize = 0;
    let mut modified: usize = 0;
    let mut k: usize = 0;
    while k < statuses.len()
        invariant
            s == statuses@,
            0 <= k <= s.len(),
            clean == forall|i: int| 0 <= i < k ==> !is_change(#[trigger] s[i]),
            added == count_where(s.take(k as int), |b: u32| is_added(b)),
            deleted == count_where(s.take(k as int), |b: u32| is_deleted(b)),
            modified == count_where(s.take(k as int), |b: u32| is_modified(b)),
        decreases s.len() - k,
    {
        proof {
            assert(s.take(k + 1).drop_last() =~= s.take(k as int));
            lemma_count_bounded(s.take(k as int), |b: u32| is_added(b));
            lemma_count_bounded(s.take(k as int), |b: u32| is_deleted(b));
            lemma_count_bounded(s.take(k as int), |b: u32| is_modified(b));
        }
        let b = statuses[k];
        if b & (INDEX_NEW | INDEX_MODIFIED | INDEX_DELETED | INDEX_RENAMED | INDEX_TYPECHANGE) != 0
            || b & (WT_NEW | WT_MODIFIED | WT_DELETED | WT_RENAMED | WT_TYPECHANGE) != 0 {
            clean = false;
        }
        if b & (INDEX_NEW | WT_NEW) != 0 {
            added = added + 1;
        }
        if b & (INDEX_DELETED | WT_DELETED) != 0 {
            deleted = deleted + 1;
        }
        if b & (INDEX_MODIFIED | WT_MODIFIED) != 0 {
            modified = modified + 1;
        }
        k = k + 1;
    }
    proof {
        assert(s.take(s.len() as int) =~= s);
    }
    StatusTally { is_clean: clean, added, deleted, modified }
}

/// What HEAD is: whether it is a branch, its short name, and the commit it
/// points at in hex.
pub struct HeadState {
    pub is_branch: bool,
    pub shorthand: Option<String>,
    pub target: Option<String>,
}

/// The branch shown: the branch's short name; for a detached HEAD
/// `detached:` and the first seven hex digits of its commit; else `unknown`.
pub open spec fn branch_label(head: Option<HeadState>) -> Seq<char> {
    match head {
        Some(h) => if h.is_branch && h.shorthand is Some {
            h.shorthand->0@
        } else if h.target is Some {
            let t = h.target->0@;
            "detached:"@ + if t.len() < 7 {
                t
            } else {
                t.take(7)
            }
        } else {
            "unknown"@
        },
        None => "unknown"@,
    }
}

pub fn branch_name(head: Option<&HeadState>) -> (r: String)
    ensures
        r@ == branch_label(
            match head {
                Some(h) => Some(*h),
                None => None,
            },
        ),
{
    match head {
        Some(h) => {
            if h.is_branch && h.shorthand.is_some() {
                match &h.shorthand {
                    Some(s) => return s.clone(),
                    None => {},
                }
            }
            match &h.target {
                Some(t) => {
                    let n = t.as_str().unicode_len();
                    let k = if n < 7 {
                        n
                    } else {
                        7
                    };
                    let mut out = String::from_str("detached:");
                    out.append(t.as_str().substring_char(0, k));
                    proof {
                        assert(t@.subrange(0, k as int) =~= if n < 7 {
                            t@
                        } else {
                            t@.take(7)
                        });
                    }
                    out
                },
                None => String::from_str("unknown"),
            }
        },
        None => String::from_str("unknown"),
    }
}

/// The upstream reference of a branch: `refs/remotes/origin/<branch>`.
pub fn upstream_ref_name(branch: &str) -> (r: String)
    ensures
        r@ == "refs/remotes/origin/"@ + branch@,
{
    let mut out = String::from_str("refs/remotes/origin/");
    out.append(branch);
    out
}

/// The repository state from what git reports: the root of its working
/// tree, HEAD, the files' status bits, and the commits ahead of and behind
/// the upstream where that is known.
pub fn git_info_from(
    repo_path: Option<String>,
    branch: String,
    statuses: Option<&Vec<u32>>,
    ahead_behind: Option<(usize, usize)>,
) -> (r: GitInfo)
    ensures
        r.branch@ == branch@,
        r.repo_path@ == match repo_path {
            Some(p) => p@,
            None => Seq::empty(),
        },
        statuses is None ==> !r.is_clean && r.added == 0 && r.deleted == 0 && r.modified == 0,
        statuses matches Some(s) ==> (r.is_clean == forall|i: int|
            0 <= i < s@.len() ==> !is_change(#[trigger] s@[i])) && r.added == count_where(
            s@,
            |b: u32| is_added(b),
        ) && r.deleted == count_where(s@, |b: u32| is_deleted(b)) && r.modified == count_where(
            s@,
            |b: u32| is_modified(b),
        ),
        ahead_behind matches Some((a, b)) ==> r.ahead == a && r.behind == b,
        ahead_behind is None ==> r.ahead == 0 && r.behind == 0,
{
    let path = match repo_path {
        Some(p) => p,
        None => String::new(),
    };
    let (is_clean, added, deleted, modified) = match statuses {
        Some(s) => {
            let t = tally_statuses(s);
            (t.is_clean, t.added, t.deleted, t.modified)
        },
        None => (false, 0, 0, 0),
    };
    let (ahead, behind) = match ahead_behind {
        Some(ab) => ab,
        None => (0, 0),
    };
    GitInfo { branch, is_clean, added, deleted, modified, ahead, behind, repo_path: path }
}

} // verus!
