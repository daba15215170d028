//! Containers: the status vocabulary, the runtime's list and stats outputs,
//! and the line-per-record form kept in the cache.
use vstd::prelude::*;

use crate::text::lines;
use crate::text::lines_of;
use crate::text::occurs;
use crate::text::occurs_at;
use crate::text::split_by;
use crate::text::split_pieces;
use crate::text::views;
use crate::text::Delim;

verus! {

/// The cache key of the joined container list.
pub const CONTAINERS_CACHE_KEY: &'static str = "docker_containers";

/// Seconds a cached container list is served.
pub const CONTAINERS_CACHE_TTL: u64 = 30;

pub struct Container {
    pub name: String,
    /// One of running, exited, created, paused, restarting, removing, dead,
    /// or the runtime's own words where they fit none of these.
    pub status: String,
    pub image: String,
    /// The CPU share in percent, as the runtime printed the number.
    pub cpu_percent: Option<String>,
    /// Memory in use over the limit, e.g. `12.5MiB / 7.67GiB`.
    pub mem_usage: Option<String>,
}

pub struct ContainerInfo {
    pub containers: Vec<Container>,
}

/// A container as plain text values.
pub struct ContainerView {
    pub name: Seq<char>,
    pub status: Seq<char>,
    pub image: Seq<char>,
    pub cpu_percent: Option<Seq<char>>,
    pub mem_usage: Option<Seq<char>>,
}

pub open spec fn opt_view(o: Option<String>) -> Option<Seq<char>> {
    match o {
        Some(s) => Some(s@),
        None => None,
    }
}

impl View for Container {
    type V = ContainerView;

    open spec fn view(&self) -> ContainerView {
        ContainerView {
            name: self.name@,
            status: self.status@,
            image: self.image@,
            cpu_percent: opt_view(self.cpu_percent),
            mem_usage: opt_view(self.mem_usage),
        }
    }
}

pub open spec fn container_views(v: Seq<Container>) -> Seq<ContainerView> {
    v.map_values(|c: Container| c@)
}

fn copy_opt(o: &Option<String>) -> (r: Option<String>)
    ensures
        opt_view(r) == opt_view(*o),
{
    match o {
        Some(s) => Some(s.clone()),
        None => None,
    }
}

impl ContainerInfo {
    pub fn new() -> (r: ContainerInfo)
        ensures
            r.containers@.len() == 0,
    {
        ContainerInfo { containers: Vec::new() }
    }
}

/// The status vocabulary: a status that starts with "up" runs; otherwise the
/// first of exited, created, paused, restarting, removing, dead that it
/// contains names it, all compared without regard to case; any other status
/// is kept as it is.
pub open spec fn simplified(status: Seq<char>) -> Seq<char> {
    if occurs_at(status, 0, "up"@, true) {
        "running"@
    } else if occurs(status, "exited"@, true) {
        "exited"@
    } else if occurs(status, "created"@, true) {
        "created"@
    } else if occurs(status, "paused"@, true) {
        "paused"@
    } else if occurs(status, "restarting"@, true) {
        "restarting"@
    } else if occurs(status, "removing"@, true) {
        "removing"@
    } else if occurs(status, "dead"@, true) {
        "dead"@
    } else {
        status
    }
}

/// Classifies a raw status string of the container runtime. Lowercasing as
/// `str::to_lowercase` does and then matching these ASCII words is the same
/// as matching them letter by letter without regard to ASCII case: no other
/// character lowercases to a sequence that meets them.
pub fn simplify_status(status: &str) -> (r: String)
    ensures
        r@ == simplified(status@),
{
    if crate::text::starts_with(status, "up", true) {
        String::from_str("running")
    } else if crate::text::contains(status, "exited", true) {
        String::from_str("exited")
    } else if crate::text::contains(status, "created", true) {
        String::from_str("created")
    } else if crate::text::contains(status, "paused", true) {
        String::from_str("paused")
    } else if crate::text::contains(status, "restarting", true) {
        String::from_str("restarting")
    } else if crate::text::contains(status, "removing", true) {
        String::from_str("removing")
    } else if crate::text::contains(status, "dead", true) {
        String::from_str("dead")
    } else {
        String::from_str(status)
    }
}

/// The first piece, the second, and the rest of `s` after its first two
/// separators, as `str::splitn(3, ..)` yields them.
pub open spec fn split3(s: Seq<char>, d: Delim) -> Option<(Seq<char>, Seq<char>, Seq<char>)> {
    let p = split_by(s, d);
    if p.len() >= 3 {
        Some((p[0], p[1], s.skip((p[0].len() + p[1].len() + 2) as int)))
    } else {
        None
    }
}

proof fn lemma_split_head(s: Seq<char>, d: Delim)
    requires
        split_by(s, d).len() >= 2,
    ensures
        split_by(s, d)[0].len() + 1 <= s.len(),
        split_by(s, d)[0] == s.take(split_by(s, d)[0].len() as int),
        split_by(s, d).drop_first() == split_by(s.skip((split_by(s, d)[0].len() + 1) as int), d),
{
    let p = split_by(s, d);
    match crate::text::first_delim(s, d) {
        Some(i) => {
            if 0 <= i < s.len() {
                assert(p.drop_first() =~= split_by(s.skip(i + 1), d));
            }
        },
        None => {},
    }
}

/// `str::splitn(3, ..)`, where it yields three pieces.
pub fn split_three(s: &str, d: Delim) -> (r: Option<(String, String, String)>)
    ensures
        match r {
            Some((a, b, c)) => split3(s@, d) == Some((a@, b@, c@)),
            None => split3(s@, d) is None,
        },
{
    let n = s.unicode_len();
    let parts = split_pieces(s, d);
    if parts.len() < 3 {
        return None;
    }
    let ghost p = split_by(s@, d);
    proof {
        assert(parts@[0]@ == p[0]);
        assert(parts@[1]@ == p[1]);
        lemma_split_head(s@, d);
        let s1 = s@.skip((p[0].len() + 1) as int);
        assert(split_by(s1, d) =~= p.drop_first());
        lemma_split_head(s1, d);
        assert(s1.skip((p[1].len() + 1) as int) =~= s@.skip((p[0].len() + p[1].len() + 2) as int));
    }
    let a = parts[0].clone();
    let b = parts[1].clone();
    let start = a.as_str().unicode_len() + b.as_str().unicode_len() + 2;
    let c = String::from_str(s.substring_char(start, n));
    proof {
        assert(s@.subrange(start as int, n as int) =~= s@.skip(start as int));
    }
    Some((a, b, c))
}

/// A line of the runtime's list, `name<TAB>status<TAB>image`.
pub open spec fn ps_record(line: Seq<char>) -> Option<ContainerView> {
    match split3(line, Delim::Char('\t')) {
        Some((name, status, image)) => Some(
            ContainerView {
                name,
                status: simplified(status),
                image,
                cpu_percent: None,
                mem_usage: None,
            },
        ),
        None => None,
    }
}

/// The records of the lines in `ls` that parse, in order.
pub open spec fn ps_records(ls: Seq<Seq<char>>) -> Seq<ContainerView>
    decreases ls.len(),
{
    if ls.len() == 0 {
        Seq::empty()
    } else {
        match ps_record(ls.last()) {
            Some(c) => ps_records(ls.drop_last()).push(c),
            None => ps_records(ls.drop_last()),
        }
    }
}

/// Reads the runtime's list of all containers, one per line; a line without
/// three tab-separated fields is skipped.
pub fn parse_ps_output(stdout: &str) -> (r: ContainerInfo)
    ensures
        container_views(r.containers@) == ps_records(lines(stdout@)),
{
    let ls = lines_of(stdout);
    let ghost lv = lines(stdout@);
    let mut out: Vec<Container> = Vec::new();
    let mut k: usize = 0;
    while k < ls.len()
        invariant
            views(ls@) == lv,
            0 <= k <= ls@.len(),
            container_views(out@) == ps_records(lv.take(k as int)),
        decreases ls@.len() - k,
    {
        proof {
            assert(lv.take(k + 1).drop_last() =~= lv.take(k as int));
            assert(ls@[k as int]@ == lv[k as int]);
        }
        match split_three(ls[k].as_str(), Delim::Char('\t')) {
            Some((name, raw, image)) => {
                let status = simplify_status(raw.as_str());
                let c = Container { name, status, image, cpu_percent: None, mem_usage: None };
                let ghost old_out = out@;
                out.push(c);
                proof {
                    assert(container_views(out@) =~= container_views(old_out).push(c@));
                }
            },
            None => {},
        }
        k = k + 1;
    }
    proof {
        assert(lv.take(ls@.len() as int) =~= lv);
    }
    ContainerInfo { containers: out }
}

/// The names of the running containers, in order.
pub open spec fn running_names(cs: Seq<ContainerView>) -> Seq<Seq<char>>
    decreases cs.len(),
{
    if cs.len() == 0 {
        Seq::empty()
    } else if cs.last().status == "running"@ {
        running_names(cs.drop_last()).push(cs.last().name)
    } else {
        running_names(cs.drop_last())
    }
}

/// The containers whose stats are to be asked for.
pub fn running_containers(info: &ContainerInfo) -> (r: Vec<String>)
    ensures
        views(r@) == running_names(container_views(info.containers@)),
{
    let ghost cv = container_views(info.containers@);
    let mut out: Vec<String> = Vec::new();
    let mut k: usize = 0;
    while k < info.containers.len()
        invariant
            cv == container_views(info.containers@),
            0 <= k <= info.containers@.len(),
            views(out@) == running_names(cv.take(k as int)),
        decreases info.containers@.len() - k,
    {
        proof {
            assert(cv.take(k + 1).drop_last() =~= cv.take(k as int));
        }
        let c = &info.containers[k];
        if crate::text::str_eq(c.status.as_str(), "running") {
            let ghost old_out = out@;
            out.push(c.name.clone());
            proof {
                assert(views(out@) =~= views(old_out).push(c.name@));
            }
        }
        k = k + 1;
    }
    proof {
        assert(cv.take(info.containers@.len() as int) =~= cv);
    }
    out
}

/// `s` without the copies of `c` at its end (`str::trim_end_matches`).
pub open spec fn strip_trailing(s: Seq<char>, c: char) -> Seq<char>
    decreases s.len(),
{
    if s.len() > 0 && s.last() == c {
        strip_trailing(s.drop_last(), c)
    } else {
        s
    }
}

proof fn lemma_strip_trailing(s: Seq<char>, c: char, b: int)
    requires
        0 <= b <= s.len(),
        forall|j: int| b <= j < s.len() ==> #[trigger] s[j] == c,
        b == 0 || s[b - 1] != c,
    ensures
        strip_trailing(s, c) == s.subrange(0, b),
    decreases s.len() - b,
{
    if b == s.len() {
        assert(s.subrange(0, b) =~= s);
    } else {
        let t = s.drop_last();
        assert forall|j: int| b <= j < t.len() implies #[trigger] t[j] == c by {
            assert(t[j] == s[j]);
        }
        if b > 0 {
            assert(t[b - 1] == s[b - 1]);
        }
        lemma_strip_trailing(t, c, b);
        assert(t.subrange(0, b) =~= s.subrange(0, b));
    }
}

/// `str::trim_end_matches` with one character.
pub fn strip_trailing_str(s: &str, c: char) -> (r: String)
    ensures
        r@ == strip_trailing(s@, c),
{
    let n = s.unicode_len();
    let mut b: usize = n;
    while b > 0 && s.get_char(b - 1) == c
        invariant
            n == s@.len(),
            0 <= b <= n,
            forall|j: int| b <= j < n ==> #[trigger] s@[j] == c,
        decreases b,
    {
        b = b - 1;
    }
    proof {
        lemma_strip_trailing(s@, c, b as int);
    }
    String::from_str(s.substring_char(0, b))
}

pub open spec fn is_digit(c: char) -> bool {
    '0' <= c <= '9'
}

/// A plain decimal number: digits with at most one point among them.
pub open spec fn is_number_text(s: Seq<char>) -> bool {
    &&& forall|i: int| 0 <= i < s.len() ==> is_digit(#[trigger] s[i]) || s[i] == '.'
    &&& forall|i: int, j: int|
        0 <= i < s.len() && 0 <= j < s.len() && #[trigger] s[i] == '.' && #[trigger] s[j] == '.'
            ==> i == j
    &&& exists|i: int| 0 <= i < s.len() && is_digit(#[trigger] s[i])
}

pub fn number_text(s: &str) -> (r: bool)
    ensures
        r == is_number_text(s@),
{
    let n = s.unicode_len();
    let mut dot: Option<usize> = None;
    let mut digit: Option<usize> = None;
    let mut i: usize = 0;
    while i < n
        invariant
            n == s@.len(),
            0 <= i <= n,
            forall|k: int| 0 <= k < i ==> is_digit(#[trigger] s@[k]) || s@[k] == '.',
            match dot {
                Some(d) => d < i && s@[d as int] == '.' && forall|k: int|
                    0 <= k < i && #[trigger] s@[k] == '.' ==> k == d,
                None => forall|k: int| 0 <= k < i ==> #[trigger] s@[k] != '.',
            },
            match digit {
                Some(d) => d < i && is_digit(s@[d as int]),
                None => forall|k: int| 0 <= k < i ==> !is_digit(#[trigger] s@[k]),
            },
        decreases n - i,
    {
        let c = s.get_char(i);
        if '0' <= c && c <= '9' {
            digit = Some(i);
        } else if c == '.' {
            if dot.is_some() {
                return false;
            }
            dot = Some(i);
        } else {
            return false;
        }
        i = i + 1;
    }
    match digit {
        Some(d) => {
            assert(is_digit(s@[d as int]));
            true
        },
        None => false,
    }
}

/// What the stats call reported of one container.
pub struct ContainerStats {
    pub name: String,
    pub cpu_percent: Option<String>,
    pub mem_usage: String,
}

pub struct StatsView {
    pub name: Seq<char>,
    pub cpu_percent: Option<Seq<char>>,
    pub mem_usage: Seq<char>,
}

impl View for ContainerStats {
    type V = StatsView;

    open spec fn view(&self) -> StatsView {
        StatsView {
            name: self.name@,
            cpu_percent: opt_view(self.cpu_percent),
            mem_usage: self.mem_usage@,
        }
    }
}

pub open spec fn stats_views(v: Seq<ContainerStats>) -> Seq<StatsView> {
    v.map_values(|c: ContainerStats| c@)
}

/// The CPU share of a stats line: its number without the percent signs that
/// follow it, where it is a number.
pub open spec fn cpu_of(text: Seq<char>) -> Option<Seq<char>> {
    let t = strip_trailing(text, '%');
    if is_number_text(t) {
        Some(t)
    } else {
        None
    }
}

/// A line of the stats output, `name<TAB>cpu%<TAB>memory`, kept where the
/// name is one of `names`.
pub open spec fn stats_record(line: Seq<char>, names: Seq<Seq<char>>) -> Option<StatsView> {
    match split3(line, Delim::Char('\t')) {
        Some((name, cpu, mem)) => if names.contains(name) {
            Some(StatsView { name, cpu_percent: cpu_of(cpu), mem_usage: mem })
        } else {
            None
        },
        None => None,
    }
}

pub open spec fn stats_records(ls: Seq<Seq<char>>, names: Seq<Seq<char>>) -> Seq<StatsView>
    decreases ls.len(),
{
    if ls.len() == 0 {
        Seq::empty()
    } else {
        match stats_record(ls.last(), names) {
            Some(c) => stats_records(ls.drop_last(), names).push(c),
            None => stats_records(ls.drop_last(), names),
        }
    }
}

fn contains_name(names: &Vec<String>, name: &str) -> (r: bool)
    ensures
        r == views(names@).contains(name@),
{
    let mut k: usize = 0;
    while k < names.len()
        invariant
            0 <= k <= names@.len(),
            forall|j: int| 0 <= j < k ==> names@[j]@ != name@,
        decreases names@.len() - k,
    {
        if crate::text::str_eq(names[k].as_str(), name) {
            assert(views(names@)[k as int] == name@);
            return true;
        }
        k = k + 1;
    }
    proof {
        if views(names@).contains(name@) {
            let j = choose|j: int| 0 <= j < views(names@).len() && views(names@)[j] == name@;
            assert(names@[j]@ == name@);
        }
    }
    false
}

/// Reads the stats output for the containers in `names`; lines of other
/// containers and lines without three tab-separated fields are skipped.
pub fn parse_stats_output(stdout: &str, names: &Vec<String>) -> (r: Vec<ContainerStats>)
    ensures
        stats_views(r@) == stats_records(lines(stdout@), views(names@)),
{
    let ls = lines_of(stdout);
    let ghost lv = lines(stdout@);
    let ghost nv = views(names@);
    let mut out: Vec<ContainerStats> = Vec::new();
    let mut k: usize = 0;
    while k < ls.len()
        invariant
            views(ls@) == lv,
            nv == views(names@),
            0 <= k <= ls@.len(),
            stats_views(out@) == stats_records(lv.take(k as int), nv),
        decreases ls@.len() - k,
    {
        proof {
            assert(lv.take(k + 1).drop_last() =~= lv.take(k as int));
            assert(ls@[k as int]@ == lv[k as int]);
        }
        match split_three(ls[k].as_str(), Delim::Char('\t')) {
            Some((name, cpu_text, mem)) => {
                if contains_name(names, name.as_str()) {
                    let t = strip_trailing_str(cpu_text.as_str(), '%');
                    let cpu = if number_text(t.as_str()) {
                        Some(t)
                    } else {
                        None
                    };
                    let st = ContainerStats { name, cpu_percent: cpu, mem_usage: mem };
                    let ghost old_out = out@;
                    out.push(st);
                    proof {
                        assert(stats_views(out@) =~= stats_views(old_out).push(st@));
                    }
                }
            },
            None => {},
        }
        k = k + 1;
    }
    proof {
        assert(lv.take(ls@.len() as int) =~= lv);
    }
    out
}

/// The stats of the container named `name`: the last report of that name,
/// as a map keyed by name keeps the last insertion.
pub open spec fn stats_for(stats: Seq<StatsView>, name: Seq<char>) -> Option<StatsView>
    decreases stats.len(),
{
    if stats.len() == 0 {
        None
    } else if stats.last().name == name {
        Some(stats.last())
    } else {
        stats_for(stats.drop_last(), name)
    }
}

/// A container with its stats joined in by name.
pub open spec fn with_stats(c: ContainerView, stats: Seq<StatsView>) -> ContainerView {
    match stats_for(stats, c.name) {
        Some(st) => ContainerView {
            cpu_percent: st.cpu_percent,
            mem_usage: Some(st.mem_usage),
            ..c
        },
        None => c,
    }
}

fn find_stats(stats: &Vec<ContainerStats>, name: &str) -> (r: Option<usize>)
    ensures
        match r {
            Some(i) => i < stats@.len() && stats_for(stats_views(stats@), name@) == Some(
                stats@[i as int]@,
            ),
            None => stats_for(stats_views(stats@), name@) is None,
        },
{
    let ghost sv = stats_views(stats@);
    let mut k: usize = stats.len();
    proof {
        assert(sv.take(k as int) =~= sv);
    }
    while k > 0
        invariant
            sv == stats_views(stats@),
            0 <= k <= stats@.len(),
            stats_for(sv, name@) == stats_for(sv.take(k as int), name@),
        decreases k,
    {
        proof {
            assert(sv.take(k as int).drop_last() =~= sv.take(k - 1));
        }
        if crate::text::str_eq(stats[k - 1].name.as_str(), name) {
            return Some(k - 1);
        }
        k = k - 1;
    }
    None
}

/// Joins the stats into the containers, by name.
pub fn apply_stats(info: &ContainerInfo, stats: &Vec<ContainerStats>) -> (r: ContainerInfo)
    ensures
        r.containers@.len() == info.containers@.len(),
        forall|i: int|
            0 <= i < r.containers@.len() ==> #[trigger] r.containers@[i]@ == with_stats(
                info.containers@[i]@,
                stats_views(stats@),
            ),
{
    let ghost sv = stats_views(stats@);
    let mut out: Vec<Container> = Vec::new();
    let mut k: usize = 0;
    while k < info.containers.len()
        invariant
            sv == stats_views(stats@),
            0 <= k <= info.containers@.len(),
            out@.len() == k,
            forall|i: int|
                0 <= i < k ==> #[trigger] out@[i]@ == with_stats(info.containers@[i]@, sv),
        decreases info.containers@.len() - k,
    {
        let c = &info.containers[k];
        let (cpu_percent, mem_usage) = match find_stats(stats, c.name.as_str()) {
            Some(j) => (copy_opt(&stats[j].cpu_percent), Some(stats[j].mem_usage.clone())),
            None => (copy_opt(&c.cpu_percent), copy_opt(&c.mem_usage)),
        };
        let joined = Container {
            name: c.name.clone(),
            status: c.status.clone(),
            image: c.image.clone(),
            cpu_percent,
            mem_usage,
        };
        out.push(joined);
        k = k + 1;
    }
    ContainerInfo { containers: out }
}

/// The cache record of a container: `name|status|image|cpu|memory`, an
/// absent value written empty.
pub open spec fn record_text(c: ContainerView) -> Seq<char> {
    c.name + seq!['|'] + c.status + seq!['|'] + c.image + seq!['|'] + match c.cpu_percent {
        Some(t) => t,
        None => Seq::empty(),
    } + seq!['|'] + match c.mem_usage {
        Some(t) => t,
        None => Seq::empty(),
    }
}

/// Strings joined with `\n` between them.
pub open spec fn joined_lines(ls: Seq<Seq<char>>) -> Seq<char>
    decreases ls.len(),
{
    if ls.len() == 0 {
        Seq::empty()
    } else if ls.len() == 1 {
        ls[0]
    } else {
        joined_lines(ls.drop_last()) + seq!['\n'] + ls.last()
    }
}

/// The cache text of a container list: one record per line.
pub open spec fn serialized(cs: Seq<ContainerView>) -> Seq<char> {
    joined_lines(cs.map_values(|c: ContainerView| record_text(c)))
}

fn push_opt(out: &mut String, o: &Option<String>)
    ensures
        final(out)@ == old(out)@ + match opt_view(*o) {
            Some(t) => t,
            None => Seq::empty(),
        },
{
    match o {
        Some(t) => out.append(t.as_str()),
        None => {
            assert(old(out)@ + Seq::<char>::empty() =~= old(out)@);
        },
    }
}

/// Writes a container list in its cache form.
pub fn serialize_container_info(info: &ContainerInfo) -> (r: String)
    ensures
        r@ == serialized(container_views(info.containers@)),
{
    let ghost recs = container_views(info.containers@).map_values(
        |c: ContainerView| record_text(c),
    );
    let mut out = String::new();
    let mut k: usize = 0;
    while k < info.containers.len()
        invariant
            0 <= k <= info.containers@.len(),
            recs == container_views(info.containers@).map_values(
                |c: ContainerView| record_text(c),
            ),
            out@ == joined_lines(recs.take(k as int)),
        decreases info.containers@.len() - k,
    {
        let c = &info.containers[k];
        let ghost before = out@;
        proof {
            reveal_strlit("\n");
            reveal_strlit("|");
            assert(recs.take(k + 1).drop_last() =~= recs.take(k as int));
        }
        if k > 0 {
            out.append("\n");
        }
        out.append(c.name.as_str());
        out.append("|");
        out.append(c.status.as_str());
        out.append("|");
        out.append(c.image.as_str());
        out.append("|");
        push_opt(&mut out, &c.cpu_percent);
        out.append("|");
        push_opt(&mut out, &c.mem_usage);
        proof {
            assert(recs[k as int] == record_text(c@));
            if k == 0 {
                assert(out@ =~= recs[0]);
            } else {
                assert(out@ =~= before + seq!['\n'] + recs[k as int]);
            }
        }
        k = k + 1;
    }
    proof {
        assert(recs.take(info.containers@.len() as int) =~= recs);
    }
    out
}

/// A cache record: exactly five `|`-separated fields; an empty CPU or memory
/// field stands for none, and a CPU field that is no number is dropped.
pub open spec fn cached_record(line: Seq<char>) -> Option<ContainerView> {
    let p = split_by(line, Delim::Char('|'));
    if p.len() == 5 {
        Some(
            ContainerView {
                name: p[0],
                status: p[1],
                image: p[2],
                cpu_percent: if p[3].len() == 0 || !is_number_text(p[3]) {
                    None
                } else {
                    Some(p[3])
                },
                mem_usage: if p[4].len() == 0 {
                    None
                } else {
                    Some(p[4])
                },
            },
        )
    } else {
        None
    }
}

pub open spec fn cached_records(ls: Seq<Seq<char>>) -> Seq<ContainerView>
    decreases ls.len(),
{
    if ls.len() == 0 {
        Seq::empty()
    } else {
        match cached_record(ls.last()) {
            Some(c) => cached_records(ls.drop_last()).push(c),
            None => cached_records(ls.drop_last()),
        }
    }
}

/// Reads a container list back from its cache form. A record without five
/// fields is dropped; a text with no record at all is no list.
pub fn parse_cached_output(cached: &str) -> (r: Option<ContainerInfo>)
    ensures
        match r {
            Some(info) => cached_records(lines(cached@)).len() > 0 && container_views(
                info.containers@,
            ) == cached_records(lines(cached@)),
            None => cached_records(lines(cached@)).len() == 0,
        },
{
    let ls = lines_of(cached);
    let ghost lv = lines(cached@);
    let mut out: Vec<Container> = Vec::new();
    let mut k: usize = 0;
    while k < ls.len()
        invariant
            views(ls@) == lv,
            0 <= k <= ls@.len(),
            container_views(out@) == cached_records(lv.take(k as int)),
        decreases ls@.len() - k,
    {
        proof {
            assert(lv.take(k + 1).drop_last() =~= lv.take(k as int));
            assert(ls@[k as int]@ == lv[k as int]);
        }
        let mut parts = split_pieces(ls[k].as_str(), Delim::Char('|'));
        if parts.len() == 5 {
            let ghost pv = views(parts@);
            assert(parts@[3]@ == pv[3] && parts@[4]@ == pv[4]);
            assert(parts@[0]@ == pv[0] && parts@[1]@ == pv[1] && parts@[2]@ == pv[2]);
            let mem_text = parts.pop().unwrap();
            let cpu_text = parts.pop().unwrap();
            let image = parts.pop().unwrap();
            let status = parts.pop().unwrap();
            let name = parts.pop().unwrap();
            let cpu_percent = if cpu_text.as_str().unicode_len() == 0 || !number_text(
                cpu_text.as_str(),
            ) {
                None
            } else {
                Some(cpu_text)
            };
            let mem_usage = if mem_text.as_str().unicode_len() == 0 {
                None
            } else {
                Some(mem_text)
            };
            let c = Container { name, status, image, cpu_percent, mem_usage };
            let ghost old_out = out@;
            out.push(c);
            proof {
                assert(container_views(out@) =~= container_views(old_out).push(c@));
            }
        }
        k = k + 1;
    }
    proof {
        assert(lv.take(ls@.len() as int) =~= lv);
    }
    if out.len() == 0 {
        None
    } else {
        Some(ContainerInfo { containers: out })
    }
}

/// A fresh list: the records of the runtime's list output, with the stats
/// output (where there is one) joined in for the running containers.
pub open spec fn fresh_containers(ps: Seq<char>, stats: Option<Seq<char>>) -> Seq<ContainerView> {
    let base = ps_records(lines(ps));
    match stats {
        None => base,
        Some(st) => base.map_values(
            |c: ContainerView| with_stats(c, stats_records(lines(st), running_names(base))),
        ),
    }
}

/// The step of the container cascade that answers.
#[derive(Clone, Copy, PartialEq, Eq, Structural, Debug)]
pub enum ContainersStep {
    Cached,
    Fresh,
    /// The runtime could not be asked: no list.
    Unavailable,
}

/// What the container cascade did: the list, the step that gave it,
/// whether stats were asked for, and the text to keep in the cache.
pub struct ContainersOutcome {
    pub info: ContainerInfo,
    pub answered: ContainersStep,
    pub stats_requested: bool,
    pub to_cache: Option<String>,
}

/// Collects the containers: the cached list where it reads; else the
/// runtime's list (`list_containers` gives its output where the call
/// succeeded), with stats (`fetch_stats`, asked only where some container
/// runs) joined in, whose cache form is then to be cached. No list, and
/// nothing to cache, where the runtime cannot be asked.
pub fn collect<C, P, S>(read_cache: C, list_containers: P, fetch_stats: S) -> (r:
    ContainersOutcome) where
    C: FnOnce() -> Option<String>,
    P: FnOnce() -> Option<String>,
    S: FnOnce() -> Option<String>,

    requires
        call_requires(read_cache, ()),
        call_requires(list_containers, ()),
        call_requires(fetch_stats, ()),
    ensures
        r.to_cache is Some <==> r.answered == ContainersStep::Fresh,
        r.to_cache matches Some(t) ==> t@ == serialized(container_views(r.info.containers@)),
        r.stats_requested ==> r.answered == ContainersStep::Fresh,
        exists|c: Option<String>| #[trigger]
            call_ensures(read_cache, (), c) && if c is Some && cached_records(lines(c->0@)).len()
                > 0 {
                r.answered == ContainersStep::Cached && container_views(r.info.containers@)
                    == cached_records(lines(c->0@))
            } else {
                exists|p: Option<String>| #[trigger]
                    call_ensures(list_containers, (), p) && match p {
                        None => r.answered == ContainersStep::Unavailable
                            && r.info.containers@.len() == 0,
                        Some(ps) => r.answered == ContainersStep::Fresh && (r.stats_requested
                            <==> running_names(ps_records(lines(ps@))).len() > 0) && if !r.stats_requested {
                            container_views(r.info.containers@) == fresh_containers(ps@, None)
                        } else {
                            exists|st: Option<String>| #[trigger]
                                call_ensures(fetch_stats, (), st) && container_views(
                                    r.info.containers@,
                                ) == fresh_containers(ps@, opt_view(st))
                        },
                    }
            },
{
    let c = read_cache();
    if let Some(t) = &c {
        if let Some(info) = parse_cached_output(t.as_str()) {
            return ContainersOutcome {
                info,
                answered: ContainersStep::Cached,
                stats_requested: false,
                to_cache: None,
            };
        }
    }
    let p = list_containers();
    let ps = match p {
        None => {
            return ContainersOutcome {
                info: ContainerInfo::new(),
                answered: ContainersStep::Unavailable,
                stats_requested: false,
                to_cache: None,
            }
        },
        Some(ps) => ps,
    };
    let base = parse_ps_output(ps.as_str());
    let names = running_containers(&base);
    let ghost bv = ps_records(lines(ps@));
    let stats_requested = names.len() > 0;
    let info = if !stats_requested {
        base
    } else {
        let st = fetch_stats();
        match &st {
            None => base,
            Some(out) => {
                let stats = parse_stats_output(out.as_str(), &names);
                let joined = apply_stats(&base, &stats);
                proof {
                    assert forall|i: int| 0 <= i < joined.containers@.len() implies #[trigger]
                        container_views(joined.containers@)[i] == fresh_containers(
                        ps@,
                        opt_view(st),
                    )[i] by {
                        assert(container_views(base.containers@)[i] == base.containers@[i]@);
                    }
                    assert(container_views(joined.containers@) =~= fresh_containers(
                        ps@,
                        opt_view(st),
                    ));
                }
                joined
            },
        }
    };
    let text = serialize_container_info(&info);
    ContainersOutcome {
        info,
        answered: ContainersStep::Fresh,
        stats_requested,
        to_cache: Some(text),
    }
}

} // verus!

verus! {

/// A field that the cache form keeps apart: no `|`, no line break.
pub open spec fn plain_field(s: Seq<char>) -> bool {
    forall|i: int| 0 <= i < s.len() ==> #[trigger] s[i] != '|' && s[i] != '\n' && s[i] != '\r'
}

/// A container that its cache record describes exactly: plain fields, a CPU
/// share that is a number, and no empty memory text.
pub open spec fn storable(c: ContainerView) -> bool {
    &&& plain_field(c.name)
    &&& plain_field(c.status)
    &&& plain_field(c.image)
    &&& match c.cpu_percent {
        Some(t) => t.len() > 0 && is_number_text(t),
        None => true,
    }
    &&& match c.mem_usage {
        Some(t) => t.len() > 0 && plain_field(t),
        None => true,
    }
}

proof fn lemma_split_after(a: Seq<char>, c: char, b: Seq<char>)
    requires
        forall|i: int| 0 <= i < a.len() ==> #[trigger] a[i] != c,
    ensures
        split_by(a + seq![c] + b, Delim::Char(c)) == seq![a] + split_by(b, Delim::Char(c)),
{
    let s = a + seq![c] + b;
    assert forall|j: int| 0 <= j < a.len() implies !crate::text::is_delim(
        Delim::Char(c),
        #[trigger] s[j],
    ) by {
        assert(s[j] == a[j]);
    }
    assert(s[a.len() as int] == c);
    crate::text::lemma_first_delim(s, Delim::Char(c), a.len() as int);
    assert(s.take(a.len() as int) =~= a);
    assert(s.skip((a.len() + 1) as int) =~= b);
}

proof fn lemma_split_whole(a: Seq<char>, c: char)
    requires
        forall|i: int| 0 <= i < a.len() ==> #[trigger] a[i] != c,
    ensures
        split_by(a, Delim::Char(c)) == seq![a],
{
    crate::text::lemma_first_delim(a, Delim::Char(c), a.len() as int);
}

proof fn lemma_record_fields(c: ContainerView)
    requires
        storable(c),
    ensures
        cached_record(record_text(c)) == Some(c),
{
    let cpu = match c.cpu_percent {
        Some(t) => t,
        None => Seq::<char>::empty(),
    };
    let mem = match c.mem_usage {
        Some(t) => t,
        None => Seq::<char>::empty(),
    };
    let d = Delim::Char('|');
    assert forall|i: int| 0 <= i < cpu.len() implies #[trigger] cpu[i] != '|' by {
        assert(is_digit(cpu[i]) || cpu[i] == '.');
    }
    lemma_split_whole(mem, '|');
    let r4 = cpu + seq!['|'] + mem;
    lemma_split_after(cpu, '|', mem);
    let r3 = c.image + seq!['|'] + r4;
    lemma_split_after(c.image, '|', r4);
    let r2 = c.status + seq!['|'] + r3;
    lemma_split_after(c.status, '|', r3);
    let r1 = c.name + seq!['|'] + r2;
    lemma_split_after(c.name, '|', r2);
    assert(record_text(c) =~= r1);
    let p = split_by(r1, d);
    assert(p =~= seq![c.name, c.status, c.image, cpu, mem]);
}

proof fn lemma_joined_front(ls: Seq<Seq<char>>)
    requires
        ls.len() >= 2,
    ensures
        joined_lines(ls) == ls[0] + seq!['\n'] + joined_lines(ls.drop_first()),
    decreases ls.len(),
{
    if ls.len() == 2 {
        assert(ls.drop_first() =~= seq![ls[1]]);
        assert(ls.drop_last() =~= seq![ls[0]]);
        assert(joined_lines(ls.drop_last()) == ls[0]);
        assert(joined_lines(ls.drop_first()) == ls[1]);
    } else {
        let a = ls.drop_last();
        lemma_joined_front(a);
        assert(ls.drop_first().drop_last() =~= a.drop_first());
        assert(a[0] == ls[0]);
        assert(ls.drop_first().last() == ls.last());
        assert(joined_lines(ls) == joined_lines(a) + seq!['\n'] + ls.last());
        assert(joined_lines(ls.drop_first()) == joined_lines(a.drop_first()) + seq!['\n']
            + ls.last());
        assert(ls[0] + seq!['\n'] + joined_lines(ls.drop_first()) =~= a[0] + seq!['\n']
            + joined_lines(a.drop_first()) + seq!['\n'] + ls.last());
    }
}

proof fn lemma_split_joined(ls: Seq<Seq<char>>)
    requires
        ls.len() >= 1,
        forall|k: int, i: int| 0 <= k < ls.len() && 0 <= i < ls[k].len() ==> #[trigger] ls[k][i] != '\n',
    ensures
        split_by(joined_lines(ls), Delim::Char('\n')) == ls,
    decreases ls.len(),
{
    if ls.len() == 1 {
        assert forall|i: int| 0 <= i < ls[0].len() implies #[trigger] ls[0][i] != '\n' by {
            assert(ls[0][i] != '\n');
        }
        lemma_split_whole(ls[0], '\n');
        assert(seq![ls[0]] =~= ls);
    } else {
        let tail = ls.drop_first();
        assert forall|k: int, i: int| 0 <= k < tail.len() && 0 <= i < tail[k].len() implies #[trigger] tail[k][i] != '\n' by {
            assert(tail[k] == ls[k + 1]);
        }
        lemma_split_joined(tail);
        lemma_joined_front(ls);
        assert forall|i: int| 0 <= i < ls[0].len() implies #[trigger] ls[0][i] != '\n' by {
            assert(ls[0][i] != '\n');
        }
        lemma_split_after(ls[0], '\n', joined_lines(tail));
        assert(seq![ls[0]] + tail =~= ls);
    }
}

proof fn lemma_records_read_back(cs: Seq<ContainerView>)
    requires
        forall|i: int| 0 <= i < cs.len() ==> storable(#[trigger] cs[i]),
    ensures
        cached_records(cs.map_values(|c: ContainerView| record_text(c))) == cs,
    decreases cs.len(),
{
    if cs.len() > 0 {
        let recs = cs.map_values(|c: ContainerView| record_text(c));
        assert(recs.drop_last() =~= cs.drop_last().map_values(|c: ContainerView| record_text(c)));
        lemma_records_read_back(cs.drop_last());
        lemma_record_fields(cs.last());
        assert(cs.drop_last().push(cs.last()) =~= cs);
    }
}

/// The cache form reads back as it was written: a nonempty list of
/// containers whose fields hold no separator, whose CPU shares are numbers
/// and whose memory texts are not empty, is what parsing its serialized
/// text gives.
pub proof fn lemma_cache_round_trip(cs: Seq<ContainerView>)
    requires
        cs.len() > 0,
        forall|i: int| 0 <= i < cs.len() ==> storable(#[trigger] cs[i]),
    ensures
        cached_records(lines(serialized(cs))) == cs,
{
    let recs = cs.map_values(|c: ContainerView| record_text(c));
    assert forall|k: int, i: int| 0 <= k < recs.len() && 0 <= i < recs[k].len() implies #[trigger] recs[k][i] != '\n' && (i == recs[k].len() - 1 ==> recs[k][i] != '\r') by {
        let c = cs[k];
        assert(storable(c));
        let cpu = match c.cpu_percent {
            Some(t) => t,
            None => Seq::<char>::empty(),
        };
        let mem = match c.mem_usage {
            Some(t) => t,
            None => Seq::<char>::empty(),
        };
        assert forall|j: int| 0 <= j < cpu.len() implies #[trigger] cpu[j] != '\n' && cpu[j] != '\r' by {
            assert(is_digit(cpu[j]) || cpu[j] == '.');
        }
        assert(recs[k] =~= c.name + seq!['|'] + c.status + seq!['|'] + c.image + seq!['|'] + cpu + seq!['|'] + mem);
    }
    lemma_split_joined(recs);
    let p = split_by(serialized(cs), Delim::Char('\n'));
    assert(p == recs);
    assert(recs.last().len() > 0);
    assert forall|k: int| 0 <= k < recs.drop_last().len() implies #[trigger] strip_cr_id(recs.drop_last()[k]) by {
        assert(recs.drop_last()[k] == recs[k]);
        assert(recs[k].len() > 0);
    }
    assert(recs.drop_last().map_values(|l: Seq<char>| crate::text::strip_cr(l)) =~= recs.drop_last());
    assert(lines(serialized(cs)) =~= recs);
    lemma_records_read_back(cs);
}

spec fn strip_cr_id(l: Seq<char>) -> bool {
    crate::text::strip_cr(l) == l
}

} // verus!
