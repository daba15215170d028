//! Tool-server connectivity: the status listing of the command-line tool,
//! and the configured servers as a fallback.
use vstd::prelude::*;

use crate::containers::strip_trailing;
use crate::containers::strip_trailing_str;
use crate::text::lines;
use crate::text::lines_of;
use crate::text::occurs;
use crate::text::occurs_at;
use crate::text::trim;
use crate::text::trim_str;
use crate::text::views;
use crate::text::words;
use crate::text::words_of;

verus! {

/// The cache key of the raw listing.
pub const MCP_CACHE_KEY: &'static str = "mcp_cli_output";

/// Seconds a cached listing is served.
pub const MCP_CACHE_TTL: u64 = 30;

pub struct McpServer {
    pub name: String,
    pub connected: bool,
}

pub struct McpInfo {
    pub servers: Vec<McpServer>,
    pub connected: usize,
    pub total: usize,
}

impl View for McpServer {
    type V = (Seq<char>, bool);

    open spec fn view(&self) -> (Seq<char>, bool) {
        (self.name@, self.connected)
    }
}

pub open spec fn server_views(v: Seq<McpServer>) -> Seq<(Seq<char>, bool)> {
    v.map_values(|s: McpServer| s@)
}

/// How many of the servers are connected.
pub open spec fn count_connected(v: Seq<(Seq<char>, bool)>) -> nat
    decreases v.len(),
{
    if v.len() == 0 {
        0
    } else {
        count_connected(v.drop_last()) + if v.last().1 {
            1nat
        } else {
            0nat
        }
    }
}

impl McpInfo {
    /// The counts agree with the list.
    pub open spec fn wf(&self) -> bool {
        &&& self.total == self.servers@.len()
        &&& self.connected == count_connected(server_views(self.servers@))
    }

    pub fn new() -> (r: McpInfo)
        ensures
            r.wf(),
            r.servers@.len() == 0,
    {
        McpInfo { servers: Vec::new(), connected: 0, total: 0 }
    }
}

proof fn lemma_count_bounded(v: Seq<(Seq<char>, bool)>)
    ensures
        count_connected(v) <= v.len(),
    decreases v.len(),
{
    if v.len() > 0 {
        lemma_count_bounded(v.drop_last());
    }
}

/// The info of a list of servers: counts taken from it.
fn info_of(servers: Vec<McpServer>) -> (r: McpInfo)
    ensures
        r.wf(),
        server_views(r.servers@) == server_views(servers@),
{
    let ghost sv = server_views(servers@);
    let mut connected: usize = 0;
    let mut k: usize = 0;
    while k < servers.len()
        invariant
            sv == server_views(servers@),
            0 <= k <= servers@.len(),
            connected == count_connected(sv.take(k as int)),
        decreases servers@.len() - k,
    {
        proof {
            assert(sv.take(k + 1).drop_last() =~= sv.take(k as int));
            lemma_count_bounded(sv.take(k as int));
        }
        if servers[k].connected {
            connected = connected + 1;
        }
        k = k + 1;
    }
    proof {
        assert(sv.take(servers@.len() as int) =~= sv);
    }
    let total = servers.len();
    McpInfo { servers, connected, total }
}

/// `s`, lowercased as `str::to_lowercase` does, equals the lowercase ASCII
/// word `w`.
pub open spec fn is_word_ci(s: Seq<char>, w: Seq<char>) -> bool {
    s.len() == w.len() && occurs_at(s, 0, w, true)
}

pub open spec fn marks_connected(t: Seq<char>) -> bool {
    t == "\u{2713}"@ || is_word_ci(t, "connected"@)
}

pub open spec fn marks_disconnected(t: Seq<char>) -> bool {
    t == "\u{2717}"@ || t == "\u{274c}"@ || is_word_ci(t, "disconnected"@) || is_word_ci(
        t,
        "error"@,
    )
}

/// The banner and header lines of the listing.
pub open spec fn is_header(t: Seq<char>) -> bool {
    occurs_at(t, 0, "Checking"@, false) || occurs_at(t, 0, "MCP servers"@, false) || occurs_at(
        t,
        0,
        "No MCP"@,
        false,
    ) || occurs(t, "---"@, false)
}

/// Reading a line's tokens left to right: the name is the first token that
/// comes before every status marker, without trailing colons, skipping those
/// left empty; whether any marker said connected; whether any marker came.
pub open spec fn scan(ts: Seq<Seq<char>>) -> (Seq<char>, bool, bool)
    decreases ts.len(),
{
    if ts.len() == 0 {
        (Seq::empty(), false, false)
    } else {
        let (name, found, connected) = scan(ts.drop_last());
        let t = ts.last();
        if marks_connected(t) {
            (name, true, true)
        } else if marks_disconnected(t) {
            (name, true, connected)
        } else if name.len() == 0 && !found {
            (strip_trailing(t, ':'), found, connected)
        } else {
            (name, found, connected)
        }
    }
}

/// The server a line of the listing names, with its state.
pub open spec fn listed_server(line: Seq<char>) -> Option<(Seq<char>, bool)> {
    let t = trim(line);
    if t.len() == 0 || is_header(t) {
        None
    } else {
        let (name, found, connected) = scan(words(t));
        if name.len() == 0 {
            None
        } else {
            Some((name, connected))
        }
    }
}

pub open spec fn listed_servers(ls: Seq<Seq<char>>) -> Seq<(Seq<char>, bool)>
    decreases ls.len(),
{
    if ls.len() == 0 {
        Seq::empty()
    } else {
        match listed_server(ls.last()) {
            Some(s) => listed_servers(ls.drop_last()).push(s),
            None => listed_servers(ls.drop_last()),
        }
    }
}

/// The permissive reading of a line: its first token as a bare name.
pub open spec fn bare_name(line: Seq<char>) -> Option<Seq<char>> {
    let t = trim(line);
    if t.len() == 0 || occurs_at(t, 0, "Checking"@, false) || occurs_at(t, 0, "MCP"@, false)
        || occurs_at(t, 0, "No "@, false) || occurs(t, "---"@, false) {
        None
    } else if words(t).len() > 0 && words(t)[0].len() > 0 {
        Some(words(t)[0])
    } else {
        None
    }
}

pub open spec fn bare_servers(ls: Seq<Seq<char>>) -> Seq<(Seq<char>, bool)>
    decreases ls.len(),
{
    if ls.len() == 0 {
        Seq::empty()
    } else {
        match bare_name(ls.last()) {
            Some(n) => bare_servers(ls.drop_last()).push((n, false)),
            None => bare_servers(ls.drop_last()),
        }
    }
}

/// The servers of a listing: those with a status where any line has one,
/// else every remaining line's first token with unknown state.
pub open spec fn parsed_listing(s: Seq<char>) -> Seq<(Seq<char>, bool)> {
    if listed_servers(lines(s)).len() > 0 {
        listed_servers(lines(s))
    } else {
        bare_servers(lines(s))
    }
}

fn is_word_ci_exec(s: &str, w: &str) -> (r: bool)
    ensures
        r == is_word_ci(s@, w@),
{
    s.unicode_len() == w.unicode_len() && crate::text::starts_with(s, w, true)
}

fn marks_connected_exec(t: &str) -> (r: bool)
    ensures
        r == marks_connected(t@),
{
    crate::text::str_eq(t, "\u{2713}") || is_word_ci_exec(t, "connected")
}

fn marks_disconnected_exec(t: &str) -> (r: bool)
    ensures
        r == marks_disconnected(t@),
{
    crate::text::str_eq(t, "\u{2717}") || crate::text::str_eq(t, "\u{274c}") || is_word_ci_exec(
        t,
        "disconnected",
    ) || is_word_ci_exec(t, "error")
}

fn scan_exec(ts: &Vec<String>) -> (r: (String, bool, bool))
    ensures
        (r.0@, r.1, r.2) == scan(views(ts@)),
{
    let ghost tv = views(ts@);
    let mut name = String::new();
    let mut found = false;
    let mut connected = false;
    let mut k: usize = 0;
    while k < ts.len()
        invariant
            tv == views(ts@),
            0 <= k <= ts@.len(),
            (name@, found, connected) == scan(tv.take(k as int)),
        decreases ts@.len() - k,
    {
        proof {
            assert(tv.take(k + 1).drop_last() =~= tv.take(k as int));
            assert(ts@[k as int]@ == tv[k as int]);
        }
        let t = ts[k].as_str();
        if marks_connected_exec(t) {
            connected = true;
            found = true;
        } else if marks_disconnected_exec(t) {
            found = true;
        } else if name.as_str().unicode_len() == 0 && !found {
            name = strip_trailing_str(t, ':');
        }
        k = k + 1;
    }
    proof {
        assert(tv.take(ts@.len() as int) =~= tv);
    }
    (name, found, connected)
}

fn is_header_exec(t: &str) -> (r: bool)
    ensures
        r == is_header(t@),
{
    crate::text::starts_with(t, "Checking", false) || crate::text::starts_with(
        t,
        "MCP servers",
        false,
    ) || crate::text::starts_with(t, "No MCP", false) || crate::text::contains(t, "---", false)
}

fn listed_server_exec(line: &str) -> (r: Option<McpServer>)
    ensures
        match r {
            Some(s) => listed_server(line@) == Some(s@),
            None => listed_server(line@) is None,
        },
{
    let t = trim_str(line);
    if t.as_str().unicode_len() == 0 || is_header_exec(t.as_str()) {
        return None;
    }
    let ts = words_of(t.as_str());
    let (name, _found, connected) = scan_exec(&ts);
    if name.as_str().unicode_len() == 0 {
        None
    } else {
        Some(McpServer { name, connected })
    }
}

fn bare_name_exec(line: &str) -> (r: Option<String>)
    ensures
        match r {
            Some(n) => bare_name(line@) == Some(n@),
            None => bare_name(line@) is None,
        },
{
    let t = trim_str(line);
    let ts = t.as_str();
    if ts.unicode_len() == 0 || crate::text::starts_with(ts, "Checking", false)
        || crate::text::starts_with(ts, "MCP", false) || crate::text::starts_with(ts, "No ", false)
        || crate::text::contains(ts, "---", false) {
        return None;
    }
    let ws = words_of(ts);
    if ws.len() > 0 && ws[0].as_str().unicode_len() > 0 {
        proof {
            assert(ws@[0]@ == words(t@)[0]);
        }
        Some(ws[0].clone())
    } else {
        None
    }
}

/// Reads the tool's status listing. Lines such as `  alpha  ✓ Connected`
/// give a server and its state; banners, headers and blank lines are
/// skipped. Where no line has that shape, every other nonblank line's first
/// token is taken as a server of unknown state. `None` where neither reading
/// finds a server.
pub fn parse_mcp_output(stdout: &str) -> (r: Option<McpInfo>)
    ensures
        match r {
            Some(info) => info.wf() && parsed_listing(stdout@).len() > 0 && server_views(
                info.servers@,
            ) == parsed_listing(stdout@),
            None => parsed_listing(stdout@).len() == 0,
        },
{
    let ls = lines_of(stdout);
    let ghost lv = lines(stdout@);
    let mut servers: Vec<McpServer> = Vec::new();
    let mut k: usize = 0;
    while k < ls.len()
        invariant
            views(ls@) == lv,
            0 <= k <= ls@.len(),
            server_views(servers@) == listed_servers(lv.take(k as int)),
        decreases ls@.len() - k,
    {
        proof {
            assert(lv.take(k + 1).drop_last() =~= lv.take(k as int));
            assert(ls@[k as int]@ == lv[k as int]);
        }
        match listed_server_exec(ls[k].as_str()) {
            Some(s) => {
                let ghost old_s = servers@;
                servers.push(s);
                proof {
                    assert(server_views(servers@) =~= server_views(old_s).push(s@));
                }
            },
            None => {},
        }
        k = k + 1;
    }
    proof {
        assert(lv.take(ls@.len() as int) =~= lv);
    }
    if servers.len() > 0 {
        return Some(info_of(servers));
    }
    let mut bare: Vec<McpServer> = Vec::new();
    let mut k: usize = 0;
    while k < ls.len()
        invariant
            views(ls@) == lv,
            0 <= k <= ls@.len(),
            server_views(bare@) == bare_servers(lv.take(k as int)),
        decreases ls@.len() - k,
    {
        proof {
            assert(lv.take(k + 1).drop_last() =~= lv.take(k as int));
            assert(ls@[k as int]@ == lv[k as int]);
        }
        match bare_name_exec(ls[k].as_str()) {
            Some(name) => {
                let s = McpServer { name, connected: false };
                let ghost old_s = bare@;
                bare.push(s);
                proof {
                    assert(server_views(bare@) =~= server_views(old_s).push(s@));
                }
            },
            None => {},
        }
        k = k + 1;
    }
    proof {
        assert(lv.take(ls@.len() as int) =~= lv);
    }
    if bare.len() > 0 {
        Some(info_of(bare))
    } else {
        None
    }
}

/// A server of the configuration file: its name and its `disabled` flag,
/// where that is a boolean.
pub struct ConfiguredServer {
    pub name: String,
    pub disabled: Option<bool>,
}

pub open spec fn enabled_servers(cs: Seq<ConfiguredServer>) -> Seq<(Seq<char>, bool)>
    decreases cs.len(),
{
    if cs.len() == 0 {
        Seq::empty()
    } else if cs.last().disabled == Some(true) {
        enabled_servers(cs.drop_last())
    } else {
        enabled_servers(cs.drop_last()).push((cs.last().name@, false))
    }
}

/// The configured servers that are not disabled, in order, each of unknown
/// state: the configuration says nothing of connections.
pub fn servers_from_config(configured: &Vec<ConfiguredServer>) -> (r: McpInfo)
    ensures
        r.wf(),
        server_views(r.servers@) == enabled_servers(configured@),
        r.connected == 0,
{
    let mut servers: Vec<McpServer> = Vec::new();
    let mut k: usize = 0;
    while k < configured.len()
        invariant
            0 <= k <= configured@.len(),
            server_views(servers@) == enabled_servers(configured@.take(k as int)),
        decreases configured@.len() - k,
    {
        proof {
            assert(configured@.take(k + 1).drop_last() =~= configured@.take(k as int));
        }
        let c = &configured[k];
        if c.disabled != Some(true) {
            let s = McpServer { name: c.name.clone(), connected: false };
            let ghost old_s = servers@;
            servers.push(s);
            proof {
                assert(server_views(servers@) =~= server_views(old_s).push(s@));
            }
        }
        k = k + 1;
    }
    proof {
        assert(configured@.take(configured@.len() as int) =~= configured@);
        lemma_none_connected(configured@);
    }
    info_of(servers)
}

proof fn lemma_none_connected(cs: Seq<ConfiguredServer>)
    ensures
        count_connected(enabled_servers(cs)) == 0,
    decreases cs.len(),
{
    if cs.len() > 0 {
        lemma_none_connected(cs.drop_last());
        let prev = enabled_servers(cs.drop_last());
        let x = (cs.last().name@, false);
        assert(prev.push(x).drop_last() =~= prev);
    }
}

} // verus!

verus! {

/// The step of the connectivity cascade that answers.
#[derive(Clone, Copy, PartialEq, Eq, Structural, Debug)]
pub enum McpStep {
    Cached,
    Tool,
    Config,
}

/// What the connectivity cascade did: the servers, the step that found
/// them, and the text to keep in the cache.
pub struct McpOutcome {
    pub info: McpInfo,
    pub answered: McpStep,
    pub to_cache: Option<String>,
}

/// Collects the servers' connectivity through the cascade: the cached
/// listing where it reads; else the tool's listing (`run_cli` gives its
/// output where the tool ran and succeeded), which is to be cached where it
/// reads; else the configured servers. A step is taken only where the ones
/// before it found nothing.
pub fn collect<C, L, G>(read_cache: C, run_cli: L, read_config: G) -> (r: McpOutcome) where
    C: FnOnce() -> Option<String>,
    L: FnOnce() -> Option<String>,
    G: FnOnce() -> Vec<ConfiguredServer>,

    requires
        call_requires(read_cache, ()),
        call_requires(run_cli, ()),
        call_requires(read_config, ()),
    ensures
        r.info.wf(),
        r.to_cache is Some <==> r.answered == McpStep::Tool,
        exists|c: Option<String>| #[trigger]
            call_ensures(read_cache, (), c) && if c is Some && parsed_listing(c->0@).len() > 0 {
                r.answered == McpStep::Cached && server_views(r.info.servers@) == parsed_listing(
                    c->0@,
                )
            } else {
                exists|l: Option<String>| #[trigger]
                    call_ensures(run_cli, (), l) && if l is Some && parsed_listing(l->0@).len()
                        > 0 {
                        r.answered == McpStep::Tool && r.to_cache->0@ == l->0@ && server_views(
                            r.info.servers@,
                        ) == parsed_listing(l->0@)
                    } else {
                        exists|g: Vec<ConfiguredServer>| #[trigger]
                            call_ensures(read_config, (), g) && r.answered == McpStep::Config
                                && server_views(r.info.servers@) == enabled_servers(g@)
                    }
            },
{
    let c = read_cache();
    if let Some(t) = &c {
        if let Some(info) = parse_mcp_output(t.as_str()) {
            return McpOutcome { info, answered: McpStep::Cached, to_cache: None };
        }
    }
    let l = run_cli();
    if let Some(t) = &l {
        if let Some(info) = parse_mcp_output(t.as_str()) {
            return McpOutcome { info, answered: McpStep::Tool, to_cache: Some(t.clone()) };
        }
    }
    let g = read_config();
    McpOutcome { info: servers_from_config(&g), answered: McpStep::Config, to_cache: None }
}

} // verus!
