//! The status line's text: up to four lines drawn from a snapshot.
use vstd::prelude::*;

use crate::config::emoji_for;
use crate::config::model_emoji;
use crate::config::Config;
use crate::containers::container_views;
use crate::containers::ContainerView;
use crate::git::GitInfo;
use crate::mcp::server_views;
use crate::mcp::McpInfo;
use crate::paths::shorten_path;
use crate::paths::shortened;
use crate::snapshot::Snapshot;
use crate::teams::Team;
use crate::text::decimal;
use crate::text::join_strings;
use crate::text::joined_with;
use crate::text::push_decimal;
use crate::text::views;
use crate::theme::Theme;
use crate::usage_limits::UsageLimitsInfo;

verus! {

/// How the context window's use is colored against the thresholds.
#[derive(Clone, Copy, PartialEq, Eq, Structural, Debug)]
pub enum ContextLevel {
    Normal,
    Warning,
    Critical,
}

/// The context window's use as shown: the percentage as a whole number, and
/// its level against the configured thresholds.
pub struct ContextShown {
    pub percent: String,
    pub level: ContextLevel,
}

/// The separator between the parts of a line.
pub open spec fn separator(t: Theme) -> Seq<char> {
    " "@ + t.dim@ + "\u{2502}"@ + t.reset@ + " "@
}

fn separator_string(t: &Theme) -> (r: String)
    ensures
        r@ == separator(*t),
{
    let mut out = String::from_str(" ");
    out.append(t.dim);
    out.append("\u{2502}");
    out.append(t.reset);
    out.append(" ");
    assert(out@ =~= separator(*t));
    out
}

/// The first line: the folder, and the branch with a mark of whether the
/// tree is clean.
pub open spec fn line1_text(t: Theme, folder: Seq<char>, git: Option<GitInfo>) -> Seq<char> {
    match git {
        Some(g) => {
            let mark = if g.is_clean {
                t.green@ + "\u{2713}"@ + t.reset@
            } else {
                t.yellow@ + "\u{2717}"@ + t.reset@
            };
            t.blue@ + folder + t.reset@ + "  "@ + t.green@ + "("@ + g.branch@ + ")"@ + t.reset@
                + " "@ + mark + " \u{1f4c1}"@
        },
        None => t.blue@ + folder + t.reset@ + " \u{1f4c1}"@,
    }
}

/// The first line, for a folder already shown as it is to be shown.
pub fn format_line1_in(theme: &Theme, data: &Snapshot, folder: &str) -> (r: String)
    ensures
        r@ == line1_text(*theme, folder@, data.git),
{
    let mut out = String::from_str(theme.blue);
    out.append(folder);
    out.append(theme.reset);
    match &data.git {
        Some(g) => {
            out.append("  ");
            out.append(theme.green);
            out.append("(");
            out.append(g.branch.as_str());
            out.append(")");
            out.append(theme.reset);
            out.append(" ");
            if g.is_clean {
                out.append(theme.green);
                out.append("\u{2713}");
            } else {
                out.append(theme.yellow);
                out.append("\u{2717}");
            }
            out.append(theme.reset);
            out.append(" \u{1f4c1}");
        },
        None => {
            out.append(" \u{1f4c1}");
        },
    }
    assert(out@ =~= line1_text(*theme, folder@, data.git));
    out
}

/// The first line, with the working directory shown relative to the home
/// directory where it lies under it.
pub fn format_line1(theme: &Theme, data: &Snapshot, cwd: &str) -> (r: String)
    ensures
        r@ == line1_text(*theme, cwd@, data.git) || exists|home: Seq<char>|
            r@ == line1_text(*theme, #[trigger] shortened(cwd@, home), data.git),
{
    let folder = shorten_path(cwd);
    format_line1_in(theme, data, folder.as_str())
}

/// The lines changed, added and removed.
pub open spec fn changes_text(t: Theme, added: nat, removed: nat) -> Seq<char> {
    "\u{1f4c4} "@ + t.green@ + "+"@ + decimal(added) + t.reset@ + " \u{2022} "@ + t.red@ + "-"@
        + decimal(removed) + t.reset@
}

fn changes_string(t: &Theme, added: u128, removed: u128) -> (r: String)
    ensures
        r@ == changes_text(*t, added as nat, removed as nat),
{
    let mut out = String::from_str("\u{1f4c4} ");
    out.append(t.green);
    out.append("+");
    push_decimal(&mut out, added);
    out.append(t.reset);
    out.append(" \u{2022} ");
    out.append(t.red);
    out.append("-");
    push_decimal(&mut out, removed);
    out.append(t.reset);
    assert(out@ =~= changes_text(*t, added as nat, removed as nat));
    out
}

pub open spec fn level_color(t: Theme, level: ContextLevel) -> Seq<char> {
    match level {
        ContextLevel::Critical => t.red@,
        ContextLevel::Warning => t.yellow@,
        ContextLevel::Normal => t.green@,
    }
}

pub open spec fn or_zero(o: Option<u64>) -> nat {
    match o {
        Some(n) => n as nat,
        None => 0,
    }
}

/// The parts of the second line: the model; the lines changed in the
/// session, or else those of a dirty tree; the tool's version; the context
/// window's use where it is shown.
pub open spec fn line2_parts(
    cfg: Config,
    t: Theme,
    d: Snapshot,
    ctx: Option<ContextShown>,
) -> Seq<Seq<char>> {
    let model = t.cyan@ + emoji_for(cfg, d.session.model_short@) + " "@ + d.session.model_display@
        + t.reset@;
    let added = or_zero(d.lines_added);
    let removed = or_zero(d.lines_removed);
    let base = seq![model];
    let with_changes = if added > 0 || removed > 0 {
        base.push(changes_text(t, added, removed))
    } else if d.git is Some && !d.git->0.is_clean {
        base.push(
            changes_text(t, (d.git->0.added + d.git->0.modified) as nat, d.git->0.deleted as nat),
        )
    } else {
        base
    };
    let with_version = if d.session.cc_version@.len() > 0 {
        with_changes.push(t.magenta@ + "CC:"@ + d.session.cc_version@ + t.reset@)
    } else {
        with_changes
    };
    if cfg.features.show_context_window && ctx is Some {
        with_version.push(level_color(t, ctx->0.level) + "Ctx: "@ + ctx->0.percent@ + "%"@ + t.reset@)
    } else {
        with_version
    }
}

pub fn format_line2(cfg: &Config, theme: &Theme, data: &Snapshot, ctx: Option<&ContextShown>) -> (r:
    String)
    ensures
        r@ == joined_with(
            line2_parts(
                *cfg,
                *theme,
                *data,
                match ctx {
                    Some(c) => Some(*c),
                    None => None,
                },
            ),
            separator(*theme),
        ),
{
    let ghost cv = match ctx {
        Some(c) => Some(*c),
        None => None,
    };
    let mut parts: Vec<String> = Vec::new();
    let mut model = String::from_str(theme.cyan);
    model.append(model_emoji(data.session.model_short.as_str(), cfg));
    model.append(" ");
    model.append(data.session.model_display.as_str());
    model.append(theme.reset);
    parts.push(model);
    let added: u64 = match data.lines_added {
        Some(n) => n,
        None => 0,
    };
    let removed: u64 = match data.lines_removed {
        Some(n) => n,
        None => 0,
    };
    if added > 0 || removed > 0 {
        parts.push(changes_string(theme, added as u128, removed as u128));
    } else {
        match &data.git {
            Some(g) => {
                if !g.is_clean {
                    parts.push(
                        changes_string(theme, g.added as u128 + g.modified as u128, g.deleted as u128),
                    );
                }
            },
            None => {},
        }
    }
    if data.session.cc_version.as_str().unicode_len() > 0 {
        let mut v = String::from_str(theme.magenta);
        v.append("CC:");
        v.append(data.session.cc_version.as_str());
        v.append(theme.reset);
        parts.push(v);
    }
    if cfg.features.show_context_window {
        match ctx {
            Some(c) => {
                let mut s = String::from_str(
                    match c.level {
                        ContextLevel::Critical => theme.red,
                        ContextLevel::Warning => theme.yellow,
                        ContextLevel::Normal => theme.green,
                    },
                );
                s.append("Ctx: ");
                s.append(c.percent.as_str());
                s.append("%");
                s.append(theme.reset);
                parts.push(s);
            },
            None => {},
        }
    }
    assert(views(parts@) =~= line2_parts(*cfg, *theme, *data, cv));
    let sep = separator_string(theme);
    join_strings(&parts, sep.as_str())
}

/// A server's name, in green where connected, struck through in red where
/// not.
pub open spec fn server_text(t: Theme, s: (Seq<char>, bool)) -> Seq<char> {
    if s.1 {
        t.bright_green@ + s.0 + t.reset@
    } else {
        t.red@ + "\x1b[9m"@ + s.0 + "\x1b[29m"@ + t.reset@
    }
}

/// The servers' part: how many are connected, of how many, and each
/// server.
pub open spec fn mcp_text(t: Theme, m: McpInfo) -> Seq<char> {
    let color = if m.connected == m.total {
        t.bright_green@
    } else if m.connected > 0 {
        t.yellow@
    } else {
        t.red@
    };
    color + "MCP:"@ + decimal(m.connected as nat) + "/"@ + decimal(m.total as nat) + t.reset@
        + ": "@ + joined_with(
        server_views(m.servers@).map_values(|s: (Seq<char>, bool)| server_text(t, s)),
        ", "@,
    )
}

fn mcp_string(t: &Theme, m: &McpInfo) -> (r: String)
    ensures
        r@ == mcp_text(*t, *m),
{
    let ghost sv = server_views(m.servers@);
    let mut names: Vec<String> = Vec::new();
    let mut k: usize = 0;
    while k < m.servers.len()
        invariant
            sv == server_views(m.servers@),
            0 <= k <= m.servers@.len(),
            views(names@) == sv.take(k as int).map_values(
                |s: (Seq<char>, bool)| server_text(*t, s),
            ),
        decreases m.servers@.len() - k,
    {
        let s = &m.servers[k];
        let mut x = String::new();
        if s.connected {
            x.append(t.bright_green);
            x.append(s.name.as_str());
        } else {
            x.append(t.red);
            x.append("\x1b[9m");
            x.append(s.name.as_str());
            x.append("\x1b[29m");
        }
        x.append(t.reset);
        let ghost old_names = names@;
        names.push(x);
        proof {
            assert(sv[k as int] == s@);
            assert(x@ =~= server_text(*t, sv[k as int]));
            assert(views(names@) =~= views(old_names).push(x@));
            assert(sv.take(k + 1).map_values(|s: (Seq<char>, bool)| server_text(*t, s))
                =~= sv.take(k as int).map_values(|s: (Seq<char>, bool)| server_text(*t, s)).push(
                server_text(*t, sv[k as int]),
            ));
            assert(views(names@) =~= sv.take(k + 1).map_values(
                |s: (Seq<char>, bool)| server_text(*t, s),
            ));
        }
        k = k + 1;
    }
    proof {
        assert(sv.take(m.servers@.len() as int) =~= sv);
    }
    let mut out = String::from_str(
        if m.connected == m.total {
            t.bright_green
        } else if m.connected > 0 {
            t.yellow
        } else {
            t.red
        },
    );
    out.append("MCP:");
    push_decimal(&mut out, m.connected as u128);
    out.append("/");
    push_decimal(&mut out, m.total as u128);
    out.append(t.reset);
    out.append(": ");
    let list = join_strings(&names, ", ");
    out.append(list.as_str());
    assert(out@ =~= mcp_text(*t, *m));
    out
}

/// A whole percentage with its sign.
pub open spec fn signed_decimal(n: int) -> Seq<char> {
    if n < 0 {
        "-"@ + decimal((-n) as nat)
    } else {
        decimal(n as nat)
    }
}

fn push_signed(out: &mut String, n: i64)
    ensures
        final(out)@ == old(out)@ + signed_decimal(n as int),
{
    if n < 0 {
        out.append("-");
        push_decimal(out, (-(n as i128)) as u128);
    } else {
        push_decimal(out, n as u128);
    }
    assert(final(out)@ =~= old(out)@ + signed_decimal(n as int));
}

pub open spec fn opt_or(o: Option<String>, d: Seq<char>) -> Seq<char> {
    match o {
        Some(s) => s@,
        None => d,
    }
}

/// The five-hour window's part, where its reset is known.
pub open spec fn five_hour_text(u: UsageLimitsInfo) -> Option<Seq<char>> {
    match u.five_hour_reset {
        Some(reset) => {
            let pct = match u.five_hour_percent {
                Some(p) => " "@ + signed_decimal(p as int) + "%"@,
                None => Seq::empty(),
            };
            Some(
                "\u{23f1} 5H at "@ + reset@ + " ("@ + opt_or(u.five_hour_remaining, "?"@) + ")"@
                    + pct,
            )
        },
        None => None,
    }
}

/// The seven-day window's part, where its reset is known.
pub open spec fn seven_day_text(u: UsageLimitsInfo) -> Option<Seq<char>> {
    match u.seven_day_reset {
        Some(reset) => {
            let pct = match u.seven_day_percent {
                Some(p) => " ("@ + signed_decimal(p as int) + "%)"@,
                None => Seq::empty(),
            };
            Some("7DAY "@ + reset@ + pct)
        },
        None => None,
    }
}

pub open spec fn present(o: Option<Seq<char>>) -> Seq<Seq<char>> {
    match o {
        Some(x) => seq![x],
        None => Seq::empty(),
    }
}

/// The quota's parts: the five-hour window and the seven-day window, each
/// where its reset is known.
pub open spec fn usage_parts(u: UsageLimitsInfo) -> Seq<Seq<char>> {
    present(five_hour_text(u)) + present(seven_day_text(u))
}

fn five_hour_string(u: &UsageLimitsInfo) -> (r: Option<String>)
    ensures
        match r {
            Some(s) => five_hour_text(*u) == Some(s@),
            None => five_hour_text(*u) is None,
        },
{
    match &u.five_hour_reset {
        Some(reset) => {
            let mut s = String::from_str("\u{23f1} 5H at ");
            s.append(reset.as_str());
            s.append(" (");
            match &u.five_hour_remaining {
                Some(rem) => s.append(rem.as_str()),
                None => s.append("?"),
            }
            s.append(")");
            let ghost before = s@;
            match u.five_hour_percent {
                Some(p) => {
                    s.append(" ");
                    push_signed(&mut s, p);
                    s.append("%");
                },
                None => {
                    assert(s@ =~= before + Seq::<char>::empty());
                },
            }
            assert(s@ =~= five_hour_text(*u)->0);
            Some(s)
        },
        None => None,
    }
}

fn seven_day_string(u: &UsageLimitsInfo) -> (r: Option<String>)
    ensures
        match r {
            Some(s) => seven_day_text(*u) == Some(s@),
            None => seven_day_text(*u) is None,
        },
{
    match &u.seven_day_reset {
        Some(reset) => {
            let mut s = String::from_str("7DAY ");
            s.append(reset.as_str());
            let ghost before = s@;
            match u.seven_day_percent {
                Some(p) => {
                    s.append(" (");
                    push_signed(&mut s, p);
                    s.append("%)");
                },
                None => {
                    assert(s@ =~= before + Seq::<char>::empty());
                },
            }
            assert(s@ =~= seven_day_text(*u)->0);
            Some(s)
        },
        None => None,
    }
}

/// The parts of the third line: the servers where any are known, and the
/// quota where any reset is known.
pub open spec fn line3_parts(t: Theme, d: Snapshot) -> Seq<Seq<char>> {
    let m: Seq<Seq<char>> = if d.mcp.total > 0 {
        seq![mcp_text(t, d.mcp)]
    } else {
        Seq::empty()
    };
    if usage_parts(d.usage).len() > 0 {
        m.push(joined_with(usage_parts(d.usage), " \u{2022} "@))
    } else {
        m
    }
}

pub fn format_line3(theme: &Theme, data: &Snapshot) -> (r: String)
    ensures
        r@ == joined_with(line3_parts(*theme, *data), separator(*theme)),
{
    let mut majors: Vec<String> = Vec::new();
    if data.mcp.total > 0 {
        majors.push(mcp_string(theme, &data.mcp));
    }
    let mut usage: Vec<String> = Vec::new();
    match five_hour_string(&data.usage) {
        Some(x) => usage.push(x),
        None => {},
    }
    match seven_day_string(&data.usage) {
        Some(x) => usage.push(x),
        None => {},
    }
    assert(views(usage@) =~= usage_parts(data.usage));
    if usage.len() > 0 {
        majors.push(join_strings(&usage, " \u{2022} "));
    }
    assert(views(majors@) =~= line3_parts(*theme, *data));
    let sep = separator_string(theme);
    join_strings(&majors, sep.as_str())
}

/// A container's name and status, green where it runs, red otherwise.
pub open spec fn container_text(t: Theme, c: ContainerView) -> Seq<char> {
    let color = if c.status == "running"@ {
        t.green@
    } else {
        t.red@
    };
    color + c.name + ": "@ + c.status + t.reset@
}

/// The members of all teams.
pub open spec fn member_total(ts: Seq<Team>) -> nat
    decreases ts.len(),
{
    if ts.len() == 0 {
        0
    } else {
        member_total(ts.drop_last()) + ts.last().member_count as nat
    }
}

/// The parts of the fourth line: the branch with the number of linked
/// worktrees, the containers, and the agents of all teams, each where there
/// are any.
pub open spec fn line4_parts(t: Theme, d: Snapshot) -> Seq<Seq<char>> {
    let w: Seq<Seq<char>> = if d.worktrees.worktrees@.len() > 0 {
        let branch = match d.git {
            Some(g) => g.branch@,
            None => "?"@,
        };
        seq![
            t.green@ + "\u{1f333} "@ + branch + " ["@ + decimal(d.worktrees.worktrees@.len())
                + " worktrees]"@ + t.reset@,
        ]
    } else {
        Seq::empty()
    };
    let c = if d.containers.containers@.len() > 0 {
        w.push(
            "\u{1f433} "@ + joined_with(
                container_views(d.containers.containers@).map_values(
                    |c: ContainerView| container_text(t, c),
                ),
                ", "@,
            ),
        )
    } else {
        w
    };
    if d.teams.teams@.len() > 0 {
        c.push(
            t.cyan@ + "\u{1f465} team: "@ + decimal(member_total(d.teams.teams@)) + " agents"@
                + t.reset@,
        )
    } else {
        c
    }
}

pub fn format_line4(theme: &Theme, data: &Snapshot) -> (r: String)
    ensures
        r@ == joined_with(line4_parts(*theme, *data), "  "@),
{
    let mut parts: Vec<String> = Vec::new();
    if data.worktrees.worktrees.len() > 0 {
        let mut s = String::from_str(theme.green);
        s.append("\u{1f333} ");
        match &data.git {
            Some(g) => s.append(g.branch.as_str()),
            None => s.append("?"),
        }
        s.append(" [");
        push_decimal(&mut s, data.worktrees.worktrees.len() as u128);
        s.append(" worktrees]");
        s.append(theme.reset);
        parts.push(s);
    }
    let cs = &data.containers.containers;
    if cs.len() > 0 {
        let ghost cv = container_views(cs@);
        let mut items: Vec<String> = Vec::new();
        let mut k: usize = 0;
        while k < cs.len()
            invariant
                cv == container_views(cs@),
                0 <= k <= cs@.len(),
                views(items@) == cv.take(k as int).map_values(
                    |c: ContainerView| container_text(*theme, c),
                ),
            decreases cs@.len() - k,
        {
            let c = &cs[k];
            let mut x = String::from_str(
                if crate::text::str_eq(c.status.as_str(), "running") {
                    theme.green
                } else {
                    theme.red
                },
            );
            x.append(c.name.as_str());
            x.append(": ");
            x.append(c.status.as_str());
            x.append(theme.reset);
            let ghost old_items = items@;
            items.push(x);
            proof {
                assert(cv[k as int] == c@);
                assert(x@ =~= container_text(*theme, cv[k as int]));
                assert(views(items@) =~= views(old_items).push(x@));
                assert(cv.take(k + 1).map_values(|c: ContainerView| container_text(*theme, c))
                    =~= cv.take(k as int).map_values(
                    |c: ContainerView| container_text(*theme, c),
                ).push(container_text(*theme, cv[k as int])));
                assert(views(items@) =~= cv.take(k + 1).map_values(
                    |c: ContainerView| container_text(*theme, c),
                ));
            }
            k = k + 1;
        }
        proof {
            assert(cv.take(cs@.len() as int) =~= cv);
        }
        let mut s = String::from_str("\u{1f433} ");
        let list = join_strings(&items, ", ");
        s.append(list.as_str());
        parts.push(s);
    }
    let ts = &data.teams.teams;
    if ts.len() > 0 {
        let mut total: u128 = 0;
        let mut k: usize = 0;
        while k < ts.len()
            invariant
                0 <= k <= ts@.len(),
                total == member_total(ts@.take(k as int)),
                total <= k * 0x1_0000_0000_0000_0000,
            decreases ts@.len() - k,
        {
            proof {
                assert(ts@.take(k + 1).drop_last() =~= ts@.take(k as int));
                assert(k * 0x1_0000_0000_0000_0000 + 0x1_0000_0000_0000_0000 == (k + 1)
                    * 0x1_0000_0000_0000_0000) by (nonlinear_arith);
                assert(k < 0x1_0000_0000_0000_0000);
                assert(k * 0x1_0000_0000_0000_0000 < 0x1_0000_0000_0000_0000
                    * 0x1_0000_0000_0000_0000 - 0x1_0000_0000_0000_0000) by (nonlinear_arith)
                    requires
                        k < 0x1_0000_0000_0000_0000 - 1,
                ;
            }
            total = total + ts[k].member_count as u128;
            k = k + 1;
        }
        proof {
            assert(ts@.take(ts@.len() as int) =~= ts@);
        }
        let mut s = String::from_str(theme.cyan);
        s.append("\u{1f465} team: ");
        push_decimal(&mut s, total);
        s.append(" agents");
        s.append(theme.reset);
        parts.push(s);
    }
    assert(views(parts@) =~= line4_parts(*theme, *data));
    join_strings(&parts, "  ")
}

/// The lines of the status line: the first two always, the third and the
/// fourth where they are not empty.
pub open spec fn statusline_lines(
    l1: Seq<char>,
    l2: Seq<char>,
    l3: Seq<char>,
    l4: Seq<char>,
) -> Seq<Seq<char>> {
    let a = seq![l1, l2];
    let b = if l3.len() > 0 {
        a.push(l3)
    } else {
        a
    };
    if l4.len() > 0 {
        b.push(l4)
    } else {
        b
    }
}

pub open spec fn ctx_view(ctx: Option<&ContextShown>) -> Option<ContextShown> {
    match ctx {
        Some(c) => Some(*c),
        None => None,
    }
}

/// The whole status line for a folder shown as `folder`.
pub open spec fn statusline_text(
    cfg: Config,
    t: Theme,
    d: Snapshot,
    folder: Seq<char>,
    ctx: Option<ContextShown>,
) -> Seq<char> {
    joined_with(
        statusline_lines(
            line1_text(t, folder, d.git),
            joined_with(line2_parts(cfg, t, d, ctx), separator(t)),
            joined_with(line3_parts(t, d), separator(t)),
            joined_with(line4_parts(t, d), "  "@),
        ),
        "\n"@,
    )
}

/// The whole status line, its lines joined by `\n`.
pub fn format_statusline(
    cfg: &Config,
    theme: &Theme,
    data: &Snapshot,
    cwd: &str,
    ctx: Option<&ContextShown>,
) -> (r: String)
    ensures
        r@ == statusline_text(*cfg, *theme, *data, cwd@, ctx_view(ctx)) || exists|home: Seq<char>|
            r@ == statusline_text(*cfg, *theme, *data, #[trigger] shortened(cwd@, home), ctx_view(ctx)),
{
    let l1 = format_line1(theme, data, cwd);
    let l2 = format_line2(cfg, theme, data, ctx);
    let l3 = format_line3(theme, data);
    let l4 = format_line4(theme, data);
    let ghost g = (l1@, l2@, l3@, l4@);
    let mut lines: Vec<String> = Vec::new();
    lines.push(l1);
    lines.push(l2);
    if l3.as_str().unicode_len() > 0 {
        lines.push(l3);
    }
    if l4.as_str().unicode_len() > 0 {
        lines.push(l4);
    }
    assert(views(lines@) =~= statusline_lines(g.0, g.1, g.2, g.3));
    join_strings(&lines, "\n")
}

} // verus!
