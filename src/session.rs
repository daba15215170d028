//! The session: which model runs, its short and display names, the tool's
//! version and the session id.
use vstd::prelude::*;

use crate::containers::is_digit;
use crate::text::occurs;
use crate::text::occurs_at;
use crate::text::split_by;
use crate::text::split_pieces;
use crate::text::views;
use crate::text::Delim;

verus! {

pub struct SessionInfo {
    /// The full model id, e.g. `acme-opus-4-6`.
    pub model: String,
    /// The model family, e.g. `opus`.
    pub model_short: String,
    /// The name shown, e.g. `Opus 4.6`.
    pub model_display: String,
    /// The version of the tool that runs the session.
    pub cc_version: String,
    pub session_id: Option<String>,
}

/// The model as the session input gives it.
pub struct ModelInfo {
    pub id: Option<String>,
    pub display_name: Option<String>,
}

/// The workspace as the session input gives it.
pub struct WorkspaceInfo {
    pub current_dir: Option<String>,
    pub project_dir: Option<String>,
}

pub open spec fn workspace_dir(workspace: Option<WorkspaceInfo>) -> Option<Seq<char>> {
    match workspace {
        Some(w) => match w.current_dir {
            Some(c) => Some(c@),
            None => None,
        },
        None => None,
    }
}

/// The directory the session works in: the workspace's current directory,
/// else the input's `cwd`; `None` where the input names neither, and the
/// process's own directory is to be taken.
pub open spec fn chosen_dir(workspace: Option<WorkspaceInfo>, cwd: Option<Seq<char>>) -> Option<
    Seq<char>,
> {
    match workspace_dir(workspace) {
        Some(d) => Some(d),
        None => cwd,
    }
}

pub fn working_dir(workspace: Option<&WorkspaceInfo>, cwd: Option<&str>) -> (r: Option<String>)
    ensures
        match r {
            Some(d) => Some(d@),
            None => None,
        } == chosen_dir(
            match workspace {
                Some(w) => Some(*w),
                None => None,
            },
            match cwd {
                Some(c) => Some(c@),
                None => None,
            },
        ),
{
    match workspace {
        Some(w) => match &w.current_dir {
            Some(c) => return Some(c.clone()),
            None => {},
        },
        None => {},
    }
    match cwd {
        Some(c) => Some(String::from_str(c)),
        None => None,
    }
}

/// The model family of an id: opus, sonnet or haiku where the id names one
/// (in that order, without regard to case), else the id after its last `/`.
pub open spec fn short_model(model: Seq<char>) -> Seq<char> {
    if occurs(model, "opus"@, true) {
        "opus"@
    } else if occurs(model, "sonnet"@, true) {
        "sonnet"@
    } else if occurs(model, "haiku"@, true) {
        "haiku"@
    } else {
        split_by(model, Delim::Char('/')).last()
    }
}

/// The model family of an id. Matching the ASCII family names letter by
/// letter without regard to case, the Kelvin sign counting as `k`, finds
/// them exactly where `str::to_lowercase` and `str::contains` would.
pub fn shorten_model_name(model: &str) -> (r: String)
    ensures
        r@ == short_model(model@),
{
    if crate::text::contains(model, "opus", true) {
        String::from_str("opus")
    } else if crate::text::contains(model, "sonnet", true) {
        String::from_str("sonnet")
    } else if crate::text::contains(model, "haiku", true) {
        String::from_str("haiku")
    } else {
        let parts = split_pieces(model, Delim::Char('/'));
        proof {
            crate::text::lemma_split_nonempty(model@, Delim::Char('/'));
            assert(parts@[parts@.len() - 1]@ == views(parts@).last());
        }
        parts[parts.len() - 1].clone()
    }
}

/// The result of `char::to_uppercase` on `c`.
pub uninterp spec fn upper_of(c: char) -> Seq<char>;

/// Relies on `char::to_uppercase`: the uppercase form of a character, one
/// or more characters long. It depends on the character alone; an ASCII
/// lowercase letter becomes its uppercase letter.
#[verifier::external_body]
fn uppercase_char(c: char) -> (r: String)
    ensures
        r@ == upper_of(c),
        'a' <= c <= 'z' ==> r@.len() == 1 && r@[0] as u32 + 32 == c as u32,
{
    c.to_uppercase().to_string()
}

/// `s` with its first character in uppercase.
pub open spec fn capitalized(s: Seq<char>) -> Seq<char> {
    if s.len() == 0 {
        s
    } else {
        upper_of(s[0]) + s.drop_first()
    }
}

pub fn capitalize_first(s: &str) -> (r: String)
    ensures
        r@ == capitalized(s@),
{
    let n = s.unicode_len();
    if n == 0 {
        return String::new();
    }
    let mut out = uppercase_char(s.get_char(0));
    out.append(s.substring_char(1, n));
    assert(s@.subrange(1, n as int) =~= s@.drop_first());
    out
}

pub open spec fn all_digits(s: Seq<char>) -> bool {
    s.len() > 0 && forall|i: int| 0 <= i < s.len() ==> is_digit(#[trigger] s[i])
}

pub open spec fn digit_pieces(p: Seq<Seq<char>>) -> Seq<Seq<char>>
    decreases p.len(),
{
    if p.len() == 0 {
        Seq::empty()
    } else if all_digits(p.last()) {
        digit_pieces(p.drop_last()).push(p.last())
    } else {
        digit_pieces(p.drop_last())
    }
}

/// Where the model family's name ends in the id.
pub open spec fn family_end(model: Seq<char>) -> Option<int> {
    if occurs(model, "opus"@, true) {
        Some(first_occurrence(model, "opus"@) + 4)
    } else if occurs(model, "sonnet"@, true) {
        Some(first_occurrence(model, "sonnet"@) + 6)
    } else if occurs(model, "haiku"@, true) {
        Some(first_occurrence(model, "haiku"@) + 5)
    } else {
        None
    }
}

/// The first index at which `p` occurs in `s`, without regard to case.
pub open spec fn first_occurrence(s: Seq<char>, p: Seq<char>) -> int {
    choose|i: int| occurs_at(s, i, p, true) && forall|k: int| 0 <= k < i ==> !occurs_at(s, k, p, true)
}

/// The version in a model id: the first two all-digit pieces between `-`
/// after the family name, joined by `.` (`acme-opus-4-6` gives `4.6`).
pub open spec fn model_version(model: Seq<char>) -> Option<Seq<char>> {
    match family_end(model) {
        Some(e) => {
            let ds = digit_pieces(split_by(model.skip(e), Delim::Char('-')));
            if ds.len() >= 2 {
                Some(ds[0] + "."@ + ds[1])
            } else {
                None
            }
        },
        None => None,
    }
}

fn all_digits_exec(s: &str) -> (r: bool)
    ensures
        r == all_digits(s@),
{
    let n = s.unicode_len();
    if n == 0 {
        return false;
    }
    let mut i: usize = 0;
    while i < n
        invariant
            n == s@.len(),
            0 <= i <= n,
            forall|k: int| 0 <= k < i ==> is_digit(#[trigger] s@[k]),
        decreases n - i,
    {
        let c = s.get_char(i);
        if !('0' <= c && c <= '9') {
            return false;
        }
        i = i + 1;
    }
    true
}

fn family_end_exec(model: &str) -> (r: Option<usize>)
    ensures
        match r {
            Some(e) => family_end(model@) == Some(e as int) && e <= model@.len(),
            None => family_end(model@) is None,
        },
{
    let n = model.unicode_len();
    proof {
        reveal_strlit("opus");
        reveal_strlit("sonnet");
        reveal_strlit("haiku");
    }
    match crate::text::find(model, "opus", true) {
        Some(i) => {
            assert(occurs_at(model@, i as int, "opus"@, true));
            let ghost j = first_occurrence(model@, "opus"@);
            assert(j == i) by {
                if j < i {
                } else if i < j {
                }
            }
            return Some(i + 4);
        },
        None => {},
    }
    match crate::text::find(model, "sonnet", true) {
        Some(i) => {
            assert(occurs_at(model@, i as int, "sonnet"@, true));
            let ghost j = first_occurrence(model@, "sonnet"@);
            assert(j == i) by {
                if j < i {
                } else if i < j {
                }
            }
            return Some(i + 6);
        },
        None => {},
    }
    match crate::text::find(model, "haiku", true) {
        Some(i) => {
            assert(occurs_at(model@, i as int, "haiku"@, true));
            let ghost j = first_occurrence(model@, "haiku"@);
            assert(j == i) by {
                if j < i {
                } else if i < j {
                }
            }
            Some(i + 5)
        },
        None => None,
    }
}

/// The version in a model id, e.g. `4.6` of `acme-opus-4-6`.
pub fn extract_model_version(model_id: &str) -> (r: Option<String>)
    ensures
        match r {
            Some(v) => model_version(model_id@) == Some(v@),
            None => model_version(model_id@) is None,
        },
{
    let e = match family_end_exec(model_id) {
        Some(e) => e,
        None => return None,
    };
    let n = model_id.unicode_len();
    let rest = model_id.substring_char(e, n);
    proof {
        assert(rest@ =~= model_id@.skip(e as int));
    }
    let parts = split_pieces(rest, Delim::Char('-'));
    let ghost pv = views(parts@);
    let mut ds: Vec<String> = Vec::new();
    let mut k: usize = 0;
    while k < parts.len()
        invariant
            pv == views(parts@),
            0 <= k <= parts@.len(),
            views(ds@) == digit_pieces(pv.take(k as int)),
        decreases parts@.len() - k,
    {
        proof {
            assert(pv.take(k + 1).drop_last() =~= pv.take(k as int));
            assert(parts@[k as int]@ == pv[k as int]);
        }
        if all_digits_exec(parts[k].as_str()) {
            let ghost old_ds = ds@;
            ds.push(parts[k].clone());
            proof {
                assert(views(ds@) =~= views(old_ds).push(pv[k as int]));
            }
        }
        k = k + 1;
    }
    proof {
        assert(pv.take(parts@.len() as int) =~= pv);
    }
    if ds.len() >= 2 {
        let mut v = ds[0].clone();
        v.append(".");
        v.append(ds[1].as_str());
        proof {
            assert(ds@[0]@ == views(ds@)[0] && ds@[1]@ == views(ds@)[1]);
        }
        Some(v)
    } else {
        None
    }
}

pub open spec fn has_digit(s: Seq<char>) -> bool {
    exists|i: int| 0 <= i < s.len() && is_digit(#[trigger] s[i])
}

fn has_digit_exec(s: &str) -> (r: bool)
    ensures
        r == has_digit(s@),
{
    let n = s.unicode_len();
    let mut i: usize = 0;
    while i < n
        invariant
            n == s@.len(),
            0 <= i <= n,
            forall|k: int| 0 <= k < i ==> !is_digit(#[trigger] s@[k]),
        decreases n - i,
    {
        let c = s.get_char(i);
        if '0' <= c && c <= '9' {
            assert(is_digit(s@[i as int]));
            return true;
        }
        i = i + 1;
    }
    false
}

pub open spec fn text_or_empty(o: Option<String>) -> Seq<char> {
    match o {
        Some(s) => s@,
        None => Seq::empty(),
    }
}

/// The display name from the session input's model: its display name, else
/// its family capitalized; with the version of its id added where the name
/// has no digit.
pub open spec fn display_of(display: Seq<char>, model: Seq<char>) -> Seq<char> {
    let d = if display.len() == 0 {
        capitalized(short_model(model))
    } else {
        display
    };
    if d.len() > 0 && !has_digit(d) && model_version(model) is Some {
        d + " "@ + model_version(model)->0
    } else {
        d
    }
}

/// The session's model names: from the session input's model id where it
/// has one, else from `fallback_model` (the model the environment or the
/// settings name) where that is not empty, else `unknown`.
pub open spec fn session_models(
    model: Option<ModelInfo>,
    fallback_model: Seq<char>,
) -> (Seq<char>, Seq<char>, Seq<char>) {
    let id = match model {
        Some(m) => text_or_empty(m.id),
        None => Seq::empty(),
    };
    if id.len() > 0 {
        (id, short_model(id), display_of(text_or_empty(model->0.display_name), id))
    } else if fallback_model.len() > 0 {
        (fallback_model, short_model(fallback_model), capitalized(short_model(fallback_model)))
    } else {
        ("unknown"@, "unknown"@, "Unknown"@)
    }
}

fn clone_or_empty(o: &Option<String>) -> (r: String)
    ensures
        r@ == text_or_empty(*o),
{
    match o {
        Some(s) => s.clone(),
        None => String::new(),
    }
}

/// The session from its input: the model, the tool's version and the
/// session id, with `fallback_model` for a session whose input names no
/// model id.
pub fn session_from_input(
    model: Option<&ModelInfo>,
    version: Option<&str>,
    session_id: Option<String>,
    fallback_model: &str,
) -> (r: SessionInfo)
    ensures
        (r.model@, r.model_short@, r.model_display@) == session_models(
            match model {
                Some(m) => Some(*m),
                None => None,
            },
            fallback_model@,
        ),
        r.cc_version@ == match version {
            Some(v) => v@,
            None => Seq::empty(),
        },
        r.session_id == session_id,
{
    let cc_version = match version {
        Some(v) => String::from_str(v),
        None => String::new(),
    };
    let id = match model {
        Some(m) => clone_or_empty(&m.id),
        None => String::new(),
    };
    if id.as_str().unicode_len() > 0 {
        let m = model.unwrap();
        let short = shorten_model_name(id.as_str());
        let given = clone_or_empty(&m.display_name);
        let mut display = if given.as_str().unicode_len() == 0 {
            capitalize_first(short.as_str())
        } else {
            given
        };
        if display.as_str().unicode_len() > 0 && !has_digit_exec(display.as_str()) {
            match extract_model_version(id.as_str()) {
                Some(v) => {
                    display.append(" ");
                    display.append(v.as_str());
                },
                None => {},
            }
        }
        SessionInfo { model: id, model_short: short, model_display: display, cc_version, session_id }
    } else if fallback_model.unicode_len() > 0 {
        let short = shorten_model_name(fallback_model);
        let display = capitalize_first(short.as_str());
        SessionInfo {
            model: String::from_str(fallback_model),
            model_short: short,
            model_display: display,
            cc_version,
            session_id,
        }
    } else {
        SessionInfo {
            model: String::from_str("unknown"),
            model_short: String::from_str("unknown"),
            model_display: String::from_str("Unknown"),
            cc_version,
            session_id,
        }
    }
}

} // verus!

verus! {

/// The session when no session input came: its model from
/// `fallback_model`, the model the environment or the settings name.
pub fn collect(fallback_model: &str) -> (r: SessionInfo)
    ensures
        (r.model@, r.model_short@, r.model_display@) == session_models(None, fallback_model@),
        r.cc_version@.len() == 0,
        r.session_id is None,
{
    session_from_input(None, None, None, fallback_model)
}

} // verus!
