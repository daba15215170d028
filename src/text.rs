//! Character-level text handling shared by the collectors: whitespace,
//! trimming, splitting into pieces, lines and words, case-insensitive
//! matching and decimal rendering.
use vstd::prelude::*;

verus! {

/// The Unicode `White_Space` property, which `char::is_whitespace` tests.
pub open spec fn is_ws(c: char) -> bool {
    let x = c as u32;
    (9 <= x && x <= 13) || x == 32 || x == 0x85 || x == 0xa0 || x == 0x1680 || (0x2000 <= x
        && x <= 0x200a) || x == 0x2028 || x == 0x2029 || x == 0x202f || x == 0x205f || x == 0x3000
}

pub fn is_whitespace(c: char) -> (r: bool)
    ensures
        r == is_ws(c),
{
    let x = c as u32;
    (9 <= x && x <= 13) || x == 32 || x == 0x85 || x == 0xa0 || x == 0x1680 || (0x2000 <= x && x
        <= 0x200a) || x == 0x2028 || x == 0x2029 || x == 0x202f || x == 0x205f || x == 0x3000
}

/// The character views of a sequence of strings.
pub open spec fn views(v: Seq<String>) -> Seq<Seq<char>> {
    v.map_values(|p: String| p@)
}

pub open spec fn trim_start(s: Seq<char>) -> Seq<char>
    decreases s.len(),
{
    if s.len() > 0 && is_ws(s[0]) {
        trim_start(s.drop_first())
    } else {
        s
    }
}

pub open spec fn trim_end(s: Seq<char>) -> Seq<char>
    decreases s.len(),
{
    if s.len() > 0 && is_ws(s.last()) {
        trim_end(s.drop_last())
    } else {
        s
    }
}

/// What `str::trim` leaves: leading and trailing whitespace removed.
pub open spec fn trim(s: Seq<char>) -> Seq<char> {
    trim_end(trim_start(s))
}

proof fn lemma_trim_start(s: Seq<char>, a: int)
    requires
        0 <= a <= s.len(),
        forall|j: int| 0 <= j < a ==> is_ws(#[trigger] s[j]),
        a == s.len() || !is_ws(s[a]),
    ensures
        trim_start(s) == s.subrange(a, s.len() as int),
    decreases a,
{
    if a == 0 {
        assert(s.subrange(0, s.len() as int) =~= s);
    } else {
        let t = s.drop_first();
        assert forall|j: int| 0 <= j < a - 1 implies is_ws(#[trigger] t[j]) by {
            assert(t[j] == s[j + 1]);
        }
        if a < s.len() {
            assert(t[a - 1] == s[a]);
        }
        lemma_trim_start(t, a - 1);
        assert(t.subrange(a - 1, t.len() as int) =~= s.subrange(a, s.len() as int));
    }
}

proof fn lemma_trim_end(s: Seq<char>, b: int)
    requires
        0 <= b <= s.len(),
        forall|j: int| b <= j < s.len() ==> is_ws(#[trigger] s[j]),
        b == 0 || !is_ws(s[b - 1]),
    ensures
        trim_end(s) == s.subrange(0, b),
    decreases s.len() - b,
{
    if b == s.len() {
        assert(s.subrange(0, b) =~= s);
    } else {
        let t = s.drop_last();
        assert forall|j: int| b <= j < t.len() implies is_ws(#[trigger] t[j]) by {
            assert(t[j] == s[j]);
        }
        if b > 0 {
            assert(t[b - 1] == s[b - 1]);
        }
        lemma_trim_end(t, b);
        assert(t.subrange(0, b) =~= s.subrange(0, b));
    }
}

/// `str::trim`, as an owned string.
pub fn trim_str(s: &str) -> (r: String)
    ensures
        r@ == trim(s@),
{
    let n = s.unicode_len();
    let mut a: usize = 0;
    while a < n && is_whitespace(s.get_char(a))
        invariant
            n == s@.len(),
            0 <= a <= n,
            forall|j: int| 0 <= j < a ==> is_ws(#[trigger] s@[j]),
        decreases n - a,
    {
        a = a + 1;
    }
    proof {
        lemma_trim_start(s@, a as int);
    }
    let mut b: usize = n;
    while b > a && is_whitespace(s.get_char(b - 1))
        invariant
            n == s@.len(),
            a <= b <= n,
            forall|j: int| b <= j < n ==> is_ws(#[trigger] s@[j]),
        decreases b,
    {
        b = b - 1;
    }
    let ghost t = s@.subrange(a as int, n as int);
    proof {
        assert forall|j: int| b - a <= j < t.len() implies is_ws(#[trigger] t[j]) by {
            assert(t[j] == s@[a + j]);
        }
        if b > a {
            assert(t[b - a - 1] == s@[b - 1]);
        }
        lemma_trim_end(t, b - a);
        assert(t.subrange(0, b - a) =~= s@.subrange(a as int, b as int));
    }
    String::from_str(s.substring_char(a, b))
}

/// What separates pieces: one given character, or any whitespace.
#[derive(Clone, Copy, PartialEq, Eq, Structural)]
pub enum Delim {
    Char(char),
    Space,
}

pub open spec fn is_delim(d: Delim, c: char) -> bool {
    match d {
        Delim::Char(x) => c == x,
        Delim::Space => is_ws(c),
    }
}

fn delim_at(d: Delim, c: char) -> (r: bool)
    ensures
        r == is_delim(d, c),
{
    match d {
        Delim::Char(x) => c == x,
        Delim::Space => is_whitespace(c),
    }
}

/// Index of the first separator in `s`.
pub open spec fn first_delim(s: Seq<char>, d: Delim) -> Option<int>
    decreases s.len(),
{
    if s.len() == 0 {
        None
    } else if is_delim(d, s[0]) {
        Some(0)
    } else {
        match first_delim(s.drop_first(), d) {
            Some(i) => Some(i + 1),
            None => None,
        }
    }
}

/// The pieces between separators, as `str::split` yields them: always at
/// least one, empty pieces kept.
pub open spec fn split_by(s: Seq<char>, d: Delim) -> Seq<Seq<char>>
    decreases s.len(),
{
    match first_delim(s, d) {
        Some(i) => if 0 <= i < s.len() {
            seq![s.take(i)] + split_by(s.skip(i + 1), d)
        } else {
            seq![s]
        },
        None => seq![s],
    }
}

pub proof fn lemma_first_delim(s: Seq<char>, d: Delim, k: int)
    requires
        0 <= k <= s.len(),
        forall|j: int| 0 <= j < k ==> !is_delim(d, #[trigger] s[j]),
    ensures
        k < s.len() && is_delim(d, s[k]) ==> first_delim(s, d) == Some(k),
        k == s.len() ==> first_delim(s, d) == None::<int>,
    decreases k,
{
    if k > 0 {
        let t = s.drop_first();
        assert forall|j: int| 0 <= j < k - 1 implies !is_delim(d, #[trigger] t[j]) by {
            assert(t[j] == s[j + 1]);
        }
        assert(!is_delim(d, s[0]));
        if k < s.len() {
            assert(t[k - 1] == s[k]);
        }
        lemma_first_delim(t, d, k - 1);
    }
}

pub proof fn lemma_split_nonempty(s: Seq<char>, d: Delim)
    ensures
        split_by(s, d).len() >= 1,
{
}

/// Splits `s` at every separator (`str::split`, or whitespace runs kept apart
/// piece by piece).
pub fn split_pieces(s: &str, d: Delim) -> (r: Vec<String>)
    ensures
        views(r@) == split_by(s@, d),
{
    let n = s.unicode_len();
    let mut parts: Vec<String> = Vec::new();
    let mut start: usize = 0;
    let mut i: usize = 0;
    proof {
        assert(s@.skip(0) =~= s@);
        assert(views(parts@) =~= Seq::<Seq<char>>::empty());
        assert(views(parts@) + split_by(s@, d) =~= split_by(s@, d));
    }
    while i < n
        invariant
            n == s@.len(),
            0 <= start <= i <= n,
            forall|j: int| start <= j < i ==> !is_delim(d, #[trigger] s@[j]),
            views(parts@) + split_by(s@.skip(start as int), d) == split_by(s@, d),
        decreases n - i,
    {
        let c = s.get_char(i);
        if delim_at(d, c) {
            let ghost rest = s@.skip(start as int);
            proof {
                assert forall|j: int| 0 <= j < i - start implies !is_delim(
                    d,
                    #[trigger] rest[j],
                ) by {
                    assert(rest[j] == s@[start + j]);
                }
                assert(rest[i - start] == c);
                lemma_first_delim(rest, d, i - start);
                assert(rest.take(i - start) =~= s@.subrange(start as int, i as int));
                assert(rest.skip(i - start + 1) =~= s@.skip(i + 1));
            }
            let piece = String::from_str(s.substring_char(start, i));
            let ghost old_parts = parts@;
            parts.push(piece);
            proof {
                assert(views(parts@) =~= views(old_parts).push(piece@));
                assert(split_by(rest, d) == seq![piece@] + split_by(s@.skip(i + 1), d));
                assert(views(parts@) + split_by(s@.skip(i + 1), d) =~= views(old_parts)
                    + split_by(rest, d));
            }
            start = i + 1;
        }
        i = i + 1;
    }
    let ghost rest = s@.skip(start as int);
    proof {
        assert forall|j: int| 0 <= j < n - start implies !is_delim(d, #[trigger] rest[j]) by {
            assert(rest[j] == s@[start + j]);
        }
        lemma_first_delim(rest, d, n - start);
        assert(rest =~= s@.subrange(start as int, n as int));
    }
    let piece = String::from_str(s.substring_char(start, n));
    let ghost old_parts = parts@;
    parts.push(piece);
    proof {
        assert(views(parts@) =~= views(old_parts).push(piece@));
        assert(views(parts@) =~= views(old_parts) + split_by(rest, d));
    }
    parts
}

/// A line without the carriage return of a `\r\n` ending.
pub open spec fn strip_cr(l: Seq<char>) -> Seq<char> {
    if l.len() > 0 && l.last() == '\r' {
        l.drop_last()
    } else {
        l
    }
}

/// What `str::lines` yields: the pieces between `\n`, each without a `\r`
/// before its `\n`, and no empty piece after a final `\n`.
pub open spec fn lines(s: Seq<char>) -> Seq<Seq<char>> {
    let p = split_by(s, Delim::Char('\n'));
    let body = p.drop_last().map_values(|l: Seq<char>| strip_cr(l));
    if p.last().len() == 0 {
        body
    } else {
        body.push(p.last())
    }
}

fn strip_cr_str(l: &str) -> (r: String)
    ensures
        r@ == strip_cr(l@),
{
    let n = l.unicode_len();
    if n > 0 && l.get_char(n - 1) == '\r' {
        proof {
            assert(l@.subrange(0, n - 1) =~= l@.drop_last());
        }
        String::from_str(l.substring_char(0, n - 1))
    } else {
        String::from_str(l)
    }
}

/// `str::lines`, as owned strings.
pub fn lines_of(s: &str) -> (r: Vec<String>)
    ensures
        views(r@) == lines(s@),
{
    let parts = split_pieces(s, Delim::Char('\n'));
    proof {
        lemma_split_nonempty(s@, Delim::Char('\n'));
    }
    let ghost p = split_by(s@, Delim::Char('\n'));
    let last = parts.len() - 1;
    let mut out: Vec<String> = Vec::new();
    let mut k: usize = 0;
    while k < last
        invariant
            last + 1 == parts@.len(),
            views(parts@) == p,
            0 <= k <= last,
            views(out@) == p.take(k as int).map_values(|l: Seq<char>| strip_cr(l)),
        decreases last - k,
    {
        let line = strip_cr_str(parts[k].as_str());
        let ghost old_out = out@;
        out.push(line);
        proof {
            assert(parts@[k as int]@ == p[k as int]);
            assert(views(out@) =~= views(old_out).push(line@));
            assert(p.take(k + 1).map_values(|l: Seq<char>| strip_cr(l)) =~= p.take(
                k as int,
            ).map_values(|l: Seq<char>| strip_cr(l)).push(strip_cr(p[k as int])));
            assert(views(out@) =~= p.take(k + 1).map_values(|l: Seq<char>| strip_cr(l)));
        }
        k = k + 1;
    }
    proof {
        assert(p.take(last as int) =~= p.drop_last());
        assert(parts@[last as int]@ == p.last());
    }
    if parts[last].unicode_len() > 0 {
        let ghost old_out = out@;
        let tail = String::from_str(parts[last].as_str());
        out.push(tail);
        proof {
            assert(views(out@) =~= views(old_out).push(p.last()));
        }
    }
    out
}

/// Keeps the nonempty strings of `p`, in order.
pub open spec fn nonempty_only(p: Seq<Seq<char>>) -> Seq<Seq<char>>
    decreases p.len(),
{
    if p.len() == 0 {
        p
    } else if p.last().len() > 0 {
        nonempty_only(p.drop_last()).push(p.last())
    } else {
        nonempty_only(p.drop_last())
    }
}

/// What `str::split_whitespace` yields.
pub open spec fn words(s: Seq<char>) -> Seq<Seq<char>> {
    nonempty_only(split_by(s, Delim::Space))
}

/// `str::split_whitespace`, as owned strings.
pub fn words_of(s: &str) -> (r: Vec<String>)
    ensures
        views(r@) == words(s@),
{
    let parts = split_pieces(s, Delim::Space);
    let ghost p = split_by(s@, Delim::Space);
    let mut out: Vec<String> = Vec::new();
    let mut k: usize = 0;
    while k < parts.len()
        invariant
            views(parts@) == p,
            0 <= k <= parts@.len(),
            views(out@) == nonempty_only(p.take(k as int)),
        decreases parts@.len() - k,
    {
        proof {
            assert(p.take(k + 1).drop_last() =~= p.take(k as int));
            assert(parts@[k as int]@ == p[k as int]);
        }
        if parts[k].unicode_len() > 0 {
            let w = String::from_str(parts[k].as_str());
            let ghost old_out = out@;
            out.push(w);
            proof {
                assert(views(out@) =~= views(old_out).push(w@));
            }
        }
        k = k + 1;
    }
    proof {
        assert(p.take(parts@.len() as int) =~= p);
    }
    out
}

/// `c` equals the lowercase ASCII letter or symbol `p` once lowercased; the
/// Kelvin sign lowercases to `k`.
pub open spec fn fold_eq(c: char, p: char) -> bool {
    c == p || (('a' as u32) <= (p as u32) <= ('z' as u32) && (c as u32) + 32 == (p as u32)) || (
    p == 'k' && (c as u32) == 0x212a)
}

/// `p` occurs in `s` at index `i`, compared exactly or, with `ci`, as
/// `str::to_lowercase` would compare it to the lowercase ASCII pattern `p`.
pub open spec fn occurs_at(s: Seq<char>, i: int, p: Seq<char>, ci: bool) -> bool {
    0 <= i && i + p.len() <= s.len() && forall|j: int|
        0 <= j < p.len() ==> if ci {
            fold_eq(#[trigger] s[i + j], p[j])
        } else {
            s[i + j] == p[j]
        }
}

pub open spec fn occurs(s: Seq<char>, p: Seq<char>, ci: bool) -> bool {
    exists|i: int| occurs_at(s, i, p, ci)
}

fn char_matches(c: char, p: char, ci: bool) -> (r: bool)
    ensures
        r == (if ci {
            fold_eq(c, p)
        } else {
            c == p
        }),
{
    if !ci {
        return c == p;
    }
    let x = c as u32;
    let y = p as u32;
    c == p || ('a' as u32 <= y && y <= 'z' as u32 && x + 32 == y) || (p == 'k' && x == 0x212a)
}

pub fn occurs_at_exec(s: &str, i: usize, p: &str, ci: bool) -> (r: bool)
    ensures
        r == occurs_at(s@, i as int, p@, ci),
{
    let n = s.unicode_len();
    let m = p.unicode_len();
    if i > n || m > n - i {
        return false;
    }
    let mut j: usize = 0;
    while j < m
        invariant
            n == s@.len(),
            m == p@.len(),
            i + m <= n,
            0 <= j <= m,
            forall|k: int|
                0 <= k < j ==> if ci {
                    fold_eq(#[trigger] s@[i + k], p@[k])
                } else {
                    s@[i + k] == p@[k]
                },
        decreases m - j,
    {
        if !char_matches(s.get_char(i + j), p.get_char(j), ci) {
            return false;
        }
        j = j + 1;
    }
    true
}

/// The first index at which `p` occurs in `s`.
pub fn find(s: &str, p: &str, ci: bool) -> (r: Option<usize>)
    ensures
        match r {
            Some(i) => occurs_at(s@, i as int, p@, ci) && forall|k: int|
                0 <= k < i ==> !occurs_at(s@, k, p@, ci),
            None => !occurs(s@, p@, ci),
        },
{
    let n = s.unicode_len();
    let m = p.unicode_len();
    if m > n {
        return None;
    }
    let mut i: usize = 0;
    while i <= n - m
        invariant
            n == s@.len(),
            m == p@.len(),
            m <= n,
            0 <= i <= n - m + 1,
            forall|k: int| 0 <= k < i ==> !occurs_at(s@, k, p@, ci),
        decreases n - m + 1 - i,
    {
        if occurs_at_exec(s, i, p, ci) {
            return Some(i);
        }
        i = i + 1;
    }
    None
}

pub fn contains(s: &str, p: &str, ci: bool) -> (r: bool)
    ensures
        r == occurs(s@, p@, ci),
{
    find(s, p, ci).is_some()
}

pub fn starts_with(s: &str, p: &str, ci: bool) -> (r: bool)
    ensures
        r == occurs_at(s@, 0, p@, ci),
{
    occurs_at_exec(s, 0, p, ci)
}

pub fn str_eq(a: &str, b: &str) -> (r: bool)
    ensures
        r == (a@ == b@),
{
    let n = a.unicode_len();
    if n != b.unicode_len() {
        return false;
    }
    let r = occurs_at_exec(a, 0, b, false);
    proof {
        if r {
            assert forall|j: int| 0 <= j < n implies a@[j] == b@[j] by {
                assert(a@[0 + j] == b@[j]);
            }
            assert(a@ =~= b@);
        }
    }
    r
}

pub open spec fn digit(d: int) -> char {
    if d == 0 {
        '0'
    } else if d == 1 {
        '1'
    } else if d == 2 {
        '2'
    } else if d == 3 {
        '3'
    } else if d == 4 {
        '4'
    } else if d == 5 {
        '5'
    } else if d == 6 {
        '6'
    } else if d == 7 {
        '7'
    } else if d == 8 {
        '8'
    } else {
        '9'
    }
}

/// The decimal digits of `n`, as `{}` prints an unsigned integer.
pub open spec fn decimal(n: nat) -> Seq<char>
    decreases n,
{
    if n < 10 {
        seq![digit(n as int)]
    } else {
        decimal(n / 10).push(digit((n % 10) as int))
    }
}

/// `n` with at least two digits, as `{:02}` prints it.
pub open spec fn two_digits(n: nat) -> Seq<char> {
    if n < 10 {
        seq!['0'] + decimal(n)
    } else {
        decimal(n)
    }
}

fn digit_str(d: u128) -> (r: &'static str)
    requires
        d < 10,
    ensures
        r@ == seq![digit(d as int)],
{
    proof {
        reveal_strlit("0");
        reveal_strlit("1");
        reveal_strlit("2");
        reveal_strlit("3");
        reveal_strlit("4");
        reveal_strlit("5");
        reveal_strlit("6");
        reveal_strlit("7");
        reveal_strlit("8");
        reveal_strlit("9");
    }
    if d == 0 {
        "0"
    } else if d == 1 {
        "1"
    } else if d == 2 {
        "2"
    } else if d == 3 {
        "3"
    } else if d == 4 {
        "4"
    } else if d == 5 {
        "5"
    } else if d == 6 {
        "6"
    } else if d == 7 {
        "7"
    } else if d == 8 {
        "8"
    } else {
        "9"
    }
}

/// Appends the decimal digits of `n` to `out`.
pub fn push_decimal(out: &mut String, n: u128)
    ensures
        final(out)@ == old(out)@ + decimal(n as nat),
    decreases n,
{
    if n < 10 {
        out.append(digit_str(n));
    } else {
        push_decimal(out, n / 10);
        out.append(digit_str(n % 10));
        assert(old(out)@ + decimal(n as nat) =~= old(out)@ + decimal((n / 10) as nat) + seq![
            digit((n % 10) as int),
        ]);
    }
}

/// Appends `n` with at least two digits to `out`.
pub fn push_two_digits(out: &mut String, n: u64)
    ensures
        final(out)@ == old(out)@ + two_digits(n as nat),
{
    if n < 10 {
        proof {
            reveal_strlit("0");
        }
        out.append("0");
    }
    push_decimal(out, n as u128);
    assert(final(out)@ =~= old(out)@ + two_digits(n as nat));
}

/// Strings joined with `sep` between them.
pub open spec fn joined_with(ls: Seq<Seq<char>>, sep: Seq<char>) -> Seq<char>
    decreases ls.len(),
{
    if ls.len() == 0 {
        Seq::empty()
    } else if ls.len() == 1 {
        ls[0]
    } else {
        joined_with(ls.drop_last(), sep) + sep + ls.last()
    }
}

/// `[String]::join`.
pub fn join_strings(parts: &Vec<String>, sep: &str) -> (r: String)
    ensures
        r@ == joined_with(views(parts@), sep@),
{
    let ghost pv = views(parts@);
    let mut out = String::new();
    let mut k: usize = 0;
    while k < parts.len()
        invariant
            pv == views(parts@),
            0 <= k <= parts@.len(),
            out@ == joined_with(pv.take(k as int), sep@),
        decreases parts@.len() - k,
    {
        let ghost before = out@;
        proof {
            assert(pv.take(k + 1).drop_last() =~= pv.take(k as int));
            assert(parts@[k as int]@ == pv[k as int]);
        }
        if k > 0 {
            out.append(sep);
        }
        out.append(parts[k].as_str());
        proof {
            if k == 0 {
                assert(out@ =~= pv.take(1)[0]);
            } else {
                assert(out@ =~= before + sep@ + pv[k as int]);
            }
        }
        k = k + 1;
    }
    proof {
        assert(pv.take(parts@.len() as int) =~= pv);
    }
    out
}

} // verus!
