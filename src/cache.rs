//! A time-to-live cache of text values, one file per key in a directory.
//!
//! The library decides the file of each key and whether an entry is still
//! fresh; reading, writing and removing the files is left to the caller.
use vstd::prelude::*;

use crate::paths::home_dir;

verus! {

/// The result of `char::is_alphanumeric` on `c`.
pub uninterp spec fn is_alnum(c: char) -> bool;

/// An ASCII letter or digit.
pub open spec fn ascii_alnum(c: char) -> bool {
    'a' <= c <= 'z' || 'A' <= c <= 'Z' || '0' <= c <= '9'
}

/// Relies on `char::is_alphanumeric`: whether `c` is alphabetic or numeric in
/// Unicode's terms; among ASCII characters exactly the letters and digits
/// are.
#[verifier::external_body]
fn alphanumeric(c: char) -> (r: bool)
    ensures
        r == is_alnum(c),
        c < '\u{80}' ==> (r <==> ascii_alnum(c)),
{
    c.is_alphanumeric()
}

/// The characters a key keeps on disk.
pub open spec fn key_char_allowed(c: char) -> bool {
    is_alnum(c) || c == '-' || c == '_'
}

/// The file name of a key: every character outside letters, digits, `-` and
/// `_` becomes `_`. Two keys that differ only there share a file.
pub open spec fn sanitized(key: Seq<char>) -> Seq<char> {
    key.map_values(|c: char| if key_char_allowed(c) { c } else { '_' })
}

/// A path below a directory, joined as `Path::join` joins a relative name.
pub open spec fn joined(dir: Seq<char>, name: Seq<char>) -> Seq<char> {
    if dir.len() == 0 || dir.last() == '/' {
        dir + name
    } else {
        dir + seq!['/'] + name
    }
}

/// Sanitizing is idempotent: a sanitized key is its own file name.
pub proof fn lemma_sanitize_idempotent(key: Seq<char>)
    ensures
        sanitized(sanitized(key)) == sanitized(key),
{
    assert(sanitized(sanitized(key)) =~= sanitized(key));
}

/// Sanitizing may join keys: two keys of one length that differ only where
/// both hold characters outside the allowed set share a file name.
pub proof fn lemma_sanitize_collision(a: Seq<char>, b: Seq<char>)
    requires
        a.len() == b.len(),
        forall|i: int|
            0 <= i < a.len() && #[trigger] a[i] != b[i] ==> !key_char_allowed(a[i])
                && !key_char_allowed(b[i]),
    ensures
        sanitized(a) == sanitized(b),
{
    assert(sanitized(a) =~= sanitized(b));
}

/// A file name holds no ASCII character but letters, digits, `-` and `_`:
/// no path separator, dot or space.
pub open spec fn file_safe(name: Seq<char>) -> bool {
    forall|i: int|
        0 <= i < name.len() && #[trigger] name[i] < '\u{80}' ==> ascii_alnum(name[i]) || name[i]
            == '-' || name[i] == '_'
}

/// The file name of `key`.
pub fn sanitize_key(key: &str) -> (r: String)
    ensures
        r@ == sanitized(key@),
        file_safe(r@),
{
    let n = key.unicode_len();
    let mut out = String::new();
    let mut i: usize = 0;
    while i < n
        invariant
            n == key@.len(),
            0 <= i <= n,
            out@ == sanitized(key@.take(i as int)),
            file_safe(out@),
        decreases n - i,
    {
        let c = key.get_char(i);
        let ghost before = out@;
        assert(key@.take(i + 1) =~= key@.take(i as int).push(c));
        if alphanumeric(c) || c == '-' || c == '_' {
            out.append(key.substring_char(i, i + 1));
            assert(key@.subrange(i as int, i + 1) =~= seq![c]);
        } else {
            proof {
                reveal_strlit("_");
            }
            out.append("_");
        }
        assert(out@ =~= sanitized(key@.take(i + 1)));
        i = i + 1;
    }
    assert(key@.take(n as int) =~= key@);
    out
}

/// Whether a cache entry may be served.
#[derive(Clone, Copy, PartialEq, Eq, Structural, Debug)]
pub enum Freshness {
    /// No entry, or no age could be taken of it.
    Missing,
    /// Older than the time to live: it is to be removed and not served.
    Stale,
    Fresh,
}

/// An age of `secs` seconds and `nanos` nanoseconds exceeds `ttl_secs`.
pub open spec fn age_exceeds(secs: nat, nanos: nat, ttl_secs: nat) -> bool {
    secs > ttl_secs || (secs == ttl_secs && nanos > 0)
}

pub open spec fn freshness_of(age: Option<(u64, u32)>, ttl_secs: u64) -> Freshness {
    match age {
        None => Freshness::Missing,
        Some((secs, nanos)) => if age_exceeds(secs as nat, nanos as nat, ttl_secs as nat) {
            Freshness::Stale
        } else {
            Freshness::Fresh
        },
    }
}

/// Judges an entry by its age (whole seconds and nanoseconds since it was
/// written; `None` where the entry or its time stamp cannot be read, or lies
/// in the future).
pub fn classify_age(age: Option<(u64, u32)>, ttl_secs: u64) -> (r: Freshness)
    ensures
        r == freshness_of(age, ttl_secs),
{
    match age {
        None => Freshness::Missing,
        Some((secs, nanos)) => {
            if secs > ttl_secs || (secs == ttl_secs && nanos > 0) {
                Freshness::Stale
            } else {
                Freshness::Fresh
            }
        },
    }
}

/// The cache directory as files see it: for each path, its content and the
/// time it was last written, in nanoseconds.
pub type CacheFiles = Map<Seq<char>, (Seq<char>, int)>;

/// The age that a reader at `now` takes of an entry written at `written`.
pub open spec fn age_at(written: int, now: int) -> Option<(u64, u32)> {
    if now < written || (now - written) / 1_000_000_000 > u64::MAX {
        None
    } else {
        Some((((now - written) / 1_000_000_000) as u64, ((now - written) % 1_000_000_000) as u32))
    }
}

pub struct Cache {
    dir: String,
}

impl Cache {
    /// The directory that holds the entries.
    pub closed spec fn dir_view(&self) -> Seq<char> {
        self.dir@
    }

    /// The file that holds the entry of `key`.
    pub open spec fn path_of(&self, key: Seq<char>) -> Seq<char> {
        joined(self.dir_view(), sanitized(key))
    }

    /// What `set` leaves on disk: the file of `key` holds `value`, written
    /// at `now`.
    pub open spec fn after_set(
        &self,
        files: CacheFiles,
        key: Seq<char>,
        value: Seq<char>,
        now: int,
    ) -> CacheFiles {
        files.insert(self.path_of(key), (value, now))
    }

    /// What `get` returns at `now`, and what it leaves on disk.
    pub open spec fn get_at(&self, files: CacheFiles, key: Seq<char>, ttl_secs: u64, now: int) -> (
        Option<Seq<char>>,
        CacheFiles,
    ) {
        let p = self.path_of(key);
        let age = if files.contains_key(p) {
            age_at(files[p].1, now)
        } else {
            None
        };
        match freshness_of(age, ttl_secs) {
            Freshness::Missing => (None, files),
            Freshness::Stale => (None, files.remove(p)),
            Freshness::Fresh => (Some(files[p].0), files),
        }
    }

    /// The cache in the per-user cache directory: `.cache/statusline-rs`
    /// under the home directory, or a directory under `/tmp` where no home
    /// is known.
    pub fn new() -> (r: Cache)
        ensures
            r.dir_view() == "/tmp/statusline-rs-cache"@ || exists|home: Seq<char>|
                r.dir_view() == #[trigger] joined(home, ".cache/statusline-rs"@),
    {
        match home_dir() {
            Some(home) => {
                let ghost h = home@;
                let mut dir = home;
                let n = dir.as_str().unicode_len();
                proof {
                    reveal_strlit("/");
                }
                if n > 0 && dir.as_str().get_char(n - 1) != '/' {
                    dir.append("/");
                }
                dir.append(".cache/statusline-rs");
                assert(dir@ =~= joined(h, ".cache/statusline-rs"@));
                Cache { dir }
            },
            None => Cache { dir: String::from_str("/tmp/statusline-rs-cache") },
        }
    }

    /// A cache whose entries live in `dir`.
    pub fn with_dir(dir: &str) -> (r: Cache)
        ensures
            r.dir_view() == dir@,
    {
        Cache { dir: String::from_str(dir) }
    }

    pub fn dir(&self) -> (r: &str)
        ensures
            r@ == self.dir_view(),
    {
        self.dir.as_str()
    }

    /// The file that holds the entry of `key`.
    pub fn key_path(&self, key: &str) -> (r: String)
        ensures
            r@ == self.path_of(key@),
    {
        let name = sanitize_key(key);
        let mut path = self.dir.clone();
        let n = self.dir.as_str().unicode_len();
        proof {
            reveal_strlit("/");
        }
        if n > 0 && self.dir.as_str().get_char(n - 1) != '/' {
            path.append("/");
        }
        path.append(name.as_str());
        assert(path@ =~= self.path_of(key@));
        path
    }
}

/// A value just written is read back: at the time of writing, and at any
/// later time within its time to live.
pub proof fn lemma_get_after_set(
    cache: Cache,
    files: CacheFiles,
    key: Seq<char>,
    value: Seq<char>,
    written: int,
    now: int,
    ttl_secs: u64,
)
    requires
        written <= now,
        now - written <= ttl_secs * 1_000_000_000,
    ensures
        cache.get_at(cache.after_set(files, key, value, written), key, ttl_secs, now).0 == Some(
            value,
        ),
{
    let d = now - written;
    assert(d / 1_000_000_000 <= ttl_secs) by (nonlinear_arith)
        requires
            0 <= d <= ttl_secs * 1_000_000_000,
    ;
    assert(d / 1_000_000_000 == ttl_secs ==> d % 1_000_000_000 == 0) by (nonlinear_arith)
        requires
            0 <= d <= ttl_secs * 1_000_000_000,
    ;
}

/// An entry older than its time to live is not served and is removed, so a
/// later read, with any time to live, finds nothing.
pub proof fn lemma_expired_entry_removed(
    cache: Cache,
    files: CacheFiles,
    key: Seq<char>,
    ttl_secs: u64,
    now: int,
    later: int,
    later_ttl_secs: u64,
)
    requires
        files.contains_key(cache.path_of(key)),
        files[cache.path_of(key)].1 <= now,
        now - files[cache.path_of(key)].1 > ttl_secs * 1_000_000_000,
        (now - files[cache.path_of(key)].1) / 1_000_000_000 <= u64::MAX,
    ensures
        cache.get_at(files, key, ttl_secs, now).0 == None::<Seq<char>>,
        !cache.get_at(files, key, ttl_secs, now).1.contains_key(cache.path_of(key)),
        cache.get_at(cache.get_at(files, key, ttl_secs, now).1, key, later_ttl_secs, later).0
            == None::<Seq<char>>,
{
    let d = now - files[cache.path_of(key)].1;
    assert(d / 1_000_000_000 > ttl_secs || (d / 1_000_000_000 == ttl_secs && d % 1_000_000_000
        > 0)) by (nonlinear_arith)
        requires
            d > ttl_secs * 1_000_000_000,
            ttl_secs >= 0,
    ;
}

} // verus!
