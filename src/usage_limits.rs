//! The usage quota: the five-hour and seven-day windows, read from the usage
//! API, from a local file, or estimated from the clock.
use vstd::prelude::*;

use chrono::Datelike;
use chrono::TimeZone;
use chrono::Timelike;

use crate::text::decimal;
use crate::text::occurs;
use crate::text::push_decimal;
use crate::text::push_two_digits;
use crate::text::split_by;
use crate::text::split_pieces;
use crate::text::two_digits;
use crate::text::views;
use crate::text::Delim;

verus! {

/// The cache key of the raw API response.
pub const USAGE_CACHE_KEY: &'static str = "usage_limits_api";

/// Seconds a cached API response is served.
pub const USAGE_CACHE_TTL: u64 = 300;

pub struct UsageLimitsInfo {
    /// When the five-hour window resets, e.g. `14:59`.
    pub five_hour_reset: Option<String>,
    /// Time left in the five-hour window, e.g. `1 hr 8 min`.
    pub five_hour_remaining: Option<String>,
    /// Use of the five-hour window, in whole percent.
    pub five_hour_percent: Option<i64>,
    /// When the seven-day window resets, e.g. `Wed 9:59 PM`.
    pub seven_day_reset: Option<String>,
    /// Use of the seven-day window, in whole percent.
    pub seven_day_percent: Option<i64>,
}

impl UsageLimitsInfo {
    pub fn new() -> (r: UsageLimitsInfo)
        ensures
            r.is_empty(),
    {
        UsageLimitsInfo {
            five_hour_reset: None,
            five_hour_remaining: None,
            five_hour_percent: None,
            seven_day_reset: None,
            seven_day_percent: None,
        }
    }

    pub open spec fn is_empty(&self) -> bool {
        &&& self.five_hour_reset is None
        &&& self.five_hour_remaining is None
        &&& self.five_hour_percent is None
        &&& self.seven_day_reset is None
        &&& self.seven_day_percent is None
    }
}

/// A wall-clock reading in the local time zone.
#[derive(Clone, Copy)]
pub struct LocalClock {
    /// Days since Monday.
    pub weekday: u8,
    pub hour: u8,
    pub minute: u8,
}

impl LocalClock {
    pub open spec fn wf(&self) -> bool {
        self.weekday < 7 && self.hour < 24 && self.minute < 60
    }
}

/// The instant an RFC 3339 text denotes, in milliseconds since the epoch.
pub uninterp spec fn rfc3339_millis(s: Seq<char>) -> Option<i64>;

/// The earliest instant an RFC 3339 text can denote: the start of year 0000,
/// less a day for the offset, in milliseconds.
pub const RFC3339_MIN_MILLIS: i64 = -62_167_305_600_000;

/// The latest instant an RFC 3339 text can denote: the end of year 9999,
/// plus a day for the offset, in milliseconds.
pub const RFC3339_MAX_MILLIS: i64 = 253_402_387_200_000;

/// Relies on `chrono::DateTime::parse_from_rfc3339` and
/// `DateTime::timestamp_millis`: the instant of an RFC 3339 text, `None`
/// where the text is not one. The result depends on the text alone; the
/// parser reads a year of exactly four digits and an offset within a day,
/// so the instant lies within those years.
#[verifier::external_body]
fn parse_rfc3339_millis(s: &str) -> (r: Option<i64>)
    ensures
        r == rfc3339_millis(s@),
        r matches Some(m) ==> RFC3339_MIN_MILLIS <= m <= RFC3339_MAX_MILLIS,
{
    chrono::DateTime::parse_from_rfc3339(s).ok().map(|d| d.timestamp_millis())
}

/// The instants, in milliseconds, that chrono's dates cover (about 253,000
/// years either side of 1970, within its range of 262,143 years).
pub const CHRONO_SPAN_MILLIS: i64 = 8_000_000_000_000_000;

/// Relies on `chrono::Local` (`TimeZone::timestamp_millis_opt`): the local
/// wall clock at an instant, `None` only where the instant is out of
/// chrono's range; an instant in range gives a single local time. It depends
/// on the machine's time zone, so only the ranges of its fields are
/// promised; chrono panics only where the zone data on the machine is
/// malformed.
#[verifier::external_body]
fn local_clock_at(millis: i64) -> (r: Option<LocalClock>)
    ensures
        r matches Some(c) ==> c.wf(),
        -CHRONO_SPAN_MILLIS <= millis <= CHRONO_SPAN_MILLIS ==> r is Some,
{
    chrono::Local.timestamp_millis_opt(millis).single().map(
        |d|
            LocalClock {
                weekday: d.weekday().num_days_from_monday() as u8,
                hour: d.hour() as u8,
                minute: d.minute() as u8,
            },
    )
}

/// Relies on `chrono::Local::now`: the present instant in milliseconds and
/// the local wall clock at it. It depends on the time, so only the ranges
/// of the clock's fields are promised; chrono panics only where the zone
/// data on the machine is malformed or the system clock reads before 1970.
#[verifier::external_body]
pub(crate) fn local_now() -> (r: (i64, LocalClock))
    ensures
        r.1.wf(),
{
    let d = chrono::Local::now();
    (
        d.timestamp_millis(),
        LocalClock {
            weekday: d.weekday().num_days_from_monday() as u8,
            hour: d.hour() as u8,
            minute: d.minute() as u8,
        },
    )
}

/// A timestamp repaired for a second reading: cut at its first `.`, with a
/// `Z` added where it has neither a `Z` at its end nor a `+`.
pub open spec fn cleaned_timestamp(s: Seq<char>) -> Seq<char> {
    let c = split_by(s, Delim::Char('.'))[0];
    if (c.len() > 0 && c.last() == 'Z') || occurs(c, "+"@, false) {
        c
    } else {
        c + "Z"@
    }
}

pub fn clean_timestamp(s: &str) -> (r: String)
    ensures
        r@ == cleaned_timestamp(s@),
{
    let parts = split_pieces(s, Delim::Char('.'));
    proof {
        crate::text::lemma_split_nonempty(s@, Delim::Char('.'));
        assert(parts@[0]@ == views(parts@)[0]);
    }
    let mut c = parts[0].clone();
    let n = c.as_str().unicode_len();
    if (n > 0 && c.as_str().get_char(n - 1) == 'Z') || crate::text::contains(
        c.as_str(),
        "+",
        false,
    ) {
        c
    } else {
        c.append("Z");
        c
    }
}

/// Seconds in `diff_ms` milliseconds, truncated toward zero.
pub open spec fn whole_secs(diff_ms: int) -> int {
    if diff_ms >= 0 {
        diff_ms / 1000
    } else {
        -((-diff_ms) / 1000)
    }
}

pub open spec fn weekday_abbr(d: int) -> Seq<char> {
    if d == 0 {
        "Mon"@
    } else if d == 1 {
        "Tue"@
    } else if d == 2 {
        "Wed"@
    } else if d == 3 {
        "Thu"@
    } else if d == 4 {
        "Fri"@
    } else if d == 5 {
        "Sat"@
    } else {
        "Sun"@
    }
}

/// The clock as `%a %-I:%M %p` shows it, e.g. `Wed 9:59 PM`.
pub open spec fn day_time(c: LocalClock) -> Seq<char> {
    let h12: nat = if c.hour % 12 == 0 {
        12
    } else {
        (c.hour % 12) as nat
    };
    weekday_abbr(c.weekday as int) + " "@ + decimal(h12) + ":"@ + two_digits(c.minute as nat)
        + if c.hour < 12 {
        " AM"@
    } else {
        " PM"@
    }
}

/// The clock as `%H:%M` shows it.
pub open spec fn clock_time(hour: nat, minute: nat) -> Seq<char> {
    two_digits(hour) + ":"@ + two_digits(minute)
}

/// What is left of a window `secs` seconds long, for less than a day.
pub open spec fn remaining_text(secs: int) -> Seq<char> {
    if secs < 3600 {
        decimal((secs / 60) as nat) + " min"@
    } else if (secs % 3600) / 60 > 0 {
        decimal((secs / 3600) as nat) + " hr "@ + decimal(((secs % 3600) / 60) as nat) + " min"@
    } else {
        decimal((secs / 3600) as nat) + " hr"@
    }
}

/// The reset time and the time left, for a reset `secs` seconds ahead whose
/// local clock reads `c`: `now` for both once it is due; beyond a day both
/// show the weekday and time.
pub open spec fn reset_texts_of(secs: int, c: LocalClock) -> (Seq<char>, Seq<char>) {
    if secs <= 0 {
        ("now"@, "now"@)
    } else if secs >= 86400 {
        (day_time(c), day_time(c))
    } else {
        (clock_time(c.hour as nat, c.minute as nat), remaining_text(secs))
    }
}

fn push_day_time(out: &mut String, c: LocalClock)
    requires
        c.wf(),
    ensures
        final(out)@ == old(out)@ + day_time(c),
{
    let day = if c.weekday == 0 {
        "Mon"
    } else if c.weekday == 1 {
        "Tue"
    } else if c.weekday == 2 {
        "Wed"
    } else if c.weekday == 3 {
        "Thu"
    } else if c.weekday == 4 {
        "Fri"
    } else if c.weekday == 5 {
        "Sat"
    } else {
        "Sun"
    };
    out.append(day);
    out.append(" ");
    let h12: u64 = if c.hour % 12 == 0 {
        12
    } else {
        (c.hour % 12) as u64
    };
    push_decimal(out, h12 as u128);
    out.append(":");
    push_two_digits(out, c.minute as u64);
    if c.hour < 12 {
        out.append(" AM");
    } else {
        out.append(" PM");
    }
    assert(final(out)@ =~= old(out)@ + day_time(c));
}

fn clock_string(hour: u64, minute: u64) -> (r: String)
    ensures
        r@ == clock_time(hour as nat, minute as nat),
{
    let mut out = String::new();
    push_two_digits(&mut out, hour);
    out.append(":");
    push_two_digits(&mut out, minute);
    assert(out@ =~= clock_time(hour as nat, minute as nat));
    out
}

fn remaining_string(secs: u64) -> (r: String)
    requires
        0 < secs < 86400,
    ensures
        r@ == remaining_text(secs as int),
{
    let mut out = String::new();
    if secs < 3600 {
        push_decimal(&mut out, (secs / 60) as u128);
        out.append(" min");
    } else {
        push_decimal(&mut out, (secs / 3600) as u128);
        let m = (secs % 3600) / 60;
        if m > 0 {
            out.append(" hr ");
            push_decimal(&mut out, m as u128);
            out.append(" min");
        } else {
            out.append(" hr");
        }
    }
    assert(out@ =~= remaining_text(secs as int));
    out
}

/// The reset time and the time left, for a reset at `reset_ms` whose local
/// clock reads `clock`, seen at `now_ms`.
pub fn reset_texts(reset_ms: i64, clock: LocalClock, now_ms: i64) -> (r: (String, String))
    requires
        clock.wf(),
    ensures
        (r.0@, r.1@) == reset_texts_of(whole_secs(reset_ms - now_ms), clock),
{
    let diff: i128 = reset_ms as i128 - now_ms as i128;
    let secs: i128 = if diff >= 0 {
        diff / 1000
    } else {
        -((-diff) / 1000)
    };
    if secs <= 0 {
        return (String::from_str("now"), String::from_str("now"));
    }
    let s = secs as u64;
    if s >= 86400 {
        let mut a = String::new();
        push_day_time(&mut a, clock);
        let mut b = String::new();
        push_day_time(&mut b, clock);
        assert(a@ =~= day_time(clock));
        assert(b@ =~= day_time(clock));
        (a, b)
    } else {
        (clock_string(clock.hour as u64, clock.minute as u64), remaining_string(s))
    }
}

/// The instant of a reset timestamp: read as RFC 3339, or else once more
/// after repair.
pub open spec fn reset_instant(s: Seq<char>) -> Option<i64> {
    match rfc3339_millis(s) {
        Some(m) => Some(m),
        None => rfc3339_millis(cleaned_timestamp(s)),
    }
}

/// What `format_reset_times` gives for a timestamp: both texts where the
/// timestamp can be read, then those of its instant seen at some present
/// instant with the local clock of the reset; neither otherwise.
pub open spec fn reset_reading(iso: Seq<char>, clock: Option<String>, remaining: Option<String>) -> bool {
    match reset_instant(iso) {
        None => clock is None && remaining is None,
        Some(m) => clock is Some && remaining is Some && exists|c: LocalClock, now: i64|
            c.wf() && #[trigger] reset_texts_of(whole_secs(m - now), c) == (
                clock->0@,
                remaining->0@,
            ),
    }
}

/// The reset time and the time left of a window whose reset the API gave as
/// `iso_timestamp`, seen now: `now` for both once it is due; both absent
/// where the timestamp cannot be read.
pub fn format_reset_times(iso_timestamp: &str) -> (r: (Option<String>, Option<String>))
    ensures
        reset_reading(iso_timestamp@, r.0, r.1),
{
    let millis = match parse_rfc3339_millis(iso_timestamp) {
        Some(m) => Some(m),
        None => {
            let c = clean_timestamp(iso_timestamp);
            parse_rfc3339_millis(c.as_str())
        },
    };
    match millis {
        None => (None, None),
        Some(m) => match local_clock_at(m) {
            None => (None, None),
            Some(clock) => {
                let (now, _) = local_now();
                let (a, b) = reset_texts(m, clock, now);
                assert(reset_texts_of(whole_secs(m - now), clock) == (a@, b@));
                (Some(a), Some(b))
            },
        },
    }
}

/// One window of the usage API's response: `utilization`, rounded to a whole
/// percent, where it is a number, and `resets_at` where it is a string.
pub struct ApiWindow {
    pub utilization: Option<i64>,
    pub resets_at: Option<String>,
}

/// The usage API's response: each window present where its key is.
pub struct ApiResponse {
    pub five_hour: Option<ApiWindow>,
    pub seven_day: Option<ApiWindow>,
}

/// What the seven-day window shows of a timestamp: the reset time of
/// `format_reset_times`.
pub open spec fn reset_display_reading(iso: Seq<char>, clock: Option<String>) -> bool {
    match reset_instant(iso) {
        None => clock is None,
        Some(m) => clock is Some && exists|c: LocalClock, now: i64|
            c.wf() && #[trigger] reset_texts_of(whole_secs(m - now), c).0 == clock->0@,
    }
}

/// The reading of a response: the percentages it reports, and the reset
/// texts of each window's `resets_at` where it has one.
pub open spec fn api_info_matches(resp: ApiResponse, info: UsageLimitsInfo) -> bool {
    &&& info.five_hour_percent == match resp.five_hour {
        Some(w) => w.utilization,
        None => None,
    }
    &&& info.seven_day_percent == match resp.seven_day {
        Some(w) => w.utilization,
        None => None,
    }
    &&& match resp.five_hour {
        Some(w) => match w.resets_at {
            Some(t) => reset_reading(t@, info.five_hour_reset, info.five_hour_remaining),
            None => info.five_hour_reset is None && info.five_hour_remaining is None,
        },
        None => info.five_hour_reset is None && info.five_hour_remaining is None,
    }
    &&& match resp.seven_day {
        Some(w) => match w.resets_at {
            Some(t) => reset_display_reading(t@, info.seven_day_reset),
            None => info.seven_day_reset is None,
        },
        None => info.seven_day_reset is None,
    }
}

/// Reads the usage API's response.
pub fn parse_api_response(resp: &ApiResponse) -> (r: UsageLimitsInfo)
    ensures
        api_info_matches(*resp, r),
{
    let mut info = UsageLimitsInfo::new();
    match &resp.five_hour {
        Some(w) => {
            info.five_hour_percent = w.utilization;
            match &w.resets_at {
                Some(t) => {
                    let (clock, remaining) = format_reset_times(t.as_str());
                    info.five_hour_reset = clock;
                    info.five_hour_remaining = remaining;
                },
                None => {},
            }
        },
        None => {},
    }
    match &resp.seven_day {
        Some(w) => {
            info.seven_day_percent = w.utilization;
            match &w.resets_at {
                Some(t) => {
                    let (display, rest) = format_reset_times(t.as_str());
                    proof {
                        if let Some(m) = reset_instant(t@) {
                            let (c, now) = choose|c: LocalClock, now: i64|
                                c.wf() && #[trigger] reset_texts_of(whole_secs(m - now), c) == (
                                    display->0@,
                                    rest->0@,
                                );
                            assert(reset_texts_of(whole_secs(m - now), c).0 == display->0@);
                        }
                    }
                    info.seven_day_reset = display;
                },
                None => {},
            }
        },
        None => {},
    }
    info
}

/// A reading is usable where it has the five-hour percentage.
pub open spec fn usable(info: UsageLimitsInfo) -> bool {
    info.five_hour_percent is Some
}

/// A response that yields a usable reading: it has the five-hour window
/// with its percentage.
pub open spec fn usable_response(resp: ApiResponse) -> bool {
    resp.five_hour matches Some(w) && w.utilization is Some
}

/// A local file that yields a usable reading.
pub open spec fn usable_local(file: LocalUsage) -> bool {
    file.five_hour matches Some(w) && w.usage_percent is Some
}

/// The reading of a cached API response (`None` where there is none, or it
/// is no JSON), kept where usable.
pub fn usage_from_cached(resp: Option<&ApiResponse>) -> (r: Option<UsageLimitsInfo>)
    ensures
        r is Some <==> (resp is Some && usable_response(*resp->0)),
        r matches Some(info) ==> api_info_matches(*resp->0, info) && usable(info),
{
    match resp {
        None => None,
        Some(resp) => {
            let info = parse_api_response(resp);
            if info.five_hour_percent.is_some() {
                Some(info)
            } else {
                None
            }
        },
    }
}

/// The reading of a live API response (`None` where the call failed or gave
/// no JSON): a response without the five-hour key, or without its
/// percentage, is no reading.
pub fn usage_from_live(resp: Option<&ApiResponse>) -> (r: Option<UsageLimitsInfo>)
    ensures
        r is Some <==> (resp is Some && usable_response(*resp->0)),
        r matches Some(info) ==> api_info_matches(*resp->0, info) && usable(info),
{
    match resp {
        None => None,
        Some(resp) => usage_from_cached(Some(resp)),
    }
}

/// One window of the local usage file: `usage_percent` rounded to a whole
/// percent where it is a number, `reset_time` and `remaining` where they are
/// strings.
pub struct LocalWindow {
    pub usage_percent: Option<i64>,
    pub reset_time: Option<String>,
    pub remaining: Option<String>,
}

/// The local usage file: each window present where its key is.
pub struct LocalUsage {
    pub five_hour: Option<LocalWindow>,
    pub seven_day: Option<LocalWindow>,
}

pub open spec fn opt_text(o: Option<String>) -> Option<Seq<char>> {
    match o {
        Some(s) => Some(s@),
        None => None,
    }
}

/// The local file's reading: its fields as they stand.
pub open spec fn local_info_matches(file: LocalUsage, info: UsageLimitsInfo) -> bool {
    &&& info.five_hour_percent == match file.five_hour {
        Some(w) => w.usage_percent,
        None => None,
    }
    &&& opt_text(info.five_hour_reset) == match file.five_hour {
        Some(w) => opt_text(w.reset_time),
        None => None,
    }
    &&& opt_text(info.five_hour_remaining) == match file.five_hour {
        Some(w) => opt_text(w.remaining),
        None => None,
    }
    &&& info.seven_day_percent == match file.seven_day {
        Some(w) => w.usage_percent,
        None => None,
    }
    &&& opt_text(info.seven_day_reset) == match file.seven_day {
        Some(w) => opt_text(w.reset_time),
        None => None,
    }
}

fn copy_text(o: &Option<String>) -> (r: Option<String>)
    ensures
        opt_text(r) == opt_text(*o),
{
    match o {
        Some(s) => Some(s.clone()),
        None => None,
    }
}

/// The reading of the local usage file (`None` where it is absent or no
/// JSON), kept where usable.
pub fn usage_from_local(file: Option<&LocalUsage>) -> (r: Option<UsageLimitsInfo>)
    ensures
        r is Some <==> (file is Some && usable_local(*file->0)),
        r matches Some(info) ==> local_info_matches(*file->0, info) && usable(info),
{
    match file {
        None => None,
        Some(f) => {
            let mut info = UsageLimitsInfo::new();
            match &f.five_hour {
                Some(w) => {
                    info.five_hour_percent = w.usage_percent;
                    info.five_hour_reset = copy_text(&w.reset_time);
                    info.five_hour_remaining = copy_text(&w.remaining);
                },
                None => {},
            }
            match &f.seven_day {
                Some(w) => {
                    info.seven_day_percent = w.usage_percent;
                    info.seven_day_reset = copy_text(&w.reset_time);
                },
                None => {},
            }
            if info.five_hour_percent.is_some() {
                Some(info)
            } else {
                None
            }
        },
    }
}

/// The end of the five-hour block that holds `hour`: blocks start at hours
/// that are multiples of five.
pub open spec fn block_end(hour: int) -> int {
    (hour / 5 + 1) * 5
}

/// The estimate at local time `hour:minute`: the block resets at the top of
/// its end hour, and what is left is shown as `<h>h<m>m`.
pub open spec fn estimated_reset(hour: int) -> Seq<char> {
    two_digits((block_end(hour) % 24) as nat) + ":"@ + two_digits(0)
}

pub open spec fn estimated_remaining(hour: int, minute: int) -> Seq<char> {
    let hours = block_end(hour) - hour;
    let mins = 60 - minute;
    let h = if mins == 60 {
        hours
    } else {
        hours - 1
    };
    let m = if mins == 60 {
        0
    } else {
        mins
    };
    decimal(h as nat) + "h"@ + decimal(m as nat) + "m"@
}

/// The estimate from the clock alone: reset time and time left of the
/// five-hour block, and nothing else.
pub fn estimate_at(clock: LocalClock) -> (r: UsageLimitsInfo)
    requires
        clock.wf(),
    ensures
        r.five_hour_reset matches Some(t) && t@ == estimated_reset(clock.hour as int),
        r.five_hour_remaining matches Some(t) && t@ == estimated_remaining(
            clock.hour as int,
            clock.minute as int,
        ),
        r.five_hour_percent is None,
        r.seven_day_reset is None,
        r.seven_day_percent is None,
{
    let hour = clock.hour as u64;
    let end = (hour / 5 + 1) * 5;
    let hours = end - hour;
    let mins = 60 - clock.minute as u64;
    let mut reset = String::new();
    push_two_digits(&mut reset, end % 24);
    reset.append(":");
    push_two_digits(&mut reset, 0);
    assert(reset@ =~= estimated_reset(clock.hour as int));
    let h = if mins == 60 {
        hours
    } else {
        hours - 1
    };
    let m = if mins == 60 {
        0
    } else {
        mins
    };
    let mut remaining = String::new();
    push_decimal(&mut remaining, h as u128);
    remaining.append("h");
    push_decimal(&mut remaining, m as u128);
    remaining.append("m");
    assert(remaining@ =~= estimated_remaining(clock.hour as int, clock.minute as int));
    let mut info = UsageLimitsInfo::new();
    info.five_hour_reset = Some(reset);
    info.five_hour_remaining = Some(remaining);
    info
}

/// The estimate from the present local time.
pub fn estimate_from_time() -> (r: UsageLimitsInfo)
    ensures
        is_clock_estimate(r),
{
    let (_, clock) = local_now();
    estimate_at(clock)
}

/// An estimate from some local clock reading.
pub open spec fn is_clock_estimate(info: UsageLimitsInfo) -> bool {
    &&& is_estimate(info)
    &&& exists|c: LocalClock|
        c.wf() && #[trigger] estimated_reset(c.hour as int) == info.five_hour_reset->0@
            && estimated_remaining(c.hour as int, c.minute as int)
            == info.five_hour_remaining->0@
}

/// The step of the quota cascade that answers.
#[derive(Clone, Copy, PartialEq, Eq, Structural, Debug)]
pub enum UsageStep {
    Cached,
    Live,
    LocalFile,
    Estimate,
}

/// The first step with a usable reading: the cached response, the live
/// response, the local file; else the estimate.
pub open spec fn answering_step(
    cached: Option<ApiResponse>,
    live: Option<ApiResponse>,
    local: Option<LocalUsage>,
) -> UsageStep {
    if cached is Some && usable_response(cached->0) {
        UsageStep::Cached
    } else if live is Some && usable_response(live->0) {
        UsageStep::Live
    } else if local is Some && usable_local(local->0) {
        UsageStep::LocalFile
    } else {
        UsageStep::Estimate
    }
}

/// An estimate's shape: reset time and time left, no percentage.
pub open spec fn is_estimate(info: UsageLimitsInfo) -> bool {
    &&& info.five_hour_reset is Some
    &&& info.five_hour_remaining is Some
    &&& info.five_hour_percent is None
    &&& info.seven_day_reset is None
    &&& info.seven_day_percent is None
}

/// The token fields of the stored credentials: `accessToken` of the nested
/// OAuth object where it is a string, and the top-level `accessToken` and
/// `access_token` keys, each absent or present with its value where that is
/// a string.
pub struct TokenFields {
    pub nested: Option<String>,
    pub camel: Option<Option<String>>,
    pub snake: Option<Option<String>>,
}

/// The access token: the nested one; else the top-level `accessToken` where
/// that key is present (even when its value is no string); else
/// `access_token`.
pub open spec fn chosen_token(f: TokenFields) -> Option<Seq<char>> {
    match f.nested {
        Some(t) => Some(t@),
        None => match f.camel {
            Some(v) => opt_text(v),
            None => match f.snake {
                Some(v) => opt_text(v),
                None => None,
            },
        },
    }
}

pub fn access_token(f: &TokenFields) -> (r: Option<String>)
    ensures
        opt_text(r) == chosen_token(*f),
{
    match &f.nested {
        Some(t) => Some(t.clone()),
        None => match &f.camel {
            Some(v) => copy_text(v),
            None => match &f.snake {
                Some(v) => copy_text(v),
                None => None,
            },
        },
    }
}

/// A live call's outcome: the raw body and the response read from it.
pub struct LiveResponse {
    pub body: String,
    pub response: ApiResponse,
}

pub open spec fn live_view(l: Option<LiveResponse>) -> Option<ApiResponse> {
    match l {
        Some(x) => Some(x.response),
        None => None,
    }
}

/// What the quota cascade did: the reading, the step that answered it, and
/// the text to keep in the cache.
pub struct UsageOutcome {
    pub info: UsageLimitsInfo,
    pub answered: UsageStep,
    pub to_cache: Option<String>,
}

/// Collects the usage quota through the cascade: the cached API response
/// where usable; else a live call (`fetch_live`), whose body is to be
/// cached where it is usable; else the local file; else the estimate from
/// the clock. A step is taken only where the ones before it found nothing
/// usable, and the reading is never empty.
pub fn collect<C, L, F>(read_cache: C, fetch_live: L, read_local: F) -> (r: UsageOutcome) where
    C: FnOnce() -> Option<ApiResponse>,
    L: FnOnce() -> Option<LiveResponse>,
    F: FnOnce() -> Option<LocalUsage>,

    requires
        call_requires(read_cache, ()),
        call_requires(fetch_live, ()),
        call_requires(read_local, ()),
    ensures
        usable(r.info) || is_clock_estimate(r.info),
        r.to_cache is Some <==> r.answered == UsageStep::Live,
        exists|c: Option<ApiResponse>| #[trigger]
            call_ensures(read_cache, (), c) && if c is Some && usable_response(c->0) {
                r.answered == UsageStep::Cached && api_info_matches(c->0, r.info)
            } else {
                exists|l: Option<LiveResponse>| #[trigger]
                    call_ensures(fetch_live, (), l) && if live_view(l) is Some && usable_response(
                        live_view(l)->0,
                    ) {
                        r.answered == UsageStep::Live && r.to_cache->0@ == l->0.body@
                            && api_info_matches(live_view(l)->0, r.info)
                    } else {
                        exists|f: Option<LocalUsage>| #[trigger]
                            call_ensures(read_local, (), f) && r.answered == answering_step(
                                c,
                                live_view(l),
                                f,
                            ) && if f is Some && usable_local(f->0) {
                                local_info_matches(f->0, r.info) && usable(r.info)
                            } else {
                                is_clock_estimate(r.info)
                            }
                    }
            },
{
    let c = read_cache();
    let from_cache = match &c {
        Some(resp) => usage_from_cached(Some(resp)),
        None => None,
    };
    if let Some(info) = from_cache {
        return UsageOutcome { info, answered: UsageStep::Cached, to_cache: None };
    }
    let l = fetch_live();
    match &l {
        Some(live) => match usage_from_live(Some(&live.response)) {
            Some(info) => {
                return UsageOutcome {
                    info,
                    answered: UsageStep::Live,
                    to_cache: Some(live.body.clone()),
                };
            },
            None => {},
        },
        None => {},
    }
    let f = read_local();
    let from_local = match &f {
        Some(file) => usage_from_local(Some(file)),
        None => None,
    };
    if let Some(info) = from_local {
        return UsageOutcome { info, answered: UsageStep::LocalFile, to_cache: None };
    }
    UsageOutcome { info: estimate_from_time(), answered: UsageStep::Estimate, to_cache: None }
}

/// The quota cascade falls through: where the cache holds nothing usable,
/// the live response lacks the five-hour key and no local file is there,
/// the estimate answers, and an estimate always has a reset time.
pub proof fn lemma_quota_falls_through_to_estimate(
    cached: Option<ApiResponse>,
    live: ApiResponse,
    info: UsageLimitsInfo,
)
    requires
        !(cached is Some && usable_response(cached->0)),
        live.five_hour is None,
        is_estimate(info),
    ensures
        answering_step(cached, Some(live), None) == UsageStep::Estimate,
        info.five_hour_reset is Some,
{
}

} // verus!
