use statusline::usage_limits::clean_timestamp;
use statusline::usage_limits::collect;
use statusline::usage_limits::estimate_at;
use statusline::usage_limits::estimate_from_time;
use statusline::usage_limits::format_reset_times;
use statusline::usage_limits::parse_api_response;
use statusline::usage_limits::reset_texts;
use statusline::usage_limits::usage_from_local;
use statusline::usage_limits::access_token;
use statusline::usage_limits::ApiResponse;
use statusline::usage_limits::TokenFields;
use statusline::usage_limits::UsageStep;
use statusline::usage_limits::ApiWindow;
use statusline::usage_limits::LiveResponse;
use statusline::usage_limits::LocalClock;
use statusline::usage_limits::LocalUsage;
use statusline::usage_limits::LocalWindow;

fn clock(weekday: u8, hour: u8, minute: u8) -> LocalClock {
    LocalClock { weekday, hour, minute }
}

#[test]
fn reset_within_the_hour() {
    let (c, r) = reset_texts(1_800_000, clock(0, 14, 59), 0);
    assert_eq!(c, "14:59");
    assert_eq!(r, "30 min");
}

#[test]
fn reset_within_the_day() {
    let (c, r) = reset_texts(3_725_000, clock(0, 9, 5), 0);
    assert_eq!(c, "09:05");
    assert_eq!(r, "1 hr 2 min");
    let (_, r2) = reset_texts(7_200_999, clock(0, 9, 5), 0);
    assert_eq!(r2, "2 hr");
}

#[test]
fn reset_beyond_a_day() {
    let (c, r) = reset_texts(90_000_000, clock(2, 21, 59), 0);
    assert_eq!(c, "Wed 9:59 PM");
    assert_eq!(r, "Wed 9:59 PM");
    let (c2, _) = reset_texts(90_000_000, clock(6, 0, 5), 0);
    assert_eq!(c2, "Sun 12:05 AM");
    let (c3, _) = reset_texts(90_000_000, clock(4, 12, 0), 0);
    assert_eq!(c3, "Fri 12:00 PM");
}

#[test]
fn reset_already_due() {
    let (c, r) = reset_texts(999, clock(0, 1, 1), 0);
    assert_eq!((c.as_str(), r.as_str()), ("now", "now"));
    let (c2, _) = reset_texts(0, clock(0, 1, 1), 5_000);
    assert_eq!(c2, "now");
}

#[test]
fn timestamp_repair() {
    assert_eq!(clean_timestamp("2024-01-01T10:00:00.5"), "2024-01-01T10:00:00Z");
    assert_eq!(clean_timestamp("2024-01-01T10:00:00Z"), "2024-01-01T10:00:00Z");
    assert_eq!(clean_timestamp("2024-01-01T10:00:00+02:00"), "2024-01-01T10:00:00+02:00");
}

#[test]
fn past_timestamps_are_due() {
    let (c, r) = format_reset_times("2000-01-01T00:00:00Z");
    assert_eq!(c.as_deref(), Some("now"));
    assert_eq!(r.as_deref(), Some("now"));
    let (c2, _) = format_reset_times("2000-01-01T00:00:00.123456");
    assert_eq!(c2.as_deref(), Some("now"));
}

#[test]
fn unreadable_timestamp() {
    assert_eq!(format_reset_times("not a time"), (None, None));
}

#[test]
fn far_future_timestamp_shows_weekday() {
    let (c, r) = format_reset_times("2999-01-01T00:00:00Z");
    let c = c.unwrap();
    assert!(c.ends_with(" AM") || c.ends_with(" PM"));
    assert_eq!(Some(c), r);
}

#[test]
fn estimate_from_clock() {
    let e = estimate_at(clock(0, 13, 20));
    assert_eq!(e.five_hour_reset.as_deref(), Some("15:00"));
    assert_eq!(e.five_hour_remaining.as_deref(), Some("1h40m"));
    assert_eq!(e.five_hour_percent, None);
    let e2 = estimate_at(clock(0, 23, 0));
    assert_eq!(e2.five_hour_reset.as_deref(), Some("01:00"));
    assert_eq!(e2.five_hour_remaining.as_deref(), Some("2h0m"));
    let e3 = estimate_at(clock(0, 4, 59));
    assert_eq!(e3.five_hour_reset.as_deref(), Some("05:00"));
    assert_eq!(e3.five_hour_remaining.as_deref(), Some("0h1m"));
}

#[test]
fn estimate_now_is_never_empty() {
    let e = estimate_from_time();
    assert!(e.five_hour_reset.is_some());
    assert!(e.five_hour_remaining.is_some());
    assert!(e.seven_day_reset.is_none());
}

fn response(percent: Option<i64>) -> ApiResponse {
    ApiResponse {
        five_hour: Some(ApiWindow { utilization: percent, resets_at: Some("2000-01-01T00:00:00Z".to_string()) }),
        seven_day: Some(ApiWindow { utilization: Some(12), resets_at: None }),
    }
}

#[test]
fn api_response_reading() {
    let info = parse_api_response(&response(Some(42)));
    assert_eq!(info.five_hour_percent, Some(42));
    assert_eq!(info.five_hour_reset.as_deref(), Some("now"));
    assert_eq!(info.seven_day_percent, Some(12));
    assert_eq!(info.seven_day_reset, None);
}

#[test]
fn malformed_live_response_falls_through_to_estimate() {
    let out = collect(
        || None,
        || Some(LiveResponse { body: "{}".to_string(), response: ApiResponse { five_hour: None, seven_day: None } }),
        || None,
    );
    assert_eq!(out.answered, UsageStep::Estimate);
    assert_eq!(out.to_cache, None);
    assert!(out.info.five_hour_reset.is_some());
    assert!(out.info.five_hour_remaining.is_some());
    assert_eq!(out.info.five_hour_percent, None);
}

#[test]
fn live_response_is_cached_and_used() {
    let out = collect(
        || None,
        || Some(LiveResponse { body: "raw".to_string(), response: response(Some(7)) }),
        || panic!("no local read expected"),
    );
    assert_eq!(out.answered, UsageStep::Live);
    assert_eq!(out.to_cache.as_deref(), Some("raw"));
    assert_eq!(out.info.five_hour_percent, Some(7));
}

#[test]
fn cached_response_is_served_without_other_steps() {
    let out = collect(|| Some(response(Some(3))), || panic!("no live call expected"), || panic!("no local read expected"));
    assert_eq!(out.answered, UsageStep::Cached);
    assert_eq!(out.to_cache, None);
    assert_eq!(out.info.five_hour_percent, Some(3));
}

#[test]
fn live_response_without_percentage_is_not_cached() {
    let local = LocalUsage {
        five_hour: Some(LocalWindow { usage_percent: Some(30), reset_time: Some("at 14:59".to_string()), remaining: None }),
        seven_day: None,
    };
    let out = collect(
        || Some(response(None)),
        || Some(LiveResponse { body: "raw".to_string(), response: response(None) }),
        move || Some(local),
    );
    assert_eq!(out.answered, UsageStep::LocalFile);
    assert_eq!(out.to_cache, None);
    assert_eq!(out.info.five_hour_percent, Some(30));
    assert_eq!(out.info.five_hour_reset.as_deref(), Some("at 14:59"));
}

#[test]
fn token_choice() {
    let t = |s: &str| Some(s.to_string());
    assert_eq!(access_token(&TokenFields { nested: t("n"), camel: Some(t("c")), snake: Some(t("s")) }), t("n"));
    assert_eq!(access_token(&TokenFields { nested: None, camel: Some(t("c")), snake: Some(t("s")) }), t("c"));
    assert_eq!(access_token(&TokenFields { nested: None, camel: Some(None), snake: Some(t("s")) }), None);
    assert_eq!(access_token(&TokenFields { nested: None, camel: None, snake: Some(t("s")) }), t("s"));
    assert_eq!(access_token(&TokenFields { nested: None, camel: None, snake: None }), None);
}

#[test]
fn local_file_without_percentage_is_unusable() {
    let file = LocalUsage {
        five_hour: Some(LocalWindow { usage_percent: None, reset_time: Some("x".to_string()), remaining: None }),
        seven_day: None,
    };
    assert!(usage_from_local(Some(&file)).is_none());
    assert!(usage_from_local(None).is_none());
}
