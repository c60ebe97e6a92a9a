use chrono::{DateTime, Utc};
use qubeherd::path::FilePath;
use qubeherd::usage::{
    parse_config, parse_harvest, percent, percent_now, Cached, Config, ConfigWindow, Harvest,
    HarvestWindow, Loaded, Moment, Sources, Usage, Windows, CALENDAR_FIRST, CALENDAR_LAST,
};
use serde_json::Value;

fn now() -> Moment {
    Moment::new(epoch("2026-09-08T12:00:00+00:00"), 0).expect("a clock reading")
}

fn epoch(rfc3339: &str) -> i64 {
    DateTime::parse_from_rfc3339(rfc3339).expect("fixed timestamp").timestamp()
}

fn percent_in(value: &Value, key: &str) -> Option<i64> {
    Some(value.get(key)?.as_f64()?.round() as i64)
}

fn harvest_window(value: Option<&Value>) -> Option<HarvestWindow> {
    let value = value?;
    Some(HarvestWindow {
        used_percentage: percent_in(value, "used_percentage"),
        resets_at: value.get("resets_at").and_then(|at| at.as_i64()),
    })
}

fn harvest_in(text: &str) -> Option<Harvest> {
    let value: Value = serde_json::from_str(text).ok()?;
    Some(Harvest {
        five_hour: harvest_window(value.get("five_hour")),
        seven_day: harvest_window(value.get("seven_day")),
        written_at: value.get("written_at").and_then(|at| at.as_i64()),
    })
}

fn config_window(value: Option<&Value>) -> Option<ConfigWindow> {
    let value = value?;
    Some(ConfigWindow {
        utilization: percent_in(value, "utilization"),
        resets_at: value.get("resets_at").and_then(|at| at.as_str()).map(String::from),
    })
}

fn config_in(text: &str) -> Option<Config> {
    let value: Value = serde_json::from_str(text).ok()?;
    Some(Config {
        cached_usage_utilization: value.get("cachedUsageUtilization").map(|cached| Cached {
            utilization: cached.get("utilization").map(|windows| Windows {
                five_hour: config_window(windows.get("five_hour")),
                seven_day: config_window(windows.get("seven_day")),
            }),
        }),
    })
}

fn harvest(five: u32, written: &str) -> String {
    format!(
        r#"{{"five_hour":{{"used_percentage":{five},"resets_at":{}}},
            "seven_day":{{"used_percentage":13,"resets_at":{}}},
            "written_at":{}}}"#,
        epoch("2026-09-08T15:00:00+00:00"),
        epoch("2026-09-15T11:00:00+00:00"),
        epoch(written),
    )
}

fn sources() -> Sources {
    Sources::from_env(None, None, None, "usage.json", ".tool.json")
}

#[test]
fn reads_a_fresh_harvest() {
    assert_eq!(
        parse_harvest(harvest_in(&harvest(78, "2026-09-08T11:55:00+00:00")), now()),
        Usage { five_hour: Some(78), seven_day: Some(13), stale: false }
    );
}

#[test]
fn flags_a_harvest_nothing_has_refreshed() {
    let usage = parse_harvest(harvest_in(&harvest(78, "2026-09-08T10:00:00+00:00")), now());
    assert!(usage.stale, "two hours without a render is stale");
    assert_eq!(usage.five_hour, Some(78), "the reading is kept, only marked");
}

#[test]
fn a_window_past_its_reset_is_empty_rather_than_stale() {
    let config = format!(
        r#"{{"five_hour":{{"used_percentage":80,"resets_at":{}}},"written_at":{}}}"#,
        epoch("2026-09-08T09:00:00+00:00"),
        epoch("2026-09-08T11:55:00+00:00"),
    );
    assert_eq!(parse_harvest(harvest_in(&config), now()).five_hour, Some(0));
}

#[test]
fn a_harvest_without_the_windows_reads_as_unknown() {
    // The staleness of a harvest carrying no reading at all says nothing:
    // reading falls through to the config cache on exactly this shape.
    let empty = parse_harvest(harvest_in(r#"{"written_at":0}"#), now());
    assert_eq!((empty.five_hour, empty.seven_day), (None, None));
    assert_eq!(parse_harvest(harvest_in("half a written file"), now()), Usage::default());
}

#[test]
fn reads_the_config_cache() {
    // Shape copied from a real configuration, trimmed to what we read.
    let config = r#"{"cachedUsageUtilization":{"fetchedAtMs":1788878612419,"utilization":{
        "five_hour":{"utilization":24,"resets_at":"2026-09-08T15:49:59.804477+00:00"},
        "seven_day":{"utilization":2,"resets_at":"2026-09-15T10:59:59.804499+00:00"},
        "seven_day_opus":null}}}"#;
    assert_eq!(
        parse_config(config_in(config), now()),
        Usage { five_hour: Some(24), seven_day: Some(2), stale: false }
    );
}

#[test]
fn a_config_window_past_its_reset_is_empty_too() {
    let config = r#"{"cachedUsageUtilization":{"utilization":{
        "five_hour":{"utilization":80,"resets_at":"2026-09-08T09:00:00+00:00"},
        "seven_day":{"utilization":40,"resets_at":"2026-09-15T10:59:59+00:00"}}}}"#;
    assert_eq!(
        parse_config(config_in(config), now()),
        Usage { five_hour: Some(0), seven_day: Some(40), stale: false }
    );
}

#[test]
fn a_config_without_the_cache_reads_as_unknown() {
    assert_eq!(
        parse_config(config_in(r#"{"hasCompletedOnboarding":true}"#), now()),
        Usage::default()
    );
}

#[test]
fn falls_back_to_the_config_and_says_the_reading_is_second_hand() {
    let usage = sources().read(Loaded::Missing, Loaded::Missing, now());
    assert_eq!(usage, Usage::default());
    assert!(!usage.stale, "nothing read at all is unknown, not stale");

    let config = r#"{"cachedUsageUtilization":{"utilization":{"five_hour":{"utilization":5}}}}"#;
    let cached = config_in(config).expect("parses");
    assert_eq!(
        sources().read(Loaded::Garbled, Loaded::Parsed(cached), now()),
        Usage { five_hour: Some(5), seven_day: None, stale: true }
    );
    assert_eq!(
        sources().read(Loaded::Missing, Loaded::Garbled, now()),
        Usage { five_hour: None, seven_day: None, stale: true }
    );
}

#[test]
fn the_harvest_is_preferred() {
    let text = harvest(78, "2026-09-08T11:55:00+00:00");
    let fresh = harvest_in(&text).expect("parses");
    let config = config_in(
        r#"{"cachedUsageUtilization":{"utilization":{"five_hour":{"utilization":5}}}}"#,
    )
    .expect("parses");
    assert!(!sources().needs_config(&Loaded::Parsed(fresh), now()));
    assert!(sources().needs_config(&Loaded::Missing, now()));
    assert_eq!(
        sources().read(Loaded::Parsed(fresh), Loaded::Parsed(config), now()),
        Usage { five_hour: Some(78), seven_day: Some(13), stale: false }
    );
}

#[test]
fn half_an_hour_is_the_edge_of_staleness() {
    let at = |written: &str| parse_harvest(harvest_in(&harvest(1, written)), now()).stale;
    assert!(!at("2026-09-08T11:30:01+00:00"));
    assert!(at("2026-09-08T11:30:00+00:00"));
    assert!(!at("2026-09-08T12:30:00+00:00"), "a file from the future is not stale");
    let undated = Harvest { five_hour: None, seven_day: None, written_at: None };
    assert!(parse_harvest(Some(undated), now()).stale);
}

#[test]
fn the_calendar_ends_where_chrono_says() {
    assert_eq!(CALENDAR_FIRST, DateTime::<Utc>::MIN_UTC.timestamp());
    assert_eq!(CALENDAR_LAST, DateTime::<Utc>::MAX_UTC.timestamp());
    let window = |resets_at| HarvestWindow { used_percentage: Some(9), resets_at: Some(resets_at) };
    assert_eq!(window(CALENDAR_FIRST).percent(now()), Some(0));
    assert_eq!(window(CALENDAR_FIRST - 1).percent(now()), Some(9));
    assert_eq!(window(i64::MIN).percent(now()), Some(9));
    let written = |at| Harvest { five_hour: None, seven_day: None, written_at: Some(at) };
    assert!(!parse_harvest(Some(written(CALENDAR_LAST)), now()).stale);
    assert!(parse_harvest(Some(written(CALENDAR_LAST + 1)), now()).stale);
    assert!(parse_harvest(Some(written(i64::MAX)), now()).stale);
}

#[test]
fn reset_times_are_points_in_time() {
    let window = |text: &str| ConfigWindow {
        utilization: Some(33),
        resets_at: Some(text.to_string()),
    };
    assert_eq!(window("2026-09-08T12:00:00+00:00").percent(now()), Some(0));
    assert_eq!(window("2026-09-08T12:00:00.000000001+00:00").percent(now()), Some(33));
    assert_eq!(window("2026-09-08T13:59:59+02:00").percent(now()), Some(0));
    assert_eq!(window("2026-09-08T11:00:00-02:00").percent(now()), Some(33));
    assert_eq!(window("yesterday").percent(now()), Some(33));
    assert_eq!(ConfigWindow { utilization: None, resets_at: None }.percent(now()), None);
    assert_eq!(
        window("2026-09-08T12:00:00Z").percent(Moment::new(now().secs, 5).expect("fine")),
        Some(0)
    );
}

#[test]
fn an_unread_window_past_its_reset_is_empty_all_the_same() {
    let past = Moment { secs: 0, nanos: 0 };
    assert_eq!(percent_now(None, Some(past), now()), Some(0));
    assert_eq!(percent_now(None, None, now()), None);
    let moment_later = Moment { secs: now().secs, nanos: 1 };
    assert_eq!(percent_now(Some(4), Some(moment_later), now()), Some(4));
}

#[test]
fn percentages_land_somewhere_sane() {
    for value in [-1e300, -0.6, -0.4, 0.0, 0.5, 24.4, 99.5, 100.4, 250.0, 1e300, f64::NAN] {
        let expected = value.round().clamp(0.0, 100.0) as u8;
        assert_eq!(percent(value.round() as i64), expected, "{value}");
    }
    let window = HarvestWindow { used_percentage: Some(1_000), resets_at: None };
    assert_eq!(window.percent(now()), Some(100));
    let window = ConfigWindow { utilization: Some(-3), resets_at: None };
    assert_eq!(window.percent(now()), Some(0));
}

#[test]
fn a_harvest_ages_but_is_not_forgotten() {
    let held = harvest_in(&harvest(78, "2026-09-08T11:55:00+00:00")).expect("parses");
    let at = |time: &str| {
        parse_harvest(Some(held), Moment::new(epoch(time), 0).expect("a clock reading"))
    };
    assert_eq!(
        at("2026-09-08T13:00:00+00:00"),
        Usage { five_hour: Some(78), seven_day: Some(13), stale: true }
    );
    assert_eq!(
        at("2026-09-09T13:00:00+00:00"),
        Usage { five_hour: Some(0), seven_day: Some(13), stale: true }
    );
    assert_eq!(
        at("2026-09-16T13:00:00+00:00"),
        Usage { five_hour: Some(0), seven_day: Some(0), stale: true }
    );
}

#[test]
fn a_clock_shows_no_leap_second() {
    assert!(Moment::new(0, 999_999_999).is_some());
    assert!(Moment::new(0, 1_000_000_000).is_none());
}

#[test]
fn usage_reads_like_the_log_line() {
    let usage = Usage { five_hour: Some(78), seven_day: None, stale: false };
    assert_eq!(usage.to_text(), "5h 78%, 7d --");
    let stale = Usage { five_hour: None, seven_day: Some(100), stale: true };
    assert_eq!(stale.to_text(), "5h --, 7d 100% (stale)");
}

#[test]
fn the_files_lie_where_the_environment_says() {
    let named = Sources::from_env(
        Some(FilePath::of("/run/user/1000")),
        Some(FilePath::of("/etc/tool/")),
        Some(FilePath::of("/home/me")),
        "usage.json",
        ".tool.json",
    );
    assert_eq!(named.harvest, FilePath::of("/run/user/1000/usage.json"));
    assert_eq!(named.config, FilePath::of("/etc/tool/.tool.json"));
    let at_home =
        Sources::from_env(None, None, Some(FilePath::of("/home/me")), "usage.json", ".tool.json");
    assert_eq!(at_home.harvest, FilePath::of("/tmp/usage.json"));
    assert_eq!(at_home.config, FilePath::of("/home/me/.tool.json"));
    assert_eq!(sources().config, FilePath::of(".tool.json"));
}
