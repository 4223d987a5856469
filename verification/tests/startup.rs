use chrono::{Duration as ChronoDuration, Local};
use macttc::clock::{is_within_one_hour, last_success_is_within_one_hour};
use macttc::config::{AppConfig, EU_PRICE_TABLE_URL, NA_PRICE_TABLE_URL};
use macttc::schedule::{plan_startup_download, schedule_interval_seconds, startup_download_source};

fn config(url: &str, at: Option<&str>, source: Option<&str>) -> AppConfig {
    AppConfig {
        url: url.to_string(),
        destination_dir: "/dest".to_string(),
        schedule_enabled: false,
        schedule_interval_hours: 3,
        autostart_enabled: false,
        last_success_at: at.map(|s| s.to_string()),
        last_success_source_url: source.map(|s| s.to_string()),
    }
}

fn minutes_ago(m: i64) -> String {
    (Local::now() - ChronoDuration::minutes(m)).format("%Y-%m-%d %H:%M:%S").to_string()
}

#[test]
fn one_hour_window() {
    assert!(is_within_one_hour(0));
    assert!(is_within_one_hour(3599));
    assert!(is_within_one_hour(-3599));
    assert!(!is_within_one_hour(3600));
    assert!(!is_within_one_hour(-3600));
    assert!(!is_within_one_hour(i64::MIN));
    assert!(!is_within_one_hour(i64::MAX));
}

#[test]
fn future_times_within_an_hour_count_as_recent() {
    let soon = (Local::now() + ChronoDuration::minutes(20)).format("%Y-%m-%d %H:%M:%S").to_string();
    assert!(last_success_is_within_one_hour(&soon));
    let later = (Local::now() + ChronoDuration::minutes(90)).format("%Y-%m-%d %H:%M:%S").to_string();
    assert!(!last_success_is_within_one_hour(&later));
    assert!(!last_success_is_within_one_hour("2026-13-01 00:00:00"));
    assert!(!last_success_is_within_one_hour(""));
}

#[test]
fn startup_prefers_the_source_of_the_last_success() {
    let c = config(NA_PRICE_TABLE_URL, Some("x"), Some(EU_PRICE_TABLE_URL));
    assert_eq!(startup_download_source(&c, false).as_deref(), Some(EU_PRICE_TABLE_URL));
    assert_eq!(startup_download_source(&c, true), None);
    let c = config(EU_PRICE_TABLE_URL, None, None);
    assert_eq!(startup_download_source(&c, true).as_deref(), Some(EU_PRICE_TABLE_URL));
    let c = config(NA_PRICE_TABLE_URL, Some("x"), Some("https://example.com"));
    assert_eq!(startup_download_source(&c, false).as_deref(), Some(NA_PRICE_TABLE_URL));
    let c = config("https://example.com", None, Some("https://example.org"));
    assert_eq!(startup_download_source(&c, false), None);
}

#[test]
fn startup_download_reads_the_clock() {
    let c = config(NA_PRICE_TABLE_URL, Some(&minutes_ago(10)), Some(EU_PRICE_TABLE_URL));
    assert_eq!(plan_startup_download(&c), None);
    let c = config(NA_PRICE_TABLE_URL, Some(&minutes_ago(120)), Some(EU_PRICE_TABLE_URL));
    assert_eq!(plan_startup_download(&c).as_deref(), Some(EU_PRICE_TABLE_URL));
    let c = config(NA_PRICE_TABLE_URL, Some("garbage"), None);
    assert_eq!(plan_startup_download(&c).as_deref(), Some(NA_PRICE_TABLE_URL));
}

#[test]
fn schedule_interval_in_seconds() {
    assert_eq!(schedule_interval_seconds(), 10800);
}
