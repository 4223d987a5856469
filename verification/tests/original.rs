use chrono::{Duration as ChronoDuration, Local};
use macttc::clock::last_success_is_within_one_hour;
use macttc::config::default_schedule_interval_hours;
use macttc::localization::apple_languages_primary_is_chinese;

#[test]
fn apple_languages_uses_only_primary_language_for_chinese_detection() {
    assert!(apple_languages_primary_is_chinese(
        r#"(
    "zh-Hant-TW",
    "en-US"
)"#
    ));

    assert!(!apple_languages_primary_is_chinese(
        r#"(
    "en-US",
    "zh-Hant-TW"
)"#
    ));

    assert!(!apple_languages_primary_is_chinese(
        r#"(
    "ja-JP",
    "zh-Hant-TW"
)"#
    ));
}

#[test]
fn startup_download_skips_when_last_success_is_recent() {
    let recent = (Local::now() - ChronoDuration::minutes(30))
        .format("%Y-%m-%d %H:%M:%S")
        .to_string();
    let old = (Local::now() - ChronoDuration::minutes(61))
        .format("%Y-%m-%d %H:%M:%S")
        .to_string();

    assert!(last_success_is_within_one_hour(&recent));
    assert!(!last_success_is_within_one_hour(&old));
    assert!(!last_success_is_within_one_hour("not a timestamp"));
}

#[test]
fn schedule_interval_is_fixed_to_three_hours() {
    assert_eq!(default_schedule_interval_hours(), 3);
}
