use macttc::config::{AppConfig, EU_PRICE_TABLE_URL, NA_PRICE_TABLE_URL};
use macttc::localization::{
    apple_languages_primary_is_chinese, locale_value_is_chinese, locale_values_are_chinese,
    tray_labels,
};
use macttc::menu::{data_time_text, initial_tray_checks, refreshed_tray_checks, website_source_url};

fn config() -> AppConfig {
    AppConfig {
        url: NA_PRICE_TABLE_URL.to_string(),
        destination_dir: "/dest".to_string(),
        schedule_enabled: true,
        schedule_interval_hours: 3,
        autostart_enabled: false,
        last_success_at: None,
        last_success_source_url: None,
    }
}

#[test]
fn unquoted_lists_use_the_first_language_line() {
    assert!(apple_languages_primary_is_chinese("(\n    zh-Hant-TW,\n    en-US\n)\n"));
    assert!(!apple_languages_primary_is_chinese("(\n    en-US,\n    zh-Hant-TW\n)\n"));
    assert!(apple_languages_primary_is_chinese("(\r\n  \r\n   ZH-Hans ,,\r\n)"));
    assert!(!apple_languages_primary_is_chinese("(\n)\n"));
    assert!(!apple_languages_primary_is_chinese(""));
}

#[test]
fn quoted_entries_ignore_case() {
    assert!(apple_languages_primary_is_chinese("(\"ZH-Hant\", \"en\")"));
    assert!(apple_languages_primary_is_chinese("(\"Zh\")"));
    assert!(!apple_languages_primary_is_chinese("(\"z\", \"zh\")"));
    assert!(!apple_languages_primary_is_chinese("(\n \"\",\n \"zh\"\n)"));
}

#[test]
fn a_single_quote_falls_back_to_lines() {
    assert!(apple_languages_primary_is_chinese("(\n  \"zh-Hant\n)"));
    assert!(!apple_languages_primary_is_chinese("(\n  \"en\n  zh\n)"));
}

#[test]
fn locale_values() {
    assert!(locale_value_is_chinese("zh_TW.UTF-8"));
    assert!(locale_value_is_chinese("ZH_CN"));
    assert!(!locale_value_is_chinese("en_US.UTF-8"));
    assert!(!locale_value_is_chinese("z"));
    assert!(locale_values_are_chinese(&vec!["en_US".to_string(), "zh_TW".to_string()]));
    assert!(!locale_values_are_chinese(&vec!["en_US".to_string(), "C".to_string()]));
    assert!(!locale_values_are_chinese(&vec![]));
}

#[test]
fn labels_follow_the_system_language() {
    let zh = tray_labels(true);
    assert_eq!(zh.show, "開啟MacTTC");
    assert_eq!(zh.schedule_title, "下載排程");
    assert_eq!(zh.schedule_off, "關閉排程");
    assert_eq!(zh.interval_3, "每 3 小時");
    assert_eq!(zh.data_time_title, "目前資料時間");
    assert_eq!(zh.data_time_empty, "尚無成功下載紀錄");
    assert_eq!(zh.autostart, "開機啟動");
    assert_eq!(zh.ttc_website, "前往TTC網站");
    assert_eq!(zh.quit, "退出");
    let en = tray_labels(false);
    assert_eq!(en.show, "Open MacTTC");
    assert_eq!(en.schedule_title, "Download Schedule");
    assert_eq!(en.schedule_off, "Turn Schedule Off");
    assert_eq!(en.interval_3, "Every 3 hours");
    assert_eq!(en.data_time_title, "Current Data Time");
    assert_eq!(en.data_time_empty, "No successful download yet");
    assert_eq!(en.autostart, "Launch at Login");
    assert_eq!(en.ttc_website, "Go to TTC Website");
    assert_eq!(en.quit, "Quit");
}

#[test]
fn exactly_one_schedule_state_is_checked() {
    let mut c = config();
    let checks = initial_tray_checks(&c);
    assert!(!checks.schedule_off && checks.interval_3 && !checks.autostart);
    c.schedule_enabled = false;
    let checks = refreshed_tray_checks(&c);
    assert!(checks.schedule_off && !checks.interval_3);
    c.schedule_enabled = true;
    c.schedule_interval_hours = 5;
    let checks = initial_tray_checks(&c);
    assert!(!checks.schedule_off && !checks.interval_3);
    let checks = refreshed_tray_checks(&c);
    assert!(!checks.schedule_off && checks.interval_3);
}

#[test]
fn data_time_and_website_source() {
    let labels = tray_labels(false);
    let mut c = config();
    assert_eq!(data_time_text(&labels, &c), "No successful download yet");
    assert_eq!(website_source_url(&c), NA_PRICE_TABLE_URL);
    c.last_success_at = Some("2026-06-01 10:00:00".to_string());
    c.last_success_source_url = Some(EU_PRICE_TABLE_URL.to_string());
    assert_eq!(data_time_text(&labels, &c), "2026-06-01 10:00:00");
    assert_eq!(website_source_url(&c), EU_PRICE_TABLE_URL);
}
