use macttc::config::{
    ensure_destination_exists, destination_status, fixed_destination_for_home,
    fixed_destination_string, is_allowed_download_url, normalized_config, sanitize_loaded_config,
    validate_config, AppConfig, ConfigError, DESTINATION_FALLBACK, EU_PRICE_TABLE_URL,
    NA_PRICE_TABLE_URL,
};

const FIXED: &str = "/Users/alice/Documents/Elder Scrolls Online/live/AddOns/TamrielTradeCentre";
const SUFFIX: &str = "Documents/Elder Scrolls Online/live/AddOns/TamrielTradeCentre";

fn config(url: &str) -> AppConfig {
    AppConfig {
        url: url.to_string(),
        destination_dir: "/tmp/elsewhere".to_string(),
        schedule_enabled: true,
        schedule_interval_hours: 6,
        autostart_enabled: true,
        last_success_at: None,
        last_success_source_url: None,
    }
}

#[test]
fn only_the_two_price_tables_are_allowed() {
    assert!(is_allowed_download_url("https://us.tamrieltradecentre.com/download/PriceTable"));
    assert!(is_allowed_download_url("https://eu.tamrieltradecentre.com/download/PriceTable"));
    assert!(!is_allowed_download_url("http://us.tamrieltradecentre.com/download/PriceTable"));
    assert!(!is_allowed_download_url("https://us.tamrieltradecentre.com/download/PriceTable/"));
    assert!(!is_allowed_download_url(""));
}

#[test]
fn fixed_destination_is_the_addon_folder_under_home() {
    assert_eq!(fixed_destination_for_home("/Users/alice"), FIXED);
    assert_eq!(fixed_destination_for_home("/Users/alice/"), FIXED);
    assert_eq!(fixed_destination_for_home(""), SUFFIX);
}

#[test]
fn fixed_destination_uses_the_home_directory() {
    if let Ok(path) = fixed_destination_string() {
        assert!(path.ends_with(&format!("/{SUFFIX}")));
        assert!(path.len() > SUFFIX.len() + 1);
    }
}

#[test]
fn default_config_uses_na_and_the_fixed_interval() {
    let c = AppConfig::default();
    assert_eq!(c.url, NA_PRICE_TABLE_URL);
    assert!(c.destination_dir.ends_with(SUFFIX) || c.destination_dir == DESTINATION_FALLBACK);
    assert!(!c.schedule_enabled);
    assert_eq!(c.schedule_interval_hours, 3);
    assert!(!c.autostart_enabled);
    assert_eq!(c.last_success_at, None);
    assert_eq!(c.last_success_source_url, None);
}

#[test]
fn loading_replaces_an_unknown_source_and_fixes_destination_and_interval() {
    let loaded = sanitize_loaded_config(config("https://example.com/table.zip"), FIXED.to_string());
    assert_eq!(loaded.url, NA_PRICE_TABLE_URL);
    assert_eq!(loaded.destination_dir, FIXED);
    assert_eq!(loaded.schedule_interval_hours, 3);
    assert!(loaded.schedule_enabled);
    assert!(loaded.autostart_enabled);
}

#[test]
fn loading_keeps_eu_source_and_a_success_from_an_accepted_source() {
    let mut c = config(EU_PRICE_TABLE_URL);
    c.last_success_at = Some("2026-06-01 10:00:00".to_string());
    c.last_success_source_url = Some(EU_PRICE_TABLE_URL.to_string());
    let loaded = sanitize_loaded_config(c, FIXED.to_string());
    assert_eq!(loaded.url, EU_PRICE_TABLE_URL);
    assert_eq!(loaded.last_success_at.as_deref(), Some("2026-06-01 10:00:00"));
    assert_eq!(loaded.last_success_source_url.as_deref(), Some(EU_PRICE_TABLE_URL));
}

#[test]
fn loading_clears_a_success_from_an_unknown_source() {
    let mut c = config(EU_PRICE_TABLE_URL);
    c.last_success_at = Some("2026-06-01 10:00:00".to_string());
    c.last_success_source_url = Some("https://example.com".to_string());
    let loaded = sanitize_loaded_config(c, FIXED.to_string());
    assert_eq!(loaded.last_success_at, None);
    assert_eq!(loaded.last_success_source_url, None);

    let mut c = config(EU_PRICE_TABLE_URL);
    c.last_success_at = Some("2026-06-01 10:00:00".to_string());
    let loaded = sanitize_loaded_config(c, FIXED.to_string());
    assert_eq!(loaded.last_success_at, None);
}

#[test]
fn loading_twice_changes_nothing() {
    let mut c = config("bogus");
    c.last_success_source_url = Some(NA_PRICE_TABLE_URL.to_string());
    let once = sanitize_loaded_config(c, FIXED.to_string());
    let twice = sanitize_loaded_config(once.clone(), FIXED.to_string());
    assert_eq!(once.url, twice.url);
    assert_eq!(once.destination_dir, twice.destination_dir);
    assert_eq!(once.last_success_source_url, twice.last_success_source_url);
    assert_eq!(once.last_success_at, twice.last_success_at);
    assert_eq!(once.schedule_interval_hours, twice.schedule_interval_hours);
}

#[test]
fn a_recorded_success_survives_a_reload() {
    let mut c = config(NA_PRICE_TABLE_URL);
    c.record_success(
        "2026-06-01 12:34:56".to_string(),
        EU_PRICE_TABLE_URL.to_string(),
        FIXED.to_string(),
    );
    assert_eq!(c.url, EU_PRICE_TABLE_URL);
    assert_eq!(c.destination_dir, FIXED);
    let loaded = sanitize_loaded_config(c, FIXED.to_string());
    assert_eq!(loaded.last_success_at.as_deref(), Some("2026-06-01 12:34:56"));
    assert_eq!(loaded.last_success_source_url.as_deref(), Some(EU_PRICE_TABLE_URL));
    assert_eq!(loaded.url, EU_PRICE_TABLE_URL);
}

#[test]
fn validation_reports_each_rule_in_order() {
    let mut c = config("https://example.com");
    c.destination_dir = FIXED.to_string();
    c.schedule_interval_hours = 3;
    assert_eq!(validate_config(&c, FIXED, true), Err(ConfigError::DisallowedSource));
    c.url = NA_PRICE_TABLE_URL.to_string();
    c.destination_dir = "/tmp".to_string();
    assert_eq!(validate_config(&c, FIXED, true), Err(ConfigError::DestinationNotFixed));
    c.destination_dir = FIXED.to_string();
    assert_eq!(validate_config(&c, FIXED, false), Err(ConfigError::DestinationMissing));
    c.schedule_interval_hours = 4;
    assert_eq!(validate_config(&c, FIXED, true), Err(ConfigError::IntervalNotFixed));
    c.schedule_interval_hours = 3;
    assert_eq!(validate_config(&c, FIXED, true), Ok(()));
}

#[test]
fn normalization_fixes_destination_and_interval() {
    let n = normalized_config(config(EU_PRICE_TABLE_URL), FIXED.to_string(), true).unwrap();
    assert_eq!(n.destination_dir, FIXED);
    assert_eq!(n.schedule_interval_hours, 3);
    assert_eq!(n.url, EU_PRICE_TABLE_URL);
    assert_eq!(validate_config(&n, FIXED, true), Ok(()));
    assert_eq!(
        normalized_config(config("ftp://x"), FIXED.to_string(), true).err(),
        Some(ConfigError::DisallowedSource)
    );
    assert_eq!(
        normalized_config(config(NA_PRICE_TABLE_URL), FIXED.to_string(), false).err(),
        Some(ConfigError::DestinationMissing)
    );
}

#[test]
fn error_messages() {
    assert_eq!(ConfigError::DisallowedSource.message(), "下載來源只能選擇 NA 或 EU");
    assert_eq!(
        ConfigError::DestinationNotFixed.message(),
        "目的資料夾只能使用固定的 TamrielTradeCentre AddOn 路徑"
    );
    assert_eq!(
        ConfigError::DestinationMissing.message(),
        "找不到 TamrielTradeCentre AddOn 資料夾，無法下載"
    );
    assert_eq!(ConfigError::IntervalNotFixed.message(), "下載排程間隔只能是 3 小時");
    assert_eq!(ConfigError::HomeDirectoryUnavailable.message(), "無法取得使用者 home 目錄");
}

#[test]
fn choosing_a_source() {
    let mut c = config(NA_PRICE_TABLE_URL);
    assert_eq!(c.set_download_source("https://example.com".to_string()), Err(ConfigError::DisallowedSource));
    assert_eq!(c.url, NA_PRICE_TABLE_URL);
    assert_eq!(c.destination_dir, "/tmp/elsewhere");
    assert_eq!(c.schedule_interval_hours, 6);

    let r = c.set_download_source(EU_PRICE_TABLE_URL.to_string());
    assert_eq!(c.url, EU_PRICE_TABLE_URL);
    if r.is_ok() {
        assert!(c.destination_dir.ends_with(SUFFIX));
        assert_eq!(c.schedule_interval_hours, 3);
    } else {
        assert_eq!(r, Err(ConfigError::HomeDirectoryUnavailable));
    }
}

#[test]
fn schedule_and_autostart_switches() {
    let mut c = config(NA_PRICE_TABLE_URL);
    let _ = c.disable_schedule();
    assert!(!c.schedule_enabled);
    assert_eq!(c.schedule_interval_hours, 6);
    let _ = c.enable_schedule();
    assert!(c.schedule_enabled);
    assert_eq!(c.schedule_interval_hours, 3);
    let _ = c.toggle_autostart();
    assert!(!c.autostart_enabled);
    let r = c.toggle_autostart();
    assert!(c.autostart_enabled);
    if r.is_ok() {
        assert!(c.destination_dir.ends_with(SUFFIX));
    }
}

#[test]
fn a_run_request_keeps_the_stored_schedule_and_success() {
    let mut stored = config(NA_PRICE_TABLE_URL);
    stored.schedule_enabled = false;
    stored.autostart_enabled = true;
    stored.last_success_at = Some("2026-05-30 08:00:00".to_string());
    stored.last_success_source_url = Some(NA_PRICE_TABLE_URL.to_string());
    let mut request = config(EU_PRICE_TABLE_URL);
    request.schedule_enabled = true;
    request.autostart_enabled = false;
    request.adopt_stored_settings(&stored);
    assert_eq!(request.url, EU_PRICE_TABLE_URL);
    assert!(!request.schedule_enabled);
    assert!(request.autostart_enabled);
    assert_eq!(request.schedule_interval_hours, 3);
    assert_eq!(request.last_success_at.as_deref(), Some("2026-05-30 08:00:00"));
    assert_eq!(request.last_success_source_url.as_deref(), Some(NA_PRICE_TABLE_URL));
}

#[test]
fn destination_folder_checks() {
    let s = destination_status(FIXED.to_string(), false);
    assert_eq!(s.path, FIXED);
    assert!(!s.exists);
    assert_eq!(ensure_destination_exists(FIXED.to_string(), true), Ok(FIXED.to_string()));
    assert_eq!(
        ensure_destination_exists(FIXED.to_string(), false),
        Err(ConfigError::DestinationMissing)
    );
}

#[test]
fn duplicate_copies_every_field() {
    let mut c = config(EU_PRICE_TABLE_URL);
    c.last_success_at = Some("t".to_string());
    let d = c.duplicate();
    assert_eq!(d.url, c.url);
    assert_eq!(d.destination_dir, c.destination_dir);
    assert_eq!(d.schedule_interval_hours, c.schedule_interval_hours);
    assert_eq!(d.last_success_at, c.last_success_at);
}
