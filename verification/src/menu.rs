//! What the status menu shows for the saved settings.
use vstd::prelude::*;
use crate::config::AppConfig;
use crate::localization::TrayLabels;

verus! {

/// The check marks of the status menu.
#[derive(Clone, Copy, PartialEq, Eq, Debug)]
pub struct TrayChecks {
    /// "Turn Schedule Off" is checked.
    pub schedule_off: bool,
    /// "Every 3 hours" is checked.
    pub interval_3: bool,
    /// "Launch at Login" is checked.
    pub autostart: bool,
}

/// The check marks when the menu is built: the three-hour item is checked only
/// for a running schedule with a three-hour interval; with that interval (the one
/// loaded settings always have) exactly one schedule state is checked.
pub fn initial_tray_checks(config: &AppConfig) -> (r: TrayChecks)
    ensures
        r.schedule_off == !config@.schedule_enabled,
        r.interval_3 == (config@.schedule_enabled && config@.schedule_interval_hours == 3),
        r.autostart == config@.autostart_enabled,
        config@.schedule_interval_hours == 3 ==> r.schedule_off != r.interval_3,
{
    TrayChecks {
        schedule_off: !config.schedule_enabled,
        interval_3: config.schedule_enabled && config.schedule_interval_hours == 3,
        autostart: config.autostart_enabled,
    }
}

/// The check marks when the menu is refreshed after a change: exactly one
/// schedule state is checked.
pub fn refreshed_tray_checks(config: &AppConfig) -> (r: TrayChecks)
    ensures
        r.schedule_off == !config@.schedule_enabled,
        r.interval_3 == config@.schedule_enabled,
        r.autostart == config@.autostart_enabled,
        r.schedule_off != r.interval_3,
{
    TrayChecks {
        schedule_off: !config.schedule_enabled,
        interval_3: config.schedule_enabled,
        autostart: config.autostart_enabled,
    }
}

/// The data time shown in the menu: the time of the last success, or the
/// empty-state text where there is none.
pub fn data_time_text<'a>(labels: &'a TrayLabels, config: &'a AppConfig) -> (r: &'a str)
    ensures
        match config@.last_success_at {
            Some(t) => r@ == t,
            None => r@ == labels.data_time_empty@,
        },
{
    match &config.last_success_at {
        Some(t) => t.as_str(),
        None => labels.data_time_empty,
    }
}

/// The source whose TTC website the menu opens: that of the last success, or
/// else the saved source.
pub fn website_source_url(config: &AppConfig) -> (r: &str)
    ensures
        match config@.last_success_source_url {
            Some(u) => r@ == u,
            None => r@ == config@.url,
        },
{
    match &config.last_success_source_url {
        Some(u) => u.as_str(),
        None => config.url.as_str(),
    }
}

} // verus!
