//! When downloads happen on their own: the start-up download and the schedule.
use vstd::prelude::*;
use crate::clock::{last_success_is_within_one_hour, naive_time_parses};
use crate::config::{
    allowed_download_url, allowed_optional_url, default_schedule_interval_hours,
    is_allowed_download_url, AppConfig, ConfigView,
};

verus! {

/// The schedule interval in seconds.
pub fn schedule_interval_seconds() -> (r: u64)
    ensures
        r == 3 * 60 * 60,
{
    default_schedule_interval_hours() * 60 * 60
}

/// The source of the start-up download, where there is one. There is none when
/// the last success lies less than an hour from now (`last_success_is_recent`).
/// Otherwise the source of the last success is used when it is an accepted one,
/// else the saved source; a source that is not accepted is never used.
pub open spec fn startup_source(c: ConfigView, last_success_is_recent: bool) -> Option<Seq<char>> {
    if c.last_success_at is Some && last_success_is_recent {
        None
    } else {
        let candidate = if allowed_optional_url(c.last_success_source_url) {
            c.last_success_source_url->Some_0
        } else {
            c.url
        };
        if allowed_download_url(candidate) {
            Some(candidate)
        } else {
            None
        }
    }
}

/// The source of the start-up download for the settings `config`, given whether
/// its last success lies less than an hour from now.
pub fn startup_download_source(config: &AppConfig, last_success_is_recent: bool) -> (r: Option<
    String,
>)
    ensures
        r.deep_view() == startup_source(config@, last_success_is_recent),
{
    if config.last_success_at.is_some() && last_success_is_recent {
        return None;
    }
    let candidate = match &config.last_success_source_url {
        Some(u) => {
            if is_allowed_download_url(u.as_str()) {
                u.clone()
            } else {
                config.url.clone()
            }
        },
        None => config.url.clone(),
    };
    if is_allowed_download_url(candidate.as_str()) {
        Some(candidate)
    } else {
        None
    }
}

/// The source of the start-up download, reading the clock to tell whether the
/// last success is less than an hour old. A last success whose time is not a
/// timestamp never counts as recent.
pub fn plan_startup_download(config: &AppConfig) -> (r: Option<String>)
    ensures
        exists|recent: bool|
            #![trigger startup_source(config@, recent)]
            r.deep_view() == startup_source(config@, recent) && (recent ==> (
            config@.last_success_at matches Some(t) && naive_time_parses(t))),
{
    let recent = match &config.last_success_at {
        Some(t) => last_success_is_within_one_hour(t.as_str()),
        None => false,
    };
    let r = startup_download_source(config, recent);
    assert(r.deep_view() == startup_source(config@, recent));
    r
}

/// Law: the start-up download never uses a source that is not accepted; it
/// prefers the source of the last success and otherwise uses the saved source;
/// and it is skipped exactly when the last success is recent or no accepted
/// source is saved.
pub proof fn lemma_startup_source_choice(c: ConfigView, recent: bool)
    ensures
        startup_source(c, recent) matches Some(u) ==> allowed_download_url(u),
        !(c.last_success_at is Some && recent) && allowed_optional_url(c.last_success_source_url)
            ==> startup_source(c, recent) == c.last_success_source_url,
        !(c.last_success_at is Some && recent) && !allowed_optional_url(
            c.last_success_source_url,
        ) ==> startup_source(c, recent) == if allowed_download_url(c.url) {
            Some(c.url)
        } else {
            None
        },
        c.last_success_at is Some && recent ==> startup_source(c, recent) is None,
        c.last_success_at is None ==> startup_source(c, recent) == startup_source(c, false),
{
}

} // verus!
