//! The application settings and the rules that keep them sane: the two allowed
//! download sources, the fixed destination folder and the fixed schedule interval.
use vstd::prelude::*;
use vstd::string::*;
use crate::paths::{home_dir_string, join, join_path};

verus! {

/// Download URL of the North American price table.
pub const NA_PRICE_TABLE_URL: &'static str = "https://us.tamrieltradecentre.com/download/PriceTable";

/// Download URL of the European price table.
pub const EU_PRICE_TABLE_URL: &'static str = "https://eu.tamrieltradecentre.com/download/PriceTable";

/// Destination shown when the home directory cannot be found.
pub const DESTINATION_FALLBACK: &'static str = "~/Documents/Elder Scrolls Online/live/AddOns/TamrielTradeCentre";

/// The two download sources that the application accepts.
pub open spec fn allowed_download_url(url: Seq<char>) -> bool {
    url == NA_PRICE_TABLE_URL@ || url == EU_PRICE_TABLE_URL@
}

/// Whether `url` is one of the two accepted download sources.
pub fn is_allowed_download_url(url: &str) -> (r: bool)
    ensures
        r == allowed_download_url(url@),
{
    let s = url.to_owned();
    let na = NA_PRICE_TABLE_URL.to_owned();
    let eu = EU_PRICE_TABLE_URL.to_owned();
    s == na || s == eu
}

/// Whether an optional URL is present and one of the accepted sources.
pub open spec fn allowed_optional_url(url: Option<Seq<char>>) -> bool {
    match url {
        Some(u) => allowed_download_url(u),
        None => false,
    }
}

/// The schedule interval, in hours; the application offers no other.
pub fn default_schedule_interval_hours() -> (r: u64)
    ensures
        r == 3,
{
    3
}

/// The TamrielTradeCentre AddOn folder under the home directory `home`.
pub open spec fn addon_dir_under(home: Seq<char>) -> Seq<char> {
    join_path(
        join_path(
            join_path(join_path(join_path(home, "Documents"@), "Elder Scrolls Online"@), "live"@),
            "AddOns"@,
        ),
        "TamrielTradeCentre"@,
    )
}

/// A path is the fixed destination when it is the AddOn folder under some home directory.
pub open spec fn is_fixed_destination(path: Seq<char>) -> bool {
    exists|home: Seq<char>| path == #[trigger] addon_dir_under(home)
}

/// The TamrielTradeCentre AddOn folder under the home directory `home`.
pub fn fixed_destination_for_home(home: &str) -> (r: String)
    ensures
        r@ == addon_dir_under(home@),
{
    let p1 = join(home, "Documents");
    let p2 = join(p1.as_str(), "Elder Scrolls Online");
    let p3 = join(p2.as_str(), "live");
    let p4 = join(p3.as_str(), "AddOns");
    join(p4.as_str(), "TamrielTradeCentre")
}

/// Why a settings request is refused.
#[derive(Clone, Copy, PartialEq, Eq, Debug)]
pub enum ConfigError {
    /// The download source is neither the NA nor the EU price table.
    DisallowedSource,
    /// The destination is not the fixed AddOn folder.
    DestinationNotFixed,
    /// The AddOn folder does not exist.
    DestinationMissing,
    /// The schedule interval is not the fixed one.
    IntervalNotFixed,
    /// The user's home directory cannot be found.
    HomeDirectoryUnavailable,
}

impl ConfigError {
    /// The message shown to the user.
    pub open spec fn spec_message(self) -> Seq<char> {
        match self {
            ConfigError::DisallowedSource => "下載來源只能選擇 NA 或 EU"@,
            ConfigError::DestinationNotFixed => "目的資料夾只能使用固定的 TamrielTradeCentre AddOn 路徑"@,
            ConfigError::DestinationMissing => "找不到 TamrielTradeCentre AddOn 資料夾，無法下載"@,
            ConfigError::IntervalNotFixed => "下載排程間隔只能是 3 小時"@,
            ConfigError::HomeDirectoryUnavailable => "無法取得使用者 home 目錄"@,
        }
    }

    /// The message shown to the user.
    pub fn message(&self) -> (r: &'static str)
        ensures
            r@ == self.spec_message(),
    {
        match self {
            ConfigError::DisallowedSource => "下載來源只能選擇 NA 或 EU",
            ConfigError::DestinationNotFixed => "目的資料夾只能使用固定的 TamrielTradeCentre AddOn 路徑",
            ConfigError::DestinationMissing => "找不到 TamrielTradeCentre AddOn 資料夾，無法下載",
            ConfigError::IntervalNotFixed => "下載排程間隔只能是 3 小時",
            ConfigError::HomeDirectoryUnavailable => "無法取得使用者 home 目錄",
        }
    }
}

/// The fixed destination: the TamrielTradeCentre AddOn folder under the user's
/// home directory.
pub fn fixed_destination_string() -> (r: Result<String, ConfigError>)
    ensures
        match r {
            Ok(path) => is_fixed_destination(path@),
            Err(e) => e == ConfigError::HomeDirectoryUnavailable,
        },
{
    match home_dir_string() {
        Some(home) => {
            let path = fixed_destination_for_home(home.as_str());
            assert(path@ == addon_dir_under(home@));
            Ok(path)
        },
        None => Err(ConfigError::HomeDirectoryUnavailable),
    }
}

/// The saved settings of the application.
#[derive(Clone, Debug)]
pub struct AppConfig {
    pub url: String,
    pub destination_dir: String,
    pub schedule_enabled: bool,
    pub schedule_interval_hours: u64,
    pub autostart_enabled: bool,
    pub last_success_at: Option<String>,
    pub last_success_source_url: Option<String>,
}

/// The settings as plain values.
pub ghost struct ConfigView {
    pub url: Seq<char>,
    pub destination_dir: Seq<char>,
    pub schedule_enabled: bool,
    pub schedule_interval_hours: u64,
    pub autostart_enabled: bool,
    pub last_success_at: Option<Seq<char>>,
    pub last_success_source_url: Option<Seq<char>>,
}

impl View for AppConfig {
    type V = ConfigView;

    open spec fn view(&self) -> ConfigView {
        ConfigView {
            url: self.url@,
            destination_dir: self.destination_dir@,
            schedule_enabled: self.schedule_enabled,
            schedule_interval_hours: self.schedule_interval_hours,
            autostart_enabled: self.autostart_enabled,
            last_success_at: self.last_success_at.deep_view(),
            last_success_source_url: self.last_success_source_url.deep_view(),
        }
    }
}

fn clone_optional(o: &Option<String>) -> (r: Option<String>)
    ensures
        r.deep_view() == o.deep_view(),
{
    match o {
        Some(s) => Some(s.clone()),
        None => None,
    }
}

/// Settings in which every rule holds for the fixed destination `fixed`: an
/// accepted source, the fixed destination and interval, and a last success
/// kept only together with an accepted source URL.
pub open spec fn config_is_sane(c: ConfigView, fixed: Seq<char>) -> bool {
    &&& allowed_download_url(c.url)
    &&& c.destination_dir == fixed
    &&& c.schedule_interval_hours == 3
    &&& c.last_success_source_url is Some ==> allowed_optional_url(c.last_success_source_url)
    &&& c.last_success_source_url is None ==> c.last_success_at is None
}

/// The settings as they are loaded from disk: a source that is not accepted falls
/// back to the NA price table, a last success whose source is not accepted is
/// forgotten, and the destination and interval are the fixed ones.
pub open spec fn sanitized_config(c: ConfigView, fixed: Seq<char>) -> ConfigView {
    let keep = allowed_optional_url(c.last_success_source_url);
    ConfigView {
        url: if allowed_download_url(c.url) {
            c.url
        } else {
            NA_PRICE_TABLE_URL@
        },
        destination_dir: fixed,
        schedule_interval_hours: 3,
        last_success_at: if keep {
            c.last_success_at
        } else {
            None
        },
        last_success_source_url: if keep {
            c.last_success_source_url
        } else {
            None
        },
        ..c
    }
}

/// Settings with the destination and interval replaced by the fixed ones.
pub open spec fn with_fixed_destination(c: ConfigView, fixed: Seq<char>) -> ConfigView {
    ConfigView { destination_dir: fixed, schedule_interval_hours: 3, ..c }
}

/// The checks that a run request must pass, in order.
pub open spec fn validation(c: ConfigView, fixed: Seq<char>, destination_exists: bool) -> Result<
    (),
    ConfigError,
> {
    if !allowed_download_url(c.url) {
        Err(ConfigError::DisallowedSource)
    } else if c.destination_dir != fixed {
        Err(ConfigError::DestinationNotFixed)
    } else if !destination_exists {
        Err(ConfigError::DestinationMissing)
    } else if c.schedule_interval_hours != 3 {
        Err(ConfigError::IntervalNotFixed)
    } else {
        Ok(())
    }
}

/// A run request with the fixed destination and interval, or why it is refused.
pub open spec fn normalization(c: ConfigView, fixed: Seq<char>, destination_exists: bool) -> Result<
    ConfigView,
    ConfigError,
> {
    let n = with_fixed_destination(c, fixed);
    match validation(n, fixed, destination_exists) {
        Ok(()) => Ok(n),
        Err(e) => Err(e),
    }
}

/// Settings after a successful download at `at` from `source_url` into `destination`.
pub open spec fn with_recorded_success(
    c: ConfigView,
    at: Seq<char>,
    source_url: Seq<char>,
    destination: Seq<char>,
) -> ConfigView {
    ConfigView {
        url: source_url,
        destination_dir: destination,
        last_success_at: Some(at),
        last_success_source_url: Some(source_url),
        ..c
    }
}

impl AppConfig {
    /// The settings of a first launch, with `destination` as the destination folder.
    pub open spec fn initial_view(destination: Seq<char>) -> ConfigView {
        ConfigView {
            url: NA_PRICE_TABLE_URL@,
            destination_dir: destination,
            schedule_enabled: false,
            schedule_interval_hours: 3,
            autostart_enabled: false,
            last_success_at: None,
            last_success_source_url: None,
        }
    }

    /// A copy of the settings.
    pub fn duplicate(&self) -> (r: AppConfig)
        ensures
            r@ == self@,
    {
        AppConfig {
            url: self.url.clone(),
            destination_dir: self.destination_dir.clone(),
            schedule_enabled: self.schedule_enabled,
            schedule_interval_hours: self.schedule_interval_hours,
            autostart_enabled: self.autostart_enabled,
            last_success_at: clone_optional(&self.last_success_at),
            last_success_source_url: clone_optional(&self.last_success_source_url),
        }
    }

    /// Replaces the destination by the fixed one; on failure nothing changes.
    fn refresh_destination(&mut self) -> (r: Result<(), ConfigError>)
        ensures
            match r {
                Ok(()) => final(self)@ == (ConfigView {
                    destination_dir: final(self)@.destination_dir,
                    ..old(self)@
                }) && is_fixed_destination(final(self)@.destination_dir),
                Err(e) => e == ConfigError::HomeDirectoryUnavailable && final(self)@
                    == old(self)@,
            },
    {
        match fixed_destination_string() {
            Ok(path) => {
                self.destination_dir = path;
                Ok(())
            },
            Err(e) => Err(e),
        }
    }

    /// Chooses the download source `url`, which must be one of the accepted two,
    /// and resets the destination and interval to the fixed ones. Where the home
    /// directory cannot be found the source is chosen all the same and the rest is
    /// left as it was.
    pub fn set_download_source(&mut self, url: String) -> (r: Result<(), ConfigError>)
        ensures
            !allowed_download_url(url@) ==> r == Err::<(), ConfigError>(
                ConfigError::DisallowedSource,
            ) && final(self)@ == old(self)@,
            allowed_download_url(url@) ==> match r {
                Ok(()) => final(self)@ == (ConfigView {
                    url: url@,
                    destination_dir: final(self)@.destination_dir,
                    schedule_interval_hours: 3,
                    ..old(self)@
                }) && is_fixed_destination(final(self)@.destination_dir),
                Err(e) => e == ConfigError::HomeDirectoryUnavailable && final(self)@ == (
                ConfigView { url: url@, ..old(self)@ }),
            },
    {
        if !is_allowed_download_url(url.as_str()) {
            return Err(ConfigError::DisallowedSource);
        }
        self.url = url;
        match self.refresh_destination() {
            Ok(()) => {},
            Err(e) => return Err(e),
        }
        self.schedule_interval_hours = default_schedule_interval_hours();
        Ok(())
    }

    /// Turns the download schedule off and resets the destination to the fixed one
    /// (where the home directory is unknown, only the schedule changes).
    pub fn disable_schedule(&mut self) -> (r: Result<(), ConfigError>)
        ensures
            match r {
                Ok(()) => final(self)@ == (ConfigView {
                    schedule_enabled: false,
                    destination_dir: final(self)@.destination_dir,
                    ..old(self)@
                }) && is_fixed_destination(final(self)@.destination_dir),
                Err(e) => e == ConfigError::HomeDirectoryUnavailable && final(self)@ == (
                ConfigView { schedule_enabled: false, ..old(self)@ }),
            },
    {
        self.schedule_enabled = false;
        self.refresh_destination()
    }

    /// Turns the three-hour download schedule on and resets the destination to the
    /// fixed one (where the home directory is unknown, the destination stays).
    pub fn enable_schedule(&mut self) -> (r: Result<(), ConfigError>)
        ensures
            match r {
                Ok(()) => final(self)@ == (ConfigView {
                    schedule_enabled: true,
                    schedule_interval_hours: 3,
                    destination_dir: final(self)@.destination_dir,
                    ..old(self)@
                }) && is_fixed_destination(final(self)@.destination_dir),
                Err(e) => e == ConfigError::HomeDirectoryUnavailable && final(self)@ == (
                ConfigView { schedule_enabled: true, schedule_interval_hours: 3, ..old(self)@ }),
            },
    {
        self.schedule_enabled = true;
        self.schedule_interval_hours = default_schedule_interval_hours();
        self.refresh_destination()
    }

    /// Flips launch at login and resets the destination to the fixed one (where
    /// the home directory is unknown, only the flag changes).
    pub fn toggle_autostart(&mut self) -> (r: Result<(), ConfigError>)
        ensures
            match r {
                Ok(()) => final(self)@ == (ConfigView {
                    autostart_enabled: !old(self)@.autostart_enabled,
                    destination_dir: final(self)@.destination_dir,
                    ..old(self)@
                }) && is_fixed_destination(final(self)@.destination_dir),
                Err(e) => e == ConfigError::HomeDirectoryUnavailable && final(self)@ == (
                ConfigView { autostart_enabled: !old(self)@.autostart_enabled, ..old(self)@ }),
            },
    {
        self.autostart_enabled = !self.autostart_enabled;
        self.refresh_destination()
    }

    /// Records a successful download: its time, and the source and destination
    /// it used, which become the saved source and destination.
    pub fn record_success(
        &mut self,
        last_success_at: String,
        source_url: String,
        destination_dir: String,
    )
        ensures
            final(self)@ == with_recorded_success(
                old(self)@,
                last_success_at@,
                source_url@,
                destination_dir@,
            ),
    {
        let recorded_url = source_url.clone();
        self.url = source_url;
        self.destination_dir = destination_dir;
        self.last_success_at = Some(last_success_at);
        self.last_success_source_url = Some(recorded_url);
    }

    /// Takes from the stored settings what a run request may not change: the
    /// schedule, launch at login and the last success; the interval is the fixed one.
    pub fn adopt_stored_settings(&mut self, stored: &AppConfig)
        ensures
            final(self)@ == (ConfigView {
                schedule_enabled: stored@.schedule_enabled,
                schedule_interval_hours: 3,
                autostart_enabled: stored@.autostart_enabled,
                last_success_at: stored@.last_success_at,
                last_success_source_url: stored@.last_success_source_url,
                ..old(self)@
            }),
    {
        self.schedule_enabled = stored.schedule_enabled;
        self.schedule_interval_hours = default_schedule_interval_hours();
        self.autostart_enabled = stored.autostart_enabled;
        self.last_success_at = clone_optional(&stored.last_success_at);
        self.last_success_source_url = clone_optional(&stored.last_success_source_url);
    }
}

impl Default for AppConfig {
    /// The settings of a first launch: the NA price table, the fixed destination
    /// (or, where the home directory is unknown, its `~` form), no schedule, no
    /// launch at login and no recorded success.
    fn default() -> (r: AppConfig)
        ensures
            r@ == AppConfig::initial_view(r@.destination_dir),
            is_fixed_destination(r@.destination_dir) || r@.destination_dir
                == DESTINATION_FALLBACK@,
    {
        let destination_dir = match fixed_destination_string() {
            Ok(path) => path,
            Err(_) => DESTINATION_FALLBACK.to_owned(),
        };
        AppConfig {
            url: NA_PRICE_TABLE_URL.to_owned(),
            destination_dir,
            schedule_enabled: false,
            schedule_interval_hours: default_schedule_interval_hours(),
            autostart_enabled: false,
            last_success_at: None,
            last_success_source_url: None,
        }
    }
}

/// Cleans settings read from disk (see `sanitized_config`); `fixed_destination`
/// is the fixed destination folder.
pub fn sanitize_loaded_config(config: AppConfig, fixed_destination: String) -> (r: AppConfig)
    ensures
        r@ == sanitized_config(config@, fixed_destination@),
{
    let mut config = config;
    if !is_allowed_download_url(config.url.as_str()) {
        config.url = NA_PRICE_TABLE_URL.to_owned();
    }
    let keep = match &config.last_success_source_url {
        Some(u) => is_allowed_download_url(u.as_str()),
        None => false,
    };
    if !keep {
        config.last_success_at = None;
        config.last_success_source_url = None;
    }
    config.destination_dir = fixed_destination;
    config.schedule_interval_hours = default_schedule_interval_hours();
    config
}

/// Checks a run request: an accepted source, the fixed destination
/// `fixed_destination`, a destination folder that exists, and the fixed
/// interval, in that order; the first that fails names the error.
pub fn validate_config(config: &AppConfig, fixed_destination: &str, destination_exists: bool) -> (r:
    Result<(), ConfigError>)
    ensures
        r == validation(config@, fixed_destination@, destination_exists),
{
    if !is_allowed_download_url(config.url.as_str()) {
        return Err(ConfigError::DisallowedSource);
    }
    let fixed = fixed_destination.to_owned();
    if !(config.destination_dir == fixed) {
        return Err(ConfigError::DestinationNotFixed);
    }
    if !destination_exists {
        return Err(ConfigError::DestinationMissing);
    }
    if config.schedule_interval_hours != default_schedule_interval_hours() {
        return Err(ConfigError::IntervalNotFixed);
    }
    Ok(())
}

/// A run request with the fixed destination `fixed_destination` and the fixed
/// interval, once it passes `validate_config`.
pub fn normalized_config(config: AppConfig, fixed_destination: String, destination_exists: bool) -> (r:
    Result<AppConfig, ConfigError>)
    ensures
        match r {
            Ok(c) => normalization(config@, fixed_destination@, destination_exists) == Ok::<
                ConfigView,
                ConfigError,
            >(c@),
            Err(e) => normalization(config@, fixed_destination@, destination_exists) == Err::<
                ConfigView,
                ConfigError,
            >(e),
        },
{
    let mut config = config;
    let fixed = fixed_destination.clone();
    config.destination_dir = fixed_destination;
    config.schedule_interval_hours = default_schedule_interval_hours();
    match validate_config(&config, fixed.as_str(), destination_exists) {
        Ok(()) => Ok(config),
        Err(e) => Err(e),
    }
}

/// Where the downloads go and whether that folder exists.
#[derive(Clone, Debug)]
pub struct DestinationStatus {
    pub path: String,
    pub exists: bool,
}

/// The status of the destination folder `path`.
pub fn destination_status(path: String, exists: bool) -> (r: DestinationStatus)
    ensures
        r.path@ == path@,
        r.exists == exists,
{
    DestinationStatus { path, exists }
}

/// The destination folder `path`, provided that it exists: the application never
/// creates it.
pub fn ensure_destination_exists(path: String, exists: bool) -> (r: Result<String, ConfigError>)
    ensures
        exists ==> (r matches Ok(p) && p@ == path@),
        !exists ==> r == Err::<String, ConfigError>(ConfigError::DestinationMissing),
{
    if !exists {
        return Err(ConfigError::DestinationMissing);
    }
    Ok(path)
}

/// Law: settings loaded from disk obey every rule of `config_is_sane`.
pub proof fn lemma_loaded_config_is_sane(c: ConfigView, fixed: Seq<char>)
    ensures
        config_is_sane(sanitized_config(c, fixed), fixed),
{
}

/// Law: loading leaves settings that already obey the rules as they are.
pub proof fn lemma_sane_config_loads_unchanged(c: ConfigView, fixed: Seq<char>)
    requires
        config_is_sane(c, fixed),
    ensures
        sanitized_config(c, fixed) == c,
{
}

/// Law: cleaning loaded settings a second time changes nothing.
pub proof fn lemma_sanitize_is_idempotent(c: ConfigView, fixed: Seq<char>)
    ensures
        sanitized_config(sanitized_config(c, fixed), fixed) == sanitized_config(c, fixed),
{
    lemma_loaded_config_is_sane(c, fixed);
    lemma_sane_config_loads_unchanged(sanitized_config(c, fixed), fixed);
}

/// Law: the application remembers a successful download. After a success from an
/// accepted source is recorded, the settings as loaded again keep its time and
/// source, and that source becomes the saved one.
pub proof fn lemma_recorded_success_survives_reload(
    c: ConfigView,
    at: Seq<char>,
    source_url: Seq<char>,
    destination: Seq<char>,
    fixed: Seq<char>,
)
    requires
        allowed_download_url(source_url),
    ensures
        sanitized_config(with_recorded_success(c, at, source_url, destination), fixed).last_success_at
            == Some(at),
        sanitized_config(
            with_recorded_success(c, at, source_url, destination),
            fixed,
        ).last_success_source_url == Some(source_url),
        sanitized_config(with_recorded_success(c, at, source_url, destination), fixed).url
            == source_url,
{
}

/// Law: a saved success whose source is not one of the accepted two is ignored
/// and cleared when the settings are loaded.
pub proof fn lemma_unknown_success_source_is_cleared(c: ConfigView, fixed: Seq<char>)
    requires
        !allowed_optional_url(c.last_success_source_url),
    ensures
        sanitized_config(c, fixed).last_success_at is None,
        sanitized_config(c, fixed).last_success_source_url is None,
{
}

/// Law: a run request is accepted exactly when its source is accepted and the
/// destination folder exists; what it is turned into then passes validation, and
/// normalizing it again gives it back unchanged.
pub proof fn lemma_normalized_request_is_valid(c: ConfigView, fixed: Seq<char>, destination_exists: bool)
    ensures
        normalization(c, fixed, destination_exists) is Ok <==> allowed_download_url(c.url)
            && destination_exists,
        normalization(c, fixed, destination_exists) matches Ok(n) ==> validation(
            n,
            fixed,
            destination_exists,
        ) == Ok::<(), ConfigError>(()) && normalization(n, fixed, destination_exists) == Ok::<
            ConfigView,
            ConfigError,
        >(n),
{
}

} // verus!
