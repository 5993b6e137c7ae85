//! The user's settings (`config.json`) and the rules for loading them and
//! picking the `.theme` file to apply.
//!
//! Coordinates are decimal degrees carried as IEEE-754 bit patterns: this
//! library compares them but does no arithmetic on them.

use vstd::prelude::*;
use crate::theme::Theme;
use crate::text::{is_blank, is_blank_str};

verus! {

/// The user's settings.
#[derive(Debug, Clone)]
pub struct Config {
    /// Latitude in degrees, as the bit pattern of an `f64`.
    pub latitude_bits: u64,
    /// Longitude in degrees, as the bit pattern of an `f64`.
    pub longitude_bits: u64,
    /// Whether the app registers itself to start at logon.
    pub auto_start: bool,
    /// Custom `.theme` file applied after sunrise.
    pub theme_day: Option<String>,
    /// Custom `.theme` file applied after sunset.
    pub theme_night: Option<String>,
}

/// Mask of every bit of an `f64` but the sign.
pub const MAGNITUDE_MASK: u64 = 0x7fff_ffff_ffff_ffff;

/// The `f64` with this bit pattern equals `0.0` (it is `+0.0` or `-0.0`).
pub open spec fn is_zero_coordinate(bits: u64) -> bool {
    bits & MAGNITUDE_MASK == 0
}

/// The settings a first run starts with.
pub open spec fn is_default_config(c: Config) -> bool {
    &&& c.latitude_bits == 0
    &&& c.longitude_bits == 0
    &&& c.auto_start
    &&& c.theme_day is None
    &&& c.theme_night is None
}

/// A location is set unless both coordinates are zero.
pub open spec fn has_location_spec(c: Config) -> bool {
    !(is_zero_coordinate(c.latitude_bits) && is_zero_coordinate(c.longitude_bits))
}

impl Default for Config {
    /// No location, auto-start on, stock themes.
    fn default() -> (c: Config)
        ensures
            is_default_config(c),
    {
        Config { latitude_bits: 0, longitude_bits: 0, auto_start: true, theme_day: None, theme_night: None }
    }
}

impl Config {
    /// Whether a location is set: `(0, 0)` means none (first run).
    pub fn has_location(&self) -> (r: bool)
        ensures
            r == has_location_spec(*self),
    {
        !(self.latitude_bits & MAGNITUDE_MASK == 0 && self.longitude_bits & MAGNITUDE_MASK == 0)
    }

    /// The custom `.theme` path configured for `theme`, if any.
    pub fn custom_theme_path(&self, theme: Theme) -> (r: Option<String>)
        ensures
            r == custom_path_of(*self, theme),
    {
        let p = match theme {
            Theme::Light => &self.theme_day,
            Theme::Dark => &self.theme_night,
        };
        match p {
            Some(s) => Some(s.clone()),
            None => None,
        }
    }
}

/// A first-run config has no location.
pub proof fn lemma_default_has_no_location(c: Config)
    requires
        is_default_config(c),
    ensures
        !has_location_spec(c),
        c.auto_start,
{
    assert(0u64 & MAGNITUDE_MASK == 0) by (bit_vector);
}

/// The custom path configured for a theme.
pub open spec fn custom_path_of(c: Config, theme: Theme) -> Option<String> {
    match theme {
        Theme::Light => c.theme_day,
        Theme::Dark => c.theme_night,
    }
}

/// The `.theme` file to apply.
#[derive(Debug, Clone, PartialEq, Eq)]
pub enum ThemeFile {
    /// The user's own file, at this path.
    Custom(String),
    /// A stock Windows theme: this file name under
    /// `%SystemRoot%\Resources\Themes`.
    System(&'static str),
}

/// The stock theme file of a theme.
pub open spec fn stock_file_name(theme: Theme) -> Seq<char> {
    match theme {
        Theme::Light => "aero.theme"@,
        Theme::Dark => "dark.theme"@,
    }
}

/// Which `.theme` file applies `theme`: the configured custom file when it
/// exists on disk (`custom_exists` tells), else the stock one.
pub fn resolve_theme_file(theme: Theme, cfg: &Config, custom_exists: bool) -> (r: ThemeFile)
    ensures
        match custom_path_of(*cfg, theme) {
            Some(p) if custom_exists => r == ThemeFile::Custom(p),
            _ => r matches ThemeFile::System(leaf) && leaf@ == stock_file_name(theme),
        },
{
    if custom_exists {
        if let Some(p) = cfg.custom_theme_path(theme) {
            return ThemeFile::Custom(p);
        }
    }
    match theme {
        Theme::Light => ThemeFile::System("aero.theme"),
        Theme::Dark => ThemeFile::System("dark.theme"),
    }
}

/// What reading `config.json` gave.
#[derive(Debug, Clone)]
pub enum ConfigRead {
    /// The file's text.
    Text(String),
    /// There is no file (first run).
    Missing,
    /// The file exists but could not be read; the error's description.
    Unreadable(String),
}

/// What loading does with what was read.
#[derive(Debug, Clone, PartialEq, Eq)]
pub enum ConfigLoadStep {
    /// The file is blank (a crash mid-write): overwrite it with the
    /// defaults and use them.
    HealWithDefaults,
    /// There is no file: create it with the defaults (only if it is still
    /// absent) and use them.
    CreateDefaults,
    /// Parse the text.
    Parse,
    /// Report this error and leave the file untouched.
    Fail(String),
}

/// Prefix of the error reported for an unreadable file.
pub open spec fn unreadable_prefix() -> Seq<char> {
    "config.json could not be read: "@
}

/// Prefix of the error reported for a file that does not parse.
pub open spec fn invalid_prefix() -> Seq<char> {
    "config.json is not valid JSON: "@
}

/// Decide what loading does with what was read. A file that holds anything
/// but whitespace is never written: it is parsed, and if that fails the
/// error is reported and the file stays as the user left it.
pub fn plan_config_load(read: &ConfigRead) -> (r: ConfigLoadStep)
    ensures
        match read {
            ConfigRead::Text(t) => r == if is_blank(t@) {
                ConfigLoadStep::HealWithDefaults
            } else {
                ConfigLoadStep::Parse
            },
            ConfigRead::Missing => r == ConfigLoadStep::CreateDefaults,
            ConfigRead::Unreadable(e) => r matches ConfigLoadStep::Fail(m) && m@ == unreadable_prefix() + e@,
        },
{
    match read {
        ConfigRead::Text(t) => {
            if is_blank_str(t.as_str()) {
                ConfigLoadStep::HealWithDefaults
            } else {
                ConfigLoadStep::Parse
            }
        },
        ConfigRead::Missing => ConfigLoadStep::CreateDefaults,
        ConfigRead::Unreadable(e) => {
            let mut m = String::from_str("config.json could not be read: ");
            m.append(e.as_str());
            ConfigLoadStep::Fail(m)
        },
    }
}

/// The outcome of loading once the text was parsed: the parsed settings,
/// or the parse error as the message reported to the user.
pub fn config_from_parse(parsed: Result<Config, String>) -> (r: Result<Config, String>)
    ensures
        match parsed {
            Ok(c) => r == Ok::<Config, String>(c),
            Err(e) => r matches Err(m) && m@ == invalid_prefix() + e@,
        },
{
    match parsed {
        Ok(c) => Ok(c),
        Err(e) => {
            let mut m = String::from_str("config.json is not valid JSON: ");
            m.append(e.as_str());
            Err(m)
        },
    }
}

} // verus!
