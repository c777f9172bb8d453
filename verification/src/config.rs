//! The persisted application configuration and its validation rules.

use vstd::prelude::*;

use std::path::PathBuf;

use crate::api::{LightingMode, ManualZone, RgbColor, ZoneId};
use crate::setup::{joined_text, parent_text};

verus! {

/// The configuration schema version this library reads and writes.
pub const CONFIG_VERSION: u32 = 2;

#[derive(Clone, Debug, PartialEq, Eq)]
pub struct AppConfig {
    pub version: u32,
    pub lights_enabled: bool,
    pub mode: LightingMode,
    pub manual_zones: [ManualZone; 4],
    pub restore_token: Option<String>,
    pub setup_complete: bool,
}

#[derive(Clone, Copy, Debug, PartialEq, Eq, Structural)]
pub enum ConfigValidationError {
    UnsupportedVersion { expected: u32, actual: u32 },
    InvalidZoneCount { zone: ZoneId, count: u8 },
    InvalidBrightness { zone: ZoneId, brightness: u8 },
}

/// The default manual color, a light cyan.
pub open spec fn default_color() -> RgbColor {
    RgbColor { red: 0x14, green: 0xc8, blue: 0xf4 }
}

pub open spec fn default_zone_setting(zone: ZoneId) -> ManualZone {
    ManualZone { zone, color: default_color(), brightness: 100 }
}

/// The configuration a fresh installation starts with: manual mode, lights
/// on, every zone cyan at full brightness, no saved capture permission and
/// setup not yet completed.
pub open spec fn default_config() -> AppConfig {
    AppConfig {
        version: CONFIG_VERSION,
        lights_enabled: true,
        mode: LightingMode::Manual,
        manual_zones: [
            default_zone_setting(ZoneId::LeftRear),
            default_zone_setting(ZoneId::LeftFront),
            default_zone_setting(ZoneId::RightFront),
            default_zone_setting(ZoneId::RightRear),
        ],
        restore_token: None,
        setup_complete: false,
    }
}

/// How many of the four settings name `zone`.
pub open spec fn zone_count(zones: [ManualZone; 4], zone: ZoneId) -> nat {
    (if zones[0].zone == zone { 1nat } else { 0nat }) + (if zones[1].zone == zone {
        1nat
    } else {
        0nat
    }) + (if zones[2].zone == zone { 1nat } else { 0nat }) + (if zones[3].zone == zone {
        1nat
    } else {
        0nat
    })
}

pub open spec fn count_error(zones: [ManualZone; 4], zone: ZoneId) -> ConfigValidationError {
    ConfigValidationError::InvalidZoneCount { zone, count: zone_count(zones, zone) as u8 }
}

pub open spec fn brightness_error(setting: ManualZone) -> ConfigValidationError {
    ConfigValidationError::InvalidBrightness { zone: setting.zone, brightness: setting.brightness }
}

/// The verdict on a configuration, checked in this order: the schema
/// version, then that each logical zone (in logical order) appears exactly
/// once, then each setting's brightness (in stored order) is at most 100.
pub open spec fn config_verdict(config: AppConfig) -> Result<(), ConfigValidationError> {
    let zones = config.manual_zones;
    if config.version != CONFIG_VERSION {
        Err(
            ConfigValidationError::UnsupportedVersion {
                expected: CONFIG_VERSION,
                actual: config.version,
            },
        )
    } else if zone_count(zones, ZoneId::LeftRear) != 1 {
        Err(count_error(zones, ZoneId::LeftRear))
    } else if zone_count(zones, ZoneId::LeftFront) != 1 {
        Err(count_error(zones, ZoneId::LeftFront))
    } else if zone_count(zones, ZoneId::RightFront) != 1 {
        Err(count_error(zones, ZoneId::RightFront))
    } else if zone_count(zones, ZoneId::RightRear) != 1 {
        Err(count_error(zones, ZoneId::RightRear))
    } else if zones[0].brightness > 100 {
        Err(brightness_error(zones[0]))
    } else if zones[1].brightness > 100 {
        Err(brightness_error(zones[1]))
    } else if zones[2].brightness > 100 {
        Err(brightness_error(zones[2]))
    } else if zones[3].brightness > 100 {
        Err(brightness_error(zones[3]))
    } else {
        Ok(())
    }
}

/// A configuration every part of the service can rely on.
pub open spec fn config_valid(config: AppConfig) -> bool {
    config_verdict(config) is Ok
}

/// A valid configuration holds each logical zone exactly once, at a
/// brightness of at most 100.
pub proof fn lemma_valid_config_shape(config: AppConfig)
    requires
        config_valid(config),
    ensures
        config.version == CONFIG_VERSION,
        forall|zone: ZoneId| zone_count(config.manual_zones, zone) == 1,
        forall|i: int| 0 <= i < 4 ==> #[trigger] config.manual_zones[i].brightness <= 100,
{
    assert forall|zone: ZoneId| zone_count(config.manual_zones, zone) == 1 by {
        match zone {
            ZoneId::LeftRear => {},
            ZoneId::LeftFront => {},
            ZoneId::RightFront => {},
            ZoneId::RightRear => {},
        }
    }
}

fn default_zone(zone: ZoneId) -> (setting: ManualZone)
    ensures
        setting == default_zone_setting(zone),
{
    ManualZone { zone, color: RgbColor { red: 0x14, green: 0xc8, blue: 0xf4 }, brightness: 100 }
}

impl Default for AppConfig {
    fn default() -> (config: AppConfig)
        ensures
            config == default_config(),
    {
        AppConfig {
            version: CONFIG_VERSION,
            lights_enabled: true,
            mode: LightingMode::Manual,
            manual_zones: [
                default_zone(ZoneId::LeftRear),
                default_zone(ZoneId::LeftFront),
                default_zone(ZoneId::RightFront),
                default_zone(ZoneId::RightRear),
            ],
            restore_token: None,
            setup_complete: false,
        }
    }
}

/// The default configuration passes validation.
pub proof fn lemma_default_config_valid()
    ensures
        config_valid(default_config()),
{
}

fn count_zone(zones: &[ManualZone; 4], zone: ZoneId) -> (count: u8)
    ensures
        count == zone_count(*zones, zone),
{
    let mut count: u8 = 0;
    if zones[0].zone == zone {
        count = count + 1;
    }
    if zones[1].zone == zone {
        count = count + 1;
    }
    if zones[2].zone == zone {
        count = count + 1;
    }
    if zones[3].zone == zone {
        count = count + 1;
    }
    count
}

impl AppConfig {
    /// Checks the schema version, that every logical zone appears exactly
    /// once, and that every brightness is at most 100.
    pub fn validate(&self) -> (result: Result<(), ConfigValidationError>)
        ensures
            result == config_verdict(*self),
    {
        if self.version != CONFIG_VERSION {
            return Err(
                ConfigValidationError::UnsupportedVersion {
                    expected: CONFIG_VERSION,
                    actual: self.version,
                },
            );
        }
        let logical = [ZoneId::LeftRear, ZoneId::LeftFront, ZoneId::RightFront, ZoneId::RightRear];
        let mut i: usize = 0;
        while i < 4
            invariant
                0 <= i <= 4,
                self.version == CONFIG_VERSION,
                logical == [ZoneId::LeftRear, ZoneId::LeftFront, ZoneId::RightFront, ZoneId::RightRear],
                forall|j: int| 0 <= j < i ==> zone_count(self.manual_zones, #[trigger] logical[j]) == 1,
            decreases 4 - i,
        {
            let zone = logical[i];
            let count = count_zone(&self.manual_zones, zone);
            if count != 1 {
                return Err(ConfigValidationError::InvalidZoneCount { zone, count });
            }
            i = i + 1;
        }
        let mut k: usize = 0;
        while k < 4
            invariant
                0 <= k <= 4,
                self.version == CONFIG_VERSION,
                forall|zone: ZoneId| zone_count(self.manual_zones, zone) == 1,
                forall|j: int| 0 <= j < k ==> #[trigger] self.manual_zones[j].brightness <= 100,
            decreases 4 - k,
        {
            let setting = self.manual_zones[k];
            if setting.brightness > 100 {
                return Err(
                    ConfigValidationError::InvalidBrightness {
                        zone: setting.zone,
                        brightness: setting.brightness,
                    },
                );
            }
            k = k + 1;
        }
        Ok(())
    }
}

/// The configuration a version 1 capture file migrates to: the defaults
/// with its saved capture permission; any other version is not migrated.
pub fn migrate_legacy(version: u32, restore_token: Option<String>) -> (migrated: Option<AppConfig>)
    ensures
        version != 1 ==> migrated is None,
        version == 1 ==> migrated == Some(
            AppConfig { restore_token: restore_token, ..default_config() },
        ),
{
    if version != 1 {
        return None;
    }
    let config = AppConfig { restore_token, ..AppConfig::default() };
    Some(config)
}

/// What loading the configuration found.
#[derive(Debug, PartialEq, Eq)]
pub enum ConfigLoad {
    /// Nothing was saved: the defaults.
    Fresh(AppConfig),
    /// A valid saved configuration.
    Loaded(AppConfig),
    /// No configuration, but a version 1 capture file at `source` was migrated.
    Migrated { config: AppConfig, source: PathBuf },
    /// The saved file was unreadable or invalid; it was moved to
    /// `invalid_path` and the defaults are used.
    Recovered { config: AppConfig, invalid_path: PathBuf },
}

/// The configuration a load outcome carries.
pub open spec fn load_config(load: ConfigLoad) -> AppConfig {
    match load {
        ConfigLoad::Fresh(config) => config,
        ConfigLoad::Loaded(config) => config,
        ConfigLoad::Migrated { config, .. } => config,
        ConfigLoad::Recovered { config, .. } => config,
    }
}

impl ConfigLoad {
    /// The configuration to use, whichever way it was obtained.
    pub fn into_config(self) -> (config: AppConfig)
        ensures
            config == load_config(self),
    {
        match self {
            ConfigLoad::Fresh(config) => config,
            ConfigLoad::Loaded(config) => config,
            ConfigLoad::Migrated { config, .. } => config,
            ConfigLoad::Recovered { config, .. } => config,
        }
    }
}

/// The saved configuration accepted from a parsed file: kept only when it
/// validates, otherwise the file is treated as invalid.
pub fn accept_stored(parsed: Option<AppConfig>) -> (accepted: Option<AppConfig>)
    ensures
        accepted == (match parsed {
            Some(config) => if config_valid(config) { Some(config) } else { None },
            None => None,
        }),
{
    match parsed {
        Some(config) => {
            match config.validate() {
                Ok(()) => Some(config),
                Err(_) => None,
            }
        },
        None => None,
    }
}

/// The configuration file at a fixed path, held as its text.
#[derive(Debug)]
pub struct FileConfigStore {
    path: String,
}

/// The text of the directory that holds a configuration file with path
/// text `path`: its parent, unless the path has none or only the empty one.
pub open spec fn config_directory_of(path: Seq<char>) -> Option<Seq<char>> {
    match parent_text(path) {
        Some(parent) => if parent.len() == 0 { None } else { Some(parent) },
        None => None,
    }
}

impl FileConfigStore {
    pub fn new(path: String) -> (store: Self)
        ensures
            store.path() == path@,
    {
        FileConfigStore { path }
    }

    /// The configuration file's path text.
    pub closed spec fn path(&self) -> Seq<char> {
        self.path@
    }

    /// The configuration file's path.
    pub fn file_path(&self) -> (path: &String)
        ensures
            path@ == self.path(),
    {
        &self.path
    }

    /// The directory that holds the configuration file, if it has one.
    pub fn directory(&self) -> (directory: Option<String>)
        ensures
            match directory {
                Some(text) => config_directory_of(self.path()) == Some(text@),
                None => config_directory_of(self.path()) is None,
            },
    {
        match crate::setup::path_parent(self.path.as_str()) {
            Some(parent) => {
                if parent.unicode_len() == 0 {
                    None
                } else {
                    Some(parent)
                }
            },
            None => None,
        }
    }

    /// The version 1 capture file beside the configuration file, whose
    /// saved permission a fresh configuration migrates.
    pub fn legacy_path(&self) -> (legacy: Option<String>)
        ensures
            match legacy {
                Some(text) => config_directory_of(self.path()) matches Some(directory) && text@
                    == joined_text(directory, "capture.toml"@),
                None => config_directory_of(self.path()) is None,
            },
    {
        match self.directory() {
            Some(directory) => Some(crate::setup::path_join(directory.as_str(), "capture.toml")),
            None => None,
        }
    }
}

} // verus!
