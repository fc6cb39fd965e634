//! Logging configuration and the level filter it selects.
use vstd::prelude::*;

use crate::level::Level;

verus! {

/// How logging is set up.
#[derive(Clone, Copy, Debug, PartialEq, Eq, Structural)]
pub struct LoggingConfig {
    pub enable_console: bool,
    pub enable_json: bool,
    pub enable_debug: bool,
    pub verbose_mode: bool,
    pub include_timestamps: bool,
    pub enable_async_writer: bool,
}

/// Which parts of logging this build has.
#[derive(Clone, Copy, Debug, PartialEq, Eq, Structural)]
pub struct FeatureConfig {
    pub logs_enabled: bool,
    pub debug_enabled: bool,
    pub error_enabled: bool,
}

/// The features of this build: every part of logging is present.
pub open spec fn build_features() -> FeatureConfig {
    FeatureConfig { logs_enabled: true, debug_enabled: true, error_enabled: true }
}

impl FeatureConfig {
    /// The features of this build.
    pub fn from_features() -> (r: Self)
        ensures
            r == build_features(),
    {
        FeatureConfig { logs_enabled: true, debug_enabled: true, error_enabled: true }
    }
}

/// The features of this build.
pub fn get_feature_config() -> (r: FeatureConfig)
    ensures
        r == build_features(),
{
    FeatureConfig::from_features()
}

impl Default for LoggingConfig {
    /// Console output with timestamps through the background writer; debug
    /// events where the build has them; no JSON, not verbose.
    fn default() -> (r: Self)
        ensures
            r == (LoggingConfig {
                enable_console: true,
                enable_json: false,
                enable_debug: true,
                verbose_mode: false,
                include_timestamps: true,
                enable_async_writer: true,
            }),
    {
        let features = FeatureConfig::from_features();
        LoggingConfig {
            enable_console: features.logs_enabled,
            enable_json: false,
            enable_debug: features.debug_enabled,
            verbose_mode: false,
            include_timestamps: true,
            enable_async_writer: true,
        }
    }
}

/// The least severe level that passes the filter: everything in verbose
/// mode, debug events where both the configuration and the build allow
/// them, informational events otherwise.
pub open spec fn filter_level(config: LoggingConfig, features: FeatureConfig) -> Level {
    if config.verbose_mode {
        Level::Trace
    } else if config.enable_debug && features.debug_enabled {
        Level::Debug
    } else {
        Level::Info
    }
}

/// The least severe level that passes the filter.
pub fn max_level(config: &LoggingConfig, features: &FeatureConfig) -> (r: Level)
    ensures
        r == filter_level(*config, *features),
{
    if config.verbose_mode {
        Level::Trace
    } else if config.enable_debug && features.debug_enabled {
        Level::Debug
    } else {
        Level::Info
    }
}

} // verus!
