//! The process-wide settings, held in one value that callers own and pass.
use crate::level::LogEntryLevel;
use vstd::prelude::*;

verus! {

/// Configured minimum level and the verbose flag.
#[derive(Debug, Copy, Clone, PartialEq, Eq, Structural)]
pub struct LogConfig {
    pub min_log_level: LogEntryLevel,
    pub verbose: bool,
}

/// `c` with its minimum level replaced.
pub open spec fn with_min_level(c: LogConfig, l: LogEntryLevel) -> LogConfig {
    LogConfig { min_log_level: l, ..c }
}

/// `c` with its verbose flag replaced.
pub open spec fn with_verbose(c: LogConfig, v: bool) -> LogConfig {
    LogConfig { verbose: v, ..c }
}

impl LogConfig {
    /// Minimum level WARN, verbose output off.
    pub fn new() -> (r: LogConfig)
        ensures
            r.min_log_level == LogEntryLevel::WARN,
            !r.verbose,
    {
        LogConfig { min_log_level: LogEntryLevel::WARN, verbose: false }
    }
}

impl Default for LogConfig {
    fn default() -> (r: LogConfig)
        ensures
            r.min_log_level == LogEntryLevel::WARN,
            !r.verbose,
    {
        LogConfig::new()
    }
}

/// Turns verbose output on or off.
pub fn set_verbose(config: &mut LogConfig, v: bool)
    ensures
        *final(config) == with_verbose(*old(config), v),
{
    config.verbose = v;
}

/// Whether verbose output is on.
pub fn is_verbose(config: &LogConfig) -> (r: bool)
    ensures
        r == config.verbose,
{
    config.verbose
}

/// Sets the configured minimum level; the environment is not consulted.
pub fn set_min_log_level(config: &mut LogConfig, min_log_level: LogEntryLevel)
    ensures
        *final(config) == with_min_level(*old(config), min_log_level),
{
    config.min_log_level = min_log_level;
}

/// The configured minimum level; the environment is not consulted.
pub fn get_min_log_level(config: &LogConfig) -> (r: LogEntryLevel)
    ensures
        r == config.min_log_level,
{
    config.min_log_level
}

/// Setting the minimum level or the verbose flag a second time to the same
/// value changes nothing.
pub proof fn lemma_setters_idempotent(c: LogConfig, l: LogEntryLevel, v: bool)
    ensures
        with_min_level(with_min_level(c, l), l) == with_min_level(c, l),
        with_verbose(with_verbose(c, v), v) == with_verbose(c, v),
{
}

} // verus!
