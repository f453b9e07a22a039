//! The command line options and the log level they select.

use vstd::prelude::*;

use crate::log_setting::{set_max_level, LogLevelSetting};

verus! {

/// What the command line asks for.
#[derive(Clone, Copy, Debug, PartialEq, Eq)]
pub struct Options {
    /// Run as a daemon.
    pub daemon: bool,
    /// Log at `info` level (`debug` wins when both are given).
    pub info: bool,
    /// Log at `debug` level.
    pub debug: bool,
}

/// The most detailed level of log messages that are kept.
#[derive(Clone, Copy, Debug, PartialEq, Eq)]
pub enum LogLevel {
    Debug,
    Info,
    Warn,
}

/// The level the options select: `debug` takes precedence over `info`, and
/// without either only warnings and errors are kept.
pub open spec fn log_level_spec(options: Options) -> LogLevel {
    if options.debug {
        LogLevel::Debug
    } else if options.info {
        LogLevel::Info
    } else {
        LogLevel::Warn
    }
}

/// `--debug` always gives debug-level logging, `--info` without `--debug`
/// gives info-level, and neither keeps warnings only; `--daemon` never
/// changes the level.
pub proof fn lemma_log_level_choice(options: Options)
    ensures
        options.debug ==> log_level_spec(options) == LogLevel::Debug,
        !options.debug && options.info ==> log_level_spec(options) == LogLevel::Info,
        !options.debug && !options.info ==> log_level_spec(options) == LogLevel::Warn,
        log_level_spec(options) == log_level_spec(Options { daemon: !options.daemon, ..options }),
{
}

/// The log level the options select.
pub fn log_level(options: &Options) -> (level: LogLevel)
    ensures
        level == log_level_spec(*options),
{
    if options.debug {
        LogLevel::Debug
    } else if options.info {
        LogLevel::Info
    } else {
        LogLevel::Warn
    }
}

/// Hands the log level the options select to the `log` crate as its global
/// maximum level, and returns it.
pub fn apply_log_level(setting: &mut LogLevelSetting, options: &Options) -> (level: LogLevel)
    ensures
        level == log_level_spec(*options),
        final(setting).last_set() == Some(log_level_spec(*options)),
{
    let level = log_level(options);
    set_max_level(setting, level);
    level
}

} // verus!
