//! The library's handle on the global log level of the `log` crate. The
//! record it keeps can only be written here, by `new` and by the call that
//! hands a level to `log`.

use vstd::prelude::*;

use crate::options::LogLevel;

verus! {

/// The library's record of the log level it last handed to the `log`
/// crate. The level `log` reports is global state that other code may change
/// afterwards; this record says only what was handed over.
pub struct LogLevelSetting {
    last_set: Ghost<Option<LogLevel>>,
}

impl LogLevelSetting {
    /// The level last handed to `log` through this record, if any.
    pub closed spec fn last_set(&self) -> Option<LogLevel> {
        self.last_set@
    }

    /// A record through which no level has been handed over yet.
    pub fn new() -> (setting: Self)
        ensures
            setting.last_set() == None::<LogLevel>,
    {
        LogLevelSetting { last_set: Ghost(None) }
    }
}

/// Calls `log::set_max_level` with the `LevelFilter` of the same name as
/// `level`, and records in `setting` that `level` was handed over. The level
/// `log` reports later is global state that other code may change; nothing
/// is claimed of it here.
#[verifier::external_body]
pub(crate) fn set_max_level(setting: &mut LogLevelSetting, level: LogLevel)
    ensures
        final(setting).last_set() == Some(level),
{
    log::set_max_level(
        match level {
            LogLevel::Debug => log::LevelFilter::Debug,
            LogLevel::Info => log::LevelFilter::Info,
            LogLevel::Warn => log::LevelFilter::Warn,
        },
    )
}

} // verus!
