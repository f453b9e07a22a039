use haridokei::log_setting::LogLevelSetting;
use haridokei::options::{apply_log_level, log_level, LogLevel, Options};

fn options(daemon: bool, info: bool, debug: bool) -> Options {
    Options { daemon, info, debug }
}

#[test]
fn debug_wins_over_info() {
    assert_eq!(log_level(&options(false, true, true)), LogLevel::Debug);
    assert_eq!(log_level(&options(false, false, true)), LogLevel::Debug);
}

#[test]
fn info_when_asked() {
    assert_eq!(log_level(&options(true, true, false)), LogLevel::Info);
}

#[test]
fn warnings_by_default() {
    assert_eq!(log_level(&options(false, false, false)), LogLevel::Warn);
    assert_eq!(log_level(&options(true, false, false)), LogLevel::Warn);
}

#[test]
fn applying_sets_the_global_level() {
    let mut setting = LogLevelSetting::new();
    assert_eq!(apply_log_level(&mut setting, &options(false, true, false)), LogLevel::Info);
    assert_eq!(log::max_level(), log::LevelFilter::Info);
    assert_eq!(apply_log_level(&mut setting, &options(false, false, true)), LogLevel::Debug);
    assert_eq!(log::max_level(), log::LevelFilter::Debug);
    assert_eq!(apply_log_level(&mut setting, &options(false, false, false)), LogLevel::Warn);
    assert_eq!(log::max_level(), log::LevelFilter::Warn);
    assert_eq!(apply_log_level(&mut setting, &options(false, true, true)), LogLevel::Debug);
    assert_eq!(log::max_level(), log::LevelFilter::Debug);
    assert_eq!(apply_log_level(&mut setting, &options(true, false, false)), LogLevel::Warn);
    assert_eq!(log::max_level(), log::LevelFilter::Warn);
}
