use eternacore::config::{Config, Discord, Intents, Level, LevelFilter, Log, LogLevels};
use eternacore::decimal::decimal;
use eternacore::gateway::{get_privileged_intents, requested_intents};
use eternacore::logger::{
    generate_padding, level_padding, level_to_color, target_padding_width, Logger,
};

fn levels(error: bool, warn: bool, info: bool, debug: bool, trace: bool) -> LogLevels {
    LogLevels { error, warn, info, debug, trace }
}

#[test]
fn decimal_text() {
    assert_eq!(decimal(0), "0");
    assert_eq!(decimal(7), "7");
    assert_eq!(decimal(10), "10");
    assert_eq!(decimal(100), "100");
    assert_eq!(decimal(u64::MAX), "18446744073709551615");
}

#[test]
fn levels_disabled_only_when_all_off() {
    assert!(LogLevels::default().is_disabled());
    assert!(!levels(false, false, false, false, true).is_disabled());
    assert!(!levels(true, false, false, false, false).is_disabled());
}

#[test]
fn levels_pick_most_verbose() {
    assert_eq!(levels(false, false, false, false, false).to_level_filter(), LevelFilter::Off);
    assert_eq!(levels(true, false, false, false, false).to_level_filter(), LevelFilter::Error);
    assert_eq!(levels(true, true, false, false, false).to_level_filter(), LevelFilter::Warn);
    assert_eq!(levels(false, false, true, false, false).to_level_filter(), LevelFilter::Info);
    assert_eq!(levels(true, false, true, true, false).to_level_filter(), LevelFilter::Debug);
    assert_eq!(levels(true, false, false, false, true).to_level_filter(), LevelFilter::Trace);
}

#[test]
fn config_defaults() {
    let c = Config::default();
    assert_eq!(c.discord.token, "");
    assert_eq!(c.discord.shards, 5);
    assert_eq!(c.discord.intents, Intents::default());
    assert_eq!(c.log.max_level, LevelFilter::Off);
    assert_eq!(c.log.format, "%l | %t | %m");
    assert!(!c.log.debug);
    assert!(c.log.levels.is_disabled());
    let d = Discord::default();
    assert_eq!(d.shards, 5);
}

#[test]
fn conflicting_levels_detected() {
    let mut log = Log::default();
    assert!(!log.has_conflicting_levels());
    log.levels.info = true;
    assert!(!log.has_conflicting_levels());
    assert_eq!(log.effective_level(), LevelFilter::Info);
    log.max_level = LevelFilter::Debug;
    assert!(log.has_conflicting_levels());
}

#[test]
fn logger_uses_max_level() {
    let mut log = Log::default();
    log.max_level = LevelFilter::Warn;
    let logger = Logger::from_config(log);
    assert_eq!(logger.max_level(), LevelFilter::Warn);
    assert!(logger.enabled(Level::Error));
    assert!(logger.enabled(Level::Warn));
    assert!(!logger.enabled(Level::Info));
}

#[test]
fn logger_renders_own_records() {
    let mut log = Log::default();
    log.max_level = LevelFilter::Info;
    let logger = Logger::from_config(log);
    let line = logger.render(Level::Info, "eternacore::handler", "ready", "eternacore", 0);
    assert_eq!(
        line,
        Some(String::from(" \x1B[94mINFO\x1B[0m | eternacore::handler | ready"))
    );
    assert_eq!(logger.render(Level::Info, "serenity::http", "x", "eternacore", 0), None);
    assert_eq!(logger.render(Level::Debug, "eternacore", "x", "eternacore", 0), None);
}

#[test]
fn logger_debug_prints_other_crates() {
    let mut log = Log::default();
    log.max_level = LevelFilter::Trace;
    log.debug = true;
    log.format = String::from("[%l] %m");
    let logger = Logger::from_config(log);
    let line = logger.render(Level::Error, "serenity", "boom", "eternacore", 0);
    assert_eq!(line, Some(String::from("[\x1B[31mERROR\x1B[0m] boom")));
}

#[test]
fn level_colors_and_padding() {
    assert_eq!(level_to_color(Level::Error), "\x1B[31m");
    assert_eq!(level_to_color(Level::Warn), "\x1B[33m");
    assert_eq!(level_to_color(Level::Info), "\x1B[94m");
    assert_eq!(level_to_color(Level::Debug), "\x1B[32m");
    assert_eq!(level_to_color(Level::Trace), "\x1B[95m");
    assert_eq!(level_padding(Level::Warn), " ");
    assert_eq!(level_padding(Level::Info), " ");
    assert_eq!(level_padding(Level::Error), "");
    assert_eq!(generate_padding(12), "");
    assert_eq!(target_padding_width(10, 4), 6);
    assert_eq!(target_padding_width(3, 4), 4);
}

#[test]
fn intents_from_config() {
    let config = Intents { presence: true, server_members: false, message_content: true };
    let intents = requested_intents(&config);
    assert!(intents.guild_messages && intents.direct_messages);
    assert!(intents.message_content && intents.guild_presences && !intents.guild_members);
    let privileged = get_privileged_intents(intents);
    assert!(!privileged.guild_messages && !privileged.direct_messages);
    assert!(privileged.message_content && privileged.guild_presences);
    assert!(!privileged.guild_members);
}
