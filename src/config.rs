//! The bot's configuration values and the log-level rules read from them.
use vstd::prelude::*;

verus! {

/// A bound on log verbosity, from `Off` up to `Trace`.
#[derive(Clone, Copy, Debug, PartialEq, Eq, Structural)]
pub enum LevelFilter {
    Off,
    Error,
    Warn,
    Info,
    Debug,
    Trace,
}

/// The verbosity of one log record.
#[derive(Clone, Copy, Debug, PartialEq, Eq, Structural)]
pub enum Level {
    Error,
    Warn,
    Info,
    Debug,
    Trace,
}

/// Position of a filter in the order `Off < Error < Warn < Info < Debug < Trace`.
pub open spec fn filter_rank(f: LevelFilter) -> int {
    match f {
        LevelFilter::Off => 0,
        LevelFilter::Error => 1,
        LevelFilter::Warn => 2,
        LevelFilter::Info => 3,
        LevelFilter::Debug => 4,
        LevelFilter::Trace => 5,
    }
}

/// The filter that lets through exactly the records up to `l`.
pub open spec fn filter_of(l: Level) -> LevelFilter {
    match l {
        Level::Error => LevelFilter::Error,
        Level::Warn => LevelFilter::Warn,
        Level::Info => LevelFilter::Info,
        Level::Debug => LevelFilter::Debug,
        Level::Trace => LevelFilter::Trace,
    }
}

impl LevelFilter {
    pub fn rank(&self) -> (r: u8)
        ensures
            r as int == filter_rank(*self),
    {
        match self {
            LevelFilter::Off => 0,
            LevelFilter::Error => 1,
            LevelFilter::Warn => 2,
            LevelFilter::Info => 3,
            LevelFilter::Debug => 4,
            LevelFilter::Trace => 5,
        }
    }
}

impl Level {
    pub fn to_level_filter(&self) -> (r: LevelFilter)
        ensures
            r == filter_of(*self),
    {
        match self {
            Level::Error => LevelFilter::Error,
            Level::Warn => LevelFilter::Warn,
            Level::Info => LevelFilter::Info,
            Level::Debug => LevelFilter::Debug,
            Level::Trace => LevelFilter::Trace,
        }
    }

    /// The level's name in upper case.
    pub fn as_str(&self) -> (r: &'static str)
        ensures
            r@ == level_name(*self),
    {
        match self {
            Level::Error => "ERROR",
            Level::Warn => "WARN",
            Level::Info => "INFO",
            Level::Debug => "DEBUG",
            Level::Trace => "TRACE",
        }
    }
}

pub open spec fn level_name(l: Level) -> Seq<char> {
    match l {
        Level::Error => "ERROR"@,
        Level::Warn => "WARN"@,
        Level::Info => "INFO"@,
        Level::Debug => "DEBUG"@,
        Level::Trace => "TRACE"@,
    }
}

/// Which levels are switched on, one by one.
#[derive(Clone, Copy, Debug, PartialEq, Eq, Structural)]
pub struct LogLevels {
    pub error: bool,
    pub warn: bool,
    pub info: bool,
    pub debug: bool,
    pub trace: bool,
}

/// The most verbose filter among the levels switched on, `Off` for none.
pub open spec fn most_verbose(l: LogLevels) -> LevelFilter {
    if l.trace {
        LevelFilter::Trace
    } else if l.debug {
        LevelFilter::Debug
    } else if l.info {
        LevelFilter::Info
    } else if l.warn {
        LevelFilter::Warn
    } else if l.error {
        LevelFilter::Error
    } else {
        LevelFilter::Off
    }
}

impl LogLevels {
    /// Whether every level is switched off.
    pub fn is_disabled(&self) -> (r: bool)
        ensures
            r == !(self.error || self.warn || self.info || self.debug || self.trace),
    {
        !self.error && !self.warn && !self.info && !self.debug && !self.trace
    }

    pub fn to_level_filter(self) -> (r: LevelFilter)
        ensures
            r == most_verbose(self),
    {
        if self.trace {
            LevelFilter::Trace
        } else if self.debug {
            LevelFilter::Debug
        } else if self.info {
            LevelFilter::Info
        } else if self.warn {
            LevelFilter::Warn
        } else if self.error {
            LevelFilter::Error
        } else {
            LevelFilter::Off
        }
    }
}

impl Default for LogLevels {
    fn default() -> (r: LogLevels)
        ensures
            r == (LogLevels { error: false, warn: false, info: false, debug: false, trace: false }),
    {
        LogLevels { error: false, warn: false, info: false, debug: false, trace: false }
    }
}

/// Logging settings. The verbosity is given either by `max_level` or by
/// `levels`, not by both.
#[derive(Debug)]
pub struct Log {
    pub max_level: LevelFilter,
    pub levels: LogLevels,
    /// The line layout: `%l` stands for the level, `%t` for the target and
    /// `%m` for the message.
    pub format: String,
    /// Whether records of other crates are printed too.
    pub debug: bool,
}

/// Both ways of giving the verbosity are used.
pub open spec fn has_conflict(conf: Log) -> bool {
    let l = conf.levels;
    (l.error || l.warn || l.info || l.debug || l.trace) && conf.max_level != LevelFilter::Off
}

/// The verbosity a configuration asks for: `max_level` when it is set, else
/// the most verbose of `levels`.
pub open spec fn effective_level(conf: Log) -> LevelFilter {
    if conf.max_level != LevelFilter::Off {
        conf.max_level
    } else {
        most_verbose(conf.levels)
    }
}

impl Log {
    /// Whether both `max_level` and `levels` are set.
    pub fn has_conflicting_levels(&self) -> (r: bool)
        ensures
            r == has_conflict(*self),
    {
        !self.levels.is_disabled() && self.max_level != LevelFilter::Off
    }

    pub fn effective_level(&self) -> (r: LevelFilter)
        ensures
            r == effective_level(*self),
    {
        if self.max_level != LevelFilter::Off {
            self.max_level
        } else {
            self.levels.to_level_filter()
        }
    }
}

impl Clone for Log {
    fn clone(&self) -> (r: Log)
        ensures
            r == *self,
    {
        Log {
            max_level: self.max_level,
            levels: self.levels,
            format: self.format.clone(),
            debug: self.debug,
        }
    }
}

impl Default for Log {
    fn default() -> (r: Log)
        ensures
            r.max_level == LevelFilter::Off,
            r.levels == (LogLevels { error: false, warn: false, info: false, debug: false, trace: false }),
            r.format@ == "%l | %t | %m"@,
            !r.debug,
    {
        Log {
            max_level: LevelFilter::Off,
            levels: LogLevels::default(),
            format: String::from_str("%l | %t | %m"),
            debug: false,
        }
    }
}

/// The privileged gateway intents the bot asks for.
#[derive(Clone, Copy, Debug, PartialEq, Eq, Structural)]
pub struct Intents {
    pub presence: bool,
    pub server_members: bool,
    pub message_content: bool,
}

impl Default for Intents {
    fn default() -> (r: Intents)
        ensures
            r == (Intents { presence: false, server_members: false, message_content: false }),
    {
        Intents { presence: false, server_members: false, message_content: false }
    }
}

/// Connection settings.
#[derive(Debug)]
pub struct Discord {
    pub token: String,
    pub intents: Intents,
    pub shards: u64,
}

impl Default for Discord {
    fn default() -> (r: Discord)
        ensures
            r.token@ == Seq::<char>::empty(),
            r.intents == (Intents { presence: false, server_members: false, message_content: false }),
            r.shards == 5,
    {
        Discord { token: String::new(), intents: Intents::default(), shards: 5 }
    }
}

/// The whole configuration.
#[derive(Debug)]
pub struct Config {
    pub discord: Discord,
    pub log: Log,
}

impl Default for Config {
    fn default() -> (r: Config)
        ensures
            r.discord.token@ == Seq::<char>::empty(),
            r.discord.intents == (Intents {
                presence: false,
                server_members: false,
                message_content: false,
            }),
            r.discord.shards == 5,
            r.log.max_level == LevelFilter::Off,
            r.log.levels == (LogLevels {
                error: false,
                warn: false,
                info: false,
                debug: false,
                trace: false,
            }),
            r.log.format@ == "%l | %t | %m"@,
            !r.log.debug,
    {
        Config { discord: Discord::default(), log: Log::default() }
    }
}

} // verus!
