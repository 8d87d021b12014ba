//! The rules of the bot's log output: which records are printed and how a
//! printed line is laid out.
use vstd::prelude::*;

use crate::config::{
    effective_level, filter_of, filter_rank, has_conflict, level_name, Level, LevelFilter, Log,
};

verus! {

pub const ANSI_DEFAULT: &'static str = "\x1B[0m";

pub const ANSI_FOREGROUND_RED: &'static str = "\x1B[31m";

pub const ANSI_FOREGROUND_DARK_GREEN: &'static str = "\x1B[32m";

pub const ANSI_FOREGROUND_DARK_YELLOW: &'static str = "\x1B[33m";

pub const ANSI_FOREGROUND_BRIGHT_BLUE: &'static str = "\x1B[94m";

pub const ANSI_FOREGROUND_DARK_MAGENTA: &'static str = "\x1B[95m";

/// `s` with each occurrence of `from` replaced by `to`.
pub uninterp spec fn replaced(s: Seq<char>, from: Seq<char>, to: Seq<char>) -> Seq<char>;

/// Relies on `str::replace`: a new string in which every match of `from` is
/// replaced by `to`; the result depends on the three strings alone.
#[verifier::external_body]
fn replace_all(s: &str, from: &str, to: &str) -> (r: String)
    ensures
        r@ == replaced(s@, from@, to@),
{
    s.replace(from, to)
}

/// The terminal colour of a level.
pub open spec fn color_of(level: Level) -> Seq<char> {
    match level {
        Level::Error => ANSI_FOREGROUND_RED@,
        Level::Warn => ANSI_FOREGROUND_DARK_YELLOW@,
        Level::Info => ANSI_FOREGROUND_BRIGHT_BLUE@,
        Level::Debug => ANSI_FOREGROUND_DARK_GREEN@,
        Level::Trace => ANSI_FOREGROUND_DARK_MAGENTA@,
    }
}

/// The space that aligns the four-letter level names with the five-letter ones.
pub open spec fn padding_of(level: Level) -> Seq<char> {
    if level == Level::Warn || level == Level::Info {
        " "@
    } else {
        ""@
    }
}

/// The text that stands for `%l`: alignment, colour, name, colour reset.
pub open spec fn level_text(level: Level) -> Seq<char> {
    padding_of(level) + color_of(level) + level_name(level) + ANSI_DEFAULT@
}

pub fn level_to_color(level: Level) -> (r: &'static str)
    ensures
        r@ == color_of(level),
{
    match level {
        Level::Error => ANSI_FOREGROUND_RED,
        Level::Warn => ANSI_FOREGROUND_DARK_YELLOW,
        Level::Info => ANSI_FOREGROUND_BRIGHT_BLUE,
        Level::Debug => ANSI_FOREGROUND_DARK_GREEN,
        Level::Trace => ANSI_FOREGROUND_DARK_MAGENTA,
    }
}

pub fn level_padding(level: Level) -> (r: &'static str)
    ensures
        r@ == padding_of(level),
{
    if level == Level::Warn || level == Level::Info {
        " "
    } else {
        ""
    }
}

/// Padding after the target name; targets are not aligned, so it is empty
/// whatever the width.
pub fn generate_padding(_width: usize) -> (r: String)
    ensures
        r@ == Seq::<char>::empty(),
{
    String::new()
}

/// The width to pad a target of `target_len` characters to, when the widest
/// target seen so far had `widest` characters.
pub fn target_padding_width(target_len: usize, widest: usize) -> (r: usize)
    ensures
        r as int == if target_len > widest {
            target_len - widest
        } else {
            widest as int
        },
{
    if target_len > widest {
        target_len - widest
    } else {
        widest
    }
}

/// Whether `s` begins with `prefix`.
fn starts_with(s: &str, prefix: &str) -> (r: bool)
    ensures
        r == (prefix@.len() <= s@.len() && s@.subrange(0, prefix@.len() as int) == prefix@),
{
    let n = prefix.unicode_len();
    let m = s.unicode_len();
    if n > m {
        return false;
    }
    let mut i: usize = 0;
    while i < n
        invariant
            n == prefix@.len(),
            m == s@.len(),
            n <= m,
            i <= n,
            forall|j: int| 0 <= j < i ==> s@[j] == prefix@[j],
        decreases n - i,
    {
        if s.get_char(i) != prefix.get_char(i) {
            assert(s@.subrange(0, n as int)[i as int] != prefix@[i as int]);
            return false;
        }
        i = i + 1;
    }
    assert(s@.subrange(0, n as int) =~= prefix@);
    true
}

/// Whether a record of `level` passes the configured verbosity.
pub open spec fn is_enabled(conf: Log, level: Level) -> bool {
    has_conflict(conf) || filter_rank(filter_of(level)) <= filter_rank(conf.max_level)
}

/// Whether a record of `level` from `target` is printed; only records of
/// `own_crate` are, unless `debug` is set.
pub open spec fn is_printed(conf: Log, level: Level, target: Seq<char>, own_crate: Seq<char>) -> bool {
    &&& is_enabled(conf, level)
    &&& (conf.debug || (own_crate.len() <= target.len() && target.subrange(0, own_crate.len() as int)
        == own_crate))
}

/// The printed line of a record.
pub open spec fn line_of(
    conf: Log,
    level: Level,
    target: Seq<char>,
    message: Seq<char>,
) -> Seq<char> {
    replaced(
        replaced(replaced(conf.format@, "%l"@, level_text(level)), "%t"@, target),
        "%m"@,
        message,
    )
}

/// A logger set up from a configuration that gives the verbosity one way.
#[derive(Debug)]
pub struct Logger(Log);

impl Logger {
    pub closed spec fn config(&self) -> Log {
        self.0
    }

    /// Sets a logger up from `conf`, which must not give both `max_level` and
    /// `levels`.
    pub fn from_config(conf: Log) -> (r: Logger)
        requires
            !has_conflict(conf),
        ensures
            r.config() == conf,
    {
        Logger(conf)
    }

    /// The global verbosity to install with this logger.
    pub fn max_level(&self) -> (r: LevelFilter)
        ensures
            r == effective_level(self.config()),
    {
        self.0.effective_level()
    }

    pub fn enabled(&self, level: Level) -> (r: bool)
        ensures
            r == is_enabled(self.config(), level),
    {
        self.0.has_conflicting_levels() || level.to_level_filter().rank() <= self.0.max_level.rank()
    }

    /// The line to print for a record of `level` from `target`, or `None`
    /// when the record is not printed. `own_crate` is the name of the bot's
    /// crate and `target_width` the padding width for the target.
    pub fn render(
        &self,
        level: Level,
        target: &str,
        message: &str,
        own_crate: &str,
        target_width: usize,
    ) -> (r: Option<String>)
        ensures
            r is Some <==> is_printed(self.config(), level, target@, own_crate@),
            r is Some ==> r->Some_0@ == line_of(self.config(), level, target@, message@),
    {
        if !self.enabled(level) || (!self.0.debug && !starts_with(target, own_crate)) {
            return None;
        }
        let mut level_part = String::from_str(level_padding(level));
        level_part.append(level_to_color(level));
        level_part.append(level.as_str());
        level_part.append(ANSI_DEFAULT);
        let target_part = String::from_str(target).concat(generate_padding(target_width).as_str());
        let with_level = replace_all(self.0.format.as_str(), "%l", level_part.as_str());
        let with_target = replace_all(with_level.as_str(), "%t", target_part.as_str());
        let line = replace_all(with_target.as_str(), "%m", message);
        proof {
            assert(level_part@ =~= level_text(level));
            assert(target_part@ =~= target@);
        }
        Some(line)
    }
}

} // verus!
