//! A small logger: a threshold, and the line it writes for a record.

use crate::number::digit_char;
use crate::text::push_char;
use vstd::prelude::*;

verus! {

/// How grave a log record is, the gravest first.
#[derive(Debug, Clone, Copy, PartialEq, Eq)]
pub enum Level {
    Error,
    Warn,
    Info,
    Debug,
    Trace,
}

/// Up to which level records are let through; `Off` lets none through.
#[derive(Debug, Clone, Copy, PartialEq, Eq)]
pub enum LevelFilter {
    Off,
    Error,
    Warn,
    Info,
    Debug,
    Trace,
}

impl Level {
    /// The place of the level in the order, from 1 for `Error`, as the
    /// `log` crate numbers its levels.
    pub open spec fn rank(self) -> int {
        match self {
            Level::Error => 1,
            Level::Warn => 2,
            Level::Info => 3,
            Level::Debug => 4,
            Level::Trace => 5,
        }
    }

    /// The rank as a machine number.
    pub fn number(self) -> (n: u8)
        ensures
            n == self.rank(),
    {
        match self {
            Level::Error => 1,
            Level::Warn => 2,
            Level::Info => 3,
            Level::Debug => 4,
            Level::Trace => 5,
        }
    }
}

impl LevelFilter {
    /// The rank of the last level that is let through, 0 for `Off`.
    pub open spec fn rank(self) -> int {
        match self {
            LevelFilter::Off => 0,
            LevelFilter::Error => 1,
            LevelFilter::Warn => 2,
            LevelFilter::Info => 3,
            LevelFilter::Debug => 4,
            LevelFilter::Trace => 5,
        }
    }

    /// The rank as a machine number.
    pub fn number(self) -> (n: u8)
        ensures
            n == self.rank(),
    {
        match self {
            LevelFilter::Off => 0,
            LevelFilter::Error => 1,
            LevelFilter::Warn => 2,
            LevelFilter::Info => 3,
            LevelFilter::Debug => 4,
            LevelFilter::Trace => 5,
        }
    }
}

/// The hour, minute and second of the day at `timestamp` seconds.
pub open spec fn clock_spec(timestamp: int) -> (int, int, int) {
    ((timestamp % 86400) / 3600, (timestamp % 3600) / 60, timestamp % 60)
}

/// A number below 100 in two decimal digits.
pub open spec fn two_digits(n: int) -> Seq<char> {
    seq![digit_char(n / 10), digit_char(n % 10)]
}

/// The time of day as `hh:mm:ss`.
pub open spec fn clock_text(timestamp: int) -> Seq<char> {
    let (hours, minutes, seconds) = clock_spec(timestamp);
    two_digits(hours) + seq![':'] + two_digits(minutes) + seq![':'] + two_digits(seconds)
}

/// The line written for a record: the label and the time of day in square
/// brackets, then the message.
pub open spec fn line_spec(label: Seq<char>, timestamp: int, message: Seq<char>) -> Seq<char> {
    seq!['['] + label + seq![' '] + clock_text(timestamp) + seq![']', ' '] + message
}

/// The text that `str::to_uppercase` makes of a text.
pub uninterp spec fn uppercase(text: Seq<char>) -> Seq<char>;

/// Puts a text in upper case with `str::to_uppercase`. The contract only
/// names the result: it is a function of the text.
#[verifier::external_body]
fn to_uppercase(text: &str) -> (upper: String)
    ensures
        upper@ == uppercase(text@),
{
    text.to_uppercase()
}

/// Tells the `log` crate up to which level its macros let records through,
/// by `log::set_max_level`. Nothing is returned and nothing is stated.
#[verifier::external_body]
fn set_max_level(level: LevelFilter) {
    log::set_max_level(
        match level {
            LevelFilter::Off => log::LevelFilter::Off,
            LevelFilter::Error => log::LevelFilter::Error,
            LevelFilter::Warn => log::LevelFilter::Warn,
            LevelFilter::Info => log::LevelFilter::Info,
            LevelFilter::Debug => log::LevelFilter::Debug,
            LevelFilter::Trace => log::LevelFilter::Trace,
        },
    )
}

/// The hour, minute and second of the day at `timestamp` seconds.
pub fn clock(timestamp: u64) -> (r: (u64, u64, u64))
    ensures
        (r.0 as int, r.1 as int, r.2 as int) == clock_spec(timestamp as int),
        r.0 < 24,
        r.1 < 60,
        r.2 < 60,
{
    ((timestamp % 86400) / 3600, (timestamp % 3600) / 60, timestamp % 60)
}

fn push_two_digits(out: &mut String, n: u64)
    requires
        n < 100,
    ensures
        final(out)@ == old(out)@ + two_digits(n as int),
{
    let tens: u8 = (n / 10) as u8;
    let ones: u8 = (n % 10) as u8;
    push_char(out, (48u8 + tens) as char);
    push_char(out, (48u8 + ones) as char);
    assert(final(out)@ =~= old(out)@ + two_digits(n as int));
}

/// A logger that lets through the records up to its level.
#[derive(Debug, Clone, Copy, PartialEq, Eq)]
pub struct SimpleLogger {
    level: LevelFilter,
}

impl SimpleLogger {
    /// The level up to which the logger lets records through.
    pub closed spec fn level_spec(&self) -> LevelFilter {
        self.level
    }

    /// A logger that lets through the records up to `level`.
    pub fn new(level: LevelFilter) -> (logger: SimpleLogger)
        ensures
            logger.level_spec() == level,
    {
        SimpleLogger { level }
    }

    /// Sets the threshold of the `log` crate's macros to `level` and
    /// returns the logger to install for it.
    pub fn init(level: LevelFilter) -> (logger: SimpleLogger)
        ensures
            logger.level_spec() == level,
    {
        let logger = SimpleLogger::new(level);
        set_max_level(level);
        logger
    }

    /// The level up to which the logger lets records through.
    pub fn level(&self) -> (level: LevelFilter)
        ensures
            level == self.level_spec(),
    {
        self.level
    }

    /// Whether a record of this level is let through.
    pub fn enabled(&self, level: Level) -> (b: bool)
        ensures
            b == (level.rank() <= self.level_spec().rank()),
    {
        level.number() <= self.level.number()
    }

    /// The line to write for a record made at `timestamp` seconds, or
    /// `None` where its level is not let through. The line is labelled
    /// with the record's target in upper case.
    pub fn log(&self, level: Level, target: &str, timestamp: u64, message: &str) -> (line: Option<
        String,
    >)
        ensures
            match line {
                Some(text) => level.rank() <= self.level_spec().rank() && text@ == line_spec(
                    uppercase(target@),
                    timestamp as int,
                    message@,
                ),
                None => level.rank() > self.level_spec().rank(),
            },
    {
        if !self.enabled(level) {
            return None;
        }
        let label = to_uppercase(target);
        Some(format_line(label.as_str(), timestamp, message))
    }
}

/// Writes the line for a record made at `timestamp` seconds.
pub fn format_line(label: &str, timestamp: u64, message: &str) -> (line: String)
    ensures
        line@ == line_spec(label@, timestamp as int, message@),
{
    let (hours, minutes, seconds) = clock(timestamp);
    let mut line = "[".to_owned();
    line.append(label);
    push_char(&mut line, ' ');
    push_two_digits(&mut line, hours);
    push_char(&mut line, ':');
    push_two_digits(&mut line, minutes);
    push_char(&mut line, ':');
    push_two_digits(&mut line, seconds);
    line.append("] ");
    line.append(message);
    proof {
        reveal_strlit("[");
        reveal_strlit("] ");
        assert("["@ =~= seq!['[']);
        assert("] "@ =~= seq![']', ' ']);
        assert(line@ =~= line_spec(label@, timestamp as int, message@));
    }
    line
}

} // verus!
