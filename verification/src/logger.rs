//! Level filtering of the examples' loggers.
//!
//! Both loggers of the examples (the ITM one and the serial one) are
//! `cortex_m_log` loggers set to the `Info` filter. Such a logger prints a
//! record when the record's level is no more verbose than its filter, the
//! comparison that the `log` crate defines between a level and a filter.

use vstd::prelude::*;

verus! {

/// Level of a log record, most severe first.
#[derive(Clone, Copy, Debug, PartialEq, Eq, Structural)]
pub enum LogLevel {
    Error,
    Warn,
    Info,
    Debug,
    Trace,
}

/// Level filter of a logger, from "nothing" to "everything".
#[derive(Clone, Copy, Debug, PartialEq, Eq, Structural)]
pub enum LogFilter {
    Off,
    Error,
    Warn,
    Info,
    Debug,
    Trace,
}

/// Verbosity of a level: `Error` is 1, `Trace` is 5.
pub open spec fn level_rank(level: LogLevel) -> int {
    match level {
        LogLevel::Error => 1,
        LogLevel::Warn => 2,
        LogLevel::Info => 3,
        LogLevel::Debug => 4,
        LogLevel::Trace => 5,
    }
}

/// Verbosity that a filter lets through: `Off` is 0, `Trace` is 5.
pub open spec fn filter_rank(filter: LogFilter) -> int {
    match filter {
        LogFilter::Off => 0,
        LogFilter::Error => 1,
        LogFilter::Warn => 2,
        LogFilter::Info => 3,
        LogFilter::Debug => 4,
        LogFilter::Trace => 5,
    }
}

/// The filter that the examples give their loggers.
pub const EXAMPLE_LOG_FILTER: LogFilter = LogFilter::Info;

/// `log::Level <= log::LevelFilter` (the `PartialOrd<LevelFilter>` impl of
/// `log::Level`) on the `log` values that correspond to `level` and
/// `filter`. That impl compares the discriminants, which are 1 (`Error`) to
/// 5 (`Trace`) for a level and 0 (`Off`) to 5 (`Trace`) for a filter: the
/// contract claims exactly that comparison of the ranks.
#[verifier::external_body]
fn log_level_within(level: LogLevel, filter: LogFilter) -> (within: bool)
    ensures
        within == (level_rank(level) <= filter_rank(filter)),
{
    let level = match level {
        LogLevel::Error => log::Level::Error, LogLevel::Warn => log::Level::Warn,
        LogLevel::Info => log::Level::Info, LogLevel::Debug => log::Level::Debug,
        LogLevel::Trace => log::Level::Trace,
    };
    let filter = match filter {
        LogFilter::Off => log::LevelFilter::Off, LogFilter::Error => log::LevelFilter::Error,
        LogFilter::Warn => log::LevelFilter::Warn, LogFilter::Info => log::LevelFilter::Info,
        LogFilter::Debug => log::LevelFilter::Debug, LogFilter::Trace => log::LevelFilter::Trace,
    };
    level <= filter
}

/// Whether a logger with filter `filter` prints a record of level `level`.
pub fn enabled(level: LogLevel, filter: LogFilter) -> (on: bool)
    ensures
        on == (level_rank(level) <= filter_rank(filter)),
{
    log_level_within(level, filter)
}

/// A logger that prints a record prints every more severe one too; a
/// logger set to `Off` prints nothing and one set to `Trace` prints all.
pub proof fn lemma_filter_monotone(more_verbose: LogLevel, more_severe: LogLevel, filter: LogFilter)
    requires
        level_rank(more_severe) <= level_rank(more_verbose),
    ensures
        level_rank(more_verbose) <= filter_rank(filter) ==> level_rank(more_severe)
            <= filter_rank(filter),
        !(level_rank(more_verbose) <= filter_rank(LogFilter::Off)),
        level_rank(more_verbose) <= filter_rank(LogFilter::Trace),
{
}

/// A more verbose filter lets through every record that a less verbose
/// one lets through.
pub proof fn lemma_filter_widening(level: LogLevel, narrow: LogFilter, wide: LogFilter)
    requires
        filter_rank(narrow) <= filter_rank(wide),
    ensures
        level_rank(level) <= filter_rank(narrow) ==> level_rank(level) <= filter_rank(wide),
{
}

} // verus!
