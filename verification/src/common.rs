//! Shared configuration data: system-wide performance preferences and log
//! levels.

use vstd::prelude::*;

verus! {

/// A system-wide performance preference.
#[derive(Debug, Clone, Copy, PartialEq, Eq, Structural)]
pub enum PerformanceMode {
    PowerSaving,
    Balanced,
    Performance,
}

/// Severity of a log line, most severe first.
#[derive(Debug, Clone, Copy, PartialEq, Eq, Structural)]
pub enum LogLevel {
    Error,
    Warn,
    Info,
    Debug,
    Trace,
}

/// The rank of a log level: lower is more severe.
pub open spec fn log_level_rank(level: LogLevel) -> int {
    match level {
        LogLevel::Error => 0,
        LogLevel::Warn => 1,
        LogLevel::Info => 2,
        LogLevel::Debug => 3,
        LogLevel::Trace => 4,
    }
}

/// Whether a message at `level` passes a filter set to `threshold`: it does
/// exactly when it is at least as severe.
pub fn level_enabled(level: LogLevel, threshold: LogLevel) -> (r: bool)
    ensures
        r == (log_level_rank(level) <= log_level_rank(threshold)),
{
    let rank: u8 = match level {
        LogLevel::Error => 0,
        LogLevel::Warn => 1,
        LogLevel::Info => 2,
        LogLevel::Debug => 3,
        LogLevel::Trace => 4,
    };
    let threshold_rank: u8 = match threshold {
        LogLevel::Error => 0,
        LogLevel::Warn => 1,
        LogLevel::Info => 2,
        LogLevel::Debug => 3,
        LogLevel::Trace => 4,
    };
    rank <= threshold_rank
}

} // verus!
