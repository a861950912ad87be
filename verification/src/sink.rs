//! The sink's verified core: threshold filtering and line rendering.

use vstd::prelude::*;

use crate::config::{env_filter_spec, filter_from_env_value};
use crate::level::{is_enabled, rank_of_filter, rank_of_severity, LevelFilter, Severity};
use crate::line::{format_line, line_spec};

verus! {

/// The verified core of the kernel log sink: its filtering threshold,
/// fixed at construction. The runtime shell owns the device handle; this
/// type decides which records are forwarded and what bytes each accepted
/// record becomes.
pub struct KernelLog {
    maxlevel: LevelFilter,
}

impl KernelLog {
    /// The threshold this sink filters by.
    pub closed spec fn max_level(self) -> LevelFilter {
        self.maxlevel
    }

    /// A sink that accepts every record.
    pub fn new() -> (s: KernelLog)
        ensures
            s.max_level() == LevelFilter::Trace,
    {
        KernelLog::with_level(LevelFilter::Trace)
    }

    /// A sink filtering at `filter`.
    pub fn with_level(filter: LevelFilter) -> (s: KernelLog)
        ensures
            s.max_level() == filter,
    {
        KernelLog { maxlevel: filter }
    }

    /// A sink whose threshold comes from the level environment variable's
    /// value, as handed in by the caller; absent or malformed text yields
    /// a sink that accepts everything.
    pub fn from_env(env_level: Option<&str>) -> (s: KernelLog)
        ensures
            match env_level {
                Some(t) => s.max_level() == env_filter_spec(t@),
                None => s.max_level() == LevelFilter::Trace,
            },
    {
        KernelLog::with_level(filter_from_env_value(env_level))
    }

    /// The sink's threshold, for configuring the facade's own cutoff.
    pub fn level(&self) -> (f: LevelFilter)
        ensures
            f == self.max_level(),
    {
        self.maxlevel
    }

    /// Whether a record of severity `severity` would be written.
    pub fn enabled(&self, severity: Severity) -> (r: bool)
        ensures
            r == is_enabled(severity, self.max_level()),
    {
        rank_of_severity(severity) <= rank_of_filter(self.maxlevel)
    }

    /// Decides and renders in one step: the exact line the device must
    /// receive for this record — priority code, target, process id,
    /// message — or `None` when the record is more verbose than the
    /// threshold, in which case nothing may be written. The check stands
    /// here as well as in the caller, so a record reaching `log` without
    /// an `enabled` test is still filtered.
    pub fn log(&self, severity: Severity, target: &str, pid: u32, message: &str) -> (line: Option<
        String,
    >)
        ensures
            is_enabled(severity, self.max_level()) ==> (line matches Some(l) && l@ == line_spec(
                severity,
                target@,
                pid as nat,
                message@,
            )),
            !is_enabled(severity, self.max_level()) ==> line is None,
    {
        if !self.enabled(severity) {
            return None;
        }
        Some(format_line(severity, target, pid, message))
    }

    /// Nothing to drain: every accepted record was already rendered and
    /// handed over synchronously, so flushing does nothing, any number of
    /// times.
    pub fn flush(&self) {
    }
}

} // verus!
