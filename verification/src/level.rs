//! Severities, thresholds, and the mapping to kernel priority codes.

use vstd::prelude::*;

verus! {

/// The five record severities of the logging facade, most urgent first.
#[derive(Clone, Copy, PartialEq, Eq, Structural, Debug)]
pub enum Severity {
    Error,
    Warn,
    Info,
    Debug,
    Trace,
}

/// A sink's filtering threshold: `Off` admits nothing; any other value
/// admits records at its own severity and every more urgent one.
#[derive(Clone, Copy, PartialEq, Eq, Structural, Debug)]
pub enum LevelFilter {
    Off,
    Error,
    Warn,
    Info,
    Debug,
    Trace,
}

/// The kernel priority code a record of severity `s` is tagged with.
/// Lower codes are more urgent; codes 0 through 2 are reserved for
/// conditions more severe than any facade severity.
pub open spec fn priority_spec(s: Severity) -> int {
    match s {
        Severity::Error => 3,
        Severity::Warn => 4,
        Severity::Info => 5,
        Severity::Debug => 6,
        Severity::Trace => 7,
    }
}

/// Verbosity rank of a severity: 1 for the most urgent, 5 for the most
/// verbose.
pub open spec fn severity_rank(s: Severity) -> int {
    match s {
        Severity::Error => 1,
        Severity::Warn => 2,
        Severity::Info => 3,
        Severity::Debug => 4,
        Severity::Trace => 5,
    }
}

/// Verbosity rank of a threshold: 0 admits nothing, 5 admits everything.
pub open spec fn filter_rank(f: LevelFilter) -> int {
    match f {
        LevelFilter::Off => 0,
        LevelFilter::Error => 1,
        LevelFilter::Warn => 2,
        LevelFilter::Info => 3,
        LevelFilter::Debug => 4,
        LevelFilter::Trace => 5,
    }
}

/// A record of severity `s` passes a sink whose threshold is `f`.
pub open spec fn is_enabled(s: Severity, f: LevelFilter) -> bool {
    severity_rank(s) <= filter_rank(f)
}

/// The threshold that admits exactly severity `s` and everything more
/// urgent than `s`.
pub open spec fn filter_of(s: Severity) -> LevelFilter {
    match s {
        Severity::Error => LevelFilter::Error,
        Severity::Warn => LevelFilter::Warn,
        Severity::Info => LevelFilter::Info,
        Severity::Debug => LevelFilter::Debug,
        Severity::Trace => LevelFilter::Trace,
    }
}

/// Maps a severity to its kernel priority code.
pub fn priority(s: Severity) -> (p: u8)
    ensures
        p == priority_spec(s),
{
    match s {
        Severity::Error => 3,
        Severity::Warn => 4,
        Severity::Info => 5,
        Severity::Debug => 6,
        Severity::Trace => 7,
    }
}

/// Verbosity rank of `s`, executable form of `severity_rank`.
pub fn rank_of_severity(s: Severity) -> (r: u8)
    ensures
        r == severity_rank(s),
{
    match s {
        Severity::Error => 1,
        Severity::Warn => 2,
        Severity::Info => 3,
        Severity::Debug => 4,
        Severity::Trace => 5,
    }
}

/// Verbosity rank of `f`, executable form of `filter_rank`.
pub fn rank_of_filter(f: LevelFilter) -> (r: u8)
    ensures
        r == filter_rank(f),
{
    match f {
        LevelFilter::Off => 0,
        LevelFilter::Error => 1,
        LevelFilter::Warn => 2,
        LevelFilter::Info => 3,
        LevelFilter::Debug => 4,
        LevelFilter::Trace => 5,
    }
}

/// Law: filtering agrees with the priority codes. A candidate severity `s`
/// passes the threshold named after severity `t` exactly when `s`'s
/// priority code is at most `t`'s — that is, when `s` is at least as
/// urgent as `t`.
pub proof fn lemma_threshold_filtering(s: Severity, t: Severity)
    ensures
        is_enabled(s, filter_of(t)) <==> priority_spec(s) <= priority_spec(t),
{
}

/// Law: the most verbose threshold admits every severity.
pub proof fn lemma_trace_admits_all(s: Severity)
    ensures
        is_enabled(s, LevelFilter::Trace),
{
}

/// Law: the severity mapping is total onto the codes 3 through 7 and
/// one-to-one: no two severities share a priority code.
pub proof fn lemma_priority_injective(s: Severity, t: Severity)
    ensures
        3 <= priority_spec(s) <= 7,
        priority_spec(s) == priority_spec(t) ==> s == t,
{
}

} // verus!
