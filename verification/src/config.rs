//! Choosing a sink threshold from the level environment variable's text.
//!
//! The text is matched against the facade's six level names, ignoring
//! ASCII case; anything else falls back to the most verbose threshold,
//! never to an error.

use vstd::prelude::*;

use crate::level::{is_enabled, LevelFilter, Severity};

verus! {

/// `s` equals the level name whose lowercase spelling is `low` and whose
/// uppercase spelling is `up`, compared one character at a time and
/// ignoring ASCII case.
pub open spec fn matches_keyword(s: Seq<char>, low: Seq<char>, up: Seq<char>) -> bool {
    &&& s.len() == low.len()
    &&& forall|i: int| 0 <= i < s.len() ==> s[i] == low[i] || s[i] == up[i]
}

/// The threshold a textual level name denotes: one of the six names the
/// facade understands, matched ignoring ASCII case; any other text
/// denotes nothing.
pub open spec fn parse_filter_spec(s: Seq<char>) -> Option<LevelFilter> {
    if matches_keyword(s, "off"@, "OFF"@) {
        Some(LevelFilter::Off)
    } else if matches_keyword(s, "error"@, "ERROR"@) {
        Some(LevelFilter::Error)
    } else if matches_keyword(s, "warn"@, "WARN"@) {
        Some(LevelFilter::Warn)
    } else if matches_keyword(s, "info"@, "INFO"@) {
        Some(LevelFilter::Info)
    } else if matches_keyword(s, "debug"@, "DEBUG"@) {
        Some(LevelFilter::Debug)
    } else if matches_keyword(s, "trace"@, "TRACE"@) {
        Some(LevelFilter::Trace)
    } else {
        None
    }
}

/// The threshold taken from the environment text `s`: the named level
/// when `s` parses, the most verbose threshold otherwise.
pub open spec fn env_filter_spec(s: Seq<char>) -> LevelFilter {
    match parse_filter_spec(s) {
        Some(f) => f,
        None => LevelFilter::Trace,
    }
}

/// Law: environment text that does not parse — and so also the absence
/// of the variable — falls back to a threshold that admits every one of
/// the five severities.
pub proof fn lemma_env_fallback(s: Seq<char>, sev: Severity)
    ensures
        parse_filter_spec(s) is None ==> is_enabled(sev, env_filter_spec(s)),
{
}

/// Relies on `log::LevelFilter`'s `FromStr`: it recognises exactly the six
/// level names OFF, ERROR, WARN, INFO, DEBUG and TRACE, each compared to
/// the input ignoring ASCII case, and rejects every other text.
#[verifier::external_body]
fn parse_level_filter(s: &str) -> (r: Option<LevelFilter>)
    ensures
        r == parse_filter_spec(s@),
{
    match s.parse::<log::LevelFilter>() {
        Ok(log::LevelFilter::Off) => Some(LevelFilter::Off),
        Ok(log::LevelFilter::Error) => Some(LevelFilter::Error),
        Ok(log::LevelFilter::Warn) => Some(LevelFilter::Warn),
        Ok(log::LevelFilter::Info) => Some(LevelFilter::Info),
        Ok(log::LevelFilter::Debug) => Some(LevelFilter::Debug),
        Ok(log::LevelFilter::Trace) => Some(LevelFilter::Trace),
        Err(_) => None,
    }
}

/// Chooses the sink threshold from the level environment variable's
/// value, as handed in by the caller: the named level when the text
/// parses; everything is accepted when the variable is absent or its
/// text is malformed, which is never an error.
pub fn filter_from_env_value(env_level: Option<&str>) -> (f: LevelFilter)
    ensures
        match env_level {
            Some(s) => f == env_filter_spec(s@),
            None => f == LevelFilter::Trace,
        },
{
    match env_level {
        None => LevelFilter::Trace,
        Some(s) => match parse_level_filter(s) {
            Some(f) => f,
            None => LevelFilter::Trace,
        },
    }
}

} // verus!
