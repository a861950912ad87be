//! Composing the outcome of installing the sink as the process logger.
//!
//! Installation is two fallible steps — opening the log device, then
//! registering with the facade — folded into one error result that says
//! which step failed. The runtime shell performs the steps and reports
//! their outcomes; the composition is decided here.

use vstd::prelude::*;

use crate::config::env_filter_spec;
use crate::level::LevelFilter;

verus! {

/// `std::io::Error`, the error of the device-open step, carried through
/// as an opaque value. Relies only on the type's existence.
#[verifier::external_type_specification]
#[verifier::external_body]
pub struct ExIoError(std::io::Error);

/// `log::SetLoggerError`, the facade's "a logger was already installed"
/// error, carried through as an opaque value. Relies only on the type's
/// existence.
#[verifier::external_type_specification]
#[verifier::external_body]
pub struct ExSetLoggerError(log::SetLoggerError);

/// Why installing the kernel logger failed: the device could not be
/// opened, or the facade already had a logger registered.
pub enum KernelLogInitError {
    /// Opening the log device failed.
    Io(std::io::Error),
    /// Registering with the facade failed: a logger was already
    /// installed; the one that was stays active.
    Log(log::SetLoggerError),
}

impl From<std::io::Error> for KernelLogInitError {
    fn from(err: std::io::Error) -> (r: Self) {
        KernelLogInitError::Io(err)
    }
}

impl vstd::std_specs::convert::FromSpecImpl<std::io::Error> for KernelLogInitError {
    open spec fn obeys_from_spec() -> bool {
        true
    }

    open spec fn from_spec(err: std::io::Error) -> Self {
        KernelLogInitError::Io(err)
    }
}

impl From<log::SetLoggerError> for KernelLogInitError {
    fn from(err: log::SetLoggerError) -> (r: Self) {
        KernelLogInitError::Log(err)
    }
}

impl vstd::std_specs::convert::FromSpecImpl<log::SetLoggerError> for KernelLogInitError {
    open spec fn obeys_from_spec() -> bool {
        true
    }

    open spec fn from_spec(err: log::SetLoggerError) -> Self {
        KernelLogInitError::Log(err)
    }
}

/// Composes the outcome of installing the sink as the process logger.
///
/// `env_level` is the level environment variable's value; `device` the
/// outcome of opening the log device; `registration` the outcome of
/// registering with the facade, where a step that was never reached
/// reports `Ok`. A device failure wins over a registration failure; on
/// success the result carries the threshold the sink filters by, which
/// is also the cutoff the facade must be set to.
pub fn init(
    env_level: Option<&str>,
    device: Result<(), std::io::Error>,
    registration: Result<(), log::SetLoggerError>,
) -> (r: Result<LevelFilter, KernelLogInitError>)
    ensures
        device matches Err(e) ==> r == Err::<LevelFilter, KernelLogInitError>(
            KernelLogInitError::Io(e),
        ),
        device is Ok ==> (registration matches Err(e) ==> r == Err::<
            LevelFilter,
            KernelLogInitError,
        >(KernelLogInitError::Log(e))),
        device is Ok && registration is Ok ==> r == Ok::<LevelFilter, KernelLogInitError>(
            match env_level {
                Some(t) => env_filter_spec(t@),
                None => LevelFilter::Trace,
            },
        ),
{
    match device {
        Err(e) => Err(KernelLogInitError::Io(e)),
        Ok(()) => match registration {
            Err(e) => Err(KernelLogInitError::Log(e)),
            Ok(()) => Ok(crate::config::filter_from_env_value(env_level)),
        },
    }
}

} // verus!
