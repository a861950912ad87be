//! A verified core for a kernel-ring-buffer log sink.
//!
//! The library decides which log records the sink forwards, renders each
//! accepted record into the exact line the kernel log device expects, and
//! composes the result of installing the sink as the process-wide logger.
//! A thin unverified shell owns the device handle and the facade
//! registration; it hands this library plain values and writes the bytes
//! the library hands back.

pub mod config;
pub mod init;
pub mod level;
pub mod line;
pub mod sink;

pub use config::filter_from_env_value;
pub use init::{init, KernelLogInitError};
pub use level::{is_enabled, priority, priority_spec, LevelFilter, Severity};
pub use line::{format_line, line_spec};
pub use sink::KernelLog;
