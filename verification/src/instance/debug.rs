//! The default debug messenger: which messages it receives and how it logs them.

use vstd::prelude::*;

verus! {

/// `vk::DebugUtilsMessageSeverityFlagsEXT` bits.
pub const SEVERITY_VERBOSE: u32 = 0x1;
pub const SEVERITY_INFO: u32 = 0x10;
pub const SEVERITY_WARNING: u32 = 0x100;
pub const SEVERITY_ERROR: u32 = 0x1000;

/// `vk::DebugUtilsMessageTypeFlagsEXT` bits.
pub const MESSAGE_TYPE_GENERAL: u32 = 0x1;
pub const MESSAGE_TYPE_VALIDATION: u32 = 0x2;
pub const MESSAGE_TYPE_PERFORMANCE: u32 = 0x4;

/// The severities the default debug messenger receives: all of them.
pub const DEFAULT_MESSAGE_SEVERITY: u32 = 0x1111;

/// The message types the default debug messenger receives: all of them.
pub const DEFAULT_MESSAGE_TYPE: u32 = 0x7;

/// The level a debug message is logged at.
#[derive(Clone, Copy, Debug, PartialEq, Eq, Structural)]
pub enum LogLevel {
    Error,
    Warn,
    Info,
    Debug,
    Trace,
}

/// Whether `flags` has `bit` set.
pub open spec fn has_flag(flags: u32, bit: u32) -> bool {
    flags & bit == bit
}

/// The level at which the default debug callback logs a message of `severity`:
/// verbose messages at debug level, info at info, warnings at warn, errors at error,
/// and anything else at trace. The lowest severity present decides.
pub fn log_level(severity: u32) -> (r: LogLevel)
    ensures
        r == if has_flag(severity, SEVERITY_VERBOSE) {
            LogLevel::Debug
        } else if has_flag(severity, SEVERITY_INFO) {
            LogLevel::Info
        } else if has_flag(severity, SEVERITY_WARNING) {
            LogLevel::Warn
        } else if has_flag(severity, SEVERITY_ERROR) {
            LogLevel::Error
        } else {
            LogLevel::Trace
        },
        severity & 0x1u32 != 0 ==> r == LogLevel::Debug,
        severity & 0x1u32 == 0 && severity & 0x10u32 != 0 ==> r == LogLevel::Info,
        severity & 0x11u32 == 0 && severity & 0x100u32 != 0 ==> r == LogLevel::Warn,
        severity & 0x111u32 == 0 && severity & 0x1000u32 != 0 ==> r == LogLevel::Error,
        severity & 0x1111u32 == 0 ==> r == LogLevel::Trace,
{
    assert((severity & 0x1u32 == 0x1u32) == (severity & 0x1u32 != 0)) by (bit_vector);
    assert((severity & 0x10u32 == 0x10u32) == (severity & 0x10u32 != 0)) by (bit_vector);
    assert((severity & 0x100u32 == 0x100u32) == (severity & 0x100u32 != 0)) by (bit_vector);
    assert((severity & 0x1000u32 == 0x1000u32) == (severity & 0x1000u32 != 0)) by (bit_vector);
    assert((severity & 0x11u32 == 0) == (severity & 0x1u32 == 0 && severity & 0x10u32 == 0)) by (bit_vector);
    assert((severity & 0x111u32 == 0) == (severity & 0x11u32 == 0 && severity & 0x100u32 == 0)) by (bit_vector);
    assert((severity & 0x1111u32 == 0) == (severity & 0x111u32 == 0 && severity & 0x1000u32 == 0)) by (bit_vector);
    if severity & SEVERITY_VERBOSE == SEVERITY_VERBOSE {
        LogLevel::Debug
    } else if severity & SEVERITY_INFO == SEVERITY_INFO {
        LogLevel::Info
    } else if severity & SEVERITY_WARNING == SEVERITY_WARNING {
        LogLevel::Warn
    } else if severity & SEVERITY_ERROR == SEVERITY_ERROR {
        LogLevel::Error
    } else {
        LogLevel::Trace
    }
}

} // verus!
