use vstd::prelude::*;

verus! {

/// Severity of one driver diagnostic message. The driver may deliver such a
/// message from an internal thread at any time; the callback only maps it to
/// a log level and hands it to the logging sink.
#[derive(Clone, Copy, PartialEq, Eq, Structural, Debug)]
pub enum Severity {
    Verbose,
    Info,
    Warning,
    Error,
}

/// The level a diagnostic message is logged at. Logging is the whole policy:
/// no severity, not even a driver-reported error, escalates to a failure.
#[derive(Clone, Copy, PartialEq, Eq, Structural, Debug)]
pub enum LogLevel {
    Info,
    Warn,
    Error,
}

/// The bit the driver assigns to each severity within a severity mask.
pub open spec fn severity_bit(severity: Severity) -> u32 {
    match severity {
        Severity::Verbose => 0x1,
        Severity::Info => 0x10,
        Severity::Warning => 0x100,
        Severity::Error => 0x1000,
    }
}

/// The severity a raw mask classifies as: the most severe bit set wins, and a
/// mask with none of the known bits set counts as verbose.
pub open spec fn classify_severity_spec(mask: u32) -> Severity {
    if mask & severity_bit(Severity::Error) != 0 {
        Severity::Error
    } else if mask & severity_bit(Severity::Warning) != 0 {
        Severity::Warning
    } else if mask & severity_bit(Severity::Info) != 0 {
        Severity::Info
    } else {
        Severity::Verbose
    }
}

/// Classify the raw severity mask a diagnostic message arrives with.
pub fn classify_severity(mask: u32) -> (r: Severity)
    ensures
        r == classify_severity_spec(mask),
{
    if mask & 0x1000 != 0 {
        Severity::Error
    } else if mask & 0x100 != 0 {
        Severity::Warning
    } else if mask & 0x10 != 0 {
        Severity::Info
    } else {
        Severity::Verbose
    }
}

/// The level each severity is logged at: error as an error, warning as a
/// warning, and both info and verbose as plain information.
pub open spec fn severity_log_level_spec(severity: Severity) -> LogLevel {
    match severity {
        Severity::Error => LogLevel::Error,
        Severity::Warning => LogLevel::Warn,
        Severity::Info => LogLevel::Info,
        Severity::Verbose => LogLevel::Info,
    }
}

/// Map a driver severity to the level its message is logged at.
pub fn severity_log_level(severity: Severity) -> (r: LogLevel)
    ensures
        r == severity_log_level_spec(severity),
{
    match severity {
        Severity::Error => LogLevel::Error,
        Severity::Warning => LogLevel::Warn,
        Severity::Info => LogLevel::Info,
        Severity::Verbose => LogLevel::Info,
    }
}

/// The diagnostics configuration attached to the instance-create request (so
/// that instance-creation-time messages are captured) and given again to the
/// separate messenger object created once the instance exists, since the
/// driver does not retain the inline copy as a live object.
#[derive(Clone, Copy, PartialEq, Eq, Structural, Debug)]
pub struct DebugMessengerConfig {
    pub severity_verbose: bool,
    pub severity_info: bool,
    pub severity_warning: bool,
    pub severity_error: bool,
    pub type_general: bool,
    pub type_validation: bool,
    pub type_performance: bool,
}

/// The full diagnostics configuration: every severity and every message
/// category is enabled.
pub fn debug_messenger_config() -> (r: DebugMessengerConfig)
    ensures
        r.severity_verbose && r.severity_info && r.severity_warning && r.severity_error,
        r.type_general && r.type_validation && r.type_performance,
{
    DebugMessengerConfig {
        severity_verbose: true,
        severity_info: true,
        severity_warning: true,
        severity_error: true,
        type_general: true,
        type_validation: true,
        type_performance: true,
    }
}

} // verus!
