use vulkan_bootstrap::diagnostics::{
    classify_severity, debug_messenger_config, severity_log_level, LogLevel, Severity,
};

const VERBOSE_BIT: u32 = 0x1;
const INFO_BIT: u32 = 0x10;
const WARNING_BIT: u32 = 0x100;
const ERROR_BIT: u32 = 0x1000;

#[test]
fn classification_picks_most_severe_bit() {
    assert_eq!(classify_severity(ERROR_BIT), Severity::Error);
    assert_eq!(classify_severity(ERROR_BIT | VERBOSE_BIT), Severity::Error);
    assert_eq!(classify_severity(ERROR_BIT | WARNING_BIT | INFO_BIT | VERBOSE_BIT), Severity::Error);
    assert_eq!(classify_severity(WARNING_BIT | INFO_BIT), Severity::Warning);
    assert_eq!(classify_severity(INFO_BIT | VERBOSE_BIT), Severity::Info);
    assert_eq!(classify_severity(VERBOSE_BIT), Severity::Verbose);
}

#[test]
fn unknown_severity_mask_counts_as_verbose() {
    assert_eq!(classify_severity(0), Severity::Verbose);
    assert_eq!(classify_severity(0x2), Severity::Verbose);
}

#[test]
fn error_severity_logs_as_error() {
    assert_eq!(severity_log_level(Severity::Error), LogLevel::Error);
}

#[test]
fn warning_severity_logs_as_warning() {
    assert_eq!(severity_log_level(Severity::Warning), LogLevel::Warn);
}

#[test]
fn info_and_verbose_severities_log_as_info() {
    assert_eq!(severity_log_level(Severity::Info), LogLevel::Info);
    assert_eq!(severity_log_level(Severity::Verbose), LogLevel::Info);
}

#[test]
fn messenger_config_enables_every_severity_and_category() {
    let config = debug_messenger_config();
    assert!(config.severity_verbose);
    assert!(config.severity_info);
    assert!(config.severity_warning);
    assert!(config.severity_error);
    assert!(config.type_general);
    assert!(config.type_validation);
    assert!(config.type_performance);
}
