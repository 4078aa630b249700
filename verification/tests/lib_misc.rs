use sigill::environment::Side;
use sigill::error::RenderError;
use sigill::log::{init, severity_from_flags, LogLevel, Logger, SEVERITY_ERROR, SEVERITY_INFO, SEVERITY_VERBOSE, SEVERITY_WARNING};

#[test]
fn side_names() {
    assert_eq!(Side::Client.name(), "client");
    assert_eq!(Side::DedicatedServer.name(), "dedicated_server");
}

#[test]
fn logger_reports_up_to_the_configured_level() {
    let logger: Logger = init();
    assert!(logger.enabled(LogLevel::Error));
    assert!(logger.enabled(LogLevel::Warn));
    assert!(logger.enabled(LogLevel::Info));
    assert!(logger.enabled(LogLevel::Debug));
    assert!(logger.enabled(LogLevel::Trace));
}

#[test]
fn severity_mapping_follows_the_driver_bits() {
    assert_eq!(severity_from_flags(SEVERITY_VERBOSE), LogLevel::Trace);
    assert_eq!(severity_from_flags(SEVERITY_INFO), LogLevel::Info);
    assert_eq!(severity_from_flags(SEVERITY_WARNING), LogLevel::Warn);
    assert_eq!(severity_from_flags(SEVERITY_ERROR), LogLevel::Error);
}

#[test]
fn error_descriptions_name_the_kind() {
    assert_eq!(RenderError::Loading.describe(), "error initializing renderer");
    assert_eq!(RenderError::Vk(2).describe(), "graphics API error");
    assert_eq!(RenderError::Handle.describe(), "error obtaining handle");
    assert_eq!(
        RenderError::ValidationLayerNotFound("x".to_string()).describe(),
        "validation layer not found"
    );
    assert_eq!(RenderError::Io.describe(), "I/O error");
}
