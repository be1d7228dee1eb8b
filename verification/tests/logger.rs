use luna::engine::logger::LogLevel;
use tracing::Level;

#[test]
fn error_maps_to_tracing_error() {
    assert_eq!(Level::from(LogLevel::Error), Level::ERROR);
}

#[test]
fn warn_maps_to_tracing_warn() {
    assert_eq!(Level::from(LogLevel::Warn), Level::WARN);
}

#[test]
fn info_maps_to_tracing_info() {
    assert_eq!(Level::from(LogLevel::Info), Level::INFO);
}

#[test]
fn debug_maps_to_tracing_debug() {
    assert_eq!(Level::from(LogLevel::Debug), Level::DEBUG);
}

#[test]
fn trace_maps_to_tracing_trace() {
    assert_eq!(Level::from(LogLevel::Trace), Level::TRACE);
}
