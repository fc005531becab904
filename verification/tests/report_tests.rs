//! Tests for the error classification and the component status types.

use nvisy::report::{Error, ErrorResource, ErrorType};
use nvisy::status::{ComponentStatus, HealthStatus, OperationalState, UpdateSeverity};

#[test]
fn error_source_test_string_representations() {
    assert_eq!(ErrorResource::Core.as_ref(), "core");
    assert_eq!(ErrorResource::Engine.as_ref(), "engine");
    assert_eq!(ErrorResource::Pattern.as_ref(), "pattern");
    assert_eq!(ErrorResource::Runtime.as_ref(), "runtime");
    assert_eq!(ErrorResource::Gateway.as_ref(), "gateway");
}

#[test]
fn error_source_test_priority_levels() {
    assert_eq!(ErrorResource::Core.priority_level(), 6);
    assert_eq!(ErrorResource::Engine.priority_level(), 5);
    assert_eq!(ErrorResource::Pattern.priority_level(), 4);
    assert_eq!(ErrorResource::Runtime.priority_level(), 3);
    assert_eq!(ErrorResource::Gateway.priority_level(), 2);
}

#[test]
fn test_internal_external_classification() {
    assert!(ErrorResource::Core.is_internal());
    assert!(ErrorResource::Pattern.is_internal());
    assert!(ErrorResource::Engine.is_internal());
    assert!(ErrorResource::Runtime.is_external());
    assert!(ErrorResource::Gateway.is_external());
}

#[test]
fn test_recoverability() {
    assert!(ErrorType::Runtime.is_recoverable());
    assert!(!ErrorType::Other.is_recoverable());
    assert!(!ErrorType::Config.is_recoverable());
}

#[test]
fn test_error_builder() {
    let error = Error::new(
        ErrorType::Config,
        ErrorResource::Core,
        "test message".to_string(),
    );
    assert_eq!(error.error_type, ErrorType::Config);
    assert_eq!(error.error_resource, ErrorResource::Core);
    assert_eq!(error.message, "test message");
    assert!(error.context.is_none());
}

#[test]
fn test_error_with_context() {
    let error = Error::new(ErrorType::Other, ErrorResource::Engine, "test".to_string())
        .with_context("additional context".to_string());
    assert_eq!(error.context.as_deref(), Some("additional context"));
}

#[test]
fn test_error_display_message() {
    let error = Error::new(
        ErrorType::Runtime,
        ErrorResource::Core,
        "boom".to_string(),
    );
    assert_eq!(error.display_message(), "[core:runtime] boom");
    let error = error.with_context("ctx".to_string());
    assert_eq!(error.display_message(), "[core:runtime] boom (context: ctx)");
}

#[test]
fn health_status_test_string_representations() {
    assert_eq!(HealthStatus::Online.as_ref(), "online");
    assert_eq!(HealthStatus::MinorDegraded.as_ref(), "minor_degraded");
    assert_eq!(HealthStatus::MajorDegraded.as_ref(), "major_degraded");
    assert_eq!(HealthStatus::Offline.as_ref(), "offline");
    assert_eq!(HealthStatus::Unknown.as_ref(), "unknown");
}

#[test]
fn operational_state_test_string_representations() {
    assert_eq!(OperationalState::Starting.as_ref(), "starting");
    assert_eq!(OperationalState::Running.as_ref(), "running");
    assert_eq!(OperationalState::Stopping.as_ref(), "stopping");
    assert_eq!(OperationalState::Stopped.as_ref(), "stopped");
}

#[test]
fn update_severity_test_string_representations() {
    assert_eq!(UpdateSeverity::Info.as_ref(), "info");
    assert_eq!(UpdateSeverity::Warning.as_ref(), "warning");
    assert_eq!(UpdateSeverity::Error.as_ref(), "error");
    assert_eq!(UpdateSeverity::Critical.as_ref(), "critical");
}

#[test]
fn test_severity_levels() {
    assert!(UpdateSeverity::Critical.is_critical());
    assert!(!UpdateSeverity::Error.is_critical());

    assert!(UpdateSeverity::Error.is_error_or_higher());
    assert!(UpdateSeverity::Critical.is_error_or_higher());
    assert!(!UpdateSeverity::Warning.is_error_or_higher());

    assert!(UpdateSeverity::Warning.is_warning_or_higher());
    assert!(UpdateSeverity::Error.is_warning_or_higher());
    assert!(UpdateSeverity::Critical.is_warning_or_higher());
    assert!(!UpdateSeverity::Info.is_warning_or_higher());
}

#[test]
fn update_severity_test_priority_levels() {
    assert_eq!(UpdateSeverity::Info.priority_level(), 0);
    assert_eq!(UpdateSeverity::Warning.priority_level(), 1);
    assert_eq!(UpdateSeverity::Error.priority_level(), 2);
    assert_eq!(UpdateSeverity::Critical.priority_level(), 3);

    assert!(UpdateSeverity::Critical.priority_level() > UpdateSeverity::Error.priority_level());
    assert!(UpdateSeverity::Error.priority_level() > UpdateSeverity::Warning.priority_level());
    assert!(UpdateSeverity::Warning.priority_level() > UpdateSeverity::Info.priority_level());
}

#[test]
fn test_builder_pattern() {
    let status = ComponentStatus::new(HealthStatus::MinorDegraded)
        .with_operational_state(OperationalState::Running)
        .with_update_severity(UpdateSeverity::Warning)
        .with_message("test message".to_string())
        .with_details("additional details".to_string());

    assert_eq!(status.message.as_deref(), Some("test message"));
    assert_eq!(status.context.as_deref(), Some("additional details"));
}

#[test]
fn test_into_result() {
    let status = ComponentStatus::new(HealthStatus::Offline)
        .with_operational_state(OperationalState::Stopped)
        .with_update_severity(UpdateSeverity::Critical)
        .with_message("Component failed".to_string())
        .with_details("Database connection lost".to_string());

    let result = status.into_result(ErrorType::Other, ErrorResource::Engine);
    assert!(result.is_err());

    let error = result.unwrap_err();
    assert_eq!(error.error_type, ErrorType::Other);
    assert_eq!(error.error_resource, ErrorResource::Engine);
    assert_eq!(error.message, "Component failed");
    assert_eq!(error.context.as_deref(), Some("Database connection lost"));
}

#[test]
fn test_into_result_operational() {
    let status = ComponentStatus::new(HealthStatus::Online);
    assert!(status.clone().is_operational());
    assert!(status
        .into_result(ErrorType::Other, ErrorResource::Core)
        .is_ok());
}

#[test]
fn test_status_derivation() {
    let online = ComponentStatus::new(HealthStatus::Online);
    assert_eq!(online.operational_state, OperationalState::Running);
    assert_eq!(online.update_severity, UpdateSeverity::Info);
    assert!(online.is_running());
    assert!(!online.is_critical());

    let offline = ComponentStatus::new(HealthStatus::Offline);
    assert_eq!(offline.operational_state, OperationalState::Stopped);
    assert_eq!(offline.update_severity, UpdateSeverity::Error);
    assert!(offline.is_stopped());
    assert!(offline.is_critical());
    assert!(offline.is_degraded());

    let unknown = ComponentStatus::new(HealthStatus::Unknown);
    assert_eq!(unknown.operational_state, OperationalState::Starting);
    assert_eq!(unknown.update_severity, UpdateSeverity::Warning);

    let with_time = ComponentStatus::new(HealthStatus::Online).with_current_timestamp();
    assert!(with_time.timestamp.is_some());
}

#[test]
fn test_status_default() {
    let status = ComponentStatus::default();
    assert_eq!(status.health_status, HealthStatus::Online);
    assert_eq!(status.operational_state, OperationalState::Running);
    assert_eq!(status.update_severity, UpdateSeverity::Info);
}
