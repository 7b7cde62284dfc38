use winsvc::error::QueryServiceError;
use winsvc::service::{ServiceErrorControl, ServiceStartType, ServiceState, ServiceType};
use winsvc::service_manager::ServiceConfig;

#[test]
fn service_type_codes_round_trip() {
    let all = [
        (ServiceType::KernelDriver, 0x1),
        (ServiceType::FileSystemDriver, 0x2),
        (ServiceType::Adapter, 0x4),
        (ServiceType::RecognizerDriver, 0x8),
        (ServiceType::Win32OwnProcess, 0x10),
        (ServiceType::Win32ShareProcess, 0x20),
    ];
    for (t, code) in all {
        assert_eq!(t.code(), code);
        assert_eq!(ServiceType::try_from(code).unwrap(), t);
    }
}

#[test]
fn start_type_codes_round_trip() {
    let all = [
        (ServiceStartType::BootStart, 0),
        (ServiceStartType::SystemStart, 1),
        (ServiceStartType::AutoStart, 2),
        (ServiceStartType::DemandStart, 3),
        (ServiceStartType::Disabled, 4),
    ];
    for (t, code) in all {
        assert_eq!(t.code(), code);
        assert_eq!(ServiceStartType::try_from(code).unwrap(), t);
    }
}

#[test]
fn error_control_codes_round_trip() {
    let all = [
        (ServiceErrorControl::ErrorIgnore, 0),
        (ServiceErrorControl::ErrorNormal, 1),
        (ServiceErrorControl::ErrorSevere, 2),
        (ServiceErrorControl::ErrorCritical, 3),
    ];
    for (t, code) in all {
        assert_eq!(t.code(), code);
        assert_eq!(ServiceErrorControl::try_from(code).unwrap(), t);
    }
}

#[test]
fn state_codes_round_trip() {
    let all = [
        (ServiceState::Stopped, 1),
        (ServiceState::StartPending, 2),
        (ServiceState::StopPending, 3),
        (ServiceState::Running, 4),
        (ServiceState::ContinuePending, 5),
        (ServiceState::PausePending, 6),
        (ServiceState::Paused, 7),
    ];
    for (t, code) in all {
        assert_eq!(t.code(), code);
        assert_eq!(ServiceState::try_from(code).unwrap(), t);
    }
}

#[test]
fn unrecognized_codes_are_query_errors() {
    assert!(matches!(
        ServiceType::try_from(3),
        Err(QueryServiceError::Unknown(0, ref c)) if c == "invalid service type"
    ));
    assert!(matches!(
        ServiceStartType::try_from(5),
        Err(QueryServiceError::Unknown(0, ref c)) if c == "invalid service start type"
    ));
    assert!(matches!(
        ServiceErrorControl::try_from(4),
        Err(QueryServiceError::Unknown(0, ref c)) if c == "invalid service error control"
    ));
    assert!(matches!(
        ServiceState::try_from(0),
        Err(QueryServiceError::Unknown(0, ref c)) if c == "invalid service state"
    ));
    assert!(ServiceState::try_from(8).is_err());
}

#[test]
fn names_of_values() {
    assert_eq!(ServiceType::Adapter.to_string(), "Adapter");
    assert_eq!(ServiceType::Win32ShareProcess.to_string(), "Win32ShareProcess");
    assert_eq!(ServiceType::KernelDriver.to_string(), "KernelDriver");
    assert_eq!(ServiceState::ContinuePending.to_string(), "ContinuePending");
    assert_eq!(ServiceState::Stopped.to_string(), "Stopped");
}

#[test]
fn defaults() {
    assert_eq!(ServiceType::default(), ServiceType::KernelDriver);
    assert_eq!(ServiceStartType::default(), ServiceStartType::DemandStart);
    assert_eq!(ServiceErrorControl::default(), ServiceErrorControl::ErrorNormal);
    let c = ServiceConfig::default();
    assert_eq!(c.service_name, "");
    assert_eq!(c.display_name, "");
    assert_eq!(c.binary_path, "");
    assert_eq!(c.service_type, ServiceType::KernelDriver);
    assert_eq!(c.start_type, ServiceStartType::DemandStart);
    assert_eq!(c.error_control, ServiceErrorControl::ErrorNormal);
}
