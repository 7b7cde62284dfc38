use winsvc::error::{
    ControlServiceError, CreateServiceError, DeleteServiceError, OpenServiceError,
    QueryServiceError, ServiceManagerError, UpdateServiceError,
};
use winsvc::handle::HandleSlot;
use winsvc::service::{
    config_read_outcome, config_size_outcome, config_target, control_outcome, delete_outcome,
    delete_target, pause_request, poll_step, set_start_type_outcome, set_start_type_request,
    start_outcome, start_target, state_outcome, status_target, stop_request,
    update_config_outcome, update_config_request, PollAction, ServiceErrorControl,
    ServiceStartType, ServiceState, ServiceType, StoredConfig,
};
use winsvc::service_manager::{
    create_service_outcome, create_service_request, enabled_privilege, existing_or_create,
    load_driver_privilege, open_manager_outcome, open_service_outcome, open_service_request,
    privilege_name, privilege_outcome, PrivilegeStep, ServiceConfig, TokenPrivileges,
};

fn wide(s: &str) -> Vec<u16> {
    let mut v: Vec<u16> = s.encode_utf16().collect();
    v.push(0);
    v
}

fn stored() -> StoredConfig {
    StoredConfig {
        service_type: 0x1,
        start_type: 2,
        error_control: 3,
        tag_id: 17,
        binary_path: wide("C:\\drivers\\x.sys"),
        load_order_group: wide("Boot Bus Extender"),
        dependencies: vec![65, 0, 66, 0, 0],
        start_name: wide(""),
        display_name: wide("X driver"),
    }
}

#[test]
fn handle_is_released_exactly_once() {
    let mut slot = HandleSlot::holding(42);
    assert_eq!(slot.get(), Some(42));
    assert_eq!(slot.release(), Some(42));
    assert_eq!(slot.get(), None);
    assert_eq!(slot.release(), None);
    assert!(HandleSlot::from_raw(0).is_none());
    assert_eq!(HandleSlot::from_raw(7).unwrap().get(), Some(7));
    assert_eq!(HandleSlot::empty().get(), None);
}

#[test]
fn empty_slot_gives_invalid_handle_everywhere() {
    let empty = HandleSlot::empty();
    let config = ServiceConfig::default();
    assert!(matches!(
        update_config_request(&empty, &config),
        Err(UpdateServiceError::InvalidHandle(0, ref c)) if c == "[update_config] invalid service handle"
    ));
    assert!(matches!(
        set_start_type_request(&empty, Ok(stored()), 0, ServiceStartType::AutoStart),
        Err(UpdateServiceError::InvalidHandle(0, _))
    ));
    assert!(matches!(config_target(&empty), Err(QueryServiceError::InvalidHandle(0, _))));
    assert!(matches!(status_target(&empty), Err(QueryServiceError::InvalidHandle(0, _))));
    assert!(matches!(delete_target(&empty), Err(DeleteServiceError::InvalidHandle(0, _))));
    assert!(matches!(start_target(&empty), Err(ControlServiceError::InvalidHandle(0, _))));
    assert!(matches!(stop_request(&empty), Err(ControlServiceError::InvalidHandle(0, _))));
    assert!(matches!(pause_request(&empty), Err(ControlServiceError::InvalidHandle(0, _))));
    assert!(matches!(
        create_service_request(&empty, &config),
        Err(CreateServiceError::InvalidHandle(0, ref c)) if c == "[create_service] invalid service manager handle"
    ));
    assert!(matches!(
        open_service_request(&empty, "test"),
        Err(OpenServiceError::InvalidHandle(0, ref c)) if c == "[get_service] invalid service manager handle"
    ));
}

#[test]
fn update_config_encodes_texts_and_leaves_the_rest() {
    let slot = HandleSlot::holding(9);
    let config = ServiceConfig {
        display_name: "test".to_string(),
        binary_path: "C:\\Windows\\system32\\test.sys".to_string(),
        service_type: ServiceType::KernelDriver,
        ..ServiceConfig::default()
    };
    let change = update_config_request(&slot, &config).unwrap();
    assert_eq!(change.handle, 9);
    assert_eq!(change.service_type, 1);
    assert_eq!(change.start_type, 3);
    assert_eq!(change.error_control, 1);
    assert_eq!(change.display_name, Some(vec![116, 101, 115, 116, 0]));
    assert_eq!(change.binary_path, Some(wide("C:\\Windows\\system32\\test.sys")));
    assert_eq!(change.load_order_group, None);
    assert_eq!(change.tag_id, None);
    assert_eq!(change.dependencies, None);
    assert_eq!(change.start_name, None);
}

#[test]
fn wide_encoding_of_characters_outside_the_basic_plane() {
    let slot = HandleSlot::holding(9);
    let config = ServiceConfig {
        display_name: "a\u{1F600}".to_string(),
        binary_path: "p\0".to_string(),
        ..ServiceConfig::default()
    };
    let change = update_config_request(&slot, &config).unwrap();
    assert_eq!(change.display_name, Some(vec![97, 0xD83D, 0xDE00, 0]));
    // A nul that ends the text already is its terminator.
    assert_eq!(change.binary_path, Some(vec![112, 0]));
}

#[test]
fn update_config_rejects_interior_nul() {
    let slot = HandleSlot::holding(9);
    let bad_display = ServiceConfig { display_name: "a\0b".to_string(), ..ServiceConfig::default() };
    assert!(matches!(
        update_config_request(&slot, &bad_display),
        Err(UpdateServiceError::InvalidParameter(0, ref c)) if c == "[update_config] invalid display_name"
    ));
    let bad_path = ServiceConfig { binary_path: "\0x".to_string(), ..ServiceConfig::default() };
    assert!(matches!(
        update_config_request(&slot, &bad_path),
        Err(UpdateServiceError::InvalidParameter(0, ref c)) if c == "[update_config] invalid binary_path"
    ));
}

#[test]
fn update_and_set_start_type_outcomes() {
    assert!(update_config_outcome(true, 0).is_ok());
    assert!(matches!(update_config_outcome(false, 1072), Err(UpdateServiceError::ServiceMarkedForDelete(1072, _))));
    assert!(set_start_type_outcome(true, 0).is_ok());
    assert!(matches!(
        set_start_type_outcome(false, 5),
        Err(UpdateServiceError::AccessDenied(5, ref c)) if c == "[set_start_type] ChangeServiceConfig failed"
    ));
}

#[test]
fn set_start_type_rewrites_only_the_start_type() {
    let slot = HandleSlot::holding(3);
    let read = stored();
    let change = set_start_type_request(&slot, Ok(read.clone()), 0, ServiceStartType::Disabled).unwrap();
    assert_eq!(change.handle, 3);
    assert_eq!(change.start_type, 4);
    assert_eq!(change.service_type, read.service_type);
    assert_eq!(change.error_control, read.error_control);
    assert_eq!(change.tag_id, Some(17));
    assert_eq!(change.binary_path, Some(read.binary_path.clone()));
    assert_eq!(change.load_order_group, Some(read.load_order_group.clone()));
    assert_eq!(change.dependencies, Some(read.dependencies.clone()));
    assert_eq!(change.start_name, Some(read.start_name.clone()));
    assert_eq!(change.display_name, Some(read.display_name.clone()));
}

#[test]
fn set_start_type_without_config_denies_access() {
    let slot = HandleSlot::holding(3);
    let failed = Err(QueryServiceError::from_code(6, "read".to_string()));
    assert!(matches!(
        set_start_type_request(&slot, failed, 1234, ServiceStartType::AutoStart),
        Err(UpdateServiceError::AccessDenied(1234, ref c)) if c == "[set_start_type] failed to get service config"
    ));
}

#[test]
fn config_buffer_sizing() {
    assert_eq!(config_target(&HandleSlot::holding(5)).unwrap(), 5);
    assert_eq!(config_size_outcome(false, 122, 316).unwrap(), 316);
    assert_eq!(config_size_outcome(true, 0, 40).unwrap(), 40);
    assert!(matches!(config_size_outcome(false, 5, 316), Err(QueryServiceError::AccessDenied(5, _))));
    assert!(matches!(config_size_outcome(false, 6, 0), Err(QueryServiceError::InvalidHandle(6, _))));
    assert!(config_read_outcome(true, 0).is_ok());
    assert!(matches!(config_read_outcome(false, 122), Err(QueryServiceError::Unknown(122, _))));
}

#[test]
fn start_type_of_stored_config() {
    let mut read = stored();
    assert_eq!(read.get_start_type().unwrap(), ServiceStartType::AutoStart);
    read.start_type = 3;
    assert_eq!(read.get_start_type().unwrap(), ServiceStartType::DemandStart);
    read.start_type = 9;
    assert!(matches!(read.get_start_type(), Err(QueryServiceError::Unknown(0, _))));
}

#[test]
fn state_from_status() {
    assert_eq!(status_target(&HandleSlot::holding(1)).unwrap(), 1);
    assert_eq!(state_outcome(true, 0, 4).unwrap(), ServiceState::Running);
    assert_eq!(state_outcome(true, 0, 1).unwrap(), ServiceState::Stopped);
    assert!(matches!(state_outcome(true, 0, 99), Err(QueryServiceError::Unknown(0, _))));
    assert!(matches!(state_outcome(false, 5, 4), Err(QueryServiceError::AccessDenied(5, _))));
}

#[test]
fn delete_start_and_control() {
    let slot = HandleSlot::holding(11);
    assert_eq!(delete_target(&slot).unwrap(), 11);
    assert!(delete_outcome(true, 0).is_ok());
    assert!(matches!(delete_outcome(false, 1072), Err(DeleteServiceError::ErrorServiceMarkedForDelete(1072, _))));
    assert_eq!(start_target(&slot).unwrap(), 11);
    assert!(start_outcome(true, 0).is_ok());
    assert!(matches!(start_outcome(false, 1056), Err(ControlServiceError::ServiceAlreadyRunning(1056, _))));
    assert!(matches!(start_outcome(false, 2), Err(ControlServiceError::PathNotFound(2, _))));
    let stop = stop_request(&slot).unwrap();
    assert_eq!((stop.handle, stop.control), (11, 1));
    let pause = pause_request(&slot).unwrap();
    assert_eq!((pause.handle, pause.control), (11, 2));
    assert!(control_outcome(true, 0).is_ok());
    assert!(matches!(control_outcome(false, 1062), Err(ControlServiceError::ServiceNotActive(1062, _))));
}

fn run_blocking(target: ServiceState, observations: Vec<Result<ServiceState, QueryServiceError>>) -> (Result<(), ControlServiceError>, usize) {
    let mut sleeps = 0usize;
    for observed in observations {
        match poll_step(target, observed, 31) {
            PollAction::Finish => return (Ok(()), sleeps),
            PollAction::Sleep => sleeps += 1,
            PollAction::Fail(e) => return (Err(e), sleeps),
        }
    }
    panic!("observations ran out");
}

#[test]
fn start_blocking_converges_on_running() {
    let mut obs = vec![Ok(ServiceState::StartPending); 5];
    obs.push(Ok(ServiceState::Running));
    obs.push(Ok(ServiceState::Stopped));
    let (r, sleeps) = run_blocking(ServiceState::Running, obs);
    assert!(r.is_ok());
    assert_eq!(sleeps, 5);
}

#[test]
fn stop_blocking_converges_on_stopped() {
    let obs = vec![Ok(ServiceState::Running), Ok(ServiceState::StopPending), Ok(ServiceState::Stopped)];
    let (r, sleeps) = run_blocking(ServiceState::Stopped, obs);
    assert!(r.is_ok());
    assert_eq!(sleeps, 2);
}

#[test]
fn pause_blocking_waits_only_for_paused() {
    let obs = vec![Ok(ServiceState::PausePending), Ok(ServiceState::Paused)];
    assert_eq!(run_blocking(ServiceState::Paused, obs).1, 1);
    let (r, sleeps) = run_blocking(ServiceState::Paused, vec![Ok(ServiceState::Paused)]);
    assert!(r.is_ok());
    assert_eq!(sleeps, 0);
}

#[test]
fn blocking_fails_when_state_cannot_be_read() {
    let obs = vec![
        Ok(ServiceState::StartPending),
        Err(QueryServiceError::from_code(5, "q".to_string())),
        Ok(ServiceState::Running),
    ];
    let (r, sleeps) = run_blocking(ServiceState::Running, obs);
    assert_eq!(sleeps, 1);
    assert!(matches!(
        r,
        Err(ControlServiceError::Unknown(31, ref c)) if c == "[control_blocking] failed to get service state"
    ));
}

#[test]
fn manager_open_and_privilege() {
    assert_eq!(open_manager_outcome(77, 0).unwrap().get(), Some(77));
    assert!(matches!(open_manager_outcome(0, 5), Err(ServiceManagerError::AccessDenied(5, _))));
    assert!(matches!(open_manager_outcome(0, 1065), Err(ServiceManagerError::DatabaseDoesNotExist(1065, _))));
    assert!(privilege_outcome(true, 0).is_ok());
    assert!(matches!(
        privilege_outcome(true, 1300),
        Err(ServiceManagerError::AccessDenied(1300, ref c)) if c == "[ServiceManager::set_privilege] failed"
    ));
    assert!(matches!(privilege_outcome(false, 5), Err(ServiceManagerError::AccessDenied(5, _))));
}

#[test]
fn privilege_record_and_name() {
    assert_eq!(load_driver_privilege(), "SeLoadDriverPrivilege");
    assert_eq!(privilege_name("SeLoadDriverPrivilege").unwrap(), wide("SeLoadDriverPrivilege"));
    assert_eq!(privilege_name("a\0b").unwrap_err(), "LookupPrivilegeValueA failed");
    assert_eq!(PrivilegeStep::OpenToken.failure(), "OpenProcessToken failed");
    assert_eq!(PrivilegeStep::AdjustPrivileges.failure(), "AdjustTokenPrivileges failed");
    assert_eq!(
        enabled_privilege(10, -1),
        TokenPrivileges { count: 1, luid_low: 10, luid_high: -1, attributes: 2 }
    );
}

#[test]
fn create_service_request_encodes_config() {
    let manager = HandleSlot::holding(100);
    let config = ServiceConfig {
        service_name: "test".to_string(),
        display_name: "test".to_string(),
        binary_path: "invalid path test".to_string(),
        start_type: ServiceStartType::DemandStart,
        service_type: ServiceType::KernelDriver,
        ..ServiceConfig::default()
    };
    let q = create_service_request(&manager, &config).unwrap();
    assert_eq!(q.manager, 100);
    assert_eq!(q.service_name, wide("test"));
    assert_eq!(q.display_name, wide("test"));
    assert_eq!(q.binary_path, wide("invalid path test"));
    assert_eq!(q.access, 0xF01FF);
    assert_eq!((q.service_type, q.start_type, q.error_control), (1, 3, 1));
    let read_back = StoredConfig { start_type: q.start_type, ..stored() };
    assert_eq!(read_back.get_start_type().unwrap(), ServiceStartType::DemandStart);
}

#[test]
fn create_service_request_rejects_bad_texts() {
    let manager = HandleSlot::holding(100);
    let name = ServiceConfig { service_name: "a\0".to_string() + "b", ..ServiceConfig::default() };
    assert!(matches!(create_service_request(&manager, &name), Err(CreateServiceError::InvalidName(0, ref c)) if c == "[create_service] invalid service name"));
    let display = ServiceConfig { display_name: "\0\0".to_string(), ..ServiceConfig::default() };
    assert!(matches!(create_service_request(&manager, &display), Err(CreateServiceError::InvalidName(0, ref c)) if c == "[create_service] invalid display name"));
    let path = ServiceConfig { binary_path: "x\0y".to_string(), ..ServiceConfig::default() };
    assert!(matches!(create_service_request(&manager, &path), Err(CreateServiceError::InvalidParameter(0, _))));
}

#[test]
fn create_and_open_outcomes() {
    assert_eq!(create_service_outcome(12, 0).unwrap().get(), Some(12));
    assert!(matches!(create_service_outcome(0, 1073), Err(CreateServiceError::ServiceExists(1073, _))));
    assert!(matches!(create_service_outcome(0, 1078), Err(CreateServiceError::ServiceExists(1078, _))));
    assert_eq!(open_service_outcome(13, 0).unwrap().get(), Some(13));
    let q = open_service_request(&HandleSlot::holding(100), "test").unwrap();
    assert_eq!((q.manager, q.service_name.clone(), q.access), (100, wide("test"), 0xF01FF));
    assert!(matches!(open_service_request(&HandleSlot::holding(100), "t\0t"), Err(OpenServiceError::InvalidName(0, _))));
}

#[test]
fn deleted_service_no_longer_opens() {
    assert!(delete_outcome(true, 0).is_ok());
    assert!(matches!(open_service_outcome(0, 1060), Err(OpenServiceError::ServiceDoesNotExist(1060, _))));
}

#[test]
fn unprivileged_manager_is_denied() {
    assert!(matches!(open_manager_outcome(0, 5), Err(ServiceManagerError::AccessDenied(5, _))));
    assert!(matches!(privilege_outcome(false, 1300), Err(ServiceManagerError::AccessDenied(1300, _))));
}

#[test]
fn create_or_get_prefers_the_existing_service() {
    let existing = existing_or_create(Ok(HandleSlot::holding(55)));
    assert_eq!(existing.unwrap().get(), Some(55));
    let missing = existing_or_create(Err(OpenServiceError::from_code(1060, String::new())));
    assert!(missing.is_none());
}

#[test]
fn error_control_is_encoded() {
    let slot = HandleSlot::holding(9);
    let config = ServiceConfig { error_control: ServiceErrorControl::ErrorCritical, ..ServiceConfig::default() };
    assert_eq!(update_config_request(&slot, &config).unwrap().error_control, 3);
}
