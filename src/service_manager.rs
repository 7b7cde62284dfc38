//! The configuration of a new service and the decisions behind each operation
//! of the manager: opening the database, enabling the driver-load privilege,
//! creating and opening services.
use crate::codes::{ERROR_NOT_ALL_ASSIGNED, SERVICE_ALL_ACCESS, SE_PRIVILEGE_ENABLED};
use crate::error::{CreateServiceError, ErrorKind, OpenServiceError, ServiceManagerError};
use crate::handle::HandleSlot;
use crate::service::{ServiceErrorControl, ServiceStartType, ServiceType};
use crate::wide::{encode_wide, wide_of};
use vstd::prelude::*;

verus! {

/// The configuration of a service.
#[derive(Clone, Debug)]
pub struct ServiceConfig {
    pub service_name: String,
    pub display_name: String,
    pub binary_path: String,
    pub service_type: ServiceType,
    pub start_type: ServiceStartType,
    pub error_control: ServiceErrorControl,
}

impl Default for ServiceConfig {
    fn default() -> (r: Self)
        ensures
            r.service_name@.len() == 0,
            r.display_name@.len() == 0,
            r.binary_path@.len() == 0,
            r.service_type == ServiceType::KernelDriver,
            r.start_type == ServiceStartType::DemandStart,
            r.error_control == ServiceErrorControl::ErrorNormal,
    {
        ServiceConfig {
            service_name: String::new(),
            display_name: String::new(),
            binary_path: String::new(),
            service_type: ServiceType::default(),
            start_type: ServiceStartType::default(),
            error_control: ServiceErrorControl::default(),
        }
    }
}

/// The name of the privilege that the manager enables: loading drivers.
pub open spec fn spec_load_driver_privilege() -> Seq<char> {
    "SeLoadDriverPrivilege"@
}

/// The name of the privilege that the manager enables: loading drivers.
pub fn load_driver_privilege() -> (r: String)
    ensures
        r@ == spec_load_driver_privilege(),
{
    "SeLoadDriverPrivilege".to_string()
}

/// The steps of enabling a privilege on the process token, each of which can fail.
#[derive(Clone, Copy, Debug, PartialEq, Eq, Structural)]
pub enum PrivilegeStep {
    OpenToken,
    LookupPrivilege,
    AdjustPrivileges,
}

impl PrivilegeStep {
    pub open spec fn spec_failure(self) -> Seq<char> {
        match self {
            PrivilegeStep::OpenToken => "OpenProcessToken failed"@,
            PrivilegeStep::LookupPrivilege => "LookupPrivilegeValueA failed"@,
            PrivilegeStep::AdjustPrivileges => "AdjustTokenPrivileges failed"@,
        }
    }

    /// The message with which enabling a privilege fails at this step.
    pub fn failure(&self) -> (r: String)
        ensures
            r@ == self.spec_failure(),
    {
        match self {
            PrivilegeStep::OpenToken => "OpenProcessToken failed".to_string(),
            PrivilegeStep::LookupPrivilege => "LookupPrivilegeValueA failed".to_string(),
            PrivilegeStep::AdjustPrivileges => "AdjustTokenPrivileges failed".to_string(),
        }
    }
}

/// Encodes a privilege's name for the lookup of its identifier; a name that
/// cannot be encoded fails the lookup step.
pub fn privilege_name(name: &str) -> (r: Result<Vec<u16>, String>)
    ensures
        r is Ok <==> wide_of(name@) is Some,
        r matches Ok(units) ==> units@ == wide_of(name@)->Some_0,
        r matches Err(m) ==> m@ == PrivilegeStep::LookupPrivilege.spec_failure(),
{
    match encode_wide(name) {
        Some(units) => Ok(units),
        None => Err(PrivilegeStep::LookupPrivilege.failure()),
    }
}

/// A privilege record of one entry, as the token adjustment takes it.
#[derive(Clone, Copy, Debug, PartialEq, Eq, Structural)]
pub struct TokenPrivileges {
    pub count: u32,
    pub luid_low: u32,
    pub luid_high: i32,
    pub attributes: u32,
}

/// The record that enables the privilege with the given identifier.
pub fn enabled_privilege(luid_low: u32, luid_high: i32) -> (r: TokenPrivileges)
    ensures
        r == (TokenPrivileges {
            count: 1,
            luid_low,
            luid_high,
            attributes: SE_PRIVILEGE_ENABLED,
        }),
{
    TokenPrivileges { count: 1, luid_low, luid_high, attributes: SE_PRIVILEGE_ENABLED }
}

/// Interprets the opening of the manager's database: the handle 0 reports
/// failure, with the code that the system left.
pub fn open_manager_outcome(raw: isize, last_error: u32) -> (r: Result<HandleSlot, ServiceManagerError>)
    ensures
        r is Ok <==> raw != 0,
        r matches Ok(slot) ==> slot@ == Some(raw),
        r matches Err(e) ==> e@ == (
            ServiceManagerError::kind_of(last_error),
            last_error,
            "[ServiceManager::new] handle == 0"@,
        ),
{
    match HandleSlot::from_raw(raw) {
        Some(slot) => Ok(slot),
        None => Err(
            ServiceManagerError::from_code(last_error, "[ServiceManager::new] handle == 0".to_string()),
        ),
    }
}

/// Interprets the enabling of the driver-load privilege. A failed step, and
/// an adjustment that left the privilege unassigned, both deny access.
pub fn privilege_outcome(enabled: bool, last_error: u32) -> (r: Result<(), ServiceManagerError>)
    ensures
        r is Ok <==> enabled && last_error != ERROR_NOT_ALL_ASSIGNED,
        r matches Err(e) ==> e@ == (
            ErrorKind::AccessDenied,
            last_error,
            "[ServiceManager::set_privilege] failed"@,
        ),
{
    if enabled && last_error != ERROR_NOT_ALL_ASSIGNED {
        Ok(())
    } else {
        Err(
            ServiceManagerError::AccessDenied(
                last_error,
                "[ServiceManager::set_privilege] failed".to_string(),
            ),
        )
    }
}

/// The arguments with which a new service is created. The load-order group,
/// tag, dependencies, account and password are left to the system's defaults.
#[derive(Debug)]
pub struct CreateServiceRequest {
    pub manager: isize,
    pub service_name: Vec<u16>,
    pub display_name: Vec<u16>,
    pub access: u32,
    pub service_type: u32,
    pub start_type: u32,
    pub error_control: u32,
    pub binary_path: Vec<u16>,
}

/// Checks and encodes what creating a service takes. The manager must hold
/// its handle, and each text of the configuration must encode.
pub fn create_service_request(
    manager: &HandleSlot,
    options: &ServiceConfig,
) -> (r: Result<CreateServiceRequest, CreateServiceError>)
    ensures
        r is Ok <==> manager@ is Some && wide_of(options.service_name@) is Some && wide_of(
            options.display_name@,
        ) is Some && wide_of(options.binary_path@) is Some,
        manager@ is None ==> r is Err && r->Err_0@ == (
            ErrorKind::InvalidHandle,
            0u32,
            "[create_service] invalid service manager handle"@,
        ),
        manager@ is Some && wide_of(options.service_name@) is None ==> r is Err && r->Err_0@ == (
            ErrorKind::InvalidName,
            0u32,
            "[create_service] invalid service name"@,
        ),
        manager@ is Some && wide_of(options.service_name@) is Some && wide_of(
            options.display_name@,
        ) is None ==> r is Err && r->Err_0@ == (
            ErrorKind::InvalidName,
            0u32,
            "[create_service] invalid display name"@,
        ),
        manager@ is Some && wide_of(options.service_name@) is Some && wide_of(
            options.display_name@,
        ) is Some && wide_of(options.binary_path@) is None ==> r is Err && r->Err_0@ == (
            ErrorKind::InvalidParameter,
            0u32,
            "[create_service] invalid binary path"@,
        ),
        r matches Ok(q) ==> {
            &&& Some(q.manager) == manager@
            &&& q.service_name@ == wide_of(options.service_name@)->Some_0
            &&& q.display_name@ == wide_of(options.display_name@)->Some_0
            &&& q.access == SERVICE_ALL_ACCESS
            &&& q.service_type == options.service_type.spec_code()
            &&& q.start_type == options.start_type.spec_code()
            &&& q.error_control == options.error_control.spec_code()
            &&& q.binary_path@ == wide_of(options.binary_path@)->Some_0
        },
{
    let handle = match manager.get() {
        Some(h) => h,
        None => {
            return Err(
                CreateServiceError::InvalidHandle(
                    0,
                    "[create_service] invalid service manager handle".to_string(),
                ),
            );
        },
    };
    let service_name = match encode_wide(options.service_name.as_str()) {
        Some(units) => units,
        None => {
            return Err(
                CreateServiceError::InvalidName(0, "[create_service] invalid service name".to_string()),
            );
        },
    };
    let display_name = match encode_wide(options.display_name.as_str()) {
        Some(units) => units,
        None => {
            return Err(
                CreateServiceError::InvalidName(0, "[create_service] invalid display name".to_string()),
            );
        },
    };
    let binary_path = match encode_wide(options.binary_path.as_str()) {
        Some(units) => units,
        None => {
            return Err(
                CreateServiceError::InvalidParameter(
                    0,
                    "[create_service] invalid binary path".to_string(),
                ),
            );
        },
    };
    Ok(
        CreateServiceRequest {
            manager: handle,
            service_name,
            display_name,
            access: SERVICE_ALL_ACCESS,
            service_type: options.service_type.code(),
            start_type: options.start_type.code(),
            error_control: options.error_control.code(),
            binary_path,
        },
    )
}

/// Interprets the creation of a service: the handle 0 reports failure, with
/// the code that the system left.
pub fn create_service_outcome(raw: isize, last_error: u32) -> (r: Result<HandleSlot, CreateServiceError>)
    ensures
        r is Ok <==> raw != 0,
        r matches Ok(slot) ==> slot@ == Some(raw),
        r matches Err(e) ==> e@ == (
            CreateServiceError::kind_of(last_error),
            last_error,
            "[create_service] handle == 0"@,
        ),
{
    match HandleSlot::from_raw(raw) {
        Some(slot) => Ok(slot),
        None => Err(CreateServiceError::from_code(last_error, "[create_service] handle == 0".to_string())),
    }
}

/// The arguments with which an existing service is opened.
#[derive(Debug)]
pub struct OpenServiceRequest {
    pub manager: isize,
    pub service_name: Vec<u16>,
    pub access: u32,
}

/// Checks and encodes what opening a service takes.
pub fn open_service_request(manager: &HandleSlot, service_name: &str) -> (r:
    Result<OpenServiceRequest, OpenServiceError>)
    ensures
        r is Ok <==> manager@ is Some && wide_of(service_name@) is Some,
        manager@ is None ==> r is Err && r->Err_0@ == (
            ErrorKind::InvalidHandle,
            0u32,
            "[get_service] invalid service manager handle"@,
        ),
        manager@ is Some && wide_of(service_name@) is None ==> r is Err && r->Err_0@ == (
            ErrorKind::InvalidName,
            0u32,
            "[get_service] invalid service name"@,
        ),
        r matches Ok(q) ==> {
            &&& Some(q.manager) == manager@
            &&& q.service_name@ == wide_of(service_name@)->Some_0
            &&& q.access == SERVICE_ALL_ACCESS
        },
{
    let handle = match manager.get() {
        Some(h) => h,
        None => {
            return Err(
                OpenServiceError::InvalidHandle(
                    0,
                    "[get_service] invalid service manager handle".to_string(),
                ),
            );
        },
    };
    match encode_wide(service_name) {
        Some(units) => Ok(OpenServiceRequest { manager: handle, service_name: units, access: SERVICE_ALL_ACCESS }),
        None => Err(OpenServiceError::InvalidName(0, "[get_service] invalid service name".to_string())),
    }
}

/// Interprets the opening of a service: the handle 0 reports failure, with
/// the code that the system left.
pub fn open_service_outcome(raw: isize, last_error: u32) -> (r: Result<HandleSlot, OpenServiceError>)
    ensures
        r is Ok <==> raw != 0,
        r matches Ok(slot) ==> slot@ == Some(raw),
        r matches Err(e) ==> e@ == (
            OpenServiceError::kind_of(last_error),
            last_error,
            "[get_service] handle == 0"@,
        ),
{
    match HandleSlot::from_raw(raw) {
        Some(slot) => Ok(slot),
        None => Err(OpenServiceError::from_code(last_error, "[get_service] handle == 0".to_string())),
    }
}

/// Creating or opening a service prefers the existing one: where opening it
/// succeeded, that handle is the result and nothing is created (`Some`);
/// only where it failed is the service to be created (`None`).
pub fn existing_or_create(opened: Result<HandleSlot, OpenServiceError>) -> (r: Option<HandleSlot>)
    ensures
        r is Some <==> opened is Ok,
        r matches Some(slot) ==> slot@ == opened->Ok_0@,
{
    match opened {
        Ok(slot) => Some(slot),
        Err(_) => None,
    }
}

} // verus!
