//! The values that describe a service, with the numeric codes that the system's
//! ABI gives them, and the decisions behind each operation on one service.
use crate::codes::{ERROR_INSUFFICIENT_BUFFER, SERVICE_CONTROL_PAUSE, SERVICE_CONTROL_STOP};
use crate::error::{
    ControlServiceError, DeleteServiceError, ErrorKind, QueryServiceError, UpdateServiceError,
};
use crate::handle::HandleSlot;
use crate::service_manager::ServiceConfig;
use crate::wide::{encode_wide, wide_of};
use vstd::prelude::*;

verus! {

/// The error control levels of a service: how the system reacts when it fails to start.
#[derive(Clone, Copy, Debug, PartialEq, Eq, Structural)]
pub enum ServiceErrorControl {
    ErrorCritical,
    ErrorIgnore,
    ErrorNormal,
    ErrorSevere,
}

/// The start types of a service: when the system starts it.
#[derive(Clone, Copy, Debug, PartialEq, Eq, Structural)]
pub enum ServiceStartType {
    AutoStart,
    BootStart,
    DemandStart,
    Disabled,
    SystemStart,
}

/// The types of a service.
#[derive(Clone, Copy, Debug, PartialEq, Eq, Structural)]
pub enum ServiceType {
    Adapter,
    FileSystemDriver,
    KernelDriver,
    RecognizerDriver,
    Win32OwnProcess,
    Win32ShareProcess,
}

/// The states in which a service can be observed.
#[derive(Clone, Copy, Debug, PartialEq, Eq, Structural)]
pub enum ServiceState {
    Stopped,
    StartPending,
    StopPending,
    Running,
    ContinuePending,
    PausePending,
    Paused,
}

impl ServiceErrorControl {
    /// The numeric code of the value.
    pub open spec fn spec_code(self) -> u32 {
        match self {
            ServiceErrorControl::ErrorCritical => 0x00000003,
            ServiceErrorControl::ErrorIgnore => 0x00000000,
            ServiceErrorControl::ErrorNormal => 0x00000001,
            ServiceErrorControl::ErrorSevere => 0x00000002,
        }
    }

    /// The value that a numeric code stands for, if any.
    pub open spec fn spec_from_code(code: u32) -> Option<Self> {
        if code == 0x00000003 {
            Some(ServiceErrorControl::ErrorCritical)
        } else if code == 0x00000000 {
            Some(ServiceErrorControl::ErrorIgnore)
        } else if code == 0x00000001 {
            Some(ServiceErrorControl::ErrorNormal)
        } else if code == 0x00000002 {
            Some(ServiceErrorControl::ErrorSevere)
        } else {
            None
        }
    }

    /// The numeric code of the value.
    pub fn code(&self) -> (r: u32)
        ensures
            r == self.spec_code(),
    {
        match self {
            ServiceErrorControl::ErrorCritical => 0x00000003,
            ServiceErrorControl::ErrorIgnore => 0x00000000,
            ServiceErrorControl::ErrorNormal => 0x00000001,
            ServiceErrorControl::ErrorSevere => 0x00000002,
        }
    }

    /// Decodes a numeric code; an unrecognized one is a query error with code 0.
    pub fn try_from(code: u32) -> (r: Result<Self, QueryServiceError>)
        ensures
            r is Ok <==> Self::spec_from_code(code) is Some,
            r is Ok ==> Some(r->Ok_0) == Self::spec_from_code(code),
            r is Err ==> r->Err_0@ == (ErrorKind::Unknown, 0u32, "invalid service error control"@),
    {
        if code == 0x00000003 {
            Ok(ServiceErrorControl::ErrorCritical)
        } else if code == 0x00000000 {
            Ok(ServiceErrorControl::ErrorIgnore)
        } else if code == 0x00000001 {
            Ok(ServiceErrorControl::ErrorNormal)
        } else if code == 0x00000002 {
            Ok(ServiceErrorControl::ErrorSevere)
        } else {
            Err(QueryServiceError::from_code(0, "invalid service error control".to_string()))
        }
    }
}

impl Default for ServiceErrorControl {
    fn default() -> (r: Self)
        ensures
            r == ServiceErrorControl::ErrorNormal,
    {
        ServiceErrorControl::ErrorNormal
    }
}

impl ServiceStartType {
    /// The numeric code of the value.
    pub open spec fn spec_code(self) -> u32 {
        match self {
            ServiceStartType::AutoStart => 0x00000002,
            ServiceStartType::BootStart => 0x00000000,
            ServiceStartType::DemandStart => 0x00000003,
            ServiceStartType::Disabled => 0x00000004,
            ServiceStartType::SystemStart => 0x00000001,
        }
    }

    /// The value that a numeric code stands for, if any.
    pub open spec fn spec_from_code(code: u32) -> Option<Self> {
        if code == 0x00000002 {
            Some(ServiceStartType::AutoStart)
        } else if code == 0x00000000 {
            Some(ServiceStartType::BootStart)
        } else if code == 0x00000003 {
            Some(ServiceStartType::DemandStart)
        } else if code == 0x00000004 {
            Some(ServiceStartType::Disabled)
        } else if code == 0x00000001 {
            Some(ServiceStartType::SystemStart)
        } else {
            None
        }
    }

    /// The numeric code of the value.
    pub fn code(&self) -> (r: u32)
        ensures
            r == self.spec_code(),
    {
        match self {
            ServiceStartType::AutoStart => 0x00000002,
            ServiceStartType::BootStart => 0x00000000,
            ServiceStartType::DemandStart => 0x00000003,
            ServiceStartType::Disabled => 0x00000004,
            ServiceStartType::SystemStart => 0x00000001,
        }
    }

    /// Decodes a numeric code; an unrecognized one is a query error with code 0.
    pub fn try_from(code: u32) -> (r: Result<Self, QueryServiceError>)
        ensures
            r is Ok <==> Self::spec_from_code(code) is Some,
            r is Ok ==> Some(r->Ok_0) == Self::spec_from_code(code),
            r is Err ==> r->Err_0@ == (ErrorKind::Unknown, 0u32, "invalid service start type"@),
    {
        if code == 0x00000002 {
            Ok(ServiceStartType::AutoStart)
        } else if code == 0x00000000 {
            Ok(ServiceStartType::BootStart)
        } else if code == 0x00000003 {
            Ok(ServiceStartType::DemandStart)
        } else if code == 0x00000004 {
            Ok(ServiceStartType::Disabled)
        } else if code == 0x00000001 {
            Ok(ServiceStartType::SystemStart)
        } else {
            Err(QueryServiceError::from_code(0, "invalid service start type".to_string()))
        }
    }
}

impl Default for ServiceStartType {
    fn default() -> (r: Self)
        ensures
            r == ServiceStartType::DemandStart,
    {
        ServiceStartType::DemandStart
    }
}

impl ServiceType {
    /// The numeric code of the value.
    pub open spec fn spec_code(self) -> u32 {
        match self {
            ServiceType::Adapter => 0x00000004,
            ServiceType::FileSystemDriver => 0x00000002,
            ServiceType::KernelDriver => 0x00000001,
            ServiceType::RecognizerDriver => 0x00000008,
            ServiceType::Win32OwnProcess => 0x00000010,
            ServiceType::Win32ShareProcess => 0x00000020,
        }
    }

    /// The value that a numeric code stands for, if any.
    pub open spec fn spec_from_code(code: u32) -> Option<Self> {
        if code == 0x00000004 {
            Some(ServiceType::Adapter)
        } else if code == 0x00000002 {
            Some(ServiceType::FileSystemDriver)
        } else if code == 0x00000001 {
            Some(ServiceType::KernelDriver)
        } else if code == 0x00000008 {
            Some(ServiceType::RecognizerDriver)
        } else if code == 0x00000010 {
            Some(ServiceType::Win32OwnProcess)
        } else if code == 0x00000020 {
            Some(ServiceType::Win32ShareProcess)
        } else {
            None
        }
    }

    /// The numeric code of the value.
    pub fn code(&self) -> (r: u32)
        ensures
            r == self.spec_code(),
    {
        match self {
            ServiceType::Adapter => 0x00000004,
            ServiceType::FileSystemDriver => 0x00000002,
            ServiceType::KernelDriver => 0x00000001,
            ServiceType::RecognizerDriver => 0x00000008,
            ServiceType::Win32OwnProcess => 0x00000010,
            ServiceType::Win32ShareProcess => 0x00000020,
        }
    }

    /// Decodes a numeric code; an unrecognized one is a query error with code 0.
    pub fn try_from(code: u32) -> (r: Result<Self, QueryServiceError>)
        ensures
            r is Ok <==> Self::spec_from_code(code) is Some,
            r is Ok ==> Some(r->Ok_0) == Self::spec_from_code(code),
            r is Err ==> r->Err_0@ == (ErrorKind::Unknown, 0u32, "invalid service type"@),
    {
        if code == 0x00000004 {
            Ok(ServiceType::Adapter)
        } else if code == 0x00000002 {
            Ok(ServiceType::FileSystemDriver)
        } else if code == 0x00000001 {
            Ok(ServiceType::KernelDriver)
        } else if code == 0x00000008 {
            Ok(ServiceType::RecognizerDriver)
        } else if code == 0x00000010 {
            Ok(ServiceType::Win32OwnProcess)
        } else if code == 0x00000020 {
            Ok(ServiceType::Win32ShareProcess)
        } else {
            Err(QueryServiceError::from_code(0, "invalid service type".to_string()))
        }
    }
}

impl Default for ServiceType {
    fn default() -> (r: Self)
        ensures
            r == ServiceType::KernelDriver,
    {
        ServiceType::KernelDriver
    }
}

impl ServiceState {
    /// The numeric code of the value.
    pub open spec fn spec_code(self) -> u32 {
        match self {
            ServiceState::Stopped => 1,
            ServiceState::StartPending => 2,
            ServiceState::StopPending => 3,
            ServiceState::Running => 4,
            ServiceState::ContinuePending => 5,
            ServiceState::PausePending => 6,
            ServiceState::Paused => 7,
        }
    }

    /// The value that a numeric code stands for, if any.
    pub open spec fn spec_from_code(code: u32) -> Option<Self> {
        if code == 1 {
            Some(ServiceState::Stopped)
        } else if code == 2 {
            Some(ServiceState::StartPending)
        } else if code == 3 {
            Some(ServiceState::StopPending)
        } else if code == 4 {
            Some(ServiceState::Running)
        } else if code == 5 {
            Some(ServiceState::ContinuePending)
        } else if code == 6 {
            Some(ServiceState::PausePending)
        } else if code == 7 {
            Some(ServiceState::Paused)
        } else {
            None
        }
    }

    /// The numeric code of the value.
    pub fn code(&self) -> (r: u32)
        ensures
            r == self.spec_code(),
    {
        match self {
            ServiceState::Stopped => 1,
            ServiceState::StartPending => 2,
            ServiceState::StopPending => 3,
            ServiceState::Running => 4,
            ServiceState::ContinuePending => 5,
            ServiceState::PausePending => 6,
            ServiceState::Paused => 7,
        }
    }

    /// Decodes a numeric code; an unrecognized one is a query error with code 0.
    pub fn try_from(code: u32) -> (r: Result<Self, QueryServiceError>)
        ensures
            r is Ok <==> Self::spec_from_code(code) is Some,
            r is Ok ==> Some(r->Ok_0) == Self::spec_from_code(code),
            r is Err ==> r->Err_0@ == (ErrorKind::Unknown, 0u32, "invalid service state"@),
    {
        if code == 1 {
            Ok(ServiceState::Stopped)
        } else if code == 2 {
            Ok(ServiceState::StartPending)
        } else if code == 3 {
            Ok(ServiceState::StopPending)
        } else if code == 4 {
            Ok(ServiceState::Running)
        } else if code == 5 {
            Ok(ServiceState::ContinuePending)
        } else if code == 6 {
            Ok(ServiceState::PausePending)
        } else if code == 7 {
            Ok(ServiceState::Paused)
        } else {
            Err(QueryServiceError::from_code(0, "invalid service state".to_string()))
        }
    }
}

impl ServiceType {
    /// The name of the value as it is shown to people.
    pub open spec fn spec_name(self) -> Seq<char> {
        match self {
            ServiceType::Adapter => "Adapter"@,
            ServiceType::FileSystemDriver => "FileSystemDriver"@,
            ServiceType::KernelDriver => "KernelDriver"@,
            ServiceType::RecognizerDriver => "RecognizerDriver"@,
            ServiceType::Win32OwnProcess => "Win32OwnProcess"@,
            ServiceType::Win32ShareProcess => "Win32ShareProcess"@,
        }
    }

    /// The name of the value as it is shown to people.
    pub fn to_string(&self) -> (r: String)
        ensures
            r@ == self.spec_name(),
    {
        match self {
            ServiceType::Adapter => "Adapter".to_string(),
            ServiceType::FileSystemDriver => "FileSystemDriver".to_string(),
            ServiceType::KernelDriver => "KernelDriver".to_string(),
            ServiceType::RecognizerDriver => "RecognizerDriver".to_string(),
            ServiceType::Win32OwnProcess => "Win32OwnProcess".to_string(),
            ServiceType::Win32ShareProcess => "Win32ShareProcess".to_string(),
        }
    }
}

impl ServiceState {
    /// The name of the value as it is shown to people.
    pub open spec fn spec_name(self) -> Seq<char> {
        match self {
            ServiceState::Stopped => "Stopped"@,
            ServiceState::StartPending => "StartPending"@,
            ServiceState::StopPending => "StopPending"@,
            ServiceState::Running => "Running"@,
            ServiceState::ContinuePending => "ContinuePending"@,
            ServiceState::PausePending => "PausePending"@,
            ServiceState::Paused => "Paused"@,
        }
    }

    /// The name of the value as it is shown to people.
    pub fn to_string(&self) -> (r: String)
        ensures
            r@ == self.spec_name(),
    {
        match self {
            ServiceState::Stopped => "Stopped".to_string(),
            ServiceState::StartPending => "StartPending".to_string(),
            ServiceState::StopPending => "StopPending".to_string(),
            ServiceState::Running => "Running".to_string(),
            ServiceState::ContinuePending => "ContinuePending".to_string(),
            ServiceState::PausePending => "PausePending".to_string(),
            ServiceState::Paused => "Paused".to_string(),
        }
    }
}

/// Encoding a service type and decoding the code gives it back, and a code
/// that decodes is the encoding of what it decodes to.
pub proof fn lemma_service_type_round_trip(value: ServiceType, code: u32)
    ensures
        ServiceType::spec_from_code(value.spec_code()) == Some(value),
        ServiceType::spec_from_code(code) matches Some(v) ==> v.spec_code() == code,
{
}

/// Encoding a start type and decoding the code gives it back, and a code
/// that decodes is the encoding of what it decodes to.
pub proof fn lemma_start_type_round_trip(value: ServiceStartType, code: u32)
    ensures
        ServiceStartType::spec_from_code(value.spec_code()) == Some(value),
        ServiceStartType::spec_from_code(code) matches Some(v) ==> v.spec_code() == code,
{
}

/// Encoding a error control and decoding the code gives it back, and a code
/// that decodes is the encoding of what it decodes to.
pub proof fn lemma_error_control_round_trip(value: ServiceErrorControl, code: u32)
    ensures
        ServiceErrorControl::spec_from_code(value.spec_code()) == Some(value),
        ServiceErrorControl::spec_from_code(code) matches Some(v) ==> v.spec_code() == code,
{
}

/// Encoding a state and decoding the code gives it back, and a code
/// that decodes is the encoding of what it decodes to.
pub proof fn lemma_state_round_trip(value: ServiceState, code: u32)
    ensures
        ServiceState::spec_from_code(value.spec_code()) == Some(value),
        ServiceState::spec_from_code(code) matches Some(v) ==> v.spec_code() == code,
{
}

/// The configuration record that the system keeps for a service, as read
/// back. Each text holds its UTF-16 units with their terminator; the
/// dependencies are a list of such texts ended by one more nul.
#[derive(Clone, Debug)]
pub struct StoredConfig {
    pub service_type: u32,
    pub start_type: u32,
    pub error_control: u32,
    pub tag_id: u32,
    pub binary_path: Vec<u16>,
    pub load_order_group: Vec<u16>,
    pub dependencies: Vec<u16>,
    pub start_name: Vec<u16>,
    pub display_name: Vec<u16>,
}

impl StoredConfig {
    /// Decodes the start type of the record.
    pub fn get_start_type(&self) -> (r: Result<ServiceStartType, QueryServiceError>)
        ensures
            r is Ok <==> ServiceStartType::spec_from_code(self.start_type) is Some,
            r is Ok ==> Some(r->Ok_0) == ServiceStartType::spec_from_code(self.start_type),
            r is Err ==> r->Err_0@ == (ErrorKind::Unknown, 0u32, "invalid service start type"@),
    {
        ServiceStartType::try_from(self.start_type)
    }
}

/// The units of an optional text, if it is there.
pub open spec fn units_of(text: Option<Vec<u16>>) -> Option<Seq<u16>> {
    match text {
        Some(v) => Some(v@),
        None => None,
    }
}

/// The arguments of one change of a service's configuration. A text or a tag
/// that is `None` leaves that field as the system has it; the password is
/// never changed.
#[derive(Debug)]
pub struct ConfigChange {
    pub handle: isize,
    pub service_type: u32,
    pub start_type: u32,
    pub error_control: u32,
    pub binary_path: Option<Vec<u16>>,
    pub load_order_group: Option<Vec<u16>>,
    pub tag_id: Option<u32>,
    pub dependencies: Option<Vec<u16>>,
    pub start_name: Option<Vec<u16>>,
    pub display_name: Option<Vec<u16>>,
}

/// Checks and encodes a rewrite of a service's type, start type, error
/// control, binary path and display name; every other field stays as it is.
pub fn update_config_request(service: &HandleSlot, options: &ServiceConfig) -> (r: Result<
    ConfigChange,
    UpdateServiceError,
>)
    ensures
        r is Ok <==> service@ is Some && wide_of(options.display_name@) is Some && wide_of(
            options.binary_path@,
        ) is Some,
        service@ is None ==> r is Err && r->Err_0@ == (
            ErrorKind::InvalidHandle,
            0u32,
            "[update_config] invalid service handle"@,
        ),
        service@ is Some && wide_of(options.display_name@) is None ==> r is Err && r->Err_0@ == (
            ErrorKind::InvalidParameter,
            0u32,
            "[update_config] invalid display_name"@,
        ),
        service@ is Some && wide_of(options.display_name@) is Some && wide_of(
            options.binary_path@,
        ) is None ==> r is Err && r->Err_0@ == (
            ErrorKind::InvalidParameter,
            0u32,
            "[update_config] invalid binary_path"@,
        ),
        r matches Ok(c) ==> {
            &&& Some(c.handle) == service@
            &&& c.service_type == options.service_type.spec_code()
            &&& c.start_type == options.start_type.spec_code()
            &&& c.error_control == options.error_control.spec_code()
            &&& units_of(c.binary_path) == wide_of(options.binary_path@)
            &&& units_of(c.display_name) == wide_of(options.display_name@)
            &&& c.load_order_group is None
            &&& c.tag_id is None
            &&& c.dependencies is None
            &&& c.start_name is None
        },
{
    let handle = match service.get() {
        Some(h) => h,
        None => {
            return Err(
                UpdateServiceError::InvalidHandle(0, "[update_config] invalid service handle".to_string()),
            );
        },
    };
    let display_name = match encode_wide(options.display_name.as_str()) {
        Some(units) => units,
        None => {
            return Err(
                UpdateServiceError::InvalidParameter(
                    0,
                    "[update_config] invalid display_name".to_string(),
                ),
            );
        },
    };
    let binary_path = match encode_wide(options.binary_path.as_str()) {
        Some(units) => units,
        None => {
            return Err(
                UpdateServiceError::InvalidParameter(
                    0,
                    "[update_config] invalid binary_path".to_string(),
                ),
            );
        },
    };
    Ok(
        ConfigChange {
            handle,
            service_type: options.service_type.code(),
            start_type: options.start_type.code(),
            error_control: options.error_control.code(),
            binary_path: Some(binary_path),
            load_order_group: None,
            tag_id: None,
            dependencies: None,
            start_name: None,
            display_name: Some(display_name),
        },
    )
}

/// Interprets a configuration change made by `update_config`.
pub fn update_config_outcome(succeeded: bool, last_error: u32) -> (r: Result<(), UpdateServiceError>)
    ensures
        r is Ok <==> succeeded,
        r matches Err(e) ==> e@ == (
            UpdateServiceError::kind_of(last_error),
            last_error,
            "[update_config] failed"@,
        ),
{
    if succeeded {
        Ok(())
    } else {
        Err(UpdateServiceError::from_code(last_error, "[update_config] failed".to_string()))
    }
}

/// Rewrites the configuration that was read back with only the start type
/// replaced: every other field, the tag included, is written as it was read.
/// A failure to read it denies access, with the code that the system left.
pub fn set_start_type_request(
    service: &HandleSlot,
    current: Result<StoredConfig, QueryServiceError>,
    last_error: u32,
    start_type: ServiceStartType,
) -> (r: Result<ConfigChange, UpdateServiceError>)
    ensures
        r is Ok <==> service@ is Some && current is Ok,
        service@ is None ==> r is Err && r->Err_0@ == (
            ErrorKind::InvalidHandle,
            0u32,
            "[set_start_type] invalid service handle"@,
        ),
        service@ is Some && current is Err ==> r is Err && r->Err_0@ == (
            ErrorKind::AccessDenied,
            last_error,
            "[set_start_type] failed to get service config"@,
        ),
        r matches Ok(c) ==> {
            let read = current->Ok_0;
            &&& Some(c.handle) == service@
            &&& c.start_type == start_type.spec_code()
            &&& c.service_type == read.service_type
            &&& c.error_control == read.error_control
            &&& c.tag_id == Some(read.tag_id)
            &&& units_of(c.binary_path) == Some(read.binary_path@)
            &&& units_of(c.load_order_group) == Some(read.load_order_group@)
            &&& units_of(c.dependencies) == Some(read.dependencies@)
            &&& units_of(c.start_name) == Some(read.start_name@)
            &&& units_of(c.display_name) == Some(read.display_name@)
        },
{
    let handle = match service.get() {
        Some(h) => h,
        None => {
            return Err(
                UpdateServiceError::InvalidHandle(0, "[set_start_type] invalid service handle".to_string()),
            );
        },
    };
    match current {
        Ok(read) => Ok(
            ConfigChange {
                handle,
                service_type: read.service_type,
                start_type: start_type.code(),
                error_control: read.error_control,
                binary_path: Some(read.binary_path),
                load_order_group: Some(read.load_order_group),
                tag_id: Some(read.tag_id),
                dependencies: Some(read.dependencies),
                start_name: Some(read.start_name),
                display_name: Some(read.display_name),
            },
        ),
        Err(_) => Err(
            UpdateServiceError::AccessDenied(
                last_error,
                "[set_start_type] failed to get service config".to_string(),
            ),
        ),
    }
}

/// Interprets a configuration change made by `set_start_type`.
pub fn set_start_type_outcome(succeeded: bool, last_error: u32) -> (r: Result<(), UpdateServiceError>)
    ensures
        r is Ok <==> succeeded,
        r matches Err(e) ==> e@ == (
            UpdateServiceError::kind_of(last_error),
            last_error,
            "[set_start_type] ChangeServiceConfig failed"@,
        ),
{
    if succeeded {
        Ok(())
    } else {
        Err(
            UpdateServiceError::from_code(
                last_error,
                "[set_start_type] ChangeServiceConfig failed".to_string(),
            ),
        )
    }
}

/// The handle on which the configuration record is read.
pub fn config_target(service: &HandleSlot) -> (r: Result<isize, QueryServiceError>)
    ensures
        r is Ok <==> service@ is Some,
        r matches Ok(h) ==> service@ == Some(h),
        r matches Err(e) ==> e@ == (
            ErrorKind::InvalidHandle,
            0u32,
            "[get_config] invalid service handle"@,
        ),
{
    match service.get() {
        Some(h) => Ok(h),
        None => Err(QueryServiceError::InvalidHandle(0, "[get_config] invalid service handle".to_string())),
    }
}

/// Interprets the first, empty query of the configuration record: it is meant
/// to fail for want of room and report the size needed, which is then the
/// size to allocate. Any other failure ends the read.
pub fn config_size_outcome(succeeded: bool, last_error: u32, bytes_needed: u32) -> (r: Result<
    usize,
    QueryServiceError,
>)
    ensures
        r is Ok <==> succeeded || last_error == ERROR_INSUFFICIENT_BUFFER,
        r matches Ok(n) ==> n == bytes_needed as usize,
        r matches Err(e) ==> e@ == (
            QueryServiceError::kind_of(last_error),
            last_error,
            "[get_config] QueryServiceConfig failed"@,
        ),
{
    if !succeeded && last_error != ERROR_INSUFFICIENT_BUFFER {
        Err(QueryServiceError::from_code(last_error, "[get_config] QueryServiceConfig failed".to_string()))
    } else {
        Ok(bytes_needed as usize)
    }
}

/// Interprets the second query of the configuration record, into a buffer
/// of the size that the first one reported.
pub fn config_read_outcome(succeeded: bool, last_error: u32) -> (r: Result<(), QueryServiceError>)
    ensures
        r is Ok <==> succeeded,
        r matches Err(e) ==> e@ == (
            QueryServiceError::kind_of(last_error),
            last_error,
            "[get_config] QueryServiceConfig failed"@,
        ),
{
    if succeeded {
        Ok(())
    } else {
        Err(QueryServiceError::from_code(last_error, "[get_config] QueryServiceConfig failed".to_string()))
    }
}

/// The handle on which the service's status is queried.
pub fn status_target(service: &HandleSlot) -> (r: Result<isize, QueryServiceError>)
    ensures
        r is Ok <==> service@ is Some,
        r matches Ok(h) ==> service@ == Some(h),
        r matches Err(e) ==> e@ == (ErrorKind::InvalidHandle, 0u32, "[get_status] invalid service handle"@),
{
    match service.get() {
        Some(h) => Ok(h),
        None => Err(QueryServiceError::InvalidHandle(0, "[get_status] invalid service handle".to_string())),
    }
}

/// Interprets a query of the service's status: on success, decodes the
/// current state that it reported.
pub fn state_outcome(succeeded: bool, last_error: u32, current_state: u32) -> (r: Result<
    ServiceState,
    QueryServiceError,
>)
    ensures
        r is Ok <==> succeeded && ServiceState::spec_from_code(current_state) is Some,
        r is Ok ==> Some(r->Ok_0) == ServiceState::spec_from_code(current_state),
        !succeeded ==> r is Err && r->Err_0@ == (
            QueryServiceError::kind_of(last_error),
            last_error,
            "[get_status] QueryServiceStatus failed"@,
        ),
        succeeded && r is Err ==> r->Err_0@ == (ErrorKind::Unknown, 0u32, "invalid service state"@),
{
    if succeeded {
        ServiceState::try_from(current_state)
    } else {
        Err(QueryServiceError::from_code(last_error, "[get_status] QueryServiceStatus failed".to_string()))
    }
}

/// The handle of the service to mark for deletion.
pub fn delete_target(service: &HandleSlot) -> (r: Result<isize, DeleteServiceError>)
    ensures
        r is Ok <==> service@ is Some,
        r matches Ok(h) ==> service@ == Some(h),
        r matches Err(e) ==> e@ == (ErrorKind::InvalidHandle, 0u32, "[delete] invalid service handle"@),
{
    match service.get() {
        Some(h) => Ok(h),
        None => Err(DeleteServiceError::InvalidHandle(0, "[delete] invalid service handle".to_string())),
    }
}

/// Interprets the marking of the service for deletion.
pub fn delete_outcome(succeeded: bool, last_error: u32) -> (r: Result<(), DeleteServiceError>)
    ensures
        r is Ok <==> succeeded,
        r matches Err(e) ==> e@ == (DeleteServiceError::kind_of(last_error), last_error, "[delete] DeleteService failed"@),
{
    if succeeded {
        Ok(())
    } else {
        Err(DeleteServiceError::from_code(last_error, "[delete] DeleteService failed".to_string()))
    }
}

/// The handle of the service to start.
pub fn start_target(service: &HandleSlot) -> (r: Result<isize, ControlServiceError>)
    ensures
        r is Ok <==> service@ is Some,
        r matches Ok(h) ==> service@ == Some(h),
        r matches Err(e) ==> e@ == (ErrorKind::InvalidHandle, 0u32, "[start] invalid service handle"@),
{
    match service.get() {
        Some(h) => Ok(h),
        None => Err(ControlServiceError::InvalidHandle(0, "[start] invalid service handle".to_string())),
    }
}

/// Interprets the start command; it is accepted before the service runs.
pub fn start_outcome(succeeded: bool, last_error: u32) -> (r: Result<(), ControlServiceError>)
    ensures
        r is Ok <==> succeeded,
        r matches Err(e) ==> e@ == (ControlServiceError::kind_of(last_error), last_error, "[start] StartServiceW failed"@),
{
    if succeeded {
        Ok(())
    } else {
        Err(ControlServiceError::from_code(last_error, "[start] StartServiceW failed".to_string()))
    }
}

/// A control code to send to a service.
#[derive(Clone, Copy, Debug, PartialEq, Eq, Structural)]
pub struct ControlRequest {
    pub handle: isize,
    pub control: u32,
}

fn control_request(service: &HandleSlot, control: u32) -> (r: Result<ControlRequest, ControlServiceError>)
    ensures
        r is Ok <==> service@ is Some,
        r matches Ok(q) ==> service@ == Some(q.handle) && q.control == control,
        r matches Err(e) ==> e@ == (ErrorKind::InvalidHandle, 0u32, "[control] invalid service handle"@),
{
    match service.get() {
        Some(handle) => Ok(ControlRequest { handle, control }),
        None => Err(ControlServiceError::InvalidHandle(0, "[control] invalid service handle".to_string())),
    }
}

/// The request that asks the service to stop.
pub fn stop_request(service: &HandleSlot) -> (r: Result<ControlRequest, ControlServiceError>)
    ensures
        r is Ok <==> service@ is Some,
        r matches Ok(q) ==> service@ == Some(q.handle) && q.control == SERVICE_CONTROL_STOP,
        r matches Err(e) ==> e@ == (ErrorKind::InvalidHandle, 0u32, "[control] invalid service handle"@),
{
    control_request(service, SERVICE_CONTROL_STOP)
}

/// The request that asks the service to pause.
pub fn pause_request(service: &HandleSlot) -> (r: Result<ControlRequest, ControlServiceError>)
    ensures
        r is Ok <==> service@ is Some,
        r matches Ok(q) ==> service@ == Some(q.handle) && q.control == SERVICE_CONTROL_PAUSE,
        r matches Err(e) ==> e@ == (ErrorKind::InvalidHandle, 0u32, "[control] invalid service handle"@),
{
    control_request(service, SERVICE_CONTROL_PAUSE)
}

/// Interprets the sending of a control code.
pub fn control_outcome(succeeded: bool, last_error: u32) -> (r: Result<(), ControlServiceError>)
    ensures
        r is Ok <==> succeeded,
        r matches Err(e) ==> e@ == (ControlServiceError::kind_of(last_error), last_error, "[control] ControlService failed"@),
{
    if succeeded {
        Ok(())
    } else {
        Err(ControlServiceError::from_code(last_error, "[control] ControlService failed".to_string()))
    }
}

/// What a blocking control does after one observation of the state.
#[derive(Debug)]
pub enum PollAction {
    /// The target state was observed: the control is done.
    Finish,
    /// Another state was observed: wait, then observe again.
    Sleep,
    /// The state could not be observed: the control fails.
    Fail(ControlServiceError),
}

/// An observation of the state: `None` where the query failed.
pub open spec fn observation(observed: Result<ServiceState, QueryServiceError>) -> Option<ServiceState> {
    match observed {
        Ok(s) => Some(s),
        Err(_) => None,
    }
}

/// Decides the next move of a blocking control from one observation. Only
/// the target state ends the wait; a failed query ends it with an error that
/// carries the system's last code.
pub fn poll_step(target: ServiceState, observed: Result<ServiceState, QueryServiceError>, last_error: u32) -> (r:
    PollAction)
    ensures
        r is Finish <==> observation(observed) == Some(target),
        r is Sleep <==> observation(observed) is Some && observation(observed) != Some(target),
        r is Fail <==> observation(observed) is None,
        r matches PollAction::Fail(e) ==> e@ == (
            ErrorKind::Unknown,
            last_error,
            "[control_blocking] failed to get service state"@,
        ),
{
    match observed {
        Ok(state) => {
            if state == target {
                PollAction::Finish
            } else {
                PollAction::Sleep
            }
        },
        Err(_) => PollAction::Fail(
            ControlServiceError::Unknown(
                last_error,
                "[control_blocking] failed to get service state".to_string(),
            ),
        ),
    }
}

/// How many waits a blocking control makes over a series of observations
/// before it finishes, or `None` where it fails or the series ends first.
pub open spec fn sleeps_until(target: ServiceState, observations: Seq<Option<ServiceState>>) -> Option<nat>
    decreases observations.len(),
{
    if observations.len() == 0 {
        None
    } else if observations[0] == Some(target) {
        Some(0)
    } else if observations[0] is None {
        None
    } else {
        match sleeps_until(target, observations.drop_first()) {
            Some(n) => Some(n + 1),
            None => None,
        }
    }
}

/// Where the state is observed in other states `n` times and then in the
/// target, a blocking control finishes after exactly `n` waits, on the target.
pub proof fn lemma_blocking_converges(
    target: ServiceState,
    observations: Seq<Option<ServiceState>>,
    n: nat,
)
    requires
        n < observations.len(),
        observations[n as int] == Some(target),
        forall|i: int| 0 <= i < n ==> observations[i] is Some && observations[i] != Some(target),
    ensures
        sleeps_until(target, observations) == Some(n),
    decreases n,
{
    if n > 0 {
        let rest = observations.drop_first();
        assert forall|i: int| 0 <= i < n - 1 implies rest[i] is Some && rest[i] != Some(target) by {
            assert(rest[i] == observations[i + 1]);
        }
        lemma_blocking_converges(target, rest, (n - 1) as nat);
    }
}

} // verus!
