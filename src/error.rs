//! One error family per operation. Each variant carries the system's numeric
//! code (0 where the library itself refused the input) and a context string
//! that names the call site.
use crate::codes::{
    ERROR_ACCESS_DENIED, ERROR_CIRCULAR_DEPENDENCY, ERROR_DATABASE_DOES_NOT_EXIST,
    ERROR_DUPLICATE_SERVICE_NAME, ERROR_FILE_NOT_FOUND, ERROR_INVALID_HANDLE,
    ERROR_INVALID_NAME, ERROR_INVALID_PARAMETER, ERROR_INVALID_SERVICE_ACCOUNT,
    ERROR_PATH_NOT_FOUND, ERROR_SERVICE_ALREADY_RUNNING, ERROR_SERVICE_DATABASE_LOCKED,
    ERROR_SERVICE_DEPENDENCY_DELETED, ERROR_SERVICE_DEPENDENCY_FAIL, ERROR_SERVICE_DISABLED,
    ERROR_SERVICE_DOES_NOT_EXIST, ERROR_SERVICE_EXISTS, ERROR_SERVICE_LOGON_FAILED,
    ERROR_SERVICE_MARKED_FOR_DELETE, ERROR_SERVICE_NOT_ACTIVE, ERROR_SERVICE_NO_THREAD,
    ERROR_SERVICE_REQUEST_TIMEOUT,
};
use vstd::prelude::*;

verus! {

/// The kind of failure that a variant stands for, used to state each
/// family's table over one vocabulary.
#[derive(Clone, Copy, Debug)]
pub enum ErrorKind {
    AccessDenied,
    CircularDependency,
    DatabaseDoesNotExist,
    DuplicateServiceName,
    InvalidHandle,
    InvalidName,
    InvalidParameter,
    InvalidServiceAccount,
    PathNotFound,
    ServiceAlreadyRunning,
    ServiceDatabaseLocked,
    ServiceDependencyDeleted,
    ServiceDependencyFail,
    ServiceDisabled,
    ServiceDoesNotExist,
    ServiceExists,
    ServiceLogonFailed,
    ServiceMarkedForDelete,
    ServiceNoThread,
    ServiceNotActive,
    ServiceRequestTimeout,
    Unknown,
}

/// A failure while opening a service.
#[derive(Clone, Debug)]
pub enum OpenServiceError {
    AccessDenied(u32, String),
    InvalidHandle(u32, String),
    InvalidName(u32, String),
    ServiceDoesNotExist(u32, String),
    Unknown(u32, String),
}

impl View for OpenServiceError {
    type V = (ErrorKind, u32, Seq<char>);

    open spec fn view(&self) -> (ErrorKind, u32, Seq<char>) {
        match self {
            OpenServiceError::AccessDenied(code, context) => (ErrorKind::AccessDenied, *code, context@),
            OpenServiceError::InvalidHandle(code, context) => (ErrorKind::InvalidHandle, *code, context@),
            OpenServiceError::InvalidName(code, context) => (ErrorKind::InvalidName, *code, context@),
            OpenServiceError::ServiceDoesNotExist(code, context) => (ErrorKind::ServiceDoesNotExist, *code, context@),
            OpenServiceError::Unknown(code, context) => (ErrorKind::Unknown, *code, context@),
        }
    }
}

impl OpenServiceError {
    /// The kind that the family's table gives a system code.
    pub open spec fn kind_of(code: u32) -> ErrorKind {
        if code == ERROR_ACCESS_DENIED {
            ErrorKind::AccessDenied
        } else if code == ERROR_INVALID_HANDLE {
            ErrorKind::InvalidHandle
        } else if code == ERROR_INVALID_NAME {
            ErrorKind::InvalidName
        } else if code == ERROR_SERVICE_DOES_NOT_EXIST {
            ErrorKind::ServiceDoesNotExist
        } else {
            ErrorKind::Unknown
        }
    }

    /// The variant that the table gives a system code and its context.
    pub open spec fn spec_from_code(code: u32, context: String) -> Self {
        match Self::kind_of(code) {
            ErrorKind::AccessDenied => OpenServiceError::AccessDenied(code, context),
            ErrorKind::InvalidHandle => OpenServiceError::InvalidHandle(code, context),
            ErrorKind::InvalidName => OpenServiceError::InvalidName(code, context),
            ErrorKind::ServiceDoesNotExist => OpenServiceError::ServiceDoesNotExist(code, context),
            _ => OpenServiceError::Unknown(code, context),
        }
    }

    /// Maps a system code, with the context of the failed call, onto this
    /// family.
    pub fn from_code(code: u32, context: String) -> (r: Self)
        ensures
            r == Self::spec_from_code(code, context),
            r@ == (Self::kind_of(code), code, context@),
    {
        if code == ERROR_ACCESS_DENIED {
            OpenServiceError::AccessDenied(code, context)
        } else if code == ERROR_INVALID_HANDLE {
            OpenServiceError::InvalidHandle(code, context)
        } else if code == ERROR_INVALID_NAME {
            OpenServiceError::InvalidName(code, context)
        } else if code == ERROR_SERVICE_DOES_NOT_EXIST {
            OpenServiceError::ServiceDoesNotExist(code, context)
        } else {
            OpenServiceError::Unknown(code, context)
        }
    }

    /// The system code carried by the error.
    pub fn code(&self) -> (r: u32)
        ensures
            r == self@.1,
    {
        match self {
            OpenServiceError::AccessDenied(code, _) => *code,
            OpenServiceError::InvalidHandle(code, _) => *code,
            OpenServiceError::InvalidName(code, _) => *code,
            OpenServiceError::ServiceDoesNotExist(code, _) => *code,
            OpenServiceError::Unknown(code, _) => *code,
        }
    }

    /// The context string carried by the error.
    pub fn context(&self) -> (r: &String)
        ensures
            r@ == self@.2,
    {
        match self {
            OpenServiceError::AccessDenied(_, context) => context,
            OpenServiceError::InvalidHandle(_, context) => context,
            OpenServiceError::InvalidName(_, context) => context,
            OpenServiceError::ServiceDoesNotExist(_, context) => context,
            OpenServiceError::Unknown(_, context) => context,
        }
    }
}

impl From<(u32, String)> for OpenServiceError {
    fn from(value: (u32, String)) -> (r: Self) {
        let (code, context) = value;
        Self::from_code(code, context)
    }
}

impl vstd::std_specs::convert::FromSpecImpl<(u32, String)> for OpenServiceError {
    open spec fn obeys_from_spec() -> bool {
        true
    }

    open spec fn from_spec(v: (u32, String)) -> Self {
        Self::spec_from_code(v.0, v.1)
    }
}

/// A failure while creating a service.
#[derive(Clone, Debug)]
pub enum CreateServiceError {
    AccessDenied(u32, String),
    CircularDependency(u32, String),
    InvalidHandle(u32, String),
    InvalidName(u32, String),
    InvalidParameter(u32, String),
    InvalidServiceAccount(u32, String),
    ServiceExists(u32, String),
    ServiceMarkedForDelete(u32, String),
    Unknown(u32, String),
}

impl View for CreateServiceError {
    type V = (ErrorKind, u32, Seq<char>);

    open spec fn view(&self) -> (ErrorKind, u32, Seq<char>) {
        match self {
            CreateServiceError::AccessDenied(code, context) => (ErrorKind::AccessDenied, *code, context@),
            CreateServiceError::CircularDependency(code, context) => (ErrorKind::CircularDependency, *code, context@),
            CreateServiceError::InvalidHandle(code, context) => (ErrorKind::InvalidHandle, *code, context@),
            CreateServiceError::InvalidName(code, context) => (ErrorKind::InvalidName, *code, context@),
            CreateServiceError::InvalidParameter(code, context) => (ErrorKind::InvalidParameter, *code, context@),
            CreateServiceError::InvalidServiceAccount(code, context) => (ErrorKind::InvalidServiceAccount, *code, context@),
            CreateServiceError::ServiceExists(code, context) => (ErrorKind::ServiceExists, *code, context@),
            CreateServiceError::ServiceMarkedForDelete(code, context) => (ErrorKind::ServiceMarkedForDelete, *code, context@),
            CreateServiceError::Unknown(code, context) => (ErrorKind::Unknown, *code, context@),
        }
    }
}

impl CreateServiceError {
    /// The kind that the family's table gives a system code.
    pub open spec fn kind_of(code: u32) -> ErrorKind {
        if code == ERROR_ACCESS_DENIED {
            ErrorKind::AccessDenied
        } else if code == ERROR_CIRCULAR_DEPENDENCY {
            ErrorKind::CircularDependency
        } else if code == ERROR_INVALID_HANDLE {
            ErrorKind::InvalidHandle
        } else if code == ERROR_INVALID_NAME {
            ErrorKind::InvalidName
        } else if code == ERROR_INVALID_PARAMETER {
            ErrorKind::InvalidParameter
        } else if code == ERROR_INVALID_SERVICE_ACCOUNT {
            ErrorKind::InvalidServiceAccount
        } else if code == ERROR_DUPLICATE_SERVICE_NAME {
            ErrorKind::ServiceExists
        } else if code == ERROR_SERVICE_EXISTS {
            ErrorKind::ServiceExists
        } else if code == ERROR_SERVICE_MARKED_FOR_DELETE {
            ErrorKind::ServiceMarkedForDelete
        } else {
            ErrorKind::Unknown
        }
    }

    /// The variant that the table gives a system code and its context.
    pub open spec fn spec_from_code(code: u32, context: String) -> Self {
        match Self::kind_of(code) {
            ErrorKind::AccessDenied => CreateServiceError::AccessDenied(code, context),
            ErrorKind::CircularDependency => CreateServiceError::CircularDependency(code, context),
            ErrorKind::InvalidHandle => CreateServiceError::InvalidHandle(code, context),
            ErrorKind::InvalidName => CreateServiceError::InvalidName(code, context),
            ErrorKind::InvalidParameter => CreateServiceError::InvalidParameter(code, context),
            ErrorKind::InvalidServiceAccount => CreateServiceError::InvalidServiceAccount(code, context),
            ErrorKind::ServiceExists => CreateServiceError::ServiceExists(code, context),
            ErrorKind::ServiceMarkedForDelete => CreateServiceError::ServiceMarkedForDelete(code, context),
            _ => CreateServiceError::Unknown(code, context),
        }
    }

    /// Maps a system code, with the context of the failed call, onto this
    /// family.
    pub fn from_code(code: u32, context: String) -> (r: Self)
        ensures
            r == Self::spec_from_code(code, context),
            r@ == (Self::kind_of(code), code, context@),
    {
        if code == ERROR_ACCESS_DENIED {
            CreateServiceError::AccessDenied(code, context)
        } else if code == ERROR_CIRCULAR_DEPENDENCY {
            CreateServiceError::CircularDependency(code, context)
        } else if code == ERROR_INVALID_HANDLE {
            CreateServiceError::InvalidHandle(code, context)
        } else if code == ERROR_INVALID_NAME {
            CreateServiceError::InvalidName(code, context)
        } else if code == ERROR_INVALID_PARAMETER {
            CreateServiceError::InvalidParameter(code, context)
        } else if code == ERROR_INVALID_SERVICE_ACCOUNT {
            CreateServiceError::InvalidServiceAccount(code, context)
        } else if code == ERROR_DUPLICATE_SERVICE_NAME {
            CreateServiceError::ServiceExists(code, context)
        } else if code == ERROR_SERVICE_EXISTS {
            CreateServiceError::ServiceExists(code, context)
        } else if code == ERROR_SERVICE_MARKED_FOR_DELETE {
            CreateServiceError::ServiceMarkedForDelete(code, context)
        } else {
            CreateServiceError::Unknown(code, context)
        }
    }

    /// The system code carried by the error.
    pub fn code(&self) -> (r: u32)
        ensures
            r == self@.1,
    {
        match self {
            CreateServiceError::AccessDenied(code, _) => *code,
            CreateServiceError::CircularDependency(code, _) => *code,
            CreateServiceError::InvalidHandle(code, _) => *code,
            CreateServiceError::InvalidName(code, _) => *code,
            CreateServiceError::InvalidParameter(code, _) => *code,
            CreateServiceError::InvalidServiceAccount(code, _) => *code,
            CreateServiceError::ServiceExists(code, _) => *code,
            CreateServiceError::ServiceMarkedForDelete(code, _) => *code,
            CreateServiceError::Unknown(code, _) => *code,
        }
    }

    /// The context string carried by the error.
    pub fn context(&self) -> (r: &String)
        ensures
            r@ == self@.2,
    {
        match self {
            CreateServiceError::AccessDenied(_, context) => context,
            CreateServiceError::CircularDependency(_, context) => context,
            CreateServiceError::InvalidHandle(_, context) => context,
            CreateServiceError::InvalidName(_, context) => context,
            CreateServiceError::InvalidParameter(_, context) => context,
            CreateServiceError::InvalidServiceAccount(_, context) => context,
            CreateServiceError::ServiceExists(_, context) => context,
            CreateServiceError::ServiceMarkedForDelete(_, context) => context,
            CreateServiceError::Unknown(_, context) => context,
        }
    }
}

impl From<(u32, String)> for CreateServiceError {
    fn from(value: (u32, String)) -> (r: Self) {
        let (code, context) = value;
        Self::from_code(code, context)
    }
}

impl vstd::std_specs::convert::FromSpecImpl<(u32, String)> for CreateServiceError {
    open spec fn obeys_from_spec() -> bool {
        true
    }

    open spec fn from_spec(v: (u32, String)) -> Self {
        Self::spec_from_code(v.0, v.1)
    }
}

/// A failure while opening the service control manager.
#[derive(Clone, Debug)]
pub enum ServiceManagerError {
    AccessDenied(u32, String),
    DatabaseDoesNotExist(u32, String),
    /// Not given by the table: the invalid-handle code maps to
    /// `DatabaseDoesNotExist`.
    InvalidHandle(u32, String),
    Unknown(u32, String),
}

impl View for ServiceManagerError {
    type V = (ErrorKind, u32, Seq<char>);

    open spec fn view(&self) -> (ErrorKind, u32, Seq<char>) {
        match self {
            ServiceManagerError::AccessDenied(code, context) => (ErrorKind::AccessDenied, *code, context@),
            ServiceManagerError::DatabaseDoesNotExist(code, context) => (ErrorKind::DatabaseDoesNotExist, *code, context@),
            ServiceManagerError::InvalidHandle(code, context) => (ErrorKind::InvalidHandle, *code, context@),
            ServiceManagerError::Unknown(code, context) => (ErrorKind::Unknown, *code, context@),
        }
    }
}

impl ServiceManagerError {
    /// The kind that the family's table gives a system code.
    pub open spec fn kind_of(code: u32) -> ErrorKind {
        if code == ERROR_ACCESS_DENIED {
            ErrorKind::AccessDenied
        } else if code == ERROR_DATABASE_DOES_NOT_EXIST {
            ErrorKind::DatabaseDoesNotExist
        } else if code == ERROR_INVALID_HANDLE {
            ErrorKind::DatabaseDoesNotExist
        } else {
            ErrorKind::Unknown
        }
    }

    /// The variant that the table gives a system code and its context.
    pub open spec fn spec_from_code(code: u32, context: String) -> Self {
        match Self::kind_of(code) {
            ErrorKind::AccessDenied => ServiceManagerError::AccessDenied(code, context),
            ErrorKind::DatabaseDoesNotExist => ServiceManagerError::DatabaseDoesNotExist(code, context),
            _ => ServiceManagerError::Unknown(code, context),
        }
    }

    /// Maps a system code, with the context of the failed call, onto this
    /// family.
    pub fn from_code(code: u32, context: String) -> (r: Self)
        ensures
            r == Self::spec_from_code(code, context),
            r@ == (Self::kind_of(code), code, context@),
    {
        if code == ERROR_ACCESS_DENIED {
            ServiceManagerError::AccessDenied(code, context)
        } else if code == ERROR_DATABASE_DOES_NOT_EXIST {
            ServiceManagerError::DatabaseDoesNotExist(code, context)
        } else if code == ERROR_INVALID_HANDLE {
            ServiceManagerError::DatabaseDoesNotExist(code, context)
        } else {
            ServiceManagerError::Unknown(code, context)
        }
    }

    /// The system code carried by the error.
    pub fn code(&self) -> (r: u32)
        ensures
            r == self@.1,
    {
        match self {
            ServiceManagerError::AccessDenied(code, _) => *code,
            ServiceManagerError::DatabaseDoesNotExist(code, _) => *code,
            ServiceManagerError::InvalidHandle(code, _) => *code,
            ServiceManagerError::Unknown(code, _) => *code,
        }
    }

    /// The context string carried by the error.
    pub fn context(&self) -> (r: &String)
        ensures
            r@ == self@.2,
    {
        match self {
            ServiceManagerError::AccessDenied(_, context) => context,
            ServiceManagerError::DatabaseDoesNotExist(_, context) => context,
            ServiceManagerError::InvalidHandle(_, context) => context,
            ServiceManagerError::Unknown(_, context) => context,
        }
    }
}

impl From<(u32, String)> for ServiceManagerError {
    fn from(value: (u32, String)) -> (r: Self) {
        let (code, context) = value;
        Self::from_code(code, context)
    }
}

impl vstd::std_specs::convert::FromSpecImpl<(u32, String)> for ServiceManagerError {
    open spec fn obeys_from_spec() -> bool {
        true
    }

    open spec fn from_spec(v: (u32, String)) -> Self {
        Self::spec_from_code(v.0, v.1)
    }
}

/// A failure while starting or controlling a service.
#[derive(Clone, Debug)]
pub enum ControlServiceError {
    AccessDenied(u32, String),
    InvalidHandle(u32, String),
    PathNotFound(u32, String),
    ServiceAlreadyRunning(u32, String),
    ServiceNotActive(u32, String),
    ServiceDatabaseLocked(u32, String),
    ServiceDependencyDeleted(u32, String),
    ServiceDependencyFail(u32, String),
    ServiceDisabled(u32, String),
    ServiceLogonFailed(u32, String),
    ServiceMarkedForDelete(u32, String),
    ServiceNoThread(u32, String),
    ServiceRequestTimeout(u32, String),
    Unknown(u32, String),
}

impl View for ControlServiceError {
    type V = (ErrorKind, u32, Seq<char>);

    open spec fn view(&self) -> (ErrorKind, u32, Seq<char>) {
        match self {
            ControlServiceError::AccessDenied(code, context) => (ErrorKind::AccessDenied, *code, context@),
            ControlServiceError::InvalidHandle(code, context) => (ErrorKind::InvalidHandle, *code, context@),
            ControlServiceError::PathNotFound(code, context) => (ErrorKind::PathNotFound, *code, context@),
            ControlServiceError::ServiceAlreadyRunning(code, context) => (ErrorKind::ServiceAlreadyRunning, *code, context@),
            ControlServiceError::ServiceNotActive(code, context) => (ErrorKind::ServiceNotActive, *code, context@),
            ControlServiceError::ServiceDatabaseLocked(code, context) => (ErrorKind::ServiceDatabaseLocked, *code, context@),
            ControlServiceError::ServiceDependencyDeleted(code, context) => (ErrorKind::ServiceDependencyDeleted, *code, context@),
            ControlServiceError::ServiceDependencyFail(code, context) => (ErrorKind::ServiceDependencyFail, *code, context@),
            ControlServiceError::ServiceDisabled(code, context) => (ErrorKind::ServiceDisabled, *code, context@),
            ControlServiceError::ServiceLogonFailed(code, context) => (ErrorKind::ServiceLogonFailed, *code, context@),
            ControlServiceError::ServiceMarkedForDelete(code, context) => (ErrorKind::ServiceMarkedForDelete, *code, context@),
            ControlServiceError::ServiceNoThread(code, context) => (ErrorKind::ServiceNoThread, *code, context@),
            ControlServiceError::ServiceRequestTimeout(code, context) => (ErrorKind::ServiceRequestTimeout, *code, context@),
            ControlServiceError::Unknown(code, context) => (ErrorKind::Unknown, *code, context@),
        }
    }
}

impl ControlServiceError {
    /// The kind that the family's table gives a system code.
    pub open spec fn kind_of(code: u32) -> ErrorKind {
        if code == ERROR_ACCESS_DENIED {
            ErrorKind::AccessDenied
        } else if code == ERROR_INVALID_HANDLE {
            ErrorKind::InvalidHandle
        } else if code == ERROR_PATH_NOT_FOUND {
            ErrorKind::PathNotFound
        } else if code == ERROR_FILE_NOT_FOUND {
            ErrorKind::PathNotFound
        } else if code == ERROR_SERVICE_ALREADY_RUNNING {
            ErrorKind::ServiceAlreadyRunning
        } else if code == ERROR_SERVICE_NOT_ACTIVE {
            ErrorKind::ServiceNotActive
        } else if code == ERROR_SERVICE_DATABASE_LOCKED {
            ErrorKind::ServiceDatabaseLocked
        } else if code == ERROR_SERVICE_DEPENDENCY_DELETED {
            ErrorKind::ServiceDependencyDeleted
        } else if code == ERROR_SERVICE_DEPENDENCY_FAIL {
            ErrorKind::ServiceDependencyFail
        } else if code == ERROR_SERVICE_DISABLED {
            ErrorKind::ServiceDisabled
        } else if code == ERROR_SERVICE_LOGON_FAILED {
            ErrorKind::ServiceLogonFailed
        } else if code == ERROR_SERVICE_MARKED_FOR_DELETE {
            ErrorKind::ServiceMarkedForDelete
        } else if code == ERROR_SERVICE_NO_THREAD {
            ErrorKind::ServiceNoThread
        } else if code == ERROR_SERVICE_REQUEST_TIMEOUT {
            ErrorKind::ServiceRequestTimeout
        } else {
            ErrorKind::Unknown
        }
    }

    /// The variant that the table gives a system code and its context.
    pub open spec fn spec_from_code(code: u32, context: String) -> Self {
        match Self::kind_of(code) {
            ErrorKind::AccessDenied => ControlServiceError::AccessDenied(code, context),
            ErrorKind::InvalidHandle => ControlServiceError::InvalidHandle(code, context),
            ErrorKind::PathNotFound => ControlServiceError::PathNotFound(code, context),
            ErrorKind::ServiceAlreadyRunning => ControlServiceError::ServiceAlreadyRunning(code, context),
            ErrorKind::ServiceNotActive => ControlServiceError::ServiceNotActive(code, context),
            ErrorKind::ServiceDatabaseLocked => ControlServiceError::ServiceDatabaseLocked(code, context),
            ErrorKind::ServiceDependencyDeleted => ControlServiceError::ServiceDependencyDeleted(code, context),
            ErrorKind::ServiceDependencyFail => ControlServiceError::ServiceDependencyFail(code, context),
            ErrorKind::ServiceDisabled => ControlServiceError::ServiceDisabled(code, context),
            ErrorKind::ServiceLogonFailed => ControlServiceError::ServiceLogonFailed(code, context),
            ErrorKind::ServiceMarkedForDelete => ControlServiceError::ServiceMarkedForDelete(code, context),
            ErrorKind::ServiceNoThread => ControlServiceError::ServiceNoThread(code, context),
            ErrorKind::ServiceRequestTimeout => ControlServiceError::ServiceRequestTimeout(code, context),
            _ => ControlServiceError::Unknown(code, context),
        }
    }

    /// Maps a system code, with the context of the failed call, onto this
    /// family.
    pub fn from_code(code: u32, context: String) -> (r: Self)
        ensures
            r == Self::spec_from_code(code, context),
            r@ == (Self::kind_of(code), code, context@),
    {
        if code == ERROR_ACCESS_DENIED {
            ControlServiceError::AccessDenied(code, context)
        } else if code == ERROR_INVALID_HANDLE {
            ControlServiceError::InvalidHandle(code, context)
        } else if code == ERROR_PATH_NOT_FOUND {
            ControlServiceError::PathNotFound(code, context)
        } else if code == ERROR_FILE_NOT_FOUND {
            ControlServiceError::PathNotFound(code, context)
        } else if code == ERROR_SERVICE_ALREADY_RUNNING {
            ControlServiceError::ServiceAlreadyRunning(code, context)
        } else if code == ERROR_SERVICE_NOT_ACTIVE {
            ControlServiceError::ServiceNotActive(code, context)
        } else if code == ERROR_SERVICE_DATABASE_LOCKED {
            ControlServiceError::ServiceDatabaseLocked(code, context)
        } else if code == ERROR_SERVICE_DEPENDENCY_DELETED {
            ControlServiceError::ServiceDependencyDeleted(code, context)
        } else if code == ERROR_SERVICE_DEPENDENCY_FAIL {
            ControlServiceError::ServiceDependencyFail(code, context)
        } else if code == ERROR_SERVICE_DISABLED {
            ControlServiceError::ServiceDisabled(code, context)
        } else if code == ERROR_SERVICE_LOGON_FAILED {
            ControlServiceError::ServiceLogonFailed(code, context)
        } else if code == ERROR_SERVICE_MARKED_FOR_DELETE {
            ControlServiceError::ServiceMarkedForDelete(code, context)
        } else if code == ERROR_SERVICE_NO_THREAD {
            ControlServiceError::ServiceNoThread(code, context)
        } else if code == ERROR_SERVICE_REQUEST_TIMEOUT {
            ControlServiceError::ServiceRequestTimeout(code, context)
        } else {
            ControlServiceError::Unknown(code, context)
        }
    }

    /// The system code carried by the error.
    pub fn code(&self) -> (r: u32)
        ensures
            r == self@.1,
    {
        match self {
            ControlServiceError::AccessDenied(code, _) => *code,
            ControlServiceError::InvalidHandle(code, _) => *code,
            ControlServiceError::PathNotFound(code, _) => *code,
            ControlServiceError::ServiceAlreadyRunning(code, _) => *code,
            ControlServiceError::ServiceNotActive(code, _) => *code,
            ControlServiceError::ServiceDatabaseLocked(code, _) => *code,
            ControlServiceError::ServiceDependencyDeleted(code, _) => *code,
            ControlServiceError::ServiceDependencyFail(code, _) => *code,
            ControlServiceError::ServiceDisabled(code, _) => *code,
            ControlServiceError::ServiceLogonFailed(code, _) => *code,
            ControlServiceError::ServiceMarkedForDelete(code, _) => *code,
            ControlServiceError::ServiceNoThread(code, _) => *code,
            ControlServiceError::ServiceRequestTimeout(code, _) => *code,
            ControlServiceError::Unknown(code, _) => *code,
        }
    }

    /// The context string carried by the error.
    pub fn context(&self) -> (r: &String)
        ensures
            r@ == self@.2,
    {
        match self {
            ControlServiceError::AccessDenied(_, context) => context,
            ControlServiceError::InvalidHandle(_, context) => context,
            ControlServiceError::PathNotFound(_, context) => context,
            ControlServiceError::ServiceAlreadyRunning(_, context) => context,
            ControlServiceError::ServiceNotActive(_, context) => context,
            ControlServiceError::ServiceDatabaseLocked(_, context) => context,
            ControlServiceError::ServiceDependencyDeleted(_, context) => context,
            ControlServiceError::ServiceDependencyFail(_, context) => context,
            ControlServiceError::ServiceDisabled(_, context) => context,
            ControlServiceError::ServiceLogonFailed(_, context) => context,
            ControlServiceError::ServiceMarkedForDelete(_, context) => context,
            ControlServiceError::ServiceNoThread(_, context) => context,
            ControlServiceError::ServiceRequestTimeout(_, context) => context,
            ControlServiceError::Unknown(_, context) => context,
        }
    }
}

impl From<(u32, String)> for ControlServiceError {
    fn from(value: (u32, String)) -> (r: Self) {
        let (code, context) = value;
        Self::from_code(code, context)
    }
}

impl vstd::std_specs::convert::FromSpecImpl<(u32, String)> for ControlServiceError {
    open spec fn obeys_from_spec() -> bool {
        true
    }

    open spec fn from_spec(v: (u32, String)) -> Self {
        Self::spec_from_code(v.0, v.1)
    }
}

/// A failure while deleting a service.
#[derive(Clone, Debug)]
pub enum DeleteServiceError {
    AccessDenied(u32, String),
    ErrorServiceMarkedForDelete(u32, String),
    InvalidHandle(u32, String),
    Unknown(u32, String),
}

impl View for DeleteServiceError {
    type V = (ErrorKind, u32, Seq<char>);

    open spec fn view(&self) -> (ErrorKind, u32, Seq<char>) {
        match self {
            DeleteServiceError::AccessDenied(code, context) => (ErrorKind::AccessDenied, *code, context@),
            DeleteServiceError::ErrorServiceMarkedForDelete(code, context) => (ErrorKind::ServiceMarkedForDelete, *code, context@),
            DeleteServiceError::InvalidHandle(code, context) => (ErrorKind::InvalidHandle, *code, context@),
            DeleteServiceError::Unknown(code, context) => (ErrorKind::Unknown, *code, context@),
        }
    }
}

impl DeleteServiceError {
    /// The kind that the family's table gives a system code.
    pub open spec fn kind_of(code: u32) -> ErrorKind {
        if code == ERROR_ACCESS_DENIED {
            ErrorKind::AccessDenied
        } else if code == ERROR_SERVICE_MARKED_FOR_DELETE {
            ErrorKind::ServiceMarkedForDelete
        } else if code == ERROR_INVALID_HANDLE {
            ErrorKind::InvalidHandle
        } else {
            ErrorKind::Unknown
        }
    }

    /// The variant that the table gives a system code and its context.
    pub open spec fn spec_from_code(code: u32, context: String) -> Self {
        match Self::kind_of(code) {
            ErrorKind::AccessDenied => DeleteServiceError::AccessDenied(code, context),
            ErrorKind::ServiceMarkedForDelete => DeleteServiceError::ErrorServiceMarkedForDelete(code, context),
            ErrorKind::InvalidHandle => DeleteServiceError::InvalidHandle(code, context),
            _ => DeleteServiceError::Unknown(code, context),
        }
    }

    /// Maps a system code, with the context of the failed call, onto this
    /// family.
    pub fn from_code(code: u32, context: String) -> (r: Self)
        ensures
            r == Self::spec_from_code(code, context),
            r@ == (Self::kind_of(code), code, context@),
    {
        if code == ERROR_ACCESS_DENIED {
            DeleteServiceError::AccessDenied(code, context)
        } else if code == ERROR_SERVICE_MARKED_FOR_DELETE {
            DeleteServiceError::ErrorServiceMarkedForDelete(code, context)
        } else if code == ERROR_INVALID_HANDLE {
            DeleteServiceError::InvalidHandle(code, context)
        } else {
            DeleteServiceError::Unknown(code, context)
        }
    }

    /// The system code carried by the error.
    pub fn code(&self) -> (r: u32)
        ensures
            r == self@.1,
    {
        match self {
            DeleteServiceError::AccessDenied(code, _) => *code,
            DeleteServiceError::ErrorServiceMarkedForDelete(code, _) => *code,
            DeleteServiceError::InvalidHandle(code, _) => *code,
            DeleteServiceError::Unknown(code, _) => *code,
        }
    }

    /// The context string carried by the error.
    pub fn context(&self) -> (r: &String)
        ensures
            r@ == self@.2,
    {
        match self {
            DeleteServiceError::AccessDenied(_, context) => context,
            DeleteServiceError::ErrorServiceMarkedForDelete(_, context) => context,
            DeleteServiceError::InvalidHandle(_, context) => context,
            DeleteServiceError::Unknown(_, context) => context,
        }
    }
}

impl From<(u32, String)> for DeleteServiceError {
    fn from(value: (u32, String)) -> (r: Self) {
        let (code, context) = value;
        Self::from_code(code, context)
    }
}

impl vstd::std_specs::convert::FromSpecImpl<(u32, String)> for DeleteServiceError {
    open spec fn obeys_from_spec() -> bool {
        true
    }

    open spec fn from_spec(v: (u32, String)) -> Self {
        Self::spec_from_code(v.0, v.1)
    }
}

/// A failure while changing a service's configuration.
#[derive(Clone, Debug)]
pub enum UpdateServiceError {
    AccessDenied(u32, String),
    CircularDependency(u32, String),
    DuplicateServiceName(u32, String),
    InvalidHandle(u32, String),
    InvalidParameter(u32, String),
    InvalidServiceAccount(u32, String),
    ServiceMarkedForDelete(u32, String),
    Unknown(u32, String),
}

impl View for UpdateServiceError {
    type V = (ErrorKind, u32, Seq<char>);

    open spec fn view(&self) -> (ErrorKind, u32, Seq<char>) {
        match self {
            UpdateServiceError::AccessDenied(code, context) => (ErrorKind::AccessDenied, *code, context@),
            UpdateServiceError::CircularDependency(code, context) => (ErrorKind::CircularDependency, *code, context@),
            UpdateServiceError::DuplicateServiceName(code, context) => (ErrorKind::DuplicateServiceName, *code, context@),
            UpdateServiceError::InvalidHandle(code, context) => (ErrorKind::InvalidHandle, *code, context@),
            UpdateServiceError::InvalidParameter(code, context) => (ErrorKind::InvalidParameter, *code, context@),
            UpdateServiceError::InvalidServiceAccount(code, context) => (ErrorKind::InvalidServiceAccount, *code, context@),
            UpdateServiceError::ServiceMarkedForDelete(code, context) => (ErrorKind::ServiceMarkedForDelete, *code, context@),
            UpdateServiceError::Unknown(code, context) => (ErrorKind::Unknown, *code, context@),
        }
    }
}

impl UpdateServiceError {
    /// The kind that the family's table gives a system code.
    pub open spec fn kind_of(code: u32) -> ErrorKind {
        if code == ERROR_ACCESS_DENIED {
            ErrorKind::AccessDenied
        } else if code == ERROR_CIRCULAR_DEPENDENCY {
            ErrorKind::CircularDependency
        } else if code == ERROR_DUPLICATE_SERVICE_NAME {
            ErrorKind::DuplicateServiceName
        } else if code == ERROR_INVALID_HANDLE {
            ErrorKind::InvalidHandle
        } else if code == ERROR_INVALID_PARAMETER {
            ErrorKind::InvalidParameter
        } else if code == ERROR_INVALID_SERVICE_ACCOUNT {
            ErrorKind::InvalidServiceAccount
        } else if code == ERROR_SERVICE_MARKED_FOR_DELETE {
            ErrorKind::ServiceMarkedForDelete
        } else {
            ErrorKind::Unknown
        }
    }

    /// The variant that the table gives a system code and its context.
    pub open spec fn spec_from_code(code: u32, context: String) -> Self {
        match Self::kind_of(code) {
            ErrorKind::AccessDenied => UpdateServiceError::AccessDenied(code, context),
            ErrorKind::CircularDependency => UpdateServiceError::CircularDependency(code, context),
            ErrorKind::DuplicateServiceName => UpdateServiceError::DuplicateServiceName(code, context),
            ErrorKind::InvalidHandle => UpdateServiceError::InvalidHandle(code, context),
            ErrorKind::InvalidParameter => UpdateServiceError::InvalidParameter(code, context),
            ErrorKind::InvalidServiceAccount => UpdateServiceError::InvalidServiceAccount(code, context),
            ErrorKind::ServiceMarkedForDelete => UpdateServiceError::ServiceMarkedForDelete(code, context),
            _ => UpdateServiceError::Unknown(code, context),
        }
    }

    /// Maps a system code, with the context of the failed call, onto this
    /// family.
    pub fn from_code(code: u32, context: String) -> (r: Self)
        ensures
            r == Self::spec_from_code(code, context),
            r@ == (Self::kind_of(code), code, context@),
    {
        if code == ERROR_ACCESS_DENIED {
            UpdateServiceError::AccessDenied(code, context)
        } else if code == ERROR_CIRCULAR_DEPENDENCY {
            UpdateServiceError::CircularDependency(code, context)
        } else if code == ERROR_DUPLICATE_SERVICE_NAME {
            UpdateServiceError::DuplicateServiceName(code, context)
        } else if code == ERROR_INVALID_HANDLE {
            UpdateServiceError::InvalidHandle(code, context)
        } else if code == ERROR_INVALID_PARAMETER {
            UpdateServiceError::InvalidParameter(code, context)
        } else if code == ERROR_INVALID_SERVICE_ACCOUNT {
            UpdateServiceError::InvalidServiceAccount(code, context)
        } else if code == ERROR_SERVICE_MARKED_FOR_DELETE {
            UpdateServiceError::ServiceMarkedForDelete(code, context)
        } else {
            UpdateServiceError::Unknown(code, context)
        }
    }

    /// The system code carried by the error.
    pub fn code(&self) -> (r: u32)
        ensures
            r == self@.1,
    {
        match self {
            UpdateServiceError::AccessDenied(code, _) => *code,
            UpdateServiceError::CircularDependency(code, _) => *code,
            UpdateServiceError::DuplicateServiceName(code, _) => *code,
            UpdateServiceError::InvalidHandle(code, _) => *code,
            UpdateServiceError::InvalidParameter(code, _) => *code,
            UpdateServiceError::InvalidServiceAccount(code, _) => *code,
            UpdateServiceError::ServiceMarkedForDelete(code, _) => *code,
            UpdateServiceError::Unknown(code, _) => *code,
        }
    }

    /// The context string carried by the error.
    pub fn context(&self) -> (r: &String)
        ensures
            r@ == self@.2,
    {
        match self {
            UpdateServiceError::AccessDenied(_, context) => context,
            UpdateServiceError::CircularDependency(_, context) => context,
            UpdateServiceError::DuplicateServiceName(_, context) => context,
            UpdateServiceError::InvalidHandle(_, context) => context,
            UpdateServiceError::InvalidParameter(_, context) => context,
            UpdateServiceError::InvalidServiceAccount(_, context) => context,
            UpdateServiceError::ServiceMarkedForDelete(_, context) => context,
            UpdateServiceError::Unknown(_, context) => context,
        }
    }
}

impl From<(u32, String)> for UpdateServiceError {
    fn from(value: (u32, String)) -> (r: Self) {
        let (code, context) = value;
        Self::from_code(code, context)
    }
}

impl vstd::std_specs::convert::FromSpecImpl<(u32, String)> for UpdateServiceError {
    open spec fn obeys_from_spec() -> bool {
        true
    }

    open spec fn from_spec(v: (u32, String)) -> Self {
        Self::spec_from_code(v.0, v.1)
    }
}

/// A failure while querying a service.
#[derive(Clone, Debug)]
pub enum QueryServiceError {
    AccessDenied(u32, String),
    InvalidHandle(u32, String),
    Unknown(u32, String),
}

impl View for QueryServiceError {
    type V = (ErrorKind, u32, Seq<char>);

    open spec fn view(&self) -> (ErrorKind, u32, Seq<char>) {
        match self {
            QueryServiceError::AccessDenied(code, context) => (ErrorKind::AccessDenied, *code, context@),
            QueryServiceError::InvalidHandle(code, context) => (ErrorKind::InvalidHandle, *code, context@),
            QueryServiceError::Unknown(code, context) => (ErrorKind::Unknown, *code, context@),
        }
    }
}

impl QueryServiceError {
    /// The kind that the family's table gives a system code.
    pub open spec fn kind_of(code: u32) -> ErrorKind {
        if code == ERROR_ACCESS_DENIED {
            ErrorKind::AccessDenied
        } else if code == ERROR_INVALID_HANDLE {
            ErrorKind::InvalidHandle
        } else {
            ErrorKind::Unknown
        }
    }

    /// The variant that the table gives a system code and its context.
    pub open spec fn spec_from_code(code: u32, context: String) -> Self {
        match Self::kind_of(code) {
            ErrorKind::AccessDenied => QueryServiceError::AccessDenied(code, context),
            ErrorKind::InvalidHandle => QueryServiceError::InvalidHandle(code, context),
            _ => QueryServiceError::Unknown(code, context),
        }
    }

    /// Maps a system code, with the context of the failed call, onto this
    /// family.
    pub fn from_code(code: u32, context: String) -> (r: Self)
        ensures
            r == Self::spec_from_code(code, context),
            r@ == (Self::kind_of(code), code, context@),
    {
        if code == ERROR_ACCESS_DENIED {
            QueryServiceError::AccessDenied(code, context)
        } else if code == ERROR_INVALID_HANDLE {
            QueryServiceError::InvalidHandle(code, context)
        } else {
            QueryServiceError::Unknown(code, context)
        }
    }

    /// The system code carried by the error.
    pub fn code(&self) -> (r: u32)
        ensures
            r == self@.1,
    {
        match self {
            QueryServiceError::AccessDenied(code, _) => *code,
            QueryServiceError::InvalidHandle(code, _) => *code,
            QueryServiceError::Unknown(code, _) => *code,
        }
    }

    /// The context string carried by the error.
    pub fn context(&self) -> (r: &String)
        ensures
            r@ == self@.2,
    {
        match self {
            QueryServiceError::AccessDenied(_, context) => context,
            QueryServiceError::InvalidHandle(_, context) => context,
            QueryServiceError::Unknown(_, context) => context,
        }
    }
}

impl From<(u32, String)> for QueryServiceError {
    fn from(value: (u32, String)) -> (r: Self) {
        let (code, context) = value;
        Self::from_code(code, context)
    }
}

impl vstd::std_specs::convert::FromSpecImpl<(u32, String)> for QueryServiceError {
    open spec fn obeys_from_spec() -> bool {
        true
    }

    open spec fn from_spec(v: (u32, String)) -> Self {
        Self::spec_from_code(v.0, v.1)
    }
}

} // verus!
