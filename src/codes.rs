//! The numeric codes of the system's service interface, as its ABI fixes them.
use vstd::prelude::*;

verus! {

pub const ERROR_FILE_NOT_FOUND: u32 = 2;
pub const ERROR_PATH_NOT_FOUND: u32 = 3;
pub const ERROR_ACCESS_DENIED: u32 = 5;
pub const ERROR_INVALID_HANDLE: u32 = 6;
pub const ERROR_INVALID_PARAMETER: u32 = 87;
pub const ERROR_INSUFFICIENT_BUFFER: u32 = 122;
pub const ERROR_INVALID_NAME: u32 = 123;
pub const ERROR_SERVICE_REQUEST_TIMEOUT: u32 = 1053;
pub const ERROR_SERVICE_NO_THREAD: u32 = 1054;
pub const ERROR_SERVICE_DATABASE_LOCKED: u32 = 1055;
pub const ERROR_SERVICE_ALREADY_RUNNING: u32 = 1056;
pub const ERROR_INVALID_SERVICE_ACCOUNT: u32 = 1057;
pub const ERROR_SERVICE_DISABLED: u32 = 1058;
pub const ERROR_CIRCULAR_DEPENDENCY: u32 = 1059;
pub const ERROR_SERVICE_DOES_NOT_EXIST: u32 = 1060;
pub const ERROR_SERVICE_NOT_ACTIVE: u32 = 1062;
pub const ERROR_DATABASE_DOES_NOT_EXIST: u32 = 1065;
pub const ERROR_SERVICE_DEPENDENCY_FAIL: u32 = 1068;
pub const ERROR_SERVICE_LOGON_FAILED: u32 = 1069;
pub const ERROR_SERVICE_MARKED_FOR_DELETE: u32 = 1072;
pub const ERROR_SERVICE_EXISTS: u32 = 1073;
pub const ERROR_SERVICE_DEPENDENCY_DELETED: u32 = 1075;
pub const ERROR_DUPLICATE_SERVICE_NAME: u32 = 1078;
pub const ERROR_NOT_ALL_ASSIGNED: u32 = 1300;

/// Control code that asks a running service to stop.
pub const SERVICE_CONTROL_STOP: u32 = 1;
/// Control code that asks a running service to pause.
pub const SERVICE_CONTROL_PAUSE: u32 = 2;
/// Access right that grants every operation on a service.
pub const SERVICE_ALL_ACCESS: u32 = 0xF01FF;
/// Access right that grants every operation on the manager's database.
pub const SC_MANAGER_ALL_ACCESS: u32 = 0xF003F;
/// Attribute that marks a privilege as enabled on a token.
pub const SE_PRIVILEGE_ENABLED: u32 = 2;

} // verus!
