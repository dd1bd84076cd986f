//! Status codes that errors report, and which of them are worth retrying.

use vstd::prelude::*;

verus! {

/// The status code of an error.
#[derive(Debug, Clone, Copy, PartialEq, Eq, Structural)]
pub enum StatusCode {
    Success,
    Unknown,
    Unsupported,
    Unexpected,
    Internal,
    InvalidArguments,
    Cancelled,
    IllegalState,
    External,
    DeadlineExceeded,
    InvalidSyntax,
    PlanQuery,
    EngineExecuteQuery,
    TableAlreadyExists,
    TableNotFound,
    TableColumnNotFound,
    TableColumnExists,
    DatabaseNotFound,
    RegionNotFound,
    RegionAlreadyExists,
    RegionReadonly,
    RegionNotReady,
    RegionBusy,
    TableUnavailable,
    DatabaseAlreadyExists,
    StorageUnavailable,
    RequestOutdated,
    RuntimeResourcesExhausted,
    RateLimited,
    UserNotFound,
    UnsupportedPasswordType,
    UserPasswordMismatch,
    AuthHeaderNotFound,
    InvalidAuthHeader,
    AccessDenied,
    PermissionDenied,
    FlowAlreadyExists,
    FlowNotFound,
}

/// Whether an operation that failed with `code` may succeed when tried again:
/// storage or runtime resources unavailable, internal errors, and regions or
/// tables that are busy or not ready.
pub open spec fn spec_is_retryable(code: StatusCode) -> bool {
    match code {
        StatusCode::StorageUnavailable
        | StatusCode::RuntimeResourcesExhausted
        | StatusCode::Internal
        | StatusCode::RegionNotReady
        | StatusCode::TableUnavailable
        | StatusCode::RegionBusy => true,
        _ => false,
    }
}

impl StatusCode {
    /// Whether an operation that failed with this code may succeed when tried again.
    pub fn is_retryable(&self) -> (r: bool)
        ensures
            r == spec_is_retryable(*self),
    {
        match self {
            StatusCode::StorageUnavailable
            | StatusCode::RuntimeResourcesExhausted
            | StatusCode::Internal
            | StatusCode::RegionNotReady
            | StatusCode::TableUnavailable
            | StatusCode::RegionBusy => true,
            _ => false,
        }
    }
}

} // verus!
