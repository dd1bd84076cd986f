//! Errors of the procedure framework and the status codes they report.

use vstd::prelude::*;
use crate::status_code::{StatusCode, spec_is_retryable};
use crate::text::{decimal, uuid_text, push_decimal, push_uuid};
use std::sync::Arc;

verus! {

/// An error from outside the procedure framework, boxed with the status code it reports.
#[derive(Debug)]
pub struct BoxedError {
    status_code: StatusCode,
    message: String,
}

impl BoxedError {
    /// Wraps an error that reports `status_code`, described by `message`.
    pub fn new(status_code: StatusCode, message: String) -> (e: BoxedError)
        ensures
            e.spec_status_code() == status_code,
            e.spec_message() == message@,
    {
        BoxedError { status_code, message }
    }

    pub closed spec fn spec_status_code(&self) -> StatusCode {
        self.status_code
    }

    pub closed spec fn spec_message(&self) -> Seq<char> {
        self.message@
    }

    /// The status code of the wrapped error.
    pub fn status_code(&self) -> (c: StatusCode)
        ensures
            c == self.spec_status_code(),
    {
        self.status_code
    }

    /// The description of the wrapped error.
    pub fn message(&self) -> (m: &String)
        ensures
            m@ == self.spec_message(),
    {
        &self.message
    }
}

/// An error of the runtime that runs background tasks, with the status code it reports.
#[derive(Debug)]
pub struct RuntimeError {
    status_code: StatusCode,
}

impl RuntimeError {
    pub fn new(status_code: StatusCode) -> (e: RuntimeError)
        ensures
            e.spec_status_code() == status_code,
    {
        RuntimeError { status_code }
    }

    pub closed spec fn spec_status_code(&self) -> StatusCode {
        self.status_code
    }

    pub fn status_code(&self) -> (c: StatusCode)
        ensures
            c == self.spec_status_code(),
    {
        self.status_code
    }
}

/// The identifier of a procedure.
#[derive(Debug, Clone, Copy, PartialEq, Eq, Structural)]
pub struct ProcedureId(pub u128);

impl ProcedureId {
    /// The text `{}` prints for the id: its hyphenated UUID form.
    pub fn to_string(&self) -> (s: String)
        ensures
            s@ == uuid_text(self.0),
    {
        let mut out = String::new();
        push_uuid(&mut out, self.0);
        assert(out@ =~= uuid_text(self.0));
        out
    }
}

/// Procedure error.
#[derive(Debug)]
#[allow(inconsistent_fields)]
pub enum Error {
    /// Failed to execute procedure due to an external error.
    External { source: BoxedError },
    /// A loader is already registered under `name`.
    LoaderConflict { name: String },
    /// The procedure manager is stopped.
    ManagerNotStart,
    /// Failed to serialize to JSON.
    ToJson,
    /// A procedure with this id already exists.
    DuplicateProcedure { procedure_id: ProcedureId },
    /// Too many procedures are running.
    TooManyRunningProcedures { max_running_procedures: usize },
    /// Failed to put the state under `key`.
    PutState { key: String, source: BoxedError },
    /// Failed to delete `key`.
    DeleteState { key: String },
    /// Failed to delete `keys`.
    DeleteStates { keys: String, source: BoxedError },
    /// Failed to list the states under `path`.
    ListState { path: String, source: BoxedError },
    /// Failed to deserialize from JSON.
    FromJson,
    /// The procedure failed and asks to be retried later.
    RetryLater { source: BoxedError },
    /// The procedure panicked.
    ProcedurePanic { procedure_id: ProcedureId },
    /// Failed to wait for a watcher.
    WaitWatcher,
    /// Failed to execute the procedure.
    ProcedureExec { source: Arc<Error> },
    /// A rolled back procedure recovered.
    RollbackProcedureRecovered { error: String },
    /// The procedure was retried too many times.
    RetryTimesExceeded { source: Arc<Error>, procedure_id: ProcedureId },
    /// The procedure was rolled back too many times.
    RollbackTimesExceeded { source: Arc<Error>, procedure_id: ProcedureId },
    /// Failed to start the task that removes outdated metadata.
    StartRemoveOutdatedMetaTask { source: RuntimeError },
    /// Failed to stop the task that removes outdated metadata.
    StopRemoveOutdatedMetaTask { source: RuntimeError },
    /// Failed to parse a segment key.
    ParseSegmentKey { key: String },
    /// An unexpected condition.
    Unexpected { err_msg: String },
    /// The procedure does not support rollback.
    RollbackNotSupported,
}

/// The status code an error reports: that of its source where it wraps one
/// (external, state storage, runtime and execution errors), a fixed code otherwise.
pub open spec fn spec_status_code(e: Error) -> StatusCode
    decreases e,
{
    match e {
        Error::External { source }
        | Error::PutState { source, .. }
        | Error::DeleteStates { source, .. }
        | Error::ListState { source, .. } => source.spec_status_code(),
        Error::ToJson
        | Error::DeleteState { .. }
        | Error::FromJson
        | Error::WaitWatcher
        | Error::RetryLater { .. }
        | Error::RollbackProcedureRecovered { .. }
        | Error::TooManyRunningProcedures { .. } => StatusCode::Internal,
        Error::RetryTimesExceeded { .. }
        | Error::RollbackTimesExceeded { .. }
        | Error::ManagerNotStart => StatusCode::IllegalState,
        Error::RollbackNotSupported => StatusCode::Unsupported,
        Error::LoaderConflict { .. } | Error::DuplicateProcedure { .. } => StatusCode::InvalidArguments,
        Error::ProcedurePanic { .. } | Error::ParseSegmentKey { .. } | Error::Unexpected { .. } => StatusCode::Unexpected,
        Error::ProcedureExec { source } => spec_status_code(*source),
        Error::StartRemoveOutdatedMetaTask { source }
        | Error::StopRemoveOutdatedMetaTask { source } => source.spec_status_code(),
    }
}

/// The error made of `err` by its status code: retry later where the code is
/// retryable, external otherwise.
pub open spec fn spec_from_error_ext(err: BoxedError) -> Error {
    if spec_is_retryable(err.spec_status_code()) {
        Error::RetryLater { source: err }
    } else {
        Error::External { source: err }
    }
}

/// The message an error prints.
pub open spec fn error_text(e: Error) -> Seq<char> {
    match e {
        Error::External { .. } => "Failed to execute procedure due to external error"@,
        Error::LoaderConflict { name } => "Loader "@ + name@ + " is already registered"@,
        Error::ManagerNotStart => "Procedure Manager is stopped"@,
        Error::ToJson => "Failed to serialize to json"@,
        Error::DuplicateProcedure { procedure_id } => "Procedure "@ + uuid_text(procedure_id.0)
            + " already exists"@,
        Error::TooManyRunningProcedures { max_running_procedures } =>
            "Too many running procedures, max: "@ + decimal(max_running_procedures as nat),
        Error::PutState { key, .. } => "Failed to put state, key: '"@ + key@ + "'"@,
        Error::DeleteState { key } => "Failed to delete "@ + key@,
        Error::DeleteStates { keys, .. } => "Failed to delete keys: '"@ + keys@ + "'"@,
        Error::ListState { path, .. } => "Failed to list state, path: '"@ + path@ + "'"@,
        Error::FromJson => "Failed to deserialize from json"@,
        Error::RetryLater { .. } => "Procedure exec failed"@,
        Error::ProcedurePanic { procedure_id } => "Procedure panics, procedure_id: "@ + uuid_text(
            procedure_id.0,
        ),
        Error::WaitWatcher => "Failed to wait watcher"@,
        Error::ProcedureExec { .. } => "Failed to execute procedure"@,
        Error::RollbackProcedureRecovered { error } => "Rollback Procedure recovered: "@ + error@,
        Error::RetryTimesExceeded { procedure_id, .. } =>
            "Procedure retry exceeded max times, procedure_id: "@ + uuid_text(procedure_id.0),
        Error::RollbackTimesExceeded { procedure_id, .. } =>
            "Procedure rollback exceeded max times, procedure_id: "@ + uuid_text(procedure_id.0),
        Error::StartRemoveOutdatedMetaTask { .. } =>
            "Failed to start the remove_outdated_meta method, error"@,
        Error::StopRemoveOutdatedMetaTask { .. } =>
            "Failed to stop the remove_outdated_meta method, error"@,
        Error::ParseSegmentKey { key } => "Failed to parse segment key: "@ + key@,
        Error::Unexpected { err_msg } => "Unexpected: "@ + err_msg@,
        Error::RollbackNotSupported => "Not support to rollback the procedure"@,
    }
}

impl Error {
    /// The message `{}` prints for the error.
    pub fn to_string(&self) -> (s: String)
        ensures
            s@ == error_text(*self),
    {
        let mut out = String::new();
        match self {
            Error::External { .. } => out.append("Failed to execute procedure due to external error"),
            Error::LoaderConflict { name } => {
                out.append("Loader ");
                out.append(name.as_str());
                out.append(" is already registered");
            },
            Error::ManagerNotStart => out.append("Procedure Manager is stopped"),
            Error::ToJson => out.append("Failed to serialize to json"),
            Error::DuplicateProcedure { procedure_id } => {
                out.append("Procedure ");
                push_uuid(&mut out, procedure_id.0);
                out.append(" already exists");
            },
            Error::TooManyRunningProcedures { max_running_procedures } => {
                out.append("Too many running procedures, max: ");
                push_decimal(&mut out, *max_running_procedures as u64);
            },
            Error::PutState { key, .. } => {
                out.append("Failed to put state, key: '");
                out.append(key.as_str());
                out.append("'");
            },
            Error::DeleteState { key } => {
                out.append("Failed to delete ");
                out.append(key.as_str());
            },
            Error::DeleteStates { keys, .. } => {
                out.append("Failed to delete keys: '");
                out.append(keys.as_str());
                out.append("'");
            },
            Error::ListState { path, .. } => {
                out.append("Failed to list state, path: '");
                out.append(path.as_str());
                out.append("'");
            },
            Error::FromJson => out.append("Failed to deserialize from json"),
            Error::RetryLater { .. } => out.append("Procedure exec failed"),
            Error::ProcedurePanic { procedure_id } => {
                out.append("Procedure panics, procedure_id: ");
                push_uuid(&mut out, procedure_id.0);
            },
            Error::WaitWatcher => out.append("Failed to wait watcher"),
            Error::ProcedureExec { .. } => out.append("Failed to execute procedure"),
            Error::RollbackProcedureRecovered { error } => {
                out.append("Rollback Procedure recovered: ");
                out.append(error.as_str());
            },
            Error::RetryTimesExceeded { procedure_id, .. } => {
                out.append("Procedure retry exceeded max times, procedure_id: ");
                push_uuid(&mut out, procedure_id.0);
            },
            Error::RollbackTimesExceeded { procedure_id, .. } => {
                out.append("Procedure rollback exceeded max times, procedure_id: ");
                push_uuid(&mut out, procedure_id.0);
            },
            Error::StartRemoveOutdatedMetaTask { .. } => out.append(
                "Failed to start the remove_outdated_meta method, error",
            ),
            Error::StopRemoveOutdatedMetaTask { .. } => out.append(
                "Failed to stop the remove_outdated_meta method, error",
            ),
            Error::ParseSegmentKey { key } => {
                out.append("Failed to parse segment key: ");
                out.append(key.as_str());
            },
            Error::Unexpected { err_msg } => {
                out.append("Unexpected: ");
                out.append(err_msg.as_str());
            },
            Error::RollbackNotSupported => out.append("Not support to rollback the procedure"),
        }
        assert(out@ =~= error_text(*self));
        out
    }

    /// The status code this error reports.
    pub fn status_code(&self) -> (c: StatusCode)
        ensures
            c == spec_status_code(*self),
        decreases self,
    {
        match self {
            Error::External { source }
            | Error::PutState { source, .. }
            | Error::DeleteStates { source, .. }
            | Error::ListState { source, .. } => source.status_code(),
            Error::ToJson
            | Error::DeleteState { .. }
            | Error::FromJson
            | Error::WaitWatcher
            | Error::RetryLater { .. }
            | Error::RollbackProcedureRecovered { .. }
            | Error::TooManyRunningProcedures { .. } => StatusCode::Internal,
            Error::RetryTimesExceeded { .. }
            | Error::RollbackTimesExceeded { .. }
            | Error::ManagerNotStart => StatusCode::IllegalState,
            Error::RollbackNotSupported => StatusCode::Unsupported,
            Error::LoaderConflict { .. } | Error::DuplicateProcedure { .. } => {
                StatusCode::InvalidArguments
            },
            Error::ProcedurePanic { .. }
            | Error::ParseSegmentKey { .. }
            | Error::Unexpected { .. } => StatusCode::Unexpected,
            Error::ProcedureExec { source } => source.status_code(),
            Error::StartRemoveOutdatedMetaTask { source }
            | Error::StopRemoveOutdatedMetaTask { source } => source.status_code(),
        }
    }

    /// Creates a new [`Error::External`] error from source `err`.
    pub fn external(err: BoxedError) -> (e: Error)
        ensures
            e matches Error::External { source } && source == err,
    {
        Error::External { source: err }
    }

    /// Creates a new [`Error::RetryLater`] error from source `err`.
    pub fn retry_later(err: BoxedError) -> (e: Error)
        ensures
            e matches Error::RetryLater { source } && source == err,
    {
        Error::RetryLater { source: err }
    }

    /// Whether this is a retry-later error.
    pub fn is_retry_later(&self) -> (r: bool)
        ensures
            r == (*self is RetryLater),
    {
        match self {
            Error::RetryLater { .. } => true,
            _ => false,
        }
    }

    /// Creates a new [`Error::RetryLater`] or [`Error::External`] error from source
    /// `err`, according to whether its status code is retryable.
    pub fn from_error_ext(err: BoxedError) -> (e: Error)
        ensures
            e == spec_from_error_ext(err),
    {
        if err.status_code().is_retryable() {
            Error::retry_later(err)
        } else {
            Error::external(err)
        }
    }
}

} // verus!

verus! {

/// A retry-later error reports the internal status code; an external error reports
/// the status code of its source.
pub proof fn law_wrapped_status_codes(err: BoxedError)
    ensures
        spec_status_code(Error::RetryLater { source: err }) == StatusCode::Internal,
        spec_status_code(Error::External { source: err }) == err.spec_status_code(),
{
}

/// Wrapping an error by its status code keeps whether it is worth retrying: the
/// wrapped error is a retry-later error exactly when the source's code is retryable,
/// and the status code it reports is retryable exactly when the source's is.
pub proof fn law_from_error_ext_keeps_retryability(err: BoxedError)
    ensures
        (spec_from_error_ext(err) is RetryLater) == spec_is_retryable(err.spec_status_code()),
        spec_is_retryable(spec_status_code(spec_from_error_ext(err))) == spec_is_retryable(
            err.spec_status_code(),
        ),
{
}

/// An execution failure reports the status code of the error that caused it.
pub proof fn law_procedure_exec_status_code(source: Error)
    ensures
        spec_status_code(Error::ProcedureExec { source: Arc::new(source) }) == spec_status_code(
            source,
        ),
{
}

/// An error that wraps a source reports the source's status code: external and
/// state-storage errors that of their boxed source, the outdated-metadata task errors
/// that of their runtime source.
pub proof fn law_source_status_codes(err: BoxedError, rt: RuntimeError, key: String)
    ensures
        spec_status_code(Error::External { source: err }) == err.spec_status_code(),
        spec_status_code(Error::PutState { key, source: err }) == err.spec_status_code(),
        spec_status_code(Error::DeleteStates { keys: key, source: err }) == err.spec_status_code(),
        spec_status_code(Error::ListState { path: key, source: err }) == err.spec_status_code(),
        spec_status_code(Error::StartRemoveOutdatedMetaTask { source: rt }) == rt.spec_status_code(),
        spec_status_code(Error::StopRemoveOutdatedMetaTask { source: rt }) == rt.spec_status_code(),
{
}

} // verus!
