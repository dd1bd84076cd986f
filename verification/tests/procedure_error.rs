use std::sync::Arc;

use greptime_common::procedure_error::{BoxedError, Error, ProcedureId, RuntimeError};
use greptime_common::status_code::StatusCode;

fn boxed(code: StatusCode) -> BoxedError {
    BoxedError::new(code, "boom".to_string())
}

#[test]
fn status_code_of_wrapping_errors_is_the_source_code() {
    assert_eq!(Error::External { source: boxed(StatusCode::TableNotFound) }.status_code(), StatusCode::TableNotFound);
    assert_eq!(
        Error::PutState { key: "k".to_string(), source: boxed(StatusCode::StorageUnavailable) }.status_code(),
        StatusCode::StorageUnavailable
    );
    assert_eq!(
        Error::DeleteStates { keys: "k".to_string(), source: boxed(StatusCode::AccessDenied) }.status_code(),
        StatusCode::AccessDenied
    );
    assert_eq!(
        Error::ListState { path: "p".to_string(), source: boxed(StatusCode::Cancelled) }.status_code(),
        StatusCode::Cancelled
    );
    assert_eq!(
        Error::StartRemoveOutdatedMetaTask { source: RuntimeError::new(StatusCode::Unexpected) }.status_code(),
        StatusCode::Unexpected
    );
    assert_eq!(
        Error::StopRemoveOutdatedMetaTask { source: RuntimeError::new(StatusCode::Internal) }.status_code(),
        StatusCode::Internal
    );
}

#[test]
fn status_code_of_fixed_errors() {
    let id = ProcedureId(42);
    assert_eq!(Error::ToJson.status_code(), StatusCode::Internal);
    assert_eq!(Error::DeleteState { key: "k".to_string() }.status_code(), StatusCode::Internal);
    assert_eq!(Error::FromJson.status_code(), StatusCode::Internal);
    assert_eq!(Error::WaitWatcher.status_code(), StatusCode::Internal);
    assert_eq!(Error::RetryLater { source: boxed(StatusCode::TableNotFound) }.status_code(), StatusCode::Internal);
    assert_eq!(Error::RollbackProcedureRecovered { error: "e".to_string() }.status_code(), StatusCode::Internal);
    assert_eq!(Error::TooManyRunningProcedures { max_running_procedures: 3 }.status_code(), StatusCode::Internal);
    let inner = Arc::new(Error::ToJson);
    assert_eq!(Error::RetryTimesExceeded { source: inner.clone(), procedure_id: id }.status_code(), StatusCode::IllegalState);
    assert_eq!(Error::RollbackTimesExceeded { source: inner, procedure_id: id }.status_code(), StatusCode::IllegalState);
    assert_eq!(Error::ManagerNotStart.status_code(), StatusCode::IllegalState);
    assert_eq!(Error::RollbackNotSupported.status_code(), StatusCode::Unsupported);
    assert_eq!(Error::LoaderConflict { name: "n".to_string() }.status_code(), StatusCode::InvalidArguments);
    assert_eq!(Error::DuplicateProcedure { procedure_id: id }.status_code(), StatusCode::InvalidArguments);
    assert_eq!(Error::ProcedurePanic { procedure_id: id }.status_code(), StatusCode::Unexpected);
    assert_eq!(Error::ParseSegmentKey { key: "k".to_string() }.status_code(), StatusCode::Unexpected);
    assert_eq!(Error::Unexpected { err_msg: "m".to_string() }.status_code(), StatusCode::Unexpected);
}

#[test]
fn law_procedure_exec_reports_cause() {
    let cause = Error::ProcedureExec { source: Arc::new(Error::LoaderConflict { name: "x".to_string() }) };
    let outer = Error::ProcedureExec { source: Arc::new(cause) };
    assert_eq!(outer.status_code(), StatusCode::InvalidArguments);
}

#[test]
fn external_and_retry_later() {
    let e = Error::external(boxed(StatusCode::PlanQuery));
    assert!(!e.is_retry_later());
    assert_eq!(e.status_code(), StatusCode::PlanQuery);
    let e = Error::retry_later(boxed(StatusCode::PlanQuery));
    assert!(e.is_retry_later());
    assert_eq!(e.status_code(), StatusCode::Internal);
}

#[test]
fn law_from_error_ext_follows_retryability() {
    for code in [
        StatusCode::StorageUnavailable,
        StatusCode::RuntimeResourcesExhausted,
        StatusCode::Internal,
        StatusCode::RegionNotReady,
        StatusCode::TableUnavailable,
        StatusCode::RegionBusy,
    ] {
        assert!(code.is_retryable());
        let e = Error::from_error_ext(boxed(code));
        assert!(e.is_retry_later());
        assert!(e.status_code().is_retryable());
    }
    for code in [StatusCode::Success, StatusCode::Unknown, StatusCode::TableNotFound, StatusCode::RequestOutdated, StatusCode::RateLimited] {
        assert!(!code.is_retryable());
        let e = Error::from_error_ext(boxed(code));
        assert!(!e.is_retry_later());
        assert_eq!(e.status_code(), code);
        match e {
            Error::External { source } => assert_eq!(source.message(), "boom"),
            other => panic!("unexpected {:?}", other),
        }
    }
}

#[test]
fn procedure_id_prints_as_uuid() {
    let id = ProcedureId(0x67e5_5044_10b1_426f_9247_bb68_0e5f_e0c8);
    assert_eq!(id.to_string(), "67e55044-10b1-426f-9247-bb680e5fe0c8");
    assert_eq!(ProcedureId(0).to_string(), "00000000-0000-0000-0000-000000000000");
    assert_eq!(ProcedureId(u128::MAX).to_string(), "ffffffff-ffff-ffff-ffff-ffffffffffff");
}

#[test]
fn error_messages() {
    let id = ProcedureId(1);
    assert_eq!(Error::external(boxed(StatusCode::Internal)).to_string(), "Failed to execute procedure due to external error");
    assert_eq!(Error::LoaderConflict { name: "ddl".to_string() }.to_string(), "Loader ddl is already registered");
    assert_eq!(Error::ManagerNotStart.to_string(), "Procedure Manager is stopped");
    assert_eq!(Error::ToJson.to_string(), "Failed to serialize to json");
    assert_eq!(
        Error::DuplicateProcedure { procedure_id: id }.to_string(),
        "Procedure 00000000-0000-0000-0000-000000000001 already exists"
    );
    assert_eq!(
        Error::TooManyRunningProcedures { max_running_procedures: 128 }.to_string(),
        "Too many running procedures, max: 128"
    );
    assert_eq!(
        Error::PutState { key: "a/b".to_string(), source: boxed(StatusCode::Internal) }.to_string(),
        "Failed to put state, key: 'a/b'"
    );
    assert_eq!(Error::DeleteState { key: "k".to_string() }.to_string(), "Failed to delete k");
    assert_eq!(
        Error::DeleteStates { keys: "k1,k2".to_string(), source: boxed(StatusCode::Internal) }.to_string(),
        "Failed to delete keys: 'k1,k2'"
    );
    assert_eq!(
        Error::ListState { path: "/p".to_string(), source: boxed(StatusCode::Internal) }.to_string(),
        "Failed to list state, path: '/p'"
    );
    assert_eq!(Error::FromJson.to_string(), "Failed to deserialize from json");
    assert_eq!(Error::retry_later(boxed(StatusCode::Internal)).to_string(), "Procedure exec failed");
    assert_eq!(
        Error::ProcedurePanic { procedure_id: id }.to_string(),
        "Procedure panics, procedure_id: 00000000-0000-0000-0000-000000000001"
    );
    assert_eq!(Error::WaitWatcher.to_string(), "Failed to wait watcher");
    assert_eq!(Error::ProcedureExec { source: Arc::new(Error::ToJson) }.to_string(), "Failed to execute procedure");
    assert_eq!(
        Error::RollbackProcedureRecovered { error: "e".to_string() }.to_string(),
        "Rollback Procedure recovered: e"
    );
    assert_eq!(
        Error::RetryTimesExceeded { source: Arc::new(Error::ToJson), procedure_id: id }.to_string(),
        "Procedure retry exceeded max times, procedure_id: 00000000-0000-0000-0000-000000000001"
    );
    assert_eq!(
        Error::RollbackTimesExceeded { source: Arc::new(Error::ToJson), procedure_id: id }.to_string(),
        "Procedure rollback exceeded max times, procedure_id: 00000000-0000-0000-0000-000000000001"
    );
    assert_eq!(
        Error::StartRemoveOutdatedMetaTask { source: RuntimeError::new(StatusCode::Internal) }.to_string(),
        "Failed to start the remove_outdated_meta method, error"
    );
    assert_eq!(
        Error::StopRemoveOutdatedMetaTask { source: RuntimeError::new(StatusCode::Internal) }.to_string(),
        "Failed to stop the remove_outdated_meta method, error"
    );
    assert_eq!(Error::ParseSegmentKey { key: "x1".to_string() }.to_string(), "Failed to parse segment key: x1");
    assert_eq!(Error::Unexpected { err_msg: "bad".to_string() }.to_string(), "Unexpected: bad");
    assert_eq!(Error::RollbackNotSupported.to_string(), "Not support to rollback the procedure");
}
