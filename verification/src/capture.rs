//! The capture reconciler: maps an asynchronous capture-sync outcome to
//! a local capture-state update. On errors, a narrow band of 5xx status
//! codes is treated as transient (pending) rather than terminal — a
//! deliberate, literal boundary that callers must preserve.

use vstd::prelude::*;

use crate::enums::{AttemptStatus, CaptureStatus};
use crate::errors::ApiError;

verus! {

/// How a connector identified the resource in its response.
#[derive(Clone, Debug, PartialEq)]
pub enum ResponseId {
    ConnectorTransactionId(String),
    EncodedData(String),
    NoResponseId,
}

/// The outcome of syncing one capture with the connector.
#[derive(Clone, Debug, PartialEq)]
pub enum CaptureSyncResponse {
    Success {
        resource_id: ResponseId,
        status: AttemptStatus,
        connector_response_reference_id: Option<String>,
        amount: Option<i64>,
    },
    Error {
        code: String,
        message: String,
        reason: Option<String>,
        status_code: u16,
        amount: Option<i64>,
    },
}

/// The local update to apply to a capture record.
#[derive(Clone, Debug, PartialEq)]
pub enum CaptureUpdate {
    ResponseUpdate {
        status: CaptureStatus,
        connector_capture_id: Option<String>,
        connector_response_reference_id: Option<String>,
    },
    ErrorUpdate {
        status: CaptureStatus,
        error_code: Option<String>,
        error_message: Option<String>,
        error_reason: Option<String>,
    },
}

impl CaptureStatus {
    /// The local capture status a connector-reported attempt status maps
    /// to; statuses that say nothing about a capture are an error.
    pub open spec fn spec_foreign_try_from(status: AttemptStatus) -> Result<
        CaptureStatus,
        ApiError,
    > {
        match status {
            AttemptStatus::Charged => Ok(CaptureStatus::Charged),
            AttemptStatus::PartialCharged => Ok(CaptureStatus::Charged),
            AttemptStatus::Pending => Ok(CaptureStatus::Pending),
            AttemptStatus::Failure => Ok(CaptureStatus::Failed),
            _ => Err(ApiError::InternalServerError),
        }
    }

    /// Maps a connector-reported attempt status onto a capture status.
    pub fn foreign_try_from(status: AttemptStatus) -> (r: Result<CaptureStatus, ApiError>)
        ensures
            r == Self::spec_foreign_try_from(status),
    {
        match status {
            AttemptStatus::Charged => Ok(CaptureStatus::Charged),
            AttemptStatus::PartialCharged => Ok(CaptureStatus::Charged),
            AttemptStatus::Pending => Ok(CaptureStatus::Pending),
            AttemptStatus::Failure => Ok(CaptureStatus::Failed),
            _ => Err(ApiError::InternalServerError),
        }
    }
}

/// Reported error status codes in [500, 511] are transient: the capture
/// stays pending. Everything else is terminal failure.
pub open spec fn spec_error_capture_status(status_code: u16) -> CaptureStatus {
    if 500 <= status_code && status_code <= 511 {
        CaptureStatus::Pending
    } else {
        CaptureStatus::Failed
    }
}

impl CaptureUpdate {
    /// The update a capture-sync outcome maps to: on success the status
    /// is foreign-mapped and the connector capture id is taken only from
    /// a connector-transaction-id resource; on error the status is
    /// bucketed by status code and the error fields pass through
    /// unmodified.
    pub open spec fn spec_foreign_try_from(c: CaptureSyncResponse) -> Result<
        CaptureUpdate,
        ApiError,
    > {
        match c {
            CaptureSyncResponse::Success { resource_id, status, connector_response_reference_id, .. } => {
                match CaptureStatus::spec_foreign_try_from(status) {
                    Ok(mapped) => Ok(CaptureUpdate::ResponseUpdate {
                        status: mapped,
                        connector_capture_id: match resource_id {
                            ResponseId::ConnectorTransactionId(id) => Some(id),
                            ResponseId::EncodedData(_) => None,
                            ResponseId::NoResponseId => None,
                        },
                        connector_response_reference_id,
                    }),
                    Err(e) => Err(e),
                }
            },
            CaptureSyncResponse::Error { code, message, reason, status_code, .. } => {
                Ok(CaptureUpdate::ErrorUpdate {
                    status: spec_error_capture_status(status_code),
                    error_code: Some(code),
                    error_message: Some(message),
                    error_reason: reason,
                })
            },
        }
    }

    /// Reconciles one capture-sync outcome into a local capture update.
    pub fn foreign_try_from(capture_sync_response: CaptureSyncResponse) -> (r: Result<
        CaptureUpdate,
        ApiError,
    >)
        ensures
            r == Self::spec_foreign_try_from(capture_sync_response),
    {
        match capture_sync_response {
            CaptureSyncResponse::Success {
                resource_id,
                status,
                connector_response_reference_id,
                ..
            } => {
                let connector_capture_id = match resource_id {
                    ResponseId::ConnectorTransactionId(id) => Some(id),
                    ResponseId::EncodedData(_) => None,
                    ResponseId::NoResponseId => None,
                };
                let mapped = match CaptureStatus::foreign_try_from(status) {
                    Ok(s) => s,
                    Err(e) => { return Err(e) },
                };
                Ok(CaptureUpdate::ResponseUpdate {
                    status: mapped,
                    connector_capture_id,
                    connector_response_reference_id,
                })
            },
            CaptureSyncResponse::Error { code, message, reason, status_code, .. } => {
                let status = if 500 <= status_code && status_code <= 511 {
                    CaptureStatus::Pending
                } else {
                    CaptureStatus::Failed
                };
                Ok(CaptureUpdate::ErrorUpdate {
                    status,
                    error_code: Some(code),
                    error_message: Some(message),
                    error_reason: reason,
                })
            },
        }
    }
}

/// The error bucketing boundary, stated once for every status code: the
/// capture stays pending exactly for codes 500 through 511.
pub proof fn lemma_error_status_bucketing(status_code: u16)
    ensures
        spec_error_capture_status(status_code) == CaptureStatus::Pending <==> (500 <= status_code
            && status_code <= 511),
        spec_error_capture_status(status_code) == CaptureStatus::Failed <==> !(500 <= status_code
            && status_code <= 511),
{
}

} // verus!
