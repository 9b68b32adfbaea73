//! The portal's error kinds and how each is reported to clients.

use vstd::prelude::*;
use crate::text::owned;

verus! {

/// Every way a request can fail. `ValidationFailed` and `Conflict` carry a message
/// for the client; `Internal` carries a diagnostic that is never shown.
#[derive(Debug)]
pub enum AppError {
    AuthRequired,
    PermissionDenied,
    SystemDisabled,
    TenantDisabled,
    InvalidSubsystemTicket,
    ValidationFailed(String),
    Conflict(String),
    NotFound,
    Internal(String),
}

/// The stable error code of an error.
pub open spec fn error_code(e: AppError) -> Seq<char> {
    match e {
        AppError::AuthRequired => "AUTH_REQUIRED"@,
        AppError::PermissionDenied => "PERMISSION_DENIED"@,
        AppError::SystemDisabled => "SYSTEM_DISABLED"@,
        AppError::TenantDisabled => "TENANT_DISABLED"@,
        AppError::InvalidSubsystemTicket => "INVALID_SUBSYSTEM_TICKET"@,
        AppError::ValidationFailed(_) => "VALIDATION_FAILED"@,
        AppError::Conflict(_) => "CONFLICT"@,
        AppError::NotFound => "NOT_FOUND"@,
        AppError::Internal(_) => "INTERNAL_ERROR"@,
    }
}

/// The message shown to the client: the carried message for validation failures and
/// conflicts, the error code otherwise.
pub open spec fn error_message(e: AppError) -> Seq<char> {
    match e {
        AppError::ValidationFailed(m) => m@,
        AppError::Conflict(m) => m@,
        _ => error_code(e),
    }
}

/// The HTTP status with which an error is answered.
pub open spec fn error_status(e: AppError) -> u16 {
    match e {
        AppError::AuthRequired => 401,
        AppError::PermissionDenied => 403,
        AppError::SystemDisabled => 403,
        AppError::TenantDisabled => 403,
        AppError::InvalidSubsystemTicket => 400,
        AppError::ValidationFailed(_) => 400,
        AppError::Conflict(_) => 409,
        AppError::NotFound => 404,
        AppError::Internal(_) => 500,
    }
}

impl AppError {
    /// The stable error code.
    pub fn code(&self) -> (r: &'static str)
        ensures
            r@ == error_code(*self),
    {
        match self {
            AppError::AuthRequired => "AUTH_REQUIRED",
            AppError::PermissionDenied => "PERMISSION_DENIED",
            AppError::SystemDisabled => "SYSTEM_DISABLED",
            AppError::TenantDisabled => "TENANT_DISABLED",
            AppError::InvalidSubsystemTicket => "INVALID_SUBSYSTEM_TICKET",
            AppError::ValidationFailed(_) => "VALIDATION_FAILED",
            AppError::Conflict(_) => "CONFLICT",
            AppError::NotFound => "NOT_FOUND",
            AppError::Internal(_) => "INTERNAL_ERROR",
        }
    }

    /// The message shown to the client.
    pub fn message(&self) -> (r: String)
        ensures
            r@ == error_message(*self),
    {
        match self {
            AppError::ValidationFailed(msg) => msg.clone(),
            AppError::Conflict(msg) => msg.clone(),
            _ => owned(self.code()),
        }
    }

    /// The HTTP status code.
    pub fn status_code(&self) -> (r: u16)
        ensures
            r == error_status(*self),
    {
        match self {
            AppError::AuthRequired => 401,
            AppError::PermissionDenied => 403,
            AppError::SystemDisabled => 403,
            AppError::TenantDisabled => 403,
            AppError::InvalidSubsystemTicket => 400,
            AppError::ValidationFailed(_) => 400,
            AppError::Conflict(_) => 409,
            AppError::NotFound => 404,
            AppError::Internal(_) => 500,
        }
    }

    /// A validation failure with the given message.
    pub fn validation(msg: &str) -> (r: AppError)
        ensures
            r matches AppError::ValidationFailed(m) && m@ == msg@,
    {
        AppError::ValidationFailed(owned(msg))
    }

    /// A conflict with the given message.
    pub fn conflict(msg: &str) -> (r: AppError)
        ensures
            r matches AppError::Conflict(m) && m@ == msg@,
    {
        AppError::Conflict(owned(msg))
    }
}

} // verus!
