//! Errors answered by the management API, with their HTTP status and stable code.
use vstd::prelude::*;

verus! {

/// HTTP status code answered for an operation that is part of the API contract
/// but not implemented yet.
pub const NOT_IMPLEMENTED_STATUS: u16 = 501;

/// API error variants returned by management handlers.
#[derive(Debug, Clone)]
pub enum ApiError {
    /// The requested operation is part of the API contract but not implemented yet.
    NotImplemented {
        /// Human-readable not implemented reason.
        message: String,
    },
}

impl ApiError {
    /// HTTP status code of the error.
    pub fn status_code(&self) -> (status: u16)
        ensures
            status == NOT_IMPLEMENTED_STATUS,
    {
        match self {
            ApiError::NotImplemented { .. } => NOT_IMPLEMENTED_STATUS,
        }
    }

    /// Stable machine-readable error code.
    pub fn code(&self) -> (code: &'static str)
        ensures
            code@ == "not_implemented"@,
    {
        match self {
            ApiError::NotImplemented { .. } => "not_implemented",
        }
    }

    /// Human-readable error message.
    pub fn message(&self) -> (message: String)
        ensures
            message@ == match self {
                ApiError::NotImplemented { message: m } => m@,
            },
    {
        match self {
            ApiError::NotImplemented { message } => message.clone(),
        }
    }
}

} // verus!
