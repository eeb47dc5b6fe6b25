//! Application errors and their mapping onto HTTP responses.

use vstd::prelude::*;
use vstd::string::*;

verus! {

/// Error raised by the application layer.
#[derive(Debug, Clone)]
pub enum AppError {
    /// The input failed a domain rule.
    Validation(String),
    /// A pay plan engine rule refused the operation.
    Core(String),
    /// A referenced record does not exist.
    NotFound(String),
    /// The caller may not perform the operation.
    Forbidden(String),
    /// The operation conflicts with the current state.
    Conflict(String),
    /// Storage or another infrastructure component failed.
    Infra(String),
    /// Anything else.
    Other(String),
}

impl AppError {
    /// The message carried by the error.
    pub open spec fn spec_message(self) -> Seq<char> {
        match self {
            AppError::Validation(m) => m@,
            AppError::Core(m) => m@,
            AppError::NotFound(m) => m@,
            AppError::Forbidden(m) => m@,
            AppError::Conflict(m) => m@,
            AppError::Infra(m) => m@,
            AppError::Other(m) => m@,
        }
    }

    /// The message carried by the error.
    pub fn message(&self) -> (r: String)
        ensures
            r@ == self.spec_message(),
    {
        match self {
            AppError::Validation(m) => m.clone(),
            AppError::Core(m) => m.clone(),
            AppError::NotFound(m) => m.clone(),
            AppError::Forbidden(m) => m.clone(),
            AppError::Conflict(m) => m.clone(),
            AppError::Infra(m) => m.clone(),
            AppError::Other(m) => m.clone(),
        }
    }
}

/// `prefix` followed by `value`, as an owned string.
pub fn tagged(prefix: &str, value: &str) -> (r: String)
    ensures
        r@ == prefix@ + value@,
{
    String::from_str(prefix).concat(value)
}

/// HTTP status codes used by the API.
pub const STATUS_BAD_REQUEST: u16 = 400;
pub const STATUS_UNAUTHORIZED: u16 = 401;
pub const STATUS_FORBIDDEN: u16 = 403;
pub const STATUS_NOT_FOUND: u16 = 404;
pub const STATUS_CONFLICT: u16 = 409;
pub const STATUS_INTERNAL: u16 = 500;

/// HTTP error with an explicit status. Domain and validation failures carry a
/// client-facing message; infrastructure failures collapse to a generic 500.
#[derive(Debug)]
pub struct ApiError {
    pub status: u16,
    pub message: String,
}

impl ApiError {
    pub fn new(status: u16, message: String) -> (r: ApiError)
        ensures
            r.status == status,
            r.message@ == message@,
    {
        ApiError { status, message }
    }

    pub fn bad_request(message: String) -> (r: ApiError)
        ensures
            r.status == STATUS_BAD_REQUEST,
            r.message@ == message@,
    {
        Self::new(STATUS_BAD_REQUEST, message)
    }

    pub fn forbidden(message: String) -> (r: ApiError)
        ensures
            r.status == STATUS_FORBIDDEN,
            r.message@ == message@,
    {
        Self::new(STATUS_FORBIDDEN, message)
    }

    /// Collapse an internal error to a generic 500; the detail stays out of
    /// the response.
    pub fn internal(context: &str, detail: &str) -> (r: ApiError)
        ensures
            r.status == STATUS_INTERNAL,
            r.message@ == "internal server error"@,
    {
        Self::new(STATUS_INTERNAL, String::from_str("internal server error"))
    }

    /// Map an application error onto its HTTP error.
    pub fn from_app_error(e: AppError) -> (r: ApiError)
        ensures
            r.status == api_status(e),
            r.status == STATUS_INTERNAL ==> r.message@ == "internal server error"@,
            r.status != STATUS_INTERNAL ==> r.message@ == e.spec_message(),
    {
        match e {
            AppError::Validation(m) => Self::bad_request(m),
            AppError::Core(m) => Self::bad_request(m),
            AppError::NotFound(m) => Self::new(STATUS_NOT_FOUND, m),
            AppError::Forbidden(m) => Self::new(STATUS_FORBIDDEN, m),
            AppError::Conflict(m) => Self::new(STATUS_CONFLICT, m),
            AppError::Infra(_) => Self::internal("app_error", ""),
            AppError::Other(_) => Self::internal("app_error", ""),
        }
    }
}

/// The HTTP status of an application error.
pub open spec fn api_status(e: AppError) -> u16 {
    match e {
        AppError::Validation(_) => STATUS_BAD_REQUEST,
        AppError::Core(_) => STATUS_BAD_REQUEST,
        AppError::NotFound(_) => STATUS_NOT_FOUND,
        AppError::Forbidden(_) => STATUS_FORBIDDEN,
        AppError::Conflict(_) => STATUS_CONFLICT,
        AppError::Infra(_) => STATUS_INTERNAL,
        AppError::Other(_) => STATUS_INTERNAL,
    }
}

/// Error mapping for the login and refresh endpoints: an unknown account or a
/// refused credential is reported as 401 rather than 403 or 404.
pub fn auth_api_error(error: AppError) -> (r: ApiError)
    ensures
        (error is Forbidden || error is NotFound) ==> r.status == STATUS_UNAUTHORIZED
            && r.message@ == error.spec_message(),
        !(error is Forbidden || error is NotFound) ==> r.status == api_status(error),
        !(error is Forbidden || error is NotFound) && r.status != STATUS_INTERNAL ==> r.message@
            == error.spec_message(),
{
    match error {
        AppError::Forbidden(m) => ApiError::new(STATUS_UNAUTHORIZED, m),
        AppError::NotFound(m) => ApiError::new(STATUS_UNAUTHORIZED, m),
        other => ApiError::from_app_error(other),
    }
}

} // verus!
