use vstd::prelude::*;

verus! {

/// The closed set of failure outcomes that the components of this library
/// report. Internal causes are mapped to one of these kinds before crossing
/// the system boundary; the boundary turns each kind into an HTTP status.
#[derive(Clone, Copy, Debug, PartialEq, Eq, Structural)]
pub enum AppError {
    /// Missing or wrong API key, missing/invalid/expired session token,
    /// or a password mismatch at login.
    Unauthorized,
    /// An authenticated caller attempted a guest-only action.
    Forbidden,
    /// A referenced record is absent (boundary-layer outcome).
    NotFound,
    /// A record with the same unique field already exists.
    Conflict,
    /// A request payload failed field validation.
    Validation,
    /// A cryptographic primitive failed, or a stored hash is unparsable.
    HashingError,
    /// The signing secret or API key was unavailable when needed.
    ConfigError,
}

/// The HTTP status that the boundary reports for each error kind.
pub open spec fn spec_status_code(e: AppError) -> u16 {
    match e {
        AppError::Unauthorized => 401,
        AppError::Forbidden => 403,
        AppError::NotFound => 404,
        AppError::Conflict => 409,
        AppError::Validation => 400,
        AppError::HashingError => 500,
        AppError::ConfigError => 500,
    }
}

impl AppError {
    /// Maps this error kind to the HTTP status code it is reported as.
    pub fn status_code(&self) -> (code: u16)
        ensures
            code == spec_status_code(*self),
    {
        match self {
            AppError::Unauthorized => 401,
            AppError::Forbidden => 403,
            AppError::NotFound => 404,
            AppError::Conflict => 409,
            AppError::Validation => 400,
            AppError::HashingError => 500,
            AppError::ConfigError => 500,
        }
    }
}

} // verus!
