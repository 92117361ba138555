use vstd::prelude::*;

verus! {

/// The failures that the service reports to its callers.
#[derive(Clone, Copy, Debug, PartialEq, Eq, Structural)]
pub enum ApiError {
    /// Missing, invalid or expired token, or a wrong password.
    Unauthorized,
    /// No user with the given username.
    NotFound,
    /// The username is already taken.
    Conflict,
    /// A list position outside the list.
    InvalidInput,
    /// A storage, hashing or encoding failure.
    Internal,
}

pub open spec fn status_of(e: ApiError) -> u16 {
    match e {
        ApiError::Unauthorized => 401,
        ApiError::NotFound => 404,
        ApiError::Conflict => 409,
        ApiError::InvalidInput => 400,
        ApiError::Internal => 500,
    }
}

impl ApiError {
    /// The HTTP status code under which this failure is reported.
    pub fn status_code(&self) -> (r: u16)
        ensures
            r == status_of(*self),
    {
        match self {
            ApiError::Unauthorized => 401,
            ApiError::NotFound => 404,
            ApiError::Conflict => 409,
            ApiError::InvalidInput => 400,
            ApiError::Internal => 500,
        }
    }
}

} // verus!
