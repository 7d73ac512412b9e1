//! Error kinds of the service and the HTTP status each maps to.
use vstd::prelude::*;

verus! {

#[derive(Clone, Copy, Debug, PartialEq, Eq, Structural)]
pub enum ApiError {
    /// The WebAuthn library refused to start a ceremony.
    Unknown,
    /// No ceremony slot, or an expired one.
    CorruptSession,
    /// A credential or assertion failed verification.
    BadRequest,
    /// No user with the given name.
    UserNotFound,
    /// Malformed input.
    InvalidInput,
    /// The repository refused the operation.
    Database,
    /// A session token could not be made or read.
    Token,
    /// The user already voted, or the poll takes no votes.
    AlreadyVoted,
    /// Missing or invalid bearer token.
    Unauthorized,
    /// No record with the given id.
    NotFound,
}

pub open spec fn status_of(e: ApiError) -> u16 {
    match e {
        ApiError::Unknown => 500,
        ApiError::CorruptSession => 400,
        ApiError::BadRequest => 400,
        ApiError::UserNotFound => 404,
        ApiError::InvalidInput => 400,
        ApiError::Database => 500,
        ApiError::Token => 500,
        ApiError::AlreadyVoted => 400,
        ApiError::Unauthorized => 401,
        ApiError::NotFound => 404,
    }
}

impl ApiError {
    /// The HTTP status code that answers this error.
    pub fn status_code(&self) -> (r: u16)
        ensures
            r == status_of(*self),
    {
        match self {
            ApiError::Unknown => 500,
            ApiError::CorruptSession => 400,
            ApiError::BadRequest => 400,
            ApiError::UserNotFound => 404,
            ApiError::InvalidInput => 400,
            ApiError::Database => 500,
            ApiError::Token => 500,
            ApiError::AlreadyVoted => 400,
            ApiError::Unauthorized => 401,
            ApiError::NotFound => 404,
        }
    }
}

} // verus!
