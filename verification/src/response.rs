//! Statuses and failures: what a caller of the service can be told.

use vstd::prelude::*;
use crate::writer::PersistenceFailure;

verus! {

/// The status of a response.
#[derive(Clone, Copy, Debug, PartialEq, Eq, Structural)]
pub enum Status {
    Success,
    BadRequest,
    InternalServerError,
    NotImplemented,
}

impl Status {
    /// The number of the status.
    pub open spec fn code_of(self) -> u16 {
        match self {
            Status::Success => 200,
            Status::BadRequest => 400,
            Status::InternalServerError => 500,
            Status::NotImplemented => 501,
        }
    }

    /// The number of the status.
    pub fn code(&self) -> (r: u16)
        ensures
            r == self.code_of(),
    {
        match self {
            Status::Success => 200,
            Status::BadRequest => 400,
            Status::InternalServerError => 500,
            Status::NotImplemented => 501,
        }
    }
}

/// A request did not show the credentials its operation asks for.
#[derive(Clone, Copy, Debug, PartialEq, Eq, Structural)]
pub enum AuthFailure {
    /// The request has no `x-api-key` header.
    MissingApiKey,
    /// The request's API key is not the server's.
    InvalidApiKey,
    /// The registry has no device of the id in the request's path.
    ProfileNotFound,
    /// The request has no `x-profile-key` header.  Authentication does
    /// not tell this from a wrong key: both are `InvalidProfileKey`.
    MissingProfileKey,
    /// The request shows no profile key, or not the key of its device.
    InvalidProfileKey,
    /// The request has no `x-read-key` header.
    MissingReadKey,
    /// The request's read key is not the server's.
    InvalidReadKey,
}

/// The body of a request is not a snapshot that can be stored.
#[derive(Clone, Copy, Debug, PartialEq, Eq, Structural)]
pub enum ValidationFailure {
    /// The body is not a snapshot document.
    MalformedBody,
    /// The host name is not text.
    EncodingError,
}

/// Why a request was not carried out, or not in full.
#[derive(Clone, Copy, Debug, PartialEq, Eq, Structural)]
pub enum Failure {
    Auth(AuthFailure),
    Validation(ValidationFailure),
    Persistence(PersistenceFailure),
    /// The registry or the storage could not be reached.
    StorageUnavailable,
}

impl Failure {
    /// The status that a caller sees for a failure that kept a request
    /// from being carried out.  Failures of authentication and of
    /// validation are the caller's; a failed write and an unreachable
    /// storage are the server's.
    pub open spec fn status_of(self) -> Status {
        match self {
            Failure::Auth(_) => Status::BadRequest,
            Failure::Validation(_) => Status::BadRequest,
            Failure::Persistence(_) => Status::InternalServerError,
            Failure::StorageUnavailable => Status::InternalServerError,
        }
    }

    /// The status that a caller sees for a failure.
    pub fn status(&self) -> (r: Status)
        ensures
            r == self.status_of(),
    {
        match self {
            Failure::Auth(_) => Status::BadRequest,
            Failure::Validation(_) => Status::BadRequest,
            Failure::Persistence(_) => Status::InternalServerError,
            Failure::StorageUnavailable => Status::InternalServerError,
        }
    }
}

} // verus!
