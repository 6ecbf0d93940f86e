//! The server-wide read key, which a request must show to list the
//! registry.  It belongs to no device.

use vstd::prelude::*;
use crate::api_key::shown;
use crate::response::{AuthFailure, Failure, Status};
use crate::text::same_text;

verus! {

/// The read key of a request that showed the right one.
#[derive(Debug, PartialEq, Eq)]
pub struct ReadKey<'r>(&'r str);

/// The read key the server was started with.  It does not change while the
/// server runs.
#[derive(Debug, PartialEq, Eq)]
pub struct ReadKeyVault(String);

/// Why a request did not pass the check of its read key.
#[derive(Clone, Copy, Debug, PartialEq, Eq, Structural)]
pub enum ReadKeyError {
    /// The server has no read key to check against.
    MissingServerKey,
    /// The request has no `x-read-key` header.
    MissingRequestKey,
    /// The request's key is not the server's.
    Invalid,
}

impl View for ReadKeyVault {
    type V = Seq<char>;

    closed spec fn view(&self) -> Seq<char> {
        self.0@
    }
}

impl<'r> View for ReadKey<'r> {
    type V = Seq<char>;

    closed spec fn view(&self) -> Seq<char> {
        self.0@
    }
}

/// What the check of a read key comes to: the key must be shown and be
/// exactly the server's.
pub open spec fn read_key_checked(server: Option<Seq<char>>, header: Option<Seq<char>>) -> Result<
    Seq<char>,
    ReadKeyError,
> {
    match server {
        None => Err(ReadKeyError::MissingServerKey),
        Some(valid) => match header {
            None => Err(ReadKeyError::MissingRequestKey),
            Some(key) => if key == valid {
                Ok(key)
            } else {
                Err(ReadKeyError::Invalid)
            },
        },
    }
}

impl ReadKeyVault {
    pub fn new(key: &str) -> (r: Self)
        ensures
            r@ == key@,
    {
        ReadKeyVault(key.to_owned())
    }

    /// The server's key.
    pub fn key(&self) -> (r: &str)
        ensures
            r@ == self@,
    {
        self.0.as_str()
    }
}

/// The key of the vault, if the server has one.
pub open spec fn configured(vault: Option<&ReadKeyVault>) -> Option<Seq<char>> {
    match vault {
        Some(v) => Some(v@),
        None => None,
    }
}

impl<'r> ReadKey<'r> {
    /// The key that passed the check.
    pub fn key(&self) -> (r: &'r str)
        ensures
            r@ == self@,
    {
        self.0
    }

    /// Checks the `x-read-key` header of a request against the server's key.
    pub fn check(vault: Option<&ReadKeyVault>, header: Option<&'r str>) -> (r: Result<
        ReadKey<'r>,
        ReadKeyError,
    >)
        ensures
            match read_key_checked(configured(vault), shown(header)) {
                Ok(key) => r matches Ok(k) && k@ == key,
                Err(e) => r == Err::<ReadKey<'r>, _>(e),
            },
    {
        match vault {
            None => Err(ReadKeyError::MissingServerKey),
            Some(valid) => match header {
                None => Err(ReadKeyError::MissingRequestKey),
                Some(key) => if same_text(key, valid.0.as_str()) {
                    Ok(ReadKey(key))
                } else {
                    Err(ReadKeyError::Invalid)
                },
            },
        }
    }
}

impl ReadKeyError {
    /// The failure of authentication that this is; none where the fault
    /// is the server's, which has no key.
    pub open spec fn auth_failure_of(self) -> Option<AuthFailure> {
        match self {
            ReadKeyError::MissingServerKey => None,
            ReadKeyError::MissingRequestKey => Some(AuthFailure::MissingReadKey),
            ReadKeyError::Invalid => Some(AuthFailure::InvalidReadKey),
        }
    }

    pub fn auth_failure(&self) -> (r: Option<AuthFailure>)
        ensures
            r == self.auth_failure_of(),
    {
        match self {
            ReadKeyError::MissingServerKey => None,
            ReadKeyError::MissingRequestKey => Some(AuthFailure::MissingReadKey),
            ReadKeyError::Invalid => Some(AuthFailure::InvalidReadKey),
        }
    }

    /// The status of the response: 500 where the server has no key, else 400.
    pub fn status(&self) -> (r: Status)
        ensures
            r == (match self.auth_failure_of() {
                Some(failure) => Failure::Auth(failure).status_of(),
                None => Status::InternalServerError,
            }),
    {
        match self.auth_failure() {
            Some(failure) => Failure::Auth(failure).status(),
            None => Status::InternalServerError,
        }
    }
}

} // verus!
