//! The server-wide API key, which every request must show.

use vstd::prelude::*;
use crate::response::{AuthFailure, Failure, Status};
use crate::text::same_text;

verus! {

/// The API key of a request that showed the right one.
#[derive(Debug, PartialEq, Eq)]
pub struct ApiKey<'r>(&'r str);

/// The API key the server was started with.  It does not change while the
/// server runs.
#[derive(Debug, PartialEq, Eq)]
pub struct ApiKeyVault(String);

/// Why a request did not pass the check of its API key.
#[derive(Clone, Copy, Debug, PartialEq, Eq, Structural)]
pub enum ApiKeyError {
    /// The server has no API key to check against.
    MissingServerKey,
    /// The request has no `x-api-key` header.
    MissingRequestKey,
    /// The request's key is not the server's.
    Invalid,
}

impl View for ApiKeyVault {
    type V = Seq<char>;

    closed spec fn view(&self) -> Seq<char> {
        self.0@
    }
}

impl<'r> View for ApiKey<'r> {
    type V = Seq<char>;

    closed spec fn view(&self) -> Seq<char> {
        self.0@
    }
}

/// The keys of two optional texts, for contracts.
pub open spec fn shown(header: Option<&str>) -> Option<Seq<char>> {
    match header {
        Some(k) => Some(k@),
        None => None,
    }
}

/// What the check of an API key comes to: the key must be shown and be
/// exactly the server's.
pub open spec fn api_key_checked(server: Option<Seq<char>>, header: Option<Seq<char>>) -> Result<
    Seq<char>,
    ApiKeyError,
> {
    match server {
        None => Err(ApiKeyError::MissingServerKey),
        Some(valid) => match header {
            None => Err(ApiKeyError::MissingRequestKey),
            Some(key) => if key == valid {
                Ok(key)
            } else {
                Err(ApiKeyError::Invalid)
            },
        },
    }
}

impl ApiKeyVault {
    pub fn new(key: &str) -> (r: Self)
        ensures
            r@ == key@,
    {
        ApiKeyVault(key.to_owned())
    }

    /// The server's key.
    pub fn key(&self) -> (r: &str)
        ensures
            r@ == self@,
    {
        self.0.as_str()
    }
}

/// The key of the vault, if the server has one.
pub open spec fn configured(vault: Option<&ApiKeyVault>) -> Option<Seq<char>> {
    match vault {
        Some(v) => Some(v@),
        None => None,
    }
}

impl<'r> ApiKey<'r> {
    /// The key that passed the check.
    pub fn key(&self) -> (r: &'r str)
        ensures
            r@ == self@,
    {
        self.0
    }

    /// Checks the `x-api-key` header of a request against the server's key.
    pub fn check(vault: Option<&ApiKeyVault>, header: Option<&'r str>) -> (r: Result<
        ApiKey<'r>,
        ApiKeyError,
    >)
        ensures
            match api_key_checked(configured(vault), shown(header)) {
                Ok(key) => r matches Ok(k) && k@ == key,
                Err(e) => r == Err::<ApiKey<'r>, _>(e),
            },
    {
        match vault {
            None => Err(ApiKeyError::MissingServerKey),
            Some(valid) => match header {
                None => Err(ApiKeyError::MissingRequestKey),
                Some(key) => if same_text(key, valid.0.as_str()) {
                    Ok(ApiKey(key))
                } else {
                    Err(ApiKeyError::Invalid)
                },
            },
        }
    }
}

impl ApiKeyError {
    /// The failure of authentication that this is; none where the fault
    /// is the server's, which has no key.
    pub open spec fn auth_failure_of(self) -> Option<AuthFailure> {
        match self {
            ApiKeyError::MissingServerKey => None,
            ApiKeyError::MissingRequestKey => Some(AuthFailure::MissingApiKey),
            ApiKeyError::Invalid => Some(AuthFailure::InvalidApiKey),
        }
    }

    pub fn auth_failure(&self) -> (r: Option<AuthFailure>)
        ensures
            r == self.auth_failure_of(),
    {
        match self {
            ApiKeyError::MissingServerKey => None,
            ApiKeyError::MissingRequestKey => Some(AuthFailure::MissingApiKey),
            ApiKeyError::Invalid => Some(AuthFailure::InvalidApiKey),
        }
    }

    /// The status of the response: 500 where the server has no key, else 400.
    pub fn status(&self) -> (r: Status)
        ensures
            r == (match self.auth_failure_of() {
                Some(failure) => Failure::Auth(failure).status_of(),
                None => Status::InternalServerError,
            }),
    {
        match self.auth_failure() {
            Some(failure) => Failure::Auth(failure).status(),
            None => Status::InternalServerError,
        }
    }
}

} // verus!
