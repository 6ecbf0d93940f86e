//! The key of a device, which a request for that device must show.

use vstd::prelude::*;
use crate::api_key::shown;
use crate::coerce::profile_id_to_key;
use crate::response::{AuthFailure, Failure, Status};
use crate::tables::registry::{DeviceProfile, DeviceProfileView};
use crate::text::same_text;
use crate::writer::StorageError;

verus! {

/// The profile key of a request that showed the right one.
#[derive(Debug, PartialEq, Eq)]
pub struct ProfileKey<'r>(&'r str);

/// Why a request did not pass the check of its profile key.
#[derive(Clone, Copy, Debug, PartialEq, Eq, Structural)]
pub enum ProfileKeyError {
    /// The request shows no key.  The check does not give this error: a
    /// request without a key is answered like one with a wrong key.
    MissingKey,
    /// The request shows no key, or not the key of the device.
    InvalidKey,
    /// The registry could not be asked.
    DbAccessError,
    /// The path of the request names no device.
    IdNotPresent,
    /// The registry has no device of that id.
    InvalidId,
}

impl<'r> View for ProfileKey<'r> {
    type V = Seq<char>;

    closed spec fn view(&self) -> Seq<char> {
        self.0@
    }
}

/// The key that a path parameter names in the registry.
pub open spec fn requested_key(param: Option<u32>) -> Result<i32, ProfileKeyError> {
    match param {
        None => Err(ProfileKeyError::IdNotPresent),
        Some(id) => if id <= i32::MAX {
            Ok(id as i32)
        } else {
            Err(ProfileKeyError::InvalidId)
        },
    }
}

/// What the registry answered, as far as the check reads it: the key of
/// the profile that was found.
pub open spec fn stored_key(lookup: Result<Option<DeviceProfileView>, StorageError>) -> Result<
    Option<Seq<char>>,
    StorageError,
> {
    match lookup {
        Ok(Some(profile)) => Ok(Some(profile.profile_key)),
        Ok(None) => Ok(None),
        Err(e) => Err(e),
    }
}

/// What the check of a profile key comes to: the registry must have
/// answered, it must have the device, and the request must show exactly
/// the device's key.
pub open spec fn profile_key_checked(
    lookup: Result<Option<Seq<char>>, StorageError>,
    header: Option<Seq<char>>,
) -> Result<Seq<char>, ProfileKeyError> {
    match lookup {
        Err(_) => Err(ProfileKeyError::DbAccessError),
        Ok(None) => Err(ProfileKeyError::InvalidId),
        Ok(Some(valid)) => match header {
            None => Err(ProfileKeyError::InvalidKey),
            Some(key) => if key == valid {
                Ok(key)
            } else {
                Err(ProfileKeyError::InvalidKey)
            },
        },
    }
}

/// The view of what a registry answered to a lookup.
pub open spec fn lookup_view(lookup: Result<Option<DeviceProfile>, StorageError>) -> Result<
    Option<DeviceProfileView>,
    StorageError,
> {
    match lookup {
        Ok(Some(profile)) => Ok(Some(profile@)),
        Ok(None) => Ok(None),
        Err(e) => Err(e),
    }
}

impl<'r> ProfileKey<'r> {
    /// The key that passed the check.
    pub fn key(&self) -> (r: &'r str)
        ensures
            r@ == self@,
    {
        self.0
    }

    /// The registry key of the device that the path of a request names.
    pub fn requested(param: Option<u32>) -> (r: Result<i32, ProfileKeyError>)
        ensures
            r == requested_key(param),
    {
        match param {
            None => Err(ProfileKeyError::IdNotPresent),
            Some(id) => match profile_id_to_key(id) {
                Some(key) => Ok(key),
                None => Err(ProfileKeyError::InvalidId),
            },
        }
    }

    /// Checks the `x-profile-key` header of a request against what the
    /// registry answered for the device of the request.
    pub fn check(lookup: &Result<Option<DeviceProfile>, StorageError>, header: Option<&'r str>) -> (r:
        Result<ProfileKey<'r>, ProfileKeyError>)
        ensures
            match profile_key_checked(stored_key(lookup_view(*lookup)), shown(header)) {
                Ok(key) => r matches Ok(k) && k@ == key,
                Err(e) => r == Err::<ProfileKey<'r>, _>(e),
            },
    {
        match lookup {
            Err(_) => Err(ProfileKeyError::DbAccessError),
            Ok(None) => Err(ProfileKeyError::InvalidId),
            Ok(Some(profile)) => match header {
                None => Err(ProfileKeyError::InvalidKey),
                Some(key) => if same_text(key, profile.profile_key.as_str()) {
                    Ok(ProfileKey(key))
                } else {
                    Err(ProfileKeyError::InvalidKey)
                },
            },
        }
    }
}

impl ProfileKeyError {
    /// The failure of authentication that this is; none where the fault
    /// is the server's, which could not ask its registry.
    pub open spec fn auth_failure_of(self) -> Option<AuthFailure> {
        match self {
            ProfileKeyError::MissingKey => Some(AuthFailure::MissingProfileKey),
            ProfileKeyError::InvalidKey => Some(AuthFailure::InvalidProfileKey),
            ProfileKeyError::DbAccessError => None,
            ProfileKeyError::IdNotPresent => Some(AuthFailure::ProfileNotFound),
            ProfileKeyError::InvalidId => Some(AuthFailure::ProfileNotFound),
        }
    }

    pub fn auth_failure(&self) -> (r: Option<AuthFailure>)
        ensures
            r == self.auth_failure_of(),
    {
        match self {
            ProfileKeyError::MissingKey => Some(AuthFailure::MissingProfileKey),
            ProfileKeyError::InvalidKey => Some(AuthFailure::InvalidProfileKey),
            ProfileKeyError::DbAccessError => None,
            ProfileKeyError::IdNotPresent => Some(AuthFailure::ProfileNotFound),
            ProfileKeyError::InvalidId => Some(AuthFailure::ProfileNotFound),
        }
    }

    /// What a caller is told.
    pub open spec fn failure_of(self) -> Failure {
        match self.auth_failure_of() {
            Some(failure) => Failure::Auth(failure),
            None => Failure::StorageUnavailable,
        }
    }

    pub fn failure(&self) -> (r: Failure)
        ensures
            r == self.failure_of(),
    {
        match self.auth_failure() {
            Some(failure) => Failure::Auth(failure),
            None => Failure::StorageUnavailable,
        }
    }

    /// The status of the response: 500 where the registry could not be
    /// asked, else 400.
    pub fn status(&self) -> (r: Status)
        ensures
            r == self.failure_of().status_of(),
            r == (if *self == ProfileKeyError::DbAccessError {
                Status::InternalServerError
            } else {
                Status::BadRequest
            }),
    {
        self.failure().status()
    }
}

} // verus!
