//! Authentication: which requests may act, and for which device.
//!
//! A request for a device shows two credentials: the server-wide API key,
//! and the key of the device, which the registry holds.  They are checked
//! in this order, and the registry is asked only for requests that showed
//! the right API key.  Listing the registry asks for the API key and the
//! read key.  Nothing is remembered of a failed attempt.

use vstd::prelude::*;
use crate::api_key::{shown, ApiKey, ApiKeyVault};
use crate::profile_key::{lookup_view, profile_key_checked, stored_key, ProfileKey};
use crate::profile_store::{lookup, ProfileStore};
use crate::read_key::{ReadKey, ReadKeyVault};
use crate::response::{AuthFailure, Failure};
use crate::tables::registry::{DeviceProfile, DeviceProfileView};
use crate::text::opt_text;
use crate::writer::StorageError;

verus! {

/// What a request that was authenticated may act for: the device of this
/// registry key, and no other.
#[derive(Clone, Copy, Debug, PartialEq, Eq, Structural)]
pub struct Credentials {
    pub profile_id: i32,
}

/// A request for a device that showed the API key and waits for its
/// device to be looked up in a registry that the caller asks.
#[derive(Debug, PartialEq, Eq)]
pub struct Challenge {
    pub profile_id: i32,
    pub profile_key: Option<String>,
}

pub struct ChallengeView {
    pub profile_id: i32,
    pub profile_key: Option<Seq<char>>,
}

impl View for Challenge {
    type V = ChallengeView;

    open spec fn view(&self) -> ChallengeView {
        ChallengeView { profile_id: self.profile_id, profile_key: opt_text(self.profile_key) }
    }
}

/// The first step of authentication, which needs no registry: the request
/// must show the server's API key, and its path must name a device that a
/// registry can hold.  It gives the registry key to look up.
pub open spec fn challenged(server_key: Seq<char>, api_key: Option<Seq<char>>, profile_id: u32) -> Result<
    i32,
    AuthFailure,
> {
    match api_key {
        None => Err(AuthFailure::MissingApiKey),
        Some(shown_key) => if shown_key != server_key {
            Err(AuthFailure::InvalidApiKey)
        } else if profile_id > i32::MAX {
            Err(AuthFailure::ProfileNotFound)
        } else {
            Ok(profile_id as i32)
        },
    }
}

/// What the registry answered for the device `id`.  A profile of another
/// id is no answer for it: the device counts as not found.
pub open spec fn answer_for(id: i32, lookup: Result<Option<DeviceProfileView>, StorageError>) -> Result<
    Option<DeviceProfileView>,
    StorageError,
> {
    match lookup {
        Ok(Some(profile)) => if profile.id_device_profile == id {
            lookup
        } else {
            Ok(None)
        },
        _ => lookup,
    }
}

/// The second step of authentication, when the registry has answered: the
/// registry must have been reached (else the fault is the server's), it
/// must have the device, and the request must show the device's key.
pub open spec fn answered(
    challenge: ChallengeView,
    lookup: Result<Option<DeviceProfileView>, StorageError>,
) -> Result<Credentials, Failure> {
    match profile_key_checked(
        stored_key(answer_for(challenge.profile_id, lookup)),
        challenge.profile_key,
    ) {
        Err(e) => Err(e.failure_of()),
        Ok(_) => Ok(Credentials { profile_id: challenge.profile_id }),
    }
}

impl Challenge {
    /// Takes the first step of the authentication of a request.
    pub fn begin(
        vault: &ApiKeyVault,
        api_key: Option<&str>,
        profile_key: Option<String>,
        profile_id: u32,
    ) -> (r: Result<Challenge, AuthFailure>)
        ensures
            match challenged(vault@, shown(api_key), profile_id) {
                Ok(id) => r matches Ok(c) && c@ == (ChallengeView {
                    profile_id: id,
                    profile_key: opt_text(profile_key),
                }),
                Err(failure) => r == Err::<Challenge, _>(failure),
            },
    {
        match ApiKey::check(Some(vault), api_key) {
            Err(e) => {
                return Err(
                    match e.auth_failure() {
                        Some(failure) => failure,
                        None => AuthFailure::InvalidApiKey,
                    },
                );
            },
            Ok(_) => {},
        }
        match ProfileKey::requested(Some(profile_id)) {
            Ok(id) => Ok(Challenge { profile_id: id, profile_key }),
            Err(_) => Err(AuthFailure::ProfileNotFound),
        }
    }

    /// Takes what the registry answered when it was asked for the device
    /// `profile_id`, and with it the second step.
    pub fn answer(self, lookup: Result<Option<DeviceProfile>, StorageError>) -> (r: Result<
        Credentials,
        Failure,
    >)
        ensures
            r == answered(self@, lookup_view(lookup)),
    {
        let lookup = match lookup {
            Ok(Some(profile)) => if profile.id_device_profile == self.profile_id {
                Ok(Some(profile))
            } else {
                Ok(None)
            },
            other => other,
        };
        let checked = match &self.profile_key {
            Some(key) => ProfileKey::check(&lookup, Some(key.as_str())),
            None => ProfileKey::check(&lookup, None),
        };
        match checked {
            Err(e) => Err(e.failure()),
            Ok(_) => Ok(Credentials { profile_id: self.profile_id }),
        }
    }
}

/// Who a request is, given the server's API key and the registry: it must
/// show the API key; its path must name a device of the registry; and it
/// must show that device's key.  The first of these that fails decides
/// the failure.
pub open spec fn authenticated(
    server_key: Seq<char>,
    registry: Seq<DeviceProfileView>,
    api_key: Option<Seq<char>>,
    profile_key: Option<Seq<char>>,
    profile_id: u32,
) -> Result<Credentials, AuthFailure> {
    match api_key {
        None => Err(AuthFailure::MissingApiKey),
        Some(shown_key) => if shown_key != server_key {
            Err(AuthFailure::InvalidApiKey)
        } else if profile_id > i32::MAX {
            Err(AuthFailure::ProfileNotFound)
        } else {
            match lookup(registry, profile_id as i32) {
                None => Err(AuthFailure::ProfileNotFound),
                Some(profile) => if profile_key == Some(profile.profile_key) {
                    Ok(Credentials { profile_id: profile_id as i32 })
                } else {
                    Err(AuthFailure::InvalidProfileKey)
                },
            }
        },
    }
}

/// Authentication against a registry is the two steps of a challenge,
/// with the registry's own answer in between.
pub proof fn lemma_authentication_in_two_steps(
    server_key: Seq<char>,
    registry: Seq<DeviceProfileView>,
    api_key: Option<Seq<char>>,
    profile_key: Option<Seq<char>>,
    profile_id: u32,
)
    ensures
        match challenged(server_key, api_key, profile_id) {
            Err(failure) => authenticated(server_key, registry, api_key, profile_key, profile_id)
                == Err::<Credentials, _>(failure),
            Ok(id) => match authenticated(server_key, registry, api_key, profile_key, profile_id) {
                Ok(credentials) => answered(
                    ChallengeView { profile_id: id, profile_key: profile_key },
                    Ok(lookup(registry, id)),
                ) == Ok::<_, Failure>(credentials),
                Err(failure) => answered(
                    ChallengeView { profile_id: id, profile_key: profile_key },
                    Ok(lookup(registry, id)),
                ) == Err::<Credentials, _>(Failure::Auth(failure)),
            },
        },
{
    if profile_id <= i32::MAX {
        crate::profile_store::lemma_lookup_finds_the_key(registry, profile_id as i32);
    }
}

/// Authenticates a request for the device `profile_id` against the
/// server's API key and the registry.
pub fn authenticate(
    vault: &ApiKeyVault,
    registry: &ProfileStore,
    api_key: Option<&str>,
    profile_key: Option<&str>,
    profile_id: u32,
) -> (r: Result<Credentials, AuthFailure>)
    ensures
        r == authenticated(vault@, registry@, shown(api_key), shown(profile_key), profile_id),
{
    match ApiKey::check(Some(vault), api_key) {
        Err(e) => {
            return Err(
                match e.auth_failure() {
                    Some(failure) => failure,
                    None => AuthFailure::InvalidApiKey,
                },
            );
        },
        Ok(_) => {},
    }
    let id: i32 = match ProfileKey::requested(Some(profile_id)) {
        Ok(id) => id,
        Err(_) => {
            return Err(AuthFailure::ProfileNotFound);
        },
    };
    let found = registry.get(id);
    match found {
        None => Err(AuthFailure::ProfileNotFound),
        Some(profile) => match profile_key {
            None => Err(AuthFailure::InvalidProfileKey),
            Some(key) => if crate::text::same_text(key, profile.profile_key.as_str()) {
                Ok(Credentials { profile_id: id })
            } else {
                Err(AuthFailure::InvalidProfileKey)
            },
        },
    }
}

/// Whether a request may list the registry: it must show the API key and
/// the read key, in this order.
pub open spec fn listing_allowed(
    server_key: Seq<char>,
    server_read_key: Seq<char>,
    api_key: Option<Seq<char>>,
    read_key: Option<Seq<char>>,
) -> Result<(), AuthFailure> {
    match api_key {
        None => Err(AuthFailure::MissingApiKey),
        Some(shown_key) => if shown_key != server_key {
            Err(AuthFailure::InvalidApiKey)
        } else {
            match read_key {
                None => Err(AuthFailure::MissingReadKey),
                Some(shown_read) => if shown_read != server_read_key {
                    Err(AuthFailure::InvalidReadKey)
                } else {
                    Ok(())
                },
            }
        },
    }
}

/// Checks the two keys of a request that asks for the list of profiles.
pub fn authorize_listing(
    vault: &ApiKeyVault,
    read_vault: &ReadKeyVault,
    api_key: Option<&str>,
    read_key: Option<&str>,
) -> (r: Result<(), AuthFailure>)
    ensures
        r == listing_allowed(vault@, read_vault@, shown(api_key), shown(read_key)),
{
    match ApiKey::check(Some(vault), api_key) {
        Err(e) => {
            return Err(
                match e.auth_failure() {
                    Some(failure) => failure,
                    None => AuthFailure::InvalidApiKey,
                },
            );
        },
        Ok(_) => {},
    }
    match ReadKey::check(Some(read_vault), read_key) {
        Err(e) => Err(
            match e.auth_failure() {
                Some(failure) => failure,
                None => AuthFailure::InvalidReadKey,
            },
        ),
        Ok(_) => Ok(()),
    }
}

/// Whether a request may register a device: it must show the API key.
pub open spec fn registration_allowed(server_key: Seq<char>, api_key: Option<Seq<char>>) -> Result<
    (),
    AuthFailure,
> {
    match api_key {
        None => Err(AuthFailure::MissingApiKey),
        Some(shown_key) => if shown_key != server_key {
            Err(AuthFailure::InvalidApiKey)
        } else {
            Ok(())
        },
    }
}

/// Checks the key of a request that registers a device.
pub fn authorize_registration(vault: &ApiKeyVault, api_key: Option<&str>) -> (r: Result<
    (),
    AuthFailure,
>)
    ensures
        r == registration_allowed(vault@, shown(api_key)),
{
    match ApiKey::check(Some(vault), api_key) {
        Err(e) => Err(
            match e.auth_failure() {
                Some(failure) => failure,
                None => AuthFailure::InvalidApiKey,
            },
        ),
        Ok(_) => Ok(()),
    }
}

} // verus!
