//! The smaller operations of the service: the version text, the error
//! log, registration and the list of profiles.  Each function here is the
//! deciding part of an operation; asking the storage is the caller's.

use vstd::prelude::*;
use vstd::string::StringExecFns;
use crate::auth::Credentials;
use crate::models::InsertDeviceProfile;
use crate::response::{Failure, Status};
use crate::tables::registry::{DeviceProfile, DeviceProfileView, ErrorLog, ErrorLogView};
use crate::timestamp::Timestamp;
use crate::writer::StorageError;

verus! {

/// The text that the root of the service answers with: the name of the
/// service, ` v.` and its version.
pub fn version_text(name: &str, version: &str) -> (r: String)
    ensures
        r@ == name@ + " v."@ + version@,
{
    let text = name.to_owned();
    let text = text.concat(" v.");
    text.concat(version)
}

/// The status of a request for the latest snapshot of a device, given
/// what its authentication came to.  A request that was not authenticated
/// is answered with the status of its failure; for one that was, reading
/// snapshots is not implemented.
pub fn latest_entry_status(authenticated: &Result<Credentials, Failure>) -> (r: Status)
    ensures
        r == (match *authenticated {
            Ok(_) => Status::NotImplemented,
            Err(failure) => failure.status_of(),
        }),
{
    match authenticated {
        Ok(_) => Status::NotImplemented,
        Err(failure) => failure.status(),
    }
}

/// The entry that an authenticated device appends to its error log.
pub fn error_log_row(credentials: Credentials, message: &str, now: Timestamp) -> (r: ErrorLog)
    ensures
        r@ == (ErrorLogView {
            id_error_log: 0,
            device_profile_id: credentials.profile_id,
            message: message@,
            create_date: now,
        }),
{
    ErrorLog::new(credentials.profile_id, message, now)
}

/// The profile that a registration request asks to store.
pub fn profile_row(body: &InsertDeviceProfile, now: Timestamp) -> (r: DeviceProfile)
    ensures
        r@ == (DeviceProfileView {
            id_device_profile: 0,
            device_name: body.device_name@,
            profile_key: body.profile_key@,
            create_user: body.create_user,
            create_date: now,
            modify_user: None,
            modify_date: None,
        }),
{
    DeviceProfile::new(body.device_name.as_str(), body.profile_key.as_str(), body.create_user, now)
}

/// The status of an operation that is one access to the storage: 200
/// where the storage answered, 500 where it failed.
pub fn storage_status<T>(answer: &Result<T, StorageError>) -> (r: Status)
    ensures
        r == (if answer is Ok {
            Status::Success
        } else {
            Status::InternalServerError
        }),
{
    match answer {
        Ok(_) => Status::Success,
        Err(_) => Status::InternalServerError,
    }
}

} // verus!
