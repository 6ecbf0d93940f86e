//! Rows of the device registry and of the error log.

use vstd::prelude::*;
use crate::timestamp::Timestamp;

verus! {

/// A registered device: its name, its secret key and who registered it.
/// The ingestion path never changes or deletes one.
#[derive(Debug, PartialEq, Eq)]
pub struct DeviceProfile {
    pub id_device_profile: i32,
    pub device_name: String,
    pub profile_key: String,
    pub create_user: i64,
    pub create_date: Timestamp,
    pub modify_user: Option<i64>,
    pub modify_date: Option<Timestamp>,
}

pub struct DeviceProfileView {
    pub id_device_profile: i32,
    pub device_name: Seq<char>,
    pub profile_key: Seq<char>,
    pub create_user: i64,
    pub create_date: Timestamp,
    pub modify_user: Option<i64>,
    pub modify_date: Option<Timestamp>,
}

impl View for DeviceProfile {
    type V = DeviceProfileView;

    open spec fn view(&self) -> DeviceProfileView {
        DeviceProfileView {
            id_device_profile: self.id_device_profile,
            device_name: self.device_name@,
            profile_key: self.profile_key@,
            create_user: self.create_user,
            create_date: self.create_date,
            modify_user: self.modify_user,
            modify_date: self.modify_date,
        }
    }
}

impl DeviceProfile {
    /// A row that is not stored yet: its key is 0.
    pub fn new(
        device_name: &str,
        profile_key: &str,
        create_user: i64,
        create_date: Timestamp,
    ) -> (r: Self)
        ensures
            r@ == (DeviceProfileView {
                id_device_profile: 0,
                device_name: device_name@,
                profile_key: profile_key@,
                create_user,
                create_date,
                modify_user: None,
                modify_date: None,
            }),
    {
        DeviceProfile {
            id_device_profile: 0,
            device_name: device_name.to_owned(),
            profile_key: profile_key.to_owned(),
            create_user,
            create_date,
            modify_user: None,
            modify_date: None,
        }
    }

    /// The row as stored, under the key that the storage generated.
    pub fn with_id(self, id: i32) -> (r: Self)
        ensures
            r@ == (DeviceProfileView { id_device_profile: id, ..self@ }),
    {
        DeviceProfile {
            id_device_profile: id,
            device_name: self.device_name,
            profile_key: self.profile_key,
            create_user: self.create_user,
            create_date: self.create_date,
            modify_user: self.modify_user,
            modify_date: self.modify_date,
        }
    }
}

impl Clone for DeviceProfile {
    fn clone(&self) -> (r: Self)
        ensures
            r@ == self@,
    {
        DeviceProfile {
            id_device_profile: self.id_device_profile,
            device_name: self.device_name.clone(),
            profile_key: self.profile_key.clone(),
            create_user: self.create_user,
            create_date: self.create_date,
            modify_user: self.modify_user,
            modify_date: self.modify_date,
        }
    }
}

/// An entry of a device's error log.
#[derive(Debug, PartialEq, Eq)]
pub struct ErrorLog {
    pub id_error_log: i32,
    pub device_profile_id: i32,
    pub message: String,
    pub create_date: Timestamp,
}

pub struct ErrorLogView {
    pub id_error_log: i32,
    pub device_profile_id: i32,
    pub message: Seq<char>,
    pub create_date: Timestamp,
}

impl View for ErrorLog {
    type V = ErrorLogView;

    open spec fn view(&self) -> ErrorLogView {
        ErrorLogView {
            id_error_log: self.id_error_log,
            device_profile_id: self.device_profile_id,
            message: self.message@,
            create_date: self.create_date,
        }
    }
}

impl ErrorLog {
    /// A row that is not stored yet: its key is 0.
    pub fn new(device_profile_id: i32, message: &str, create_date: Timestamp) -> (r: Self)
        ensures
            r@ == (ErrorLogView {
                id_error_log: 0,
                device_profile_id,
                message: message@,
                create_date,
            }),
    {
        ErrorLog {
            id_error_log: 0,
            device_profile_id,
            message: message.to_owned(),
            create_date,
        }
    }

    /// The row as stored, under the key that the storage generated.
    pub fn with_id(self, id: i32) -> (r: Self)
        ensures
            r@ == (ErrorLogView { id_error_log: id, ..self@ }),
    {
        ErrorLog {
            id_error_log: id,
            device_profile_id: self.device_profile_id,
            message: self.message,
            create_date: self.create_date,
        }
    }
}

impl Clone for ErrorLog {
    fn clone(&self) -> (r: Self)
        ensures
            r@ == self@,
    {
        ErrorLog {
            id_error_log: self.id_error_log,
            device_profile_id: self.device_profile_id,
            message: self.message.clone(),
            create_date: self.create_date,
        }
    }
}
} // verus!
