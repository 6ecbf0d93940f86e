//! The snapshot root and the rows that hang directly from it.

use vstd::prelude::*;
use crate::text::{clone_opt_text, opt_text};
use crate::timestamp::Timestamp;

verus! {

/// The root row of a snapshot: one per successful ingestion.
#[derive(Debug, PartialEq, Eq)]
pub struct SystemInformation {
    pub id_system_information: i32,
    pub device_profile_id: i32,
    pub hostname: String,
    pub uptime: i64,
    pub boot_time: Timestamp,
    pub create_date: Timestamp,
}

pub struct SystemInformationView {
    pub id_system_information: i32,
    pub device_profile_id: i32,
    pub hostname: Seq<char>,
    pub uptime: i64,
    pub boot_time: Timestamp,
    pub create_date: Timestamp,
}

impl View for SystemInformation {
    type V = SystemInformationView;

    open spec fn view(&self) -> SystemInformationView {
        SystemInformationView {
            id_system_information: self.id_system_information,
            device_profile_id: self.device_profile_id,
            hostname: self.hostname@,
            uptime: self.uptime,
            boot_time: self.boot_time,
            create_date: self.create_date,
        }
    }
}

impl SystemInformation {
    /// A row that is not stored yet: its key is 0.
    pub fn new(
        device_profile_id: i32,
        hostname: &str,
        uptime: i64,
        boot_time: Timestamp,
        create_date: Timestamp,
    ) -> (r: Self)
        ensures
            r@ == (SystemInformationView {
                id_system_information: 0,
                device_profile_id,
                hostname: hostname@,
                uptime,
                boot_time,
                create_date,
            }),
    {
        SystemInformation {
            id_system_information: 0,
            device_profile_id,
            hostname: hostname.to_owned(),
            uptime,
            boot_time,
            create_date,
        }
    }

    /// The row as stored, under the key that the storage generated.
    pub fn with_id(self, id: i32) -> (r: Self)
        ensures
            r@ == (SystemInformationView { id_system_information: id, ..self@ }),
    {
        SystemInformation {
            id_system_information: id,
            device_profile_id: self.device_profile_id,
            hostname: self.hostname,
            uptime: self.uptime,
            boot_time: self.boot_time,
            create_date: self.create_date,
        }
    }
}

impl Clone for SystemInformation {
    fn clone(&self) -> (r: Self)
        ensures
            r@ == self@,
    {
        SystemInformation {
            id_system_information: self.id_system_information,
            device_profile_id: self.device_profile_id,
            hostname: self.hostname.clone(),
            uptime: self.uptime,
            boot_time: self.boot_time,
            create_date: self.create_date,
        }
    }
}

/// Operating-system facts of a snapshot.
#[derive(Debug, PartialEq, Eq)]
pub struct OsInfo {
    pub id_os_info: i32,
    pub system_information_id: i32,
    pub os_type: String,
    pub version: String,
    pub edition: Option<String>,
    pub codename: Option<String>,
    pub bitness: String,
    pub architecture: Option<String>,
}

pub struct OsInfoView {
    pub id_os_info: i32,
    pub system_information_id: i32,
    pub os_type: Seq<char>,
    pub version: Seq<char>,
    pub edition: Option<Seq<char>>,
    pub codename: Option<Seq<char>>,
    pub bitness: Seq<char>,
    pub architecture: Option<Seq<char>>,
}

impl View for OsInfo {
    type V = OsInfoView;

    open spec fn view(&self) -> OsInfoView {
        OsInfoView {
            id_os_info: self.id_os_info,
            system_information_id: self.system_information_id,
            os_type: self.os_type@,
            version: self.version@,
            edition: opt_text(self.edition),
            codename: opt_text(self.codename),
            bitness: self.bitness@,
            architecture: opt_text(self.architecture),
        }
    }
}

impl OsInfo {
    /// A row that is not stored yet: its key is 0.
    pub fn new(
        system_information_id: i32,
        os_type: &str,
        version: &str,
        edition: Option<String>,
        codename: Option<String>,
        bitness: &str,
        architecture: Option<String>,
    ) -> (r: Self)
        ensures
            r@ == (OsInfoView {
                id_os_info: 0,
                system_information_id,
                os_type: os_type@,
                version: version@,
                edition: opt_text(edition),
                codename: opt_text(codename),
                bitness: bitness@,
                architecture: opt_text(architecture),
            }),
    {
        OsInfo {
            id_os_info: 0,
            system_information_id,
            os_type: os_type.to_owned(),
            version: version.to_owned(),
            edition,
            codename,
            bitness: bitness.to_owned(),
            architecture,
        }
    }

    /// The row as stored, under the key that the storage generated.
    pub fn with_id(self, id: i32) -> (r: Self)
        ensures
            r@ == (OsInfoView { id_os_info: id, ..self@ }),
    {
        OsInfo {
            id_os_info: id,
            system_information_id: self.system_information_id,
            os_type: self.os_type,
            version: self.version,
            edition: self.edition,
            codename: self.codename,
            bitness: self.bitness,
            architecture: self.architecture,
        }
    }
}

impl Clone for OsInfo {
    fn clone(&self) -> (r: Self)
        ensures
            r@ == self@,
    {
        OsInfo {
            id_os_info: self.id_os_info,
            system_information_id: self.system_information_id,
            os_type: self.os_type.clone(),
            version: self.version.clone(),
            edition: clone_opt_text(&self.edition),
            codename: clone_opt_text(&self.codename),
            bitness: self.bitness.clone(),
            architecture: clone_opt_text(&self.architecture),
        }
    }
}

/// Load averages of a snapshot, as single-precision bit patterns.
#[derive(Clone, Copy, Debug, PartialEq, Eq, Structural)]
pub struct LoadAverage {
    pub id_load_average: i32,
    pub system_information_id: i32,
    pub one: u32,
    pub five: u32,
    pub fifteen: u32,
}

impl LoadAverage {
    /// A row that is not stored yet: its key is 0.
    pub fn new(system_information_id: i32, one: u32, five: u32, fifteen: u32) -> (r: Self)
        ensures
            r == (LoadAverage {
                id_load_average: 0,
                system_information_id,
                one,
                five,
                fifteen,
            }),
    {
        LoadAverage {
            id_load_average: 0,
            system_information_id,
            one,
            five,
            fifteen,
        }
    }

    /// The row as stored, under the key that the storage generated.
    pub fn with_id(self, id: i32) -> (r: Self)
        ensures
            r == (LoadAverage { id_load_average: id, ..self }),
    {
        LoadAverage {
            id_load_average: id,
            system_information_id: self.system_information_id,
            one: self.one,
            five: self.five,
            fifteen: self.fifteen,
        }
    }
}

/// Main memory of a snapshot, in bytes.
#[derive(Clone, Copy, Debug, PartialEq, Eq, Structural)]
pub struct MemoryInfo {
    pub id_memory_info: i32,
    pub system_information_id: i32,
    pub free: i64,
    pub total: i64,
}

impl MemoryInfo {
    /// A row that is not stored yet: its key is 0.
    pub fn new(system_information_id: i32, free: i64, total: i64) -> (r: Self)
        ensures
            r == (MemoryInfo {
                id_memory_info: 0,
                system_information_id,
                free,
                total,
            }),
    {
        MemoryInfo {
            id_memory_info: 0,
            system_information_id,
            free,
            total,
        }
    }

    /// The row as stored, under the key that the storage generated.
    pub fn with_id(self, id: i32) -> (r: Self)
        ensures
            r == (MemoryInfo { id_memory_info: id, ..self }),
    {
        MemoryInfo {
            id_memory_info: id,
            system_information_id: self.system_information_id,
            free: self.free,
            total: self.total,
        }
    }
}

/// Swap space of a snapshot, in bytes.
#[derive(Clone, Copy, Debug, PartialEq, Eq, Structural)]
pub struct SwapInfo {
    pub id_swap_info: i32,
    pub system_information_id: i32,
    pub free: i64,
    pub total: i64,
}

impl SwapInfo {
    /// A row that is not stored yet: its key is 0.
    pub fn new(system_information_id: i32, free: i64, total: i64) -> (r: Self)
        ensures
            r == (SwapInfo {
                id_swap_info: 0,
                system_information_id,
                free,
                total,
            }),
    {
        SwapInfo {
            id_swap_info: 0,
            system_information_id,
            free,
            total,
        }
    }

    /// The row as stored, under the key that the storage generated.
    pub fn with_id(self, id: i32) -> (r: Self)
        ensures
            r == (SwapInfo { id_swap_info: id, ..self }),
    {
        SwapInfo {
            id_swap_info: id,
            system_information_id: self.system_information_id,
            free: self.free,
            total: self.total,
        }
    }
}

/// Battery state of a snapshot: charge as a bit pattern, time left in seconds.
#[derive(Clone, Copy, Debug, PartialEq, Eq, Structural)]
pub struct BatteryLife {
    pub id_battery_life: i32,
    pub system_information_id: i32,
    pub remaining_capacity: u32,
    pub remaining_time: i64,
}

impl BatteryLife {
    /// A row that is not stored yet: its key is 0.
    pub fn new(
        system_information_id: i32,
        remaining_capacity: u32,
        remaining_time: i64,
    ) -> (r: Self)
        ensures
            r == (BatteryLife {
                id_battery_life: 0,
                system_information_id,
                remaining_capacity,
                remaining_time,
            }),
    {
        BatteryLife {
            id_battery_life: 0,
            system_information_id,
            remaining_capacity,
            remaining_time,
        }
    }

    /// The row as stored, under the key that the storage generated.
    pub fn with_id(self, id: i32) -> (r: Self)
        ensures
            r == (BatteryLife { id_battery_life: id, ..self }),
    {
        BatteryLife {
            id_battery_life: id,
            system_information_id: self.system_information_id,
            remaining_capacity: self.remaining_capacity,
            remaining_time: self.remaining_time,
        }
    }
}

/// One mounted filesystem of a snapshot.
#[derive(Debug, PartialEq, Eq)]
pub struct FilesystemInfo {
    pub id_filesystem_info: i32,
    pub system_information_id: i32,
    pub files: i32,
    pub files_total: i32,
    pub free: i64,
    pub avail: i64,
    pub total: i64,
    pub name_max: i32,
    pub fs_type: String,
    pub fs_mounted_from: String,
    pub fs_mounted_on: String,
}

pub struct FilesystemInfoView {
    pub id_filesystem_info: i32,
    pub system_information_id: i32,
    pub files: i32,
    pub files_total: i32,
    pub free: i64,
    pub avail: i64,
    pub total: i64,
    pub name_max: i32,
    pub fs_type: Seq<char>,
    pub fs_mounted_from: Seq<char>,
    pub fs_mounted_on: Seq<char>,
}

impl View for FilesystemInfo {
    type V = FilesystemInfoView;

    open spec fn view(&self) -> FilesystemInfoView {
        FilesystemInfoView {
            id_filesystem_info: self.id_filesystem_info,
            system_information_id: self.system_information_id,
            files: self.files,
            files_total: self.files_total,
            free: self.free,
            avail: self.avail,
            total: self.total,
            name_max: self.name_max,
            fs_type: self.fs_type@,
            fs_mounted_from: self.fs_mounted_from@,
            fs_mounted_on: self.fs_mounted_on@,
        }
    }
}

impl FilesystemInfo {
    /// A row that is not stored yet: its key is 0.
    pub fn new(
        system_information_id: i32,
        files: i32,
        files_total: i32,
        free: i64,
        avail: i64,
        total: i64,
        name_max: i32,
        fs_type: &str,
        fs_mounted_from: &str,
        fs_mounted_on: &str,
    ) -> (r: Self)
        ensures
            r@ == (FilesystemInfoView {
                id_filesystem_info: 0,
                system_information_id,
                files,
                files_total,
                free,
                avail,
                total,
                name_max,
                fs_type: fs_type@,
                fs_mounted_from: fs_mounted_from@,
                fs_mounted_on: fs_mounted_on@,
            }),
    {
        FilesystemInfo {
            id_filesystem_info: 0,
            system_information_id,
            files,
            files_total,
            free,
            avail,
            total,
            name_max,
            fs_type: fs_type.to_owned(),
            fs_mounted_from: fs_mounted_from.to_owned(),
            fs_mounted_on: fs_mounted_on.to_owned(),
        }
    }

    /// The row as stored, under the key that the storage generated.
    pub fn with_id(self, id: i32) -> (r: Self)
        ensures
            r@ == (FilesystemInfoView { id_filesystem_info: id, ..self@ }),
    {
        FilesystemInfo {
            id_filesystem_info: id,
            system_information_id: self.system_information_id,
            files: self.files,
            files_total: self.files_total,
            free: self.free,
            avail: self.avail,
            total: self.total,
            name_max: self.name_max,
            fs_type: self.fs_type,
            fs_mounted_from: self.fs_mounted_from,
            fs_mounted_on: self.fs_mounted_on,
        }
    }
}

impl Clone for FilesystemInfo {
    fn clone(&self) -> (r: Self)
        ensures
            r@ == self@,
    {
        FilesystemInfo {
            id_filesystem_info: self.id_filesystem_info,
            system_information_id: self.system_information_id,
            files: self.files,
            files_total: self.files_total,
            free: self.free,
            avail: self.avail,
            total: self.total,
            name_max: self.name_max,
            fs_type: self.fs_type.clone(),
            fs_mounted_from: self.fs_mounted_from.clone(),
            fs_mounted_on: self.fs_mounted_on.clone(),
        }
    }
}

/// Sockets in use at a snapshot, by protocol.
#[derive(Clone, Copy, Debug, PartialEq, Eq, Structural)]
pub struct SocketStatistic {
    pub id_socket_statistics: i32,
    pub system_information_id: i32,
    pub tcp_sockets_in_use: i32,
    pub tcp_sockets_orphaned: i32,
    pub udp_sockets_in_use: i32,
    pub tcp6_sockets_in_use: i32,
    pub udp6_sockets_in_use: i32,
}

impl SocketStatistic {
    /// A row that is not stored yet: its key is 0.
    pub fn new(
        system_information_id: i32,
        tcp_sockets_in_use: i32,
        tcp_sockets_orphaned: i32,
        udp_sockets_in_use: i32,
        tcp6_sockets_in_use: i32,
        udp6_sockets_in_use: i32,
    ) -> (r: Self)
        ensures
            r == (SocketStatistic {
                id_socket_statistics: 0,
                system_information_id,
                tcp_sockets_in_use,
                tcp_sockets_orphaned,
                udp_sockets_in_use,
                tcp6_sockets_in_use,
                udp6_sockets_in_use,
            }),
    {
        SocketStatistic {
            id_socket_statistics: 0,
            system_information_id,
            tcp_sockets_in_use,
            tcp_sockets_orphaned,
            udp_sockets_in_use,
            tcp6_sockets_in_use,
            udp6_sockets_in_use,
        }
    }

    /// The row as stored, under the key that the storage generated.
    pub fn with_id(self, id: i32) -> (r: Self)
        ensures
            r == (SocketStatistic { id_socket_statistics: id, ..self }),
    {
        SocketStatistic {
            id_socket_statistics: id,
            system_information_id: self.system_information_id,
            tcp_sockets_in_use: self.tcp_sockets_in_use,
            tcp_sockets_orphaned: self.tcp_sockets_orphaned,
            udp_sockets_in_use: self.udp_sockets_in_use,
            tcp6_sockets_in_use: self.tcp6_sockets_in_use,
            udp6_sockets_in_use: self.udp6_sockets_in_use,
        }
    }
}
} // verus!
