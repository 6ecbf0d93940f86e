//! From a section of the snapshot to the row that stores it.
//!
//! Every function here builds a row with its key and its foreign keys 0.
//! Counters and durations are stored saturating (see `coerce`); texts and
//! bit patterns are stored as they are.

use vstd::prelude::*;
use crate::coerce::{count_to_i32, counter_to_i64, fits_i32, fits_i64, stored_i32, stored_i64};
use crate::models;
use crate::tables::cpu::{CpuCoreLoad, CpuInformation, CpuLoad};
use crate::tables::network::{NetworkAddress, NetworkAddressView, NetworkStatistic, NetworkView};
use crate::tables::system::{
    BatteryLife, FilesystemInfo, FilesystemInfoView, LoadAverage, MemoryInfo, OsInfo, OsInfoView,
    SocketStatistic, SwapInfo, SystemInformation, SystemInformationView,
};
use crate::text::clone_opt_text;
use crate::timestamp::Timestamp;

verus! {

/// The root row of a snapshot of the device `profile_id`, taken in at `created`.
pub open spec fn root_row(
    hostname: Seq<char>,
    uptime: u64,
    boot_time: Timestamp,
    profile_id: i32,
    created: Timestamp,
) -> SystemInformationView {
    SystemInformationView {
        id_system_information: 0,
        device_profile_id: profile_id,
        hostname: hostname,
        uptime: stored_i64(uptime),
        boot_time: boot_time,
        create_date: created,
    }
}

pub open spec fn os_row(os: models::OperatingSystemView) -> OsInfoView {
    OsInfoView {
        id_os_info: 0,
        system_information_id: 0,
        os_type: os.os_type,
        version: os.version,
        edition: os.edition,
        codename: os.codename,
        bitness: os.bitness,
        architecture: os.architecture,
    }
}

pub open spec fn load_average_row(avg: models::LoadAverage) -> LoadAverage {
    LoadAverage {
        id_load_average: 0,
        system_information_id: 0,
        one: avg.one,
        five: avg.five,
        fifteen: avg.fifteen,
    }
}

pub open spec fn memory_row(memory: models::Memory) -> MemoryInfo {
    MemoryInfo {
        id_memory_info: 0,
        system_information_id: 0,
        free: stored_i64(memory.free),
        total: stored_i64(memory.total),
    }
}

pub open spec fn swap_row(swap: models::Swap) -> SwapInfo {
    SwapInfo {
        id_swap_info: 0,
        system_information_id: 0,
        free: stored_i64(swap.free),
        total: stored_i64(swap.total),
    }
}

pub open spec fn battery_row(battery: models::BatteryLife) -> BatteryLife {
    BatteryLife {
        id_battery_life: 0,
        system_information_id: 0,
        remaining_capacity: battery.remaining_capacity,
        remaining_time: stored_i64(battery.remaining_time),
    }
}

/// The row of a mount.  The table has no column for the number of file
/// nodes available to unprivileged users, so that number is not stored.
pub open spec fn mount_row(mount: models::FilesystemView) -> FilesystemInfoView {
    FilesystemInfoView {
        id_filesystem_info: 0,
        system_information_id: 0,
        files: stored_i32(mount.files),
        files_total: stored_i32(mount.files_total),
        free: stored_i64(mount.free),
        avail: stored_i64(mount.avail),
        total: stored_i64(mount.total),
        name_max: stored_i32(mount.name_max),
        fs_type: mount.fs_type,
        fs_mounted_from: mount.fs_mounted_from,
        fs_mounted_on: mount.fs_mounted_on,
    }
}

pub open spec fn socket_row(sockets: models::SocketStatistics) -> SocketStatistic {
    SocketStatistic {
        id_socket_statistics: 0,
        system_information_id: 0,
        tcp_sockets_in_use: stored_i32(sockets.tcp_sockets_in_use),
        tcp_sockets_orphaned: stored_i32(sockets.tcp_sockets_orphaned),
        udp_sockets_in_use: stored_i32(sockets.udp_sockets_in_use),
        tcp6_sockets_in_use: stored_i32(sockets.tcp6_sockets_in_use),
        udp6_sockets_in_use: stored_i32(sockets.udp6_sockets_in_use),
    }
}

pub open spec fn cpu_load_row(load: models::CpuLoad) -> CpuLoad {
    CpuLoad {
        id_cpu_load: 0,
        user: load.user,
        nice: load.nice,
        system: load.system,
        interrupt: load.interrupt,
        idle: load.idle,
    }
}

pub open spec fn cpu_row(temperature: u32) -> CpuInformation {
    CpuInformation {
        id_cpu_information: 0,
        system_information_id: 0,
        temperature: temperature,
        aggregate_load_id: 0,
    }
}

pub open spec fn join_row() -> CpuCoreLoad {
    CpuCoreLoad { id_cpu_core_load: 0, cpu_information_id: 0, cpu_load_id: 0 }
}

/// The row of an interface, named by the key the device reported it under.
pub open spec fn network_row(interface: Seq<char>) -> NetworkView {
    NetworkView { id_network: 0, system_information_id: 0, name: interface }
}

/// An address as the address table stores it: nothing for an empty
/// address, the word `Unsupported` for one of a family the collector does
/// not know, and else the address as it is written.
pub open spec fn address_text(ip: models::IpAddressView) -> Seq<char> {
    match ip {
        models::IpAddressView::Empty => Seq::<char>::empty(),
        models::IpAddressView::Unsupported => "Unsupported"@,
        models::IpAddressView::V4(a) => a,
        models::IpAddressView::V6(a) => a,
    }
}

pub open spec fn address_row(address: models::NetworkAddressView) -> NetworkAddressView {
    NetworkAddressView {
        id_network_address: 0,
        network_id: 0,
        address: address_text(address.addr),
        netmask: address_text(address.netmask),
    }
}

pub open spec fn statistics_row(counters: models::NetworkStatistics) -> NetworkStatistic {
    NetworkStatistic {
        id_network_statistics: 0,
        system_information_id: 0,
        network_id: 0,
        rx_bytes: stored_i64(counters.rx_bytes),
        tx_bytes: stored_i64(counters.tx_bytes),
        rx_packages: stored_i64(counters.rx_packets),
        tx_packages: stored_i64(counters.tx_packets),
        rx_errors: stored_i64(counters.rx_errors),
        tx_errors: stored_i64(counters.tx_errors),
    }
}

/// The root row of a snapshot whose host name decoded to `hostname`.
pub fn system_information_row(
    info: &models::SystemInformation,
    hostname: &str,
    profile_id: i32,
    created: Timestamp,
) -> (r: SystemInformation)
    ensures
        r@ == root_row(hostname@, info.uptime, info.boot_time, profile_id, created),
{
    SystemInformation::new(
        profile_id,
        hostname,
        counter_to_i64(info.uptime),
        info.boot_time,
        created,
    )
}

pub fn os_info_row(os: &models::OperatingSystem) -> (r: OsInfo)
    ensures
        r@ == os_row(os@),
{
    OsInfo::new(
        0,
        os.os_type.as_str(),
        os.version.as_str(),
        clone_opt_text(&os.edition),
        clone_opt_text(&os.codename),
        os.bitness.as_str(),
        clone_opt_text(&os.architecture),
    )
}

pub fn load_average(avg: &models::LoadAverage) -> (r: LoadAverage)
    ensures
        r == load_average_row(*avg),
{
    LoadAverage::new(0, avg.one, avg.five, avg.fifteen)
}

pub fn memory_info_row(memory: &models::Memory) -> (r: MemoryInfo)
    ensures
        r == memory_row(*memory),
{
    MemoryInfo::new(0, counter_to_i64(memory.free), counter_to_i64(memory.total))
}

pub fn swap_info_row(swap: &models::Swap) -> (r: SwapInfo)
    ensures
        r == swap_row(*swap),
{
    SwapInfo::new(0, counter_to_i64(swap.free), counter_to_i64(swap.total))
}

pub fn battery_life_row(battery: &models::BatteryLife) -> (r: BatteryLife)
    ensures
        r == battery_row(*battery),
{
    BatteryLife::new(0, battery.remaining_capacity, counter_to_i64(battery.remaining_time))
}

pub fn filesystem_info_row(mount: &models::Filesystem) -> (r: FilesystemInfo)
    ensures
        r@ == mount_row(mount@),
{
    FilesystemInfo::new(
        0,
        count_to_i32(mount.files),
        count_to_i32(mount.files_total),
        counter_to_i64(mount.free),
        counter_to_i64(mount.avail),
        counter_to_i64(mount.total),
        count_to_i32(mount.name_max),
        mount.fs_type.as_str(),
        mount.fs_mounted_from.as_str(),
        mount.fs_mounted_on.as_str(),
    )
}

pub fn socket_statistic_row(sockets: &models::SocketStatistics) -> (r: SocketStatistic)
    ensures
        r == socket_row(*sockets),
{
    SocketStatistic::new(
        0,
        count_to_i32(sockets.tcp_sockets_in_use),
        count_to_i32(sockets.tcp_sockets_orphaned),
        count_to_i32(sockets.udp_sockets_in_use),
        count_to_i32(sockets.tcp6_sockets_in_use),
        count_to_i32(sockets.udp6_sockets_in_use),
    )
}

pub fn cpu_load(load: &models::CpuLoad) -> (r: CpuLoad)
    ensures
        r == cpu_load_row(*load),
{
    CpuLoad::new(load.user, load.nice, load.system, load.interrupt, load.idle)
}

/// An address as the address table stores it.
pub fn ip_to_string(ip: &models::IpAddress) -> (r: String)
    ensures
        r@ == address_text(ip@),
{
    match ip {
        models::IpAddress::Empty => String::new(),
        models::IpAddress::Unsupported => "Unsupported".to_owned(),
        models::IpAddress::V4(a) => a.clone(),
        models::IpAddress::V6(a) => a.clone(),
    }
}

pub fn network_address_row(address: &models::NetworkAddress) -> (r: NetworkAddress)
    ensures
        r@ == address_row(address@),
{
    let addr = ip_to_string(&address.addr);
    let netmask = ip_to_string(&address.netmask);
    NetworkAddress::new(0, addr.as_str(), netmask.as_str())
}

pub fn network_statistic_row(counters: &models::NetworkStatistics) -> (r: NetworkStatistic)
    ensures
        r == statistics_row(*counters),
{
    NetworkStatistic::new(
        0,
        0,
        counter_to_i64(counters.rx_bytes),
        counter_to_i64(counters.tx_bytes),
        counter_to_i64(counters.rx_packets),
        counter_to_i64(counters.tx_packets),
        counter_to_i64(counters.rx_errors),
        counter_to_i64(counters.tx_errors),
    )
}

/// A count or counter of the mount is above what its column holds.
pub open spec fn mount_exceeds(mount: models::FilesystemView) -> bool {
    mount.files > i32::MAX || mount.files_total > i32::MAX || mount.name_max > i32::MAX || mount.free
        > i64::MAX || mount.avail > i64::MAX || mount.total > i64::MAX
}

/// A counter of the interface is above what its column holds.
pub open spec fn counters_exceed(counters: models::NetworkStatistics) -> bool {
    counters.rx_bytes > i64::MAX || counters.tx_bytes > i64::MAX || counters.rx_packets > i64::MAX
        || counters.tx_packets > i64::MAX || counters.rx_errors > i64::MAX || counters.tx_errors
        > i64::MAX
}

/// A count of sockets is above what its column holds.
pub open spec fn sockets_exceed(sockets: models::SocketStatistics) -> bool {
    sockets.tcp_sockets_in_use > i32::MAX || sockets.tcp_sockets_orphaned > i32::MAX
        || sockets.udp_sockets_in_use > i32::MAX || sockets.tcp6_sockets_in_use > i32::MAX
        || sockets.udp6_sockets_in_use > i32::MAX
}

pub open spec fn some_mount_exceeds(mounts: Seq<models::FilesystemView>) -> bool {
    exists|i: int| 0 <= i < mounts.len() && mount_exceeds(#[trigger] mounts[i])
}

pub open spec fn some_counters_exceed(table: Seq<models::NetworkStatisticsEntryView>) -> bool {
    exists|i: int| 0 <= i < table.len() && counters_exceed((#[trigger] table[i]).statistics)
}

/// Some count, counter or duration of the snapshot is above what its
/// column holds, and so is stored as the largest value of the column.
pub open spec fn exceeds_storage(info: models::SystemInformationView) -> bool {
    ||| info.uptime > i64::MAX
    ||| (info.memory matches Some(m) && (m.free > i64::MAX || m.total > i64::MAX))
    ||| (info.swap matches Some(s) && (s.free > i64::MAX || s.total > i64::MAX))
    ||| (info.battery_life matches Some(b) && b.remaining_time > i64::MAX)
    ||| (info.socket_stats matches Some(s) && sockets_exceed(s))
    ||| some_mount_exceeds(info.mounts)
    ||| some_counters_exceed(info.net_stats)
}

fn any_mount_exceeds(mounts: &Vec<models::Filesystem>) -> (r: bool)
    ensures
        r == some_mount_exceeds(models::mounts_view(mounts@)),
{
    let mut i: usize = 0;
    while i < mounts.len()
        invariant
            i <= mounts.len(),
            forall|j: int| 0 <= j < i ==> !mount_exceeds(#[trigger] models::mounts_view(mounts@)[j]),
        decreases mounts.len() - i,
    {
        let m = &mounts[i];
        if !fits_i32(m.files) || !fits_i32(m.files_total) || !fits_i32(m.name_max) || !fits_i64(m.free)
            || !fits_i64(m.avail) || !fits_i64(m.total) {
            proof {
                assert(mount_exceeds(models::mounts_view(mounts@)[i as int]));
            }
            return true;
        }
        i = i + 1;
    }
    false
}

fn any_counters_exceed(table: &Vec<models::NetworkStatisticsEntry>) -> (r: bool)
    ensures
        r == some_counters_exceed(models::net_stats_view(table@)),
{
    let mut i: usize = 0;
    while i < table.len()
        invariant
            i <= table.len(),
            forall|j: int|
                0 <= j < i ==> !counters_exceed((#[trigger] models::net_stats_view(table@)[j]).statistics),
        decreases table.len() - i,
    {
        let c = &table[i].statistics;
        if !fits_i64(c.rx_bytes) || !fits_i64(c.tx_bytes) || !fits_i64(c.rx_packets) || !fits_i64(
            c.tx_packets,
        ) || !fits_i64(c.rx_errors) || !fits_i64(c.tx_errors) {
            proof {
                assert(counters_exceed(models::net_stats_view(table@)[i as int].statistics));
            }
            return true;
        }
        i = i + 1;
    }
    false
}

/// Whether the snapshot holds a value that is stored saturated.  The
/// snapshot is stored all the same; the caller may want to tell.
pub fn saturates(info: &models::SystemInformation) -> (r: bool)
    ensures
        r == exceeds_storage(info@),
{
    if !fits_i64(info.uptime) {
        return true;
    }
    if let Some(m) = &info.memory {
        if !fits_i64(m.free) || !fits_i64(m.total) {
            return true;
        }
    }
    if let Some(s) = &info.swap {
        if !fits_i64(s.free) || !fits_i64(s.total) {
            return true;
        }
    }
    if let Some(b) = &info.battery_life {
        if !fits_i64(b.remaining_time) {
            return true;
        }
    }
    if let Some(s) = &info.socket_stats {
        if !fits_i32(s.tcp_sockets_in_use) || !fits_i32(s.tcp_sockets_orphaned) || !fits_i32(
            s.udp_sockets_in_use,
        ) || !fits_i32(s.tcp6_sockets_in_use) || !fits_i32(s.udp6_sockets_in_use) {
            return true;
        }
    }
    if any_mount_exceeds(&info.mounts) {
        return true;
    }
    any_counters_exceed(&info.net_stats)
}

} // verus!
