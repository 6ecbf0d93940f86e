//! The snapshot document: one point-in-time report of a device.
//!
//! Every section but the mounts and the networks may be absent, depending on
//! what the collector on the device was asked to report.  Measurements that
//! the device takes as IEEE 754 single-precision numbers travel through the
//! library as their 32-bit patterns: nothing here computes on them.

use vstd::prelude::*;
use crate::text::opt_text;
use crate::timestamp::Timestamp;

verus! {

/// Facts of the operating system, as texts.
#[derive(Debug, PartialEq, Eq)]
pub struct OperatingSystem {
    pub os_type: String,
    pub version: String,
    pub edition: Option<String>,
    pub codename: Option<String>,
    pub bitness: String,
    pub architecture: Option<String>,
}

pub struct OperatingSystemView {
    pub os_type: Seq<char>,
    pub version: Seq<char>,
    pub edition: Option<Seq<char>>,
    pub codename: Option<Seq<char>>,
    pub bitness: Seq<char>,
    pub architecture: Option<Seq<char>>,
}

impl View for OperatingSystem {
    type V = OperatingSystemView;

    open spec fn view(&self) -> OperatingSystemView {
        OperatingSystemView {
            os_type: self.os_type@,
            version: self.version@,
            edition: opt_text(self.edition),
            codename: opt_text(self.codename),
            bitness: self.bitness@,
            architecture: opt_text(self.architecture),
        }
    }
}

/// Shares of CPU time by state, each a single-precision bit pattern.
#[derive(Clone, Copy, Debug, PartialEq, Eq, Structural)]
pub struct CpuLoad {
    pub user: u32,
    pub nice: u32,
    pub system: u32,
    pub interrupt: u32,
    pub idle: u32,
}

/// The CPU section: temperature, the load of each core, and the load of all
/// cores together.
#[derive(Debug, PartialEq, Eq)]
pub struct CpuInformation {
    pub temperature: u32,
    pub loads: Vec<CpuLoad>,
    pub aggregate_load: CpuLoad,
}

pub struct CpuInformationView {
    pub temperature: u32,
    pub loads: Seq<CpuLoad>,
    pub aggregate_load: CpuLoad,
}

impl View for CpuInformation {
    type V = CpuInformationView;

    open spec fn view(&self) -> CpuInformationView {
        CpuInformationView {
            temperature: self.temperature,
            loads: self.loads@,
            aggregate_load: self.aggregate_load,
        }
    }
}

/// Load averages over one, five and fifteen minutes, as bit patterns.
#[derive(Clone, Copy, Debug, PartialEq, Eq, Structural)]
pub struct LoadAverage {
    pub one: u32,
    pub five: u32,
    pub fifteen: u32,
}

/// Main memory, in bytes.
#[derive(Clone, Copy, Debug, PartialEq, Eq, Structural)]
pub struct Memory {
    pub total: u64,
    pub free: u64,
}

/// Swap space, in bytes.
#[derive(Clone, Copy, Debug, PartialEq, Eq, Structural)]
pub struct Swap {
    pub total: u64,
    pub free: u64,
}

/// Battery charge as a bit pattern, and the time it will last in seconds.
#[derive(Clone, Copy, Debug, PartialEq, Eq, Structural)]
pub struct BatteryLife {
    pub remaining_capacity: u32,
    pub remaining_time: u64,
}

/// One mounted filesystem.
#[derive(Debug, PartialEq, Eq)]
pub struct Filesystem {
    pub files: usize,
    pub files_total: usize,
    pub files_avail: usize,
    pub free: u64,
    pub avail: u64,
    pub total: u64,
    pub name_max: usize,
    pub fs_type: String,
    pub fs_mounted_from: String,
    pub fs_mounted_on: String,
}

pub struct FilesystemView {
    pub files: usize,
    pub files_total: usize,
    pub files_avail: usize,
    pub free: u64,
    pub avail: u64,
    pub total: u64,
    pub name_max: usize,
    pub fs_type: Seq<char>,
    pub fs_mounted_from: Seq<char>,
    pub fs_mounted_on: Seq<char>,
}

impl View for Filesystem {
    type V = FilesystemView;

    open spec fn view(&self) -> FilesystemView {
        FilesystemView {
            files: self.files,
            files_total: self.files_total,
            files_avail: self.files_avail,
            free: self.free,
            avail: self.avail,
            total: self.total,
            name_max: self.name_max,
            fs_type: self.fs_type@,
            fs_mounted_from: self.fs_mounted_from@,
            fs_mounted_on: self.fs_mounted_on@,
        }
    }
}

/// An address of an interface.  The two address families carry the address
/// in its usual written form.
#[derive(Debug, PartialEq, Eq)]
pub enum IpAddress {
    Empty,
    Unsupported,
    V4(String),
    V6(String),
}

pub enum IpAddressView {
    Empty,
    Unsupported,
    V4(Seq<char>),
    V6(Seq<char>),
}

impl View for IpAddress {
    type V = IpAddressView;

    open spec fn view(&self) -> IpAddressView {
        match self {
            IpAddress::Empty => IpAddressView::Empty,
            IpAddress::Unsupported => IpAddressView::Unsupported,
            IpAddress::V4(a) => IpAddressView::V4(a@),
            IpAddress::V6(a) => IpAddressView::V6(a@),
        }
    }
}

/// An address of an interface with its netmask.
#[derive(Debug, PartialEq, Eq)]
pub struct NetworkAddress {
    pub addr: IpAddress,
    pub netmask: IpAddress,
}

pub struct NetworkAddressView {
    pub addr: IpAddressView,
    pub netmask: IpAddressView,
}

impl View for NetworkAddress {
    type V = NetworkAddressView;

    open spec fn view(&self) -> NetworkAddressView {
        NetworkAddressView { addr: self.addr@, netmask: self.netmask@ }
    }
}

/// A network interface and its addresses.
#[derive(Debug, PartialEq, Eq)]
pub struct Network {
    pub name: String,
    pub addrs: Vec<NetworkAddress>,
}

pub struct NetworkView {
    pub name: Seq<char>,
    pub addrs: Seq<NetworkAddressView>,
}

/// The views of a sequence of addresses.
pub open spec fn addresses_view(v: Seq<NetworkAddress>) -> Seq<NetworkAddressView> {
    v.map_values(|a: NetworkAddress| a@)
}

impl View for Network {
    type V = NetworkView;

    open spec fn view(&self) -> NetworkView {
        NetworkView {
            name: self.name@,
            addrs: addresses_view(self.addrs@),
        }
    }
}

/// Traffic counters of one interface.
#[derive(Clone, Copy, Debug, PartialEq, Eq, Structural)]
pub struct NetworkStatistics {
    pub rx_bytes: u64,
    pub tx_bytes: u64,
    pub rx_packets: u64,
    pub tx_packets: u64,
    pub rx_errors: u64,
    pub tx_errors: u64,
}

/// Sockets in use, by protocol.
#[derive(Clone, Copy, Debug, PartialEq, Eq, Structural)]
pub struct SocketStatistics {
    pub tcp_sockets_in_use: usize,
    pub tcp_sockets_orphaned: usize,
    pub udp_sockets_in_use: usize,
    pub tcp6_sockets_in_use: usize,
    pub udp6_sockets_in_use: usize,
}

/// An entry of the snapshot's interface table: the key under which the
/// device reported the interface, and the interface.
#[derive(Debug, PartialEq, Eq)]
pub struct NetworkEntry {
    pub interface: String,
    pub network: Network,
}

pub struct NetworkEntryView {
    pub interface: Seq<char>,
    pub network: NetworkView,
}

impl View for NetworkEntry {
    type V = NetworkEntryView;

    open spec fn view(&self) -> NetworkEntryView {
        NetworkEntryView { interface: self.interface@, network: self.network@ }
    }
}

/// An entry of the snapshot's counter table: the interface name and the
/// counters reported for it.
#[derive(Debug, PartialEq, Eq)]
pub struct NetworkStatisticsEntry {
    pub interface: String,
    pub statistics: NetworkStatistics,
}

pub struct NetworkStatisticsEntryView {
    pub interface: Seq<char>,
    pub statistics: NetworkStatistics,
}

impl View for NetworkStatisticsEntry {
    type V = NetworkStatisticsEntryView;

    open spec fn view(&self) -> NetworkStatisticsEntryView {
        NetworkStatisticsEntryView { interface: self.interface@, statistics: self.statistics }
    }
}

/// No two entries of an interface table have the same key.
pub open spec fn distinct_interfaces(entries: Seq<NetworkEntryView>) -> bool {
    forall|i: int, j: int|
        0 <= i < j < entries.len() ==> (#[trigger] entries[i]).interface != (
        #[trigger] entries[j]).interface
}

/// No two entries of a counter table have the same interface name.
pub open spec fn distinct_counters(table: Seq<NetworkStatisticsEntryView>) -> bool {
    forall|i: int, j: int|
        0 <= i < j < table.len() ==> (#[trigger] table[i]).interface != (
        #[trigger] table[j]).interface
}

/// A snapshot as a device submits it.  The host name arrives as the bytes
/// the device's system gave.  The two tables are maps by name, held as
/// lists in the order of the document: a snapshot as a device sends it has
/// each name once in each table (`well_keyed`).  A list that has a name
/// twice is taken as it is: each entry of the interface table becomes a
/// row, and a name is looked up in the counter table at its first entry.
#[derive(Debug, PartialEq, Eq)]
pub struct SystemInformation {
    pub hostname: Vec<u8>,
    pub os_info: Option<OperatingSystem>,
    pub cpu: Option<CpuInformation>,
    pub load_avg: Option<LoadAverage>,
    pub memory: Option<Memory>,
    pub swap: Option<Swap>,
    pub battery_life: Option<BatteryLife>,
    pub mounts: Vec<Filesystem>,
    pub networks: Vec<NetworkEntry>,
    pub net_stats: Vec<NetworkStatisticsEntry>,
    pub socket_stats: Option<SocketStatistics>,
    pub uptime: u64,
    pub boot_time: Timestamp,
}

pub struct SystemInformationView {
    pub hostname: Seq<u8>,
    pub os_info: Option<OperatingSystemView>,
    pub cpu: Option<CpuInformationView>,
    pub load_avg: Option<LoadAverage>,
    pub memory: Option<Memory>,
    pub swap: Option<Swap>,
    pub battery_life: Option<BatteryLife>,
    pub mounts: Seq<FilesystemView>,
    pub networks: Seq<NetworkEntryView>,
    pub net_stats: Seq<NetworkStatisticsEntryView>,
    pub socket_stats: Option<SocketStatistics>,
    pub uptime: u64,
    pub boot_time: Timestamp,
}

/// The view of an optional operating-system section.
pub open spec fn os_view(o: Option<OperatingSystem>) -> Option<OperatingSystemView> {
    match o {
        Some(x) => Some(x@),
        None => None,
    }
}

/// The view of an optional CPU section.
pub open spec fn cpu_view(o: Option<CpuInformation>) -> Option<CpuInformationView> {
    match o {
        Some(x) => Some(x@),
        None => None,
    }
}

/// The views of a sequence of mounts.
pub open spec fn mounts_view(v: Seq<Filesystem>) -> Seq<FilesystemView> {
    v.map_values(|m: Filesystem| m@)
}

/// The views of an interface table.
pub open spec fn networks_view(v: Seq<NetworkEntry>) -> Seq<NetworkEntryView> {
    v.map_values(|n: NetworkEntry| n@)
}

/// The views of a counter table.
pub open spec fn net_stats_view(v: Seq<NetworkStatisticsEntry>) -> Seq<NetworkStatisticsEntryView> {
    v.map_values(|s: NetworkStatisticsEntry| s@)
}

impl SystemInformationView {
    /// Each of the two tables has each name once, as a map has.
    pub open spec fn well_keyed(self) -> bool {
        distinct_interfaces(self.networks) && distinct_counters(self.net_stats)
    }
}

impl View for SystemInformation {
    type V = SystemInformationView;

    open spec fn view(&self) -> SystemInformationView {
        SystemInformationView {
            hostname: self.hostname@,
            os_info: os_view(self.os_info),
            cpu: cpu_view(self.cpu),
            load_avg: self.load_avg,
            memory: self.memory,
            swap: self.swap,
            battery_life: self.battery_life,
            mounts: mounts_view(self.mounts@),
            networks: networks_view(self.networks@),
            net_stats: net_stats_view(self.net_stats@),
            socket_stats: self.socket_stats,
            uptime: self.uptime,
            boot_time: self.boot_time,
        }
    }
}

/// The body of a request that appends to the error log of a device.
#[derive(Debug, PartialEq, Eq)]
pub struct ErrorLog {
    pub profile_id: u32,
    pub message: String,
}

/// The body of a registration request.
#[derive(Debug, PartialEq, Eq)]
pub struct InsertDeviceProfile {
    pub device_name: String,
    pub profile_key: String,
    pub create_user: i64,
}

} // verus!
