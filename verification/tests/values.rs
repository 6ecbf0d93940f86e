use monitoring_ingest::coerce::{
    count_to_i32, counter_to_i64, fits_i32, fits_i64, profile_id_to_key,
};
use monitoring_ingest::models::{
    BatteryLife, CpuLoad, ErrorLog, Filesystem, InsertDeviceProfile, IpAddress, LoadAverage, Memory,
    NetworkAddress, NetworkStatistics, NetworkStatisticsEntry, OperatingSystem, SocketStatistics,
    Swap, SystemInformation,
};
use monitoring_ingest::normalize::find_counters;
use monitoring_ingest::rows;
use monitoring_ingest::tables::cpu::{CpuCoreLoad, CpuInformation};
use monitoring_ingest::tables::network::{Network, NetworkAddress as AddressRow, NetworkStatistic};
use monitoring_ingest::tables::system::{
    FilesystemInfo, MemoryInfo, OsInfo, SocketStatistic, SwapInfo,
};
use monitoring_ingest::text::{clone_opt_text, decode_text, same_text};
use monitoring_ingest::timestamp::Timestamp;

#[test]
fn counters_are_stored_as_they_are_up_to_the_largest_signed_value() {
    assert_eq!(counter_to_i64(0), 0);
    assert_eq!(counter_to_i64(1_234_567_890_123), 1_234_567_890_123);
    assert_eq!(counter_to_i64(9_223_372_036_854_775_807), i64::MAX);
    assert_eq!(counter_to_i64(9_223_372_036_854_775_808), i64::MAX);
    assert_eq!(counter_to_i64(u64::MAX), i64::MAX);
    assert!(fits_i64(9_223_372_036_854_775_807));
    assert!(!fits_i64(9_223_372_036_854_775_808));
}

#[test]
fn counts_are_stored_as_they_are_up_to_the_largest_signed_value() {
    assert_eq!(count_to_i32(0), 0);
    assert_eq!(count_to_i32(255), 255);
    assert_eq!(count_to_i32(2_147_483_647), i32::MAX);
    assert_eq!(count_to_i32(2_147_483_648), i32::MAX);
    assert_eq!(count_to_i32(usize::MAX), i32::MAX);
    assert!(fits_i32(2_147_483_647));
    assert!(!fits_i32(2_147_483_648));
}

#[test]
fn a_path_id_is_a_key_only_within_the_keys_range() {
    assert_eq!(profile_id_to_key(0), Some(0));
    assert_eq!(profile_id_to_key(2_147_483_647), Some(i32::MAX));
    assert_eq!(profile_id_to_key(2_147_483_648), None);
    assert_eq!(profile_id_to_key(u32::MAX), None);
}

#[test]
fn texts_are_compared_exactly() {
    assert!(same_text("", ""));
    assert!(same_text("abc", "abc"));
    assert!(!same_text("abc", "abd"));
    assert!(!same_text("abc", "ab"));
    assert!(!same_text("ab", "abc"));
    assert!(!same_text("abc", "ABC"));
    assert!(same_text("é", "é"));
    assert!(!same_text("é", "e\u{301}"));
}

#[test]
fn bytes_decode_when_they_are_utf8() {
    assert_eq!(decode_text(&vec![104, 105]), Some(String::from("hi")));
    assert_eq!(decode_text(&Vec::new()), Some(String::new()));
    assert_eq!(decode_text(&vec![0xe2, 0x82, 0xac]), Some(String::from("€")));
    assert_eq!(decode_text(&vec![0xf0, 0x9f, 0x92, 0xbb]), Some(String::from("💻")));
    // a lone continuation byte, a truncated sequence, an overlong form, a surrogate
    assert_eq!(decode_text(&vec![0x80]), None);
    assert_eq!(decode_text(&vec![0xe2, 0x82]), None);
    assert_eq!(decode_text(&vec![0xc0, 0xaf]), None);
    assert_eq!(decode_text(&vec![0xed, 0xa0, 0x80]), None);
    assert_eq!(decode_text(&vec![b'a', 0xff]), None);
}

#[test]
fn an_optional_text_is_copied() {
    assert_eq!(clone_opt_text(&Some(String::from("x"))), Some(String::from("x")));
    assert_eq!(clone_opt_text(&None), None);
}

#[test]
fn a_timestamp_is_its_two_parts() {
    assert_eq!(Timestamp::new(-5, 7), Timestamp { secs: -5, nanos: 7 });
    assert_eq!(Timestamp::new(1_700_000_000, 999_999_999).secs, 1_700_000_000);
    assert_eq!(Timestamp::new(1_700_000_000, 999_999_999).nanos, 999_999_999);
}

#[test]
fn addresses_are_written_out() {
    assert_eq!(rows::ip_to_string(&IpAddress::Empty), "");
    assert_eq!(rows::ip_to_string(&IpAddress::Unsupported), "Unsupported");
    assert_eq!(rows::ip_to_string(&IpAddress::V4(String::from("192.168.1.20"))), "192.168.1.20");
    assert_eq!(rows::ip_to_string(&IpAddress::V6(String::from("::1"))), "::1");
    let row = rows::network_address_row(&NetworkAddress {
        addr: IpAddress::V4(String::from("10.1.2.3")),
        netmask: IpAddress::Empty,
    });
    assert_eq!(row, AddressRow::new(0, "10.1.2.3", ""));
}

#[test]
fn sections_become_rows_without_keys() {
    let os = OperatingSystem {
        os_type: String::from("Ubuntu"),
        version: String::from("22.04"),
        edition: None,
        codename: Some(String::from("jammy")),
        bitness: String::from("64-bit"),
        architecture: Some(String::from("x86_64")),
    };
    assert_eq!(
        rows::os_info_row(&os),
        OsInfo::new(
            0,
            "Ubuntu",
            "22.04",
            None,
            Some(String::from("jammy")),
            "64-bit",
            Some(String::from("x86_64"))
        )
    );
    assert_eq!(
        rows::memory_info_row(&Memory { total: 16, free: 4 }),
        MemoryInfo { id_memory_info: 0, system_information_id: 0, free: 4, total: 16 }
    );
    assert_eq!(
        rows::swap_info_row(&Swap { total: u64::MAX, free: 1 }),
        SwapInfo { id_swap_info: 0, system_information_id: 0, free: 1, total: i64::MAX }
    );
    let battery = rows::battery_life_row(&BatteryLife { remaining_capacity: 7, remaining_time: 90 });
    assert_eq!((battery.remaining_capacity, battery.remaining_time), (7, 90));
    let avg = rows::load_average(&LoadAverage { one: 1, five: 5, fifteen: 15 });
    assert_eq!((avg.one, avg.five, avg.fifteen, avg.system_information_id), (1, 5, 15, 0));
    let load = rows::cpu_load(&CpuLoad { user: 1, nice: 2, system: 3, interrupt: 4, idle: 5 });
    assert_eq!((load.id_cpu_load, load.user, load.nice, load.system), (0, 1, 2, 3));
    assert_eq!((load.interrupt, load.idle), (4, 5));
    let sockets = rows::socket_statistic_row(&SocketStatistics {
        tcp_sockets_in_use: 1,
        tcp_sockets_orphaned: 2,
        udp_sockets_in_use: 3,
        tcp6_sockets_in_use: 4,
        udp6_sockets_in_use: usize::MAX,
    });
    assert_eq!(sockets, SocketStatistic::new(0, 1, 2, 3, 4, i32::MAX));
    let counters = rows::network_statistic_row(&NetworkStatistics {
        rx_bytes: 1,
        tx_bytes: 2,
        rx_packets: 3,
        tx_packets: 4,
        rx_errors: 5,
        tx_errors: u64::MAX,
    });
    assert_eq!(counters, NetworkStatistic::new(0, 0, 1, 2, 3, 4, 5, i64::MAX));
}

#[test]
fn rows_are_built_with_the_key_zero() {
    let f = FilesystemInfo::new(9, 1, 2, 3, 4, 5, 6, "ext4", "/dev/sda1", "/");
    assert_eq!(f.id_filesystem_info, 0);
    assert_eq!(f.system_information_id, 9);
    assert_eq!((f.files, f.files_total, f.free, f.avail, f.total, f.name_max), (1, 2, 3, 4, 5, 6));
    assert_eq!((f.fs_type.as_str(), f.fs_mounted_from.as_str(), f.fs_mounted_on.as_str()), (
        "ext4",
        "/dev/sda1",
        "/"
    ));
    let stored = f.clone().with_id(31);
    assert_eq!(stored.id_filesystem_info, 31);
    assert_eq!(stored.fs_mounted_on, "/");
    assert_eq!(stored.system_information_id, 9);
    let j = CpuCoreLoad::new(4, 5);
    assert_eq!((j.id_cpu_core_load, j.cpu_information_id, j.cpu_load_id), (0, 4, 5));
    assert_eq!(j.with_id(6), CpuCoreLoad { id_cpu_core_load: 6, cpu_information_id: 4, cpu_load_id: 5 });
    let c = CpuInformation::new(1, 2, 3);
    assert_eq!(c.id_cpu_information, 0);
    assert_eq!((c.system_information_id, c.temperature, c.aggregate_load_id), (1, 2, 3));
    let n = Network::new(3, "eth0");
    assert_eq!((n.id_network, n.system_information_id, n.name.as_str()), (0, 3, "eth0"));
    let m = MemoryInfo::new(1, 2, 3);
    assert_eq!((m.id_memory_info, m.system_information_id, m.free, m.total), (0, 1, 2, 3));
    let s = SwapInfo::new(1, 2, 3);
    assert_eq!((s.id_swap_info, s.system_information_id, s.free, s.total), (0, 1, 2, 3));
    let st = NetworkStatistic::new(1, 2, 3, 4, 5, 6, 7, 8);
    assert_eq!((st.id_network_statistics, st.system_information_id, st.network_id), (0, 1, 2));
    assert_eq!((st.rx_bytes, st.tx_bytes, st.rx_packages, st.tx_packages), (3, 4, 5, 6));
    assert_eq!((st.rx_errors, st.tx_errors), (7, 8));
}

fn v_entry(name: &str, rx: u64) -> NetworkStatisticsEntry {
    NetworkStatisticsEntry {
        interface: String::from(name),
        statistics: NetworkStatistics {
            rx_bytes: rx,
            tx_bytes: 0,
            rx_packets: 0,
            tx_packets: 0,
            rx_errors: 0,
            tx_errors: 0,
        },
    }
}

#[test]
fn counters_are_found_by_name_at_their_first_entry() {
    let table = vec![v_entry("lo", 1), v_entry("eth0", 2), v_entry("eth0", 3)];
    assert_eq!(find_counters(&table, "eth0").map(|c| c.rx_bytes), Some(2));
    assert_eq!(find_counters(&table, "lo").map(|c| c.rx_bytes), Some(1));
    assert_eq!(find_counters(&table, "eth1"), None);
    assert_eq!(find_counters(&table, "eth"), None);
    assert_eq!(find_counters(&Vec::new(), "lo"), None);
}

fn v_snapshot() -> SystemInformation {
    SystemInformation {
        hostname: b"h".to_vec(),
        os_info: None,
        cpu: None,
        load_avg: None,
        memory: Some(Memory { total: 1, free: 1 }),
        swap: Some(Swap { total: 1, free: 1 }),
        battery_life: Some(BatteryLife { remaining_capacity: 0, remaining_time: 1 }),
        mounts: vec![Filesystem {
            files: 1,
            files_total: 1,
            files_avail: 1,
            free: 1,
            avail: 1,
            total: 1,
            name_max: 1,
            fs_type: String::new(),
            fs_mounted_from: String::new(),
            fs_mounted_on: String::new(),
        }],
        networks: Vec::new(),
        net_stats: vec![v_entry("lo", 1)],
        socket_stats: Some(SocketStatistics {
            tcp_sockets_in_use: 1,
            tcp_sockets_orphaned: 1,
            udp_sockets_in_use: 1,
            tcp6_sockets_in_use: 1,
            udp6_sockets_in_use: 1,
        }),
        uptime: 1,
        boot_time: Timestamp::new(0, 0),
    }
}

#[test]
fn a_snapshot_tells_when_a_value_is_stored_saturated() {
    assert!(!rows::saturates(&v_snapshot()));
    let mut s = v_snapshot();
    s.uptime = (i64::MAX as u64) + 1;
    assert!(rows::saturates(&s));
    let mut s = v_snapshot();
    s.uptime = i64::MAX as u64;
    assert!(!rows::saturates(&s));
    let mut s = v_snapshot();
    s.mounts[0].avail = u64::MAX;
    assert!(rows::saturates(&s));
    let mut s = v_snapshot();
    s.mounts[0].name_max = (i32::MAX as usize) + 1;
    assert!(rows::saturates(&s));
    let mut s = v_snapshot();
    s.net_stats[0].statistics.tx_errors = u64::MAX;
    assert!(rows::saturates(&s));
    let mut s = v_snapshot();
    s.battery_life = Some(BatteryLife { remaining_capacity: u32::MAX, remaining_time: u64::MAX });
    assert!(rows::saturates(&s));
    let mut s = v_snapshot();
    s.memory = Some(Memory { total: u64::MAX, free: 0 });
    assert!(rows::saturates(&s));
    let mut s = v_snapshot();
    s.swap = Some(Swap { total: 0, free: u64::MAX });
    assert!(rows::saturates(&s));
    let mut s = v_snapshot();
    s.socket_stats.as_mut().expect("present").udp_sockets_in_use = usize::MAX;
    assert!(rows::saturates(&s));
    // files_avail has no column
    let mut s = v_snapshot();
    s.mounts[0].files_avail = usize::MAX;
    assert!(!rows::saturates(&s));
}

#[test]
fn a_registration_body_holds_what_was_sent() {
    let body = InsertDeviceProfile {
        device_name: String::from("dev1"),
        profile_key: String::from("k1"),
        create_user: 7,
    };
    assert_eq!(body.device_name, "dev1");
    assert_eq!(body.profile_key, "k1");
    assert_eq!(body.create_user, 7);
    let entry = ErrorLog { profile_id: 4, message: String::from("disk full") };
    assert_eq!((entry.profile_id, entry.message.as_str()), (4, "disk full"));
}
