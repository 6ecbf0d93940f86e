use monitoring_ingest::models::{
    BatteryLife, CpuInformation, CpuLoad, Filesystem, IpAddress, LoadAverage, Memory, Network,
    NetworkAddress, NetworkEntry, NetworkStatistics, NetworkStatisticsEntry, OperatingSystem,
    SocketStatistics, Swap, SystemInformation,
};
use monitoring_ingest::normalize::normalize;
use monitoring_ingest::plan::{EntityKind, Row, WritePlan};
use monitoring_ingest::timestamp::Timestamp;

fn load(bits: u32) -> CpuLoad {
    CpuLoad { user: bits, nice: 0, system: 0, interrupt: 0, idle: 0 }
}

fn mount(name: &str) -> Filesystem {
    Filesystem {
        files: 10,
        files_total: 20,
        files_avail: 5,
        free: 1_000,
        avail: 900,
        total: 2_000,
        name_max: 255,
        fs_type: String::from("ext4"),
        fs_mounted_from: String::from("/dev/sda1"),
        fs_mounted_on: String::from(name),
    }
}

fn bare(hostname: &str) -> SystemInformation {
    SystemInformation {
        hostname: hostname.as_bytes().to_vec(),
        os_info: None,
        cpu: None,
        load_avg: None,
        memory: None,
        swap: None,
        battery_life: None,
        mounts: Vec::new(),
        networks: Vec::new(),
        net_stats: Vec::new(),
        socket_stats: None,
        uptime: 3_600,
        boot_time: Timestamp::new(1_700_000_000, 0),
    }
}

fn count(plan: &WritePlan, kind: EntityKind) -> usize {
    plan.descriptors.iter().filter(|d| d.row.kind() == kind).count()
}

#[test]
fn bare_snapshot_is_one_root_row() {
    let info = bare("alpha");
    let plan = normalize(&info, "alpha", 7, Timestamp::new(1_700_000_100, 5));
    assert_eq!(plan.descriptors.len(), 1);
    let d = &plan.descriptors[0];
    assert_eq!(d.tier, 0);
    assert_eq!(d.first, None);
    assert_eq!(d.second, None);
    match &d.row {
        Row::SystemInformation(r) => {
            assert_eq!(r.id_system_information, 0);
            assert_eq!(r.device_profile_id, 7);
            assert_eq!(r.hostname, "alpha");
            assert_eq!(r.uptime, 3_600);
            assert_eq!(r.boot_time, Timestamp::new(1_700_000_000, 0));
            assert_eq!(r.create_date, Timestamp::new(1_700_000_100, 5));
        }
        other => panic!("the first row is {:?}", other),
    }
}

#[test]
fn four_cores_give_five_loads_and_four_join_rows() {
    let mut info = bare("alpha");
    info.cpu = Some(CpuInformation {
        temperature: 0x4242_0000,
        loads: vec![load(1), load(2), load(3), load(4)],
        aggregate_load: load(9),
    });
    let plan = normalize(&info, "alpha", 7, Timestamp::new(0, 0));
    assert_eq!(count(&plan, EntityKind::CpuInformation), 1);
    assert_eq!(count(&plan, EntityKind::CpuLoad), 5);
    assert_eq!(count(&plan, EntityKind::CpuCoreLoad), 4);
    assert_eq!(plan.descriptors.len(), 11);
    // root, aggregate, record, then load and join row of each core
    assert_eq!(plan.descriptors[1].tier, 1);
    assert_eq!(plan.descriptors[1].row.kind(), EntityKind::CpuLoad);
    assert_eq!(plan.descriptors[2].tier, 2);
    assert_eq!(plan.descriptors[2].first, Some(0));
    assert_eq!(plan.descriptors[2].second, Some(1));
    let mut core: usize = 0;
    while core < 4 {
        let l = &plan.descriptors[3 + 2 * core];
        let j = &plan.descriptors[4 + 2 * core];
        assert_eq!(l.tier, 2);
        assert_eq!(l.first, Some(1));
        match &l.row {
            Row::CpuLoad(r) => assert_eq!(r.user, (core as u32) + 1),
            other => panic!("not a load: {:?}", other),
        }
        assert_eq!(j.tier, 3);
        assert_eq!(j.row.kind(), EntityKind::CpuCoreLoad);
        assert_eq!(j.first, Some(2));
        assert_eq!(j.second, Some(3 + 2 * core));
        core += 1;
    }
}

#[test]
fn each_mount_is_one_row_in_order() {
    let mut info = bare("alpha");
    info.mounts = vec![mount("/"), mount("/home"), mount("/var")];
    let plan = normalize(&info, "alpha", 7, Timestamp::new(0, 0));
    assert_eq!(count(&plan, EntityKind::FilesystemInfo), 3);
    let names: Vec<String> = plan
        .descriptors
        .iter()
        .filter_map(|d| match &d.row {
            Row::FilesystemInfo(r) => Some(r.fs_mounted_on.clone()),
            _ => None,
        })
        .collect();
    assert_eq!(names, vec!["/", "/home", "/var"]);
    for d in plan.descriptors.iter().skip(1) {
        assert_eq!(d.tier, 1);
        assert_eq!(d.first, Some(0));
        assert_eq!(d.second, None);
    }
}

#[test]
fn counters_saturate_and_never_wrap() {
    let mut info = bare("alpha");
    info.uptime = u64::MAX;
    let mut m = mount("/");
    m.free = (i64::MAX as u64) + 1;
    m.total = i64::MAX as u64;
    m.files = usize::MAX;
    m.name_max = 255;
    info.mounts = vec![m];
    let plan = normalize(&info, "alpha", 7, Timestamp::new(0, 0));
    match &plan.descriptors[0].row {
        Row::SystemInformation(r) => assert_eq!(r.uptime, i64::MAX),
        other => panic!("{:?}", other),
    }
    match &plan.descriptors[1].row {
        Row::FilesystemInfo(r) => {
            assert_eq!(r.free, i64::MAX);
            assert_eq!(r.total, i64::MAX);
            assert_eq!(r.files, i32::MAX);
            assert_eq!(r.name_max, 255);
            assert_eq!(r.avail, 900);
        }
        other => panic!("{:?}", other),
    }
}

#[test]
fn interface_rows_follow_their_interface() {
    let mut info = bare("alpha");
    info.networks = vec![
        NetworkEntry {
            interface: String::from("lo"),
            network: Network {
                name: String::from("lo"),
                addrs: vec![NetworkAddress {
                    addr: IpAddress::V4(String::from("127.0.0.1")),
                    netmask: IpAddress::V4(String::from("255.0.0.0")),
                }],
            },
        },
        NetworkEntry {
            interface: String::from("eth0"),
            network: Network {
                name: String::from("eth0"),
                addrs: vec![
                    NetworkAddress { addr: IpAddress::Empty, netmask: IpAddress::Unsupported },
                    NetworkAddress {
                        addr: IpAddress::V6(String::from("fe80::1")),
                        netmask: IpAddress::V6(String::from("ffff:ffff:ffff:ffff::")),
                    },
                ],
            },
        },
    ];
    info.net_stats = vec![NetworkStatisticsEntry {
        interface: String::from("eth0"),
        statistics: NetworkStatistics {
            rx_bytes: 1,
            tx_bytes: 2,
            rx_packets: 3,
            tx_packets: 4,
            rx_errors: 5,
            tx_errors: 6,
        },
    }];
    let plan = normalize(&info, "alpha", 7, Timestamp::new(0, 0));
    let kinds: Vec<EntityKind> = plan.descriptors.iter().map(|d| d.row.kind()).collect();
    assert_eq!(
        kinds,
        vec![
            EntityKind::SystemInformation,
            EntityKind::Network,
            EntityKind::NetworkAddress,
            EntityKind::Network,
            EntityKind::NetworkAddress,
            EntityKind::NetworkAddress,
            EntityKind::NetworkStatistic,
        ]
    );
    assert_eq!(plan.descriptors[2].first, Some(1));
    assert_eq!(plan.descriptors[4].first, Some(3));
    assert_eq!(plan.descriptors[5].first, Some(3));
    assert_eq!(plan.descriptors[6].first, Some(0));
    assert_eq!(plan.descriptors[6].second, Some(3));
    match &plan.descriptors[4].row {
        Row::NetworkAddress(r) => {
            assert_eq!(r.address, "");
            assert_eq!(r.netmask, "Unsupported");
        }
        other => panic!("{:?}", other),
    }
    match &plan.descriptors[5].row {
        Row::NetworkAddress(r) => {
            assert_eq!(r.address, "fe80::1");
            assert_eq!(r.netmask, "ffff:ffff:ffff:ffff::");
        }
        other => panic!("{:?}", other),
    }
    match &plan.descriptors[6].row {
        Row::NetworkStatistic(r) => {
            assert_eq!(r.rx_bytes, 1);
            assert_eq!(r.tx_bytes, 2);
            assert_eq!(r.rx_packages, 3);
            assert_eq!(r.tx_packages, 4);
            assert_eq!(r.rx_errors, 5);
            assert_eq!(r.tx_errors, 6);
        }
        other => panic!("{:?}", other),
    }
}

#[test]
fn a_full_snapshot_keeps_the_order_of_its_sections() {
    let mut info = bare("alpha");
    info.os_info = Some(OperatingSystem {
        os_type: String::from("Arch Linux"),
        version: String::from("rolling"),
        edition: None,
        codename: None,
        bitness: String::from("64-bit"),
        architecture: Some(String::from("x86_64")),
    });
    info.cpu = Some(CpuInformation { temperature: 7, loads: vec![load(1)], aggregate_load: load(2) });
    info.load_avg = Some(LoadAverage { one: 1, five: 2, fifteen: 3 });
    info.memory = Some(Memory { total: 8, free: 4 });
    info.swap = Some(Swap { total: 2, free: 1 });
    info.battery_life = Some(BatteryLife { remaining_capacity: 5, remaining_time: 600 });
    info.mounts = vec![mount("/")];
    info.networks = vec![NetworkEntry {
        interface: String::from("key"),
        network: Network { name: String::from("name"), addrs: Vec::new() },
    }];
    info.net_stats = vec![NetworkStatisticsEntry {
        interface: String::from("name"),
        statistics: NetworkStatistics {
            rx_bytes: 1,
            tx_bytes: 1,
            rx_packets: 1,
            tx_packets: 1,
            rx_errors: 1,
            tx_errors: 1,
        },
    }];
    info.socket_stats = Some(SocketStatistics {
        tcp_sockets_in_use: 1,
        tcp_sockets_orphaned: 0,
        udp_sockets_in_use: 2,
        tcp6_sockets_in_use: 3,
        udp6_sockets_in_use: 4,
    });
    let plan = normalize(&info, "alpha", 7, Timestamp::new(0, 0));
    let shape: Vec<(EntityKind, u8)> =
        plan.descriptors.iter().map(|d| (d.row.kind(), d.tier)).collect();
    assert_eq!(
        shape,
        vec![
            (EntityKind::SystemInformation, 0),
            (EntityKind::OsInfo, 1),
            (EntityKind::CpuLoad, 1),
            (EntityKind::CpuInformation, 2),
            (EntityKind::CpuLoad, 2),
            (EntityKind::CpuCoreLoad, 3),
            (EntityKind::LoadAverage, 1),
            (EntityKind::MemoryInfo, 1),
            (EntityKind::SwapInfo, 1),
            (EntityKind::BatteryLife, 1),
            (EntityKind::FilesystemInfo, 1),
            (EntityKind::Network, 1),
            (EntityKind::NetworkStatistic, 2),
            (EntityKind::SocketStatistic, 1),
        ]
    );
    // the interface is stored under the key it was reported with, and its
    // counters are those reported under its own name
    match &plan.descriptors[11].row {
        Row::Network(r) => assert_eq!(r.name, "key"),
        other => panic!("{:?}", other),
    }
    assert_eq!(plan.descriptors[12].second, Some(11));
    // every descriptor waits only for descriptors before it, of lower tiers
    for (i, d) in plan.descriptors.iter().enumerate() {
        for parent in [d.first, d.second].into_iter().flatten() {
            assert!(parent < i);
            assert!(plan.descriptors[parent].tier < d.tier);
        }
    }
}

fn entry(key: &str, name: &str) -> NetworkEntry {
    NetworkEntry {
        interface: String::from(key),
        network: Network { name: String::from(name), addrs: Vec::new() },
    }
}

fn interface_names(info: &SystemInformation) -> Vec<String> {
    normalize(info, "alpha", 7, Timestamp::new(0, 0))
        .descriptors
        .iter()
        .filter_map(|d| match &d.row {
            Row::Network(r) => Some(r.name.clone()),
            _ => None,
        })
        .collect()
}

#[test]
fn interface_rows_are_named_by_the_keys_of_the_table_in_its_order() {
    let mut info = bare("alpha");
    info.mounts = vec![mount("/")];
    info.cpu = Some(CpuInformation { temperature: 7, loads: vec![load(1)], aggregate_load: load(2) });
    info.networks = vec![entry("wlan0", "a"), entry("eth0", "a"), entry("lo", "b")];
    let names = interface_names(&info);
    assert_eq!(names, vec!["wlan0", "eth0", "lo"]);
    // each key once in the table: no two interface rows of one name
    let mut sorted = names.clone();
    sorted.sort();
    sorted.dedup();
    assert_eq!(sorted.len(), names.len());
}

#[test]
fn a_table_with_a_key_twice_is_taken_as_it_is() {
    let mut info = bare("alpha");
    info.networks = vec![entry("eth0", "eth0"), entry("eth0", "eth0")];
    info.net_stats = vec![
        NetworkStatisticsEntry {
            interface: String::from("eth0"),
            statistics: NetworkStatistics {
                rx_bytes: 1,
                tx_bytes: 0,
                rx_packets: 0,
                tx_packets: 0,
                rx_errors: 0,
                tx_errors: 0,
            },
        },
        NetworkStatisticsEntry {
            interface: String::from("eth0"),
            statistics: NetworkStatistics {
                rx_bytes: 2,
                tx_bytes: 0,
                rx_packets: 0,
                tx_packets: 0,
                rx_errors: 0,
                tx_errors: 0,
            },
        },
    ];
    assert_eq!(interface_names(&info), vec!["eth0", "eth0"]);
    let plan = normalize(&info, "alpha", 7, Timestamp::new(0, 0));
    let received: Vec<i64> = plan
        .descriptors
        .iter()
        .filter_map(|d| match &d.row {
            Row::NetworkStatistic(r) => Some(r.rx_bytes),
            _ => None,
        })
        .collect();
    assert_eq!(received, vec![1, 1]);
}
