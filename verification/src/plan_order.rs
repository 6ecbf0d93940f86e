//! The plan of a snapshot is well ordered, and holds as many rows of each
//! table as the snapshot has of what the table stores.

use vstd::prelude::*;
use crate::models;
use crate::normalize::{
    addresses_section, battery_section, cores_section, counters_section, cpu_section,
    interface_section, load_average_section, memory_section, mounts_section, networks_section,
    os_section, plan_of, root_descriptor, socket_section, swap_section,
};
use crate::plan::{
    count_kind, lemma_count_kind_add, lemma_count_kind_one, lemma_count_kind_uniform, references_fit, well_ordered,
    DescriptorView, EntityKind, RowView,
};
use crate::rows;
use crate::timestamp::Timestamp;

verus! {

/// The descriptor at `i` can stand in a well-ordered plan behind the root.
pub open spec fn stands_well(plan: Seq<DescriptorView>, i: int) -> bool {
    &&& references_fit(plan, i)
    &&& plan[i].tier > 0
    &&& plan[i].row.kind() != EntityKind::SystemInformation
}

/// Every descriptor of `b` can stand where it comes to stand in `a + b`.
pub open spec fn fits_behind(a: Seq<DescriptorView>, b: Seq<DescriptorView>) -> bool {
    forall|j: int| 0 <= j < b.len() ==> #[trigger] stands_well(a + b, a.len() + j)
}

/// A well-ordered plan stays well ordered when descriptors that fit are
/// put behind it.
pub proof fn lemma_extend(a: Seq<DescriptorView>, b: Seq<DescriptorView>)
    requires
        well_ordered(a),
        fits_behind(a, b),
    ensures
        well_ordered(a + b),
{
    let plan = a + b;
    assert forall|i: int| 0 <= i < plan.len() implies #[trigger] references_fit(plan, i) by {
        if i < a.len() {
            assert(references_fit(a, i));
            assert(plan[i] == a[i]);
            match a[i].first {
                Some(p) => {
                    if p < i {
                        assert(plan[p as int] == a[p as int]);
                    }
                },
                None => {},
            }
            match a[i].second {
                Some(p) => {
                    if p < i {
                        assert(plan[p as int] == a[p as int]);
                    }
                },
                None => {},
            }
        } else {
            assert(stands_well(plan, a.len() + (i - a.len())));
        }
    }
    assert forall|i: int| 0 < i < plan.len() implies (#[trigger] plan[i]).tier > 0
        && plan[i].row.kind() != EntityKind::SystemInformation by {
        if i < a.len() {
            assert(plan[i] == a[i]);
        } else {
            assert(stands_well(plan, a.len() + (i - a.len())));
        }
    }
    assert(plan[0] == a[0]);
}

/// Nothing put behind a plan leaves it well ordered.
pub proof fn lemma_extend_by_nothing(a: Seq<DescriptorView>)
    requires
        well_ordered(a),
    ensures
        well_ordered(a + Seq::<DescriptorView>::empty()),
{
    assert(a + Seq::<DescriptorView>::empty() =~= a);
}

/// Rows that hang from the root alone fit behind any well-ordered plan.
pub proof fn lemma_children_fit(a: Seq<DescriptorView>, b: Seq<DescriptorView>)
    requires
        well_ordered(a),
        forall|j: int|
            0 <= j < b.len() ==> {
                &&& (#[trigger] b[j]).tier == 1
                &&& b[j].first == Some(0usize)
                &&& b[j].second is None
                &&& b[j].row.kind() != EntityKind::SystemInformation
                &&& b[j].row.kind() != EntityKind::CpuInformation
                &&& b[j].row.kind() != EntityKind::CpuCoreLoad
                &&& b[j].row.kind() != EntityKind::NetworkAddress
                &&& b[j].row.kind() != EntityKind::NetworkStatistic
            },
    ensures
        well_ordered(a + b),
{
    let plan = a + b;
    assert forall|j: int| 0 <= j < b.len() implies #[trigger] stands_well(plan, a.len() + j) by {
        assert(plan[a.len() + j] == b[j]);
        assert(plan[0] == a[0]);
    }
    lemma_extend(a, b);
}

pub proof fn lemma_os_fits(a: Seq<DescriptorView>, os: Option<models::OperatingSystemView>)
    requires
        well_ordered(a),
    ensures
        well_ordered(a + os_section(os)),
{
    lemma_children_fit(a, os_section(os));
}

pub proof fn lemma_load_average_fits(a: Seq<DescriptorView>, avg: Option<models::LoadAverage>)
    requires
        well_ordered(a),
    ensures
        well_ordered(a + load_average_section(avg)),
{
    lemma_children_fit(a, load_average_section(avg));
}

pub proof fn lemma_memory_fits(a: Seq<DescriptorView>, memory: Option<models::Memory>)
    requires
        well_ordered(a),
    ensures
        well_ordered(a + memory_section(memory)),
{
    lemma_children_fit(a, memory_section(memory));
}

pub proof fn lemma_swap_fits(a: Seq<DescriptorView>, swap: Option<models::Swap>)
    requires
        well_ordered(a),
    ensures
        well_ordered(a + swap_section(swap)),
{
    lemma_children_fit(a, swap_section(swap));
}

pub proof fn lemma_battery_fits(a: Seq<DescriptorView>, battery: Option<models::BatteryLife>)
    requires
        well_ordered(a),
    ensures
        well_ordered(a + battery_section(battery)),
{
    lemma_children_fit(a, battery_section(battery));
}

pub proof fn lemma_sockets_fit(a: Seq<DescriptorView>, sockets: Option<models::SocketStatistics>)
    requires
        well_ordered(a),
    ensures
        well_ordered(a + socket_section(sockets)),
{
    lemma_children_fit(a, socket_section(sockets));
}

pub proof fn lemma_mounts_fit(a: Seq<DescriptorView>, mounts: Seq<models::FilesystemView>)
    requires
        well_ordered(a),
    ensures
        well_ordered(a + mounts_section(mounts)),
{
    lemma_children_fit(a, mounts_section(mounts));
}

pub proof fn lemma_cpu_fits(a: Seq<DescriptorView>, cpu: Option<models::CpuInformationView>)
    requires
        well_ordered(a),
        a.len() + cpu_section(cpu, a.len() as int).len() <= usize::MAX,
    ensures
        well_ordered(a + cpu_section(cpu, a.len() as int)),
{
    let at = a.len() as int;
    let b = cpu_section(cpu, at);
    let plan = a + b;
    match cpu {
        Some(c) => {
            let cores = cores_section(c.loads, at);
            assert(b.len() == 2 + cores.len());
            assert(plan[0] == a[0]);
            assert(plan[at] == b[0]);
            assert(plan[at + 1] == b[1]);
            assert forall|j: int| 0 <= j < b.len() implies #[trigger] stands_well(plan, at + j) by {
                assert(plan[at + j] == b[j]);
                if j >= 2 {
                    let k = j - 2;
                    assert(b[j] == cores[k]);
                    if k % 2 != 0 {
                        assert(plan[at + 2 + k - 1] == b[2 + k - 1]);
                        assert(b[2 + k - 1] == cores[k - 1]);
                    }
                }
            }
            lemma_extend(a, b);
        },
        None => {
            lemma_extend_by_nothing(a);
        },
    }
}

pub proof fn lemma_interface_fits(
    a: Seq<DescriptorView>,
    entry: models::NetworkEntryView,
    table: Seq<models::NetworkStatisticsEntryView>,
)
    requires
        well_ordered(a),
        a.len() + interface_section(entry, table, a.len() as int).len() <= usize::MAX,
    ensures
        well_ordered(a + interface_section(entry, table, a.len() as int)),
{
    let at = a.len() as int;
    let b = interface_section(entry, table, at);
    let addresses = addresses_section(entry.network.addrs, at);
    let counters = counters_section(crate::normalize::counters_of(table, entry.network.name), at);
    let plan = a + b;
    assert(plan[0] == a[0]);
    assert(plan[at] == b[0]);
    assert forall|j: int| 0 <= j < b.len() implies #[trigger] stands_well(plan, at + j) by {
        assert(plan[at + j] == b[j]);
        if 1 <= j && j < 1 + addresses.len() {
            assert(b[j] == addresses[j - 1]);
        } else if j >= 1 + addresses.len() {
            assert(b[j] == counters[j - 1 - addresses.len()]);
        }
    }
    lemma_extend(a, b);
}

pub proof fn lemma_networks_fit(
    a: Seq<DescriptorView>,
    entries: Seq<models::NetworkEntryView>,
    table: Seq<models::NetworkStatisticsEntryView>,
)
    requires
        well_ordered(a),
        a.len() + networks_section(entries, table, a.len() as int).len() <= usize::MAX,
    ensures
        well_ordered(a + networks_section(entries, table, a.len() as int)),
    decreases entries.len(),
{
    let at = a.len() as int;
    if entries.len() == 0 {
        lemma_extend_by_nothing(a);
    } else {
        let before = networks_section(entries.drop_last(), table, at);
        let block = interface_section(entries.last(), table, at + before.len());
        lemma_networks_fit(a, entries.drop_last(), table);
        lemma_interface_fits(a + before, entries.last(), table);
        assert(a + (before + block) =~= (a + before) + block);
    }
}

/// The plan of a snapshot is well ordered.  The plan must be one that a
/// machine can hold: its length is within the machine's word.
pub proof fn lemma_plan_well_ordered(
    info: models::SystemInformationView,
    hostname: Seq<char>,
    profile_id: i32,
    created: Timestamp,
)
    requires
        plan_of(info, hostname, profile_id, created).len() <= usize::MAX,
    ensures
        well_ordered(plan_of(info, hostname, profile_id, created)),
{
    let root = seq![
        root_descriptor(
            RowView::SystemInformation(
                rows::root_row(hostname, info.uptime, info.boot_time, profile_id, created),
            ),
        ),
    ];
    assert(well_ordered(root));
    let with_os = root + os_section(info.os_info);
    lemma_os_fits(root, info.os_info);
    let with_cpu = with_os + cpu_section(info.cpu, with_os.len() as int);
    lemma_cpu_fits(with_os, info.cpu);
    let a1 = with_cpu + load_average_section(info.load_avg);
    lemma_load_average_fits(with_cpu, info.load_avg);
    let a2 = a1 + memory_section(info.memory);
    lemma_memory_fits(a1, info.memory);
    let a3 = a2 + swap_section(info.swap);
    lemma_swap_fits(a2, info.swap);
    let a4 = a3 + battery_section(info.battery_life);
    lemma_battery_fits(a3, info.battery_life);
    let with_mounts = a4 + mounts_section(info.mounts);
    lemma_mounts_fit(a4, info.mounts);
    let a5 = with_mounts + networks_section(info.networks, info.net_stats, with_mounts.len() as int);
    lemma_networks_fit(with_mounts, info.networks, info.net_stats);
    lemma_sockets_fit(a5, info.socket_stats);
}

/// How often a table is counted for a section that is one row or none.
pub open spec fn one_if(present: bool, of: EntityKind, kind: EntityKind) -> nat {
    if present && kind == of {
        1
    } else {
        0
    }
}

/// The rows of each table in the CPU section of a snapshot with the loads
/// of `cores` cores: one CPU record, the aggregate load and one load for
/// each core, and one join row for each core.
pub open spec fn cpu_rows(cores: nat, kind: EntityKind) -> nat {
    match kind {
        EntityKind::CpuInformation => 1,
        EntityKind::CpuLoad => 1 + cores,
        EntityKind::CpuCoreLoad => cores,
        _ => 0,
    }
}

pub proof fn lemma_cores_count(loads: Seq<models::CpuLoad>, at: int, kind: EntityKind)
    ensures
        count_kind(cores_section(loads, at), kind) == (match kind {
            EntityKind::CpuLoad => loads.len(),
            EntityKind::CpuCoreLoad => loads.len(),
            _ => 0,
        }),
    decreases loads.len(),
{
    let all = cores_section(loads, at);
    if loads.len() > 0 {
        let before = cores_section(loads.drop_last(), at);
        let n = loads.len() as int;
        let load = seq![all[2 * n - 2]];
        let join = seq![all[2 * n - 1]];
        assert(all =~= before + load + join);
        lemma_cores_count(loads.drop_last(), at, kind);
        lemma_count_kind_add(before, load, kind);
        lemma_count_kind_add(before + load, join, kind);
        lemma_count_kind_one(all[2 * n - 2], kind);
        lemma_count_kind_one(all[2 * n - 1], kind);
    }
}

pub proof fn lemma_cpu_count(cpu: Option<models::CpuInformationView>, at: int, kind: EntityKind)
    ensures
        count_kind(cpu_section(cpu, at), kind) == (match cpu {
            Some(c) => cpu_rows(c.loads.len(), kind),
            None => 0,
        }),
{
    match cpu {
        Some(c) => {
            let aggregate = seq![crate::normalize::aggregate_descriptor(c.aggregate_load)];
            let record = seq![crate::normalize::cpu_descriptor(c.temperature, at)];
            let cores = cores_section(c.loads, at);
            assert(cpu_section(cpu, at) =~= aggregate + record + cores);
            lemma_count_kind_add(aggregate, record, kind);
            lemma_count_kind_add(aggregate + record, cores, kind);
            lemma_count_kind_one(aggregate[0], kind);
            lemma_count_kind_one(record[0], kind);
            lemma_cores_count(c.loads, at, kind);
        },
        None => {},
    }
}

/// Whether a table is one of the three that store what belongs to an
/// interface.
pub open spec fn of_interfaces(kind: EntityKind) -> bool {
    kind == EntityKind::Network || kind == EntityKind::NetworkAddress || kind
        == EntityKind::NetworkStatistic
}

pub proof fn lemma_interface_count(
    entry: models::NetworkEntryView,
    table: Seq<models::NetworkStatisticsEntryView>,
    at: int,
    kind: EntityKind,
)
    ensures
        kind == EntityKind::Network ==> count_kind(interface_section(entry, table, at), kind) == 1,
        !of_interfaces(kind) ==> count_kind(interface_section(entry, table, at), kind) == 0,
{
    let head = seq![crate::normalize::child(RowView::Network(rows::network_row(entry.interface)))];
    let addresses = addresses_section(entry.network.addrs, at);
    let counters = counters_section(crate::normalize::counters_of(table, entry.network.name), at);
    lemma_count_kind_add(head, addresses, kind);
    lemma_count_kind_add(head + addresses, counters, kind);
    lemma_count_kind_uniform(head, EntityKind::Network, kind);
    lemma_count_kind_uniform(addresses, EntityKind::NetworkAddress, kind);
    lemma_count_kind_uniform(counters, EntityKind::NetworkStatistic, kind);
}

pub proof fn lemma_networks_count(
    entries: Seq<models::NetworkEntryView>,
    table: Seq<models::NetworkStatisticsEntryView>,
    at: int,
    kind: EntityKind,
)
    ensures
        kind == EntityKind::Network ==> count_kind(networks_section(entries, table, at), kind)
            == entries.len(),
        !of_interfaces(kind) ==> count_kind(networks_section(entries, table, at), kind) == 0,
    decreases entries.len(),
{
    if entries.len() > 0 {
        let before = networks_section(entries.drop_last(), table, at);
        let block = interface_section(entries.last(), table, at + before.len());
        lemma_networks_count(entries.drop_last(), table, at, kind);
        lemma_interface_count(entries.last(), table, at + before.len(), kind);
        lemma_count_kind_add(before, block, kind);
    }
}

/// The rows of the table `kind` that the plan of a snapshot holds, for
/// every table but those of addresses and of traffic counters: one root;
/// one row for each section that is one row in its table, where the
/// snapshot has the section; the rows of the CPU section; one row for
/// each mount; one row for each interface.
pub open spec fn rows_of(info: models::SystemInformationView, kind: EntityKind) -> nat {
    match kind {
        EntityKind::SystemInformation => 1,
        EntityKind::OsInfo => one_if(info.os_info is Some, kind, kind),
        EntityKind::LoadAverage => one_if(info.load_avg is Some, kind, kind),
        EntityKind::MemoryInfo => one_if(info.memory is Some, kind, kind),
        EntityKind::SwapInfo => one_if(info.swap is Some, kind, kind),
        EntityKind::BatteryLife => one_if(info.battery_life is Some, kind, kind),
        EntityKind::SocketStatistic => one_if(info.socket_stats is Some, kind, kind),
        EntityKind::FilesystemInfo => info.mounts.len(),
        EntityKind::Network => info.networks.len(),
        _ => match info.cpu {
            Some(c) => cpu_rows(c.loads.len(), kind),
            None => 0,
        },
    }
}

/// The plan of a snapshot holds exactly one root, and of every other
/// table but those of addresses and of traffic counters exactly the rows
/// that `rows_of` names: in particular one row for each mount, and for a
/// CPU section with the loads of n cores one CPU record, n + 1 loads and
/// n join rows.
pub proof fn lemma_plan_counts(
    info: models::SystemInformationView,
    hostname: Seq<char>,
    profile_id: i32,
    created: Timestamp,
    kind: EntityKind,
)
    requires
        kind != EntityKind::NetworkAddress,
        kind != EntityKind::NetworkStatistic,
    ensures
        count_kind(plan_of(info, hostname, profile_id, created), kind) == rows_of(info, kind),
{
    let root = seq![
        root_descriptor(
            RowView::SystemInformation(
                rows::root_row(hostname, info.uptime, info.boot_time, profile_id, created),
            ),
        ),
    ];
    let s1 = os_section(info.os_info);
    let a1 = root + s1;
    let s2 = cpu_section(info.cpu, a1.len() as int);
    let a2 = a1 + s2;
    let s3 = load_average_section(info.load_avg);
    let a3 = a2 + s3;
    let s4 = memory_section(info.memory);
    let a4 = a3 + s4;
    let s5 = swap_section(info.swap);
    let a5 = a4 + s5;
    let s6 = battery_section(info.battery_life);
    let a6 = a5 + s6;
    let s7 = mounts_section(info.mounts);
    let a7 = a6 + s7;
    let s8 = networks_section(info.networks, info.net_stats, a7.len() as int);
    let a8 = a7 + s8;
    let s9 = socket_section(info.socket_stats);
    lemma_count_kind_uniform(root, EntityKind::SystemInformation, kind);
    lemma_count_kind_uniform(s1, EntityKind::OsInfo, kind);
    lemma_cpu_count(info.cpu, a1.len() as int, kind);
    lemma_count_kind_uniform(s3, EntityKind::LoadAverage, kind);
    lemma_count_kind_uniform(s4, EntityKind::MemoryInfo, kind);
    lemma_count_kind_uniform(s5, EntityKind::SwapInfo, kind);
    lemma_count_kind_uniform(s6, EntityKind::BatteryLife, kind);
    lemma_count_kind_uniform(s7, EntityKind::FilesystemInfo, kind);
    lemma_networks_count(info.networks, info.net_stats, a7.len() as int, kind);
    lemma_count_kind_uniform(s9, EntityKind::SocketStatistic, kind);
    lemma_count_kind_add(root, s1, kind);
    lemma_count_kind_add(a1, s2, kind);
    lemma_count_kind_add(a2, s3, kind);
    lemma_count_kind_add(a3, s4, kind);
    lemma_count_kind_add(a4, s5, kind);
    lemma_count_kind_add(a5, s6, kind);
    lemma_count_kind_add(a6, s7, kind);
    lemma_count_kind_add(a7, s8, kind);
    lemma_count_kind_add(a8, s9, kind);
}

/// The names of the interface rows of a plan, in the order of the plan.
pub open spec fn interface_names(plan: Seq<DescriptorView>) -> Seq<Seq<char>>
    decreases plan.len(),
{
    if plan.len() == 0 {
        Seq::empty()
    } else {
        let before = interface_names(plan.drop_last());
        match plan.last().row {
            RowView::Network(r) => before.push(r.name),
            _ => before,
        }
    }
}

/// The keys of an interface table, in its order.
pub open spec fn interface_keys(entries: Seq<models::NetworkEntryView>) -> Seq<Seq<char>> {
    Seq::new(entries.len(), |i: int| entries[i].interface)
}

pub proof fn lemma_interface_names_add(a: Seq<DescriptorView>, b: Seq<DescriptorView>)
    ensures
        interface_names(a + b) == interface_names(a) + interface_names(b),
    decreases b.len(),
{
    if b.len() == 0 {
        assert(a + b =~= a);
        assert(interface_names(a) + interface_names(b) =~= interface_names(a));
    } else {
        assert((a + b).drop_last() =~= a + b.drop_last());
        assert((a + b).last() == b.last());
        lemma_interface_names_add(a, b.drop_last());
        match b.last().row {
            RowView::Network(r) => {
                assert((interface_names(a) + interface_names(b.drop_last())).push(r.name)
                    =~= interface_names(a) + interface_names(b.drop_last()).push(r.name));
            },
            _ => {},
        }
    }
}

/// Descriptors that hold no interface row have no interface names.
pub proof fn lemma_interface_names_none(s: Seq<DescriptorView>)
    requires
        forall|i: int| 0 <= i < s.len() ==> (#[trigger] s[i]).row.kind() != EntityKind::Network,
    ensures
        interface_names(s) == Seq::<Seq<char>>::empty(),
    decreases s.len(),
{
    if s.len() > 0 {
        assert(s.last() == s[s.len() - 1]);
        assert forall|i: int| 0 <= i < s.drop_last().len() implies (#[trigger] s.drop_last()[i]).row.kind()
            != EntityKind::Network by {
            assert(s.drop_last()[i] == s[i]);
        }
        lemma_interface_names_none(s.drop_last());
    }
}

pub proof fn lemma_interface_names_of_section(
    entry: models::NetworkEntryView,
    table: Seq<models::NetworkStatisticsEntryView>,
    at: int,
)
    ensures
        interface_names(interface_section(entry, table, at)) == seq![entry.interface],
{
    let head = seq![crate::normalize::child(RowView::Network(rows::network_row(entry.interface)))];
    let addresses = addresses_section(entry.network.addrs, at);
    let counters = counters_section(crate::normalize::counters_of(table, entry.network.name), at);
    lemma_interface_names_add(head, addresses);
    lemma_interface_names_add(head + addresses, counters);
    lemma_interface_names_none(addresses);
    lemma_interface_names_none(counters);
    assert(head.drop_last() =~= Seq::<DescriptorView>::empty());
    assert(interface_names(head.drop_last()) == Seq::<Seq<char>>::empty());
    assert(head.last() == head[0]);
    assert(interface_names(head) =~= seq![entry.interface]);
    assert(interface_names(head) + Seq::<Seq<char>>::empty() + Seq::<Seq<char>>::empty()
        =~= seq![entry.interface]);
}

pub proof fn lemma_interface_names_of_networks(
    entries: Seq<models::NetworkEntryView>,
    table: Seq<models::NetworkStatisticsEntryView>,
    at: int,
)
    ensures
        interface_names(networks_section(entries, table, at)) == interface_keys(entries),
    decreases entries.len(),
{
    if entries.len() == 0 {
        assert(interface_keys(entries) =~= Seq::<Seq<char>>::empty());
    } else {
        let before = networks_section(entries.drop_last(), table, at);
        let block = interface_section(entries.last(), table, at + before.len());
        lemma_interface_names_of_networks(entries.drop_last(), table, at);
        lemma_interface_names_of_section(entries.last(), table, at + before.len());
        lemma_interface_names_add(before, block);
        assert(interface_keys(entries.drop_last()) + seq![entries.last().interface]
            =~= interface_keys(entries));
    }
}

/// The interface rows of the plan of a snapshot are named by the keys of
/// the snapshot's interface table, one row for each entry, in the order of
/// the table.  So the plan of a snapshot that has each key once holds no
/// two interface rows of one name.
pub proof fn lemma_plan_interface_names(
    info: models::SystemInformationView,
    hostname: Seq<char>,
    profile_id: i32,
    created: Timestamp,
)
    ensures
        interface_names(plan_of(info, hostname, profile_id, created)) == interface_keys(
            info.networks,
        ),
        models::distinct_interfaces(info.networks) ==> interface_names(
            plan_of(info, hostname, profile_id, created),
        ).no_duplicates(),
{
    let root = seq![
        root_descriptor(
            RowView::SystemInformation(
                rows::root_row(hostname, info.uptime, info.boot_time, profile_id, created),
            ),
        ),
    ];
    let s1 = os_section(info.os_info);
    let a1 = root + s1;
    let s2 = cpu_section(info.cpu, a1.len() as int);
    let a2 = a1 + s2;
    let s3 = load_average_section(info.load_avg);
    let a3 = a2 + s3;
    let s4 = memory_section(info.memory);
    let a4 = a3 + s4;
    let s5 = swap_section(info.swap);
    let a5 = a4 + s5;
    let s6 = battery_section(info.battery_life);
    let a6 = a5 + s6;
    let s7 = mounts_section(info.mounts);
    let a7 = a6 + s7;
    let s8 = networks_section(info.networks, info.net_stats, a7.len() as int);
    let a8 = a7 + s8;
    let s9 = socket_section(info.socket_stats);
    let none = Seq::<Seq<char>>::empty();
    lemma_interface_names_none(root);
    lemma_interface_names_none(s1);
    assert(interface_names(s2) == none) by {
        match info.cpu {
            Some(c) => {
                let cores = cores_section(c.loads, a1.len() as int);
                assert forall|i: int| 0 <= i < s2.len() implies (#[trigger] s2[i]).row.kind()
                    != EntityKind::Network by {
                    if i >= 2 {
                        assert(s2[i] == cores[i - 2]);
                    }
                }
                lemma_interface_names_none(s2);
            },
            None => {},
        }
    }
    lemma_interface_names_none(s3);
    lemma_interface_names_none(s4);
    lemma_interface_names_none(s5);
    lemma_interface_names_none(s6);
    lemma_interface_names_none(s7);
    lemma_interface_names_of_networks(info.networks, info.net_stats, a7.len() as int);
    lemma_interface_names_none(s9);
    lemma_interface_names_add(root, s1);
    lemma_interface_names_add(a1, s2);
    lemma_interface_names_add(a2, s3);
    lemma_interface_names_add(a3, s4);
    lemma_interface_names_add(a4, s5);
    lemma_interface_names_add(a5, s6);
    lemma_interface_names_add(a6, s7);
    lemma_interface_names_add(a7, s8);
    lemma_interface_names_add(a8, s9);
    let keys = interface_keys(info.networks);
    assert(none + none =~= none);
    assert(none + keys =~= keys);
    assert(keys + none =~= keys);
    if models::distinct_interfaces(info.networks) {
        assert forall|i: int, j: int| 0 <= i < keys.len() && 0 <= j < keys.len() && i != j implies keys[i]
            != keys[j] by {
            if i < j {
                assert(info.networks[i].interface != info.networks[j].interface);
            } else {
                assert(info.networks[j].interface != info.networks[i].interface);
            }
        }
    }
}

/// In a counter table that has each name once, the counters of a name are
/// those of the one entry of that name.
pub proof fn lemma_counters_of_distinct(table: Seq<models::NetworkStatisticsEntryView>, i: int)
    requires
        models::distinct_counters(table),
        0 <= i < table.len(),
    ensures
        crate::normalize::counters_of(table, table[i].interface) == Some(table[i].statistics),
    decreases table.len(),
{
    if i > 0 {
        assert(table[0].interface != table[i].interface);
        let rest = table.drop_first();
        assert forall|a: int, b: int| 0 <= a < b < rest.len() implies (#[trigger] rest[a]).interface != (
        #[trigger] rest[b]).interface by {
            assert(rest[a] == table[a + 1]);
            assert(rest[b] == table[b + 1]);
        }
        assert(rest[i - 1] == table[i]);
        lemma_counters_of_distinct(rest, i - 1);
    }
}

/// A name that no entry of the counter table has has no counters.
pub proof fn lemma_counters_of_absent(table: Seq<models::NetworkStatisticsEntryView>, name: Seq<char>)
    requires
        forall|i: int| 0 <= i < table.len() ==> (#[trigger] table[i]).interface != name,
    ensures
        crate::normalize::counters_of(table, name) is None,
    decreases table.len(),
{
    if table.len() > 0 {
        let rest = table.drop_first();
        assert forall|i: int| 0 <= i < rest.len() implies (#[trigger] rest[i]).interface != name by {
            assert(rest[i] == table[i + 1]);
        }
        lemma_counters_of_absent(rest, name);
    }
}

} // verus!
