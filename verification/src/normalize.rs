//! The normalizer: from a snapshot to its write plan.
//!
//! The plan begins with the root row.  Then come, in this order and each
//! only where the snapshot has the section: the operating system, the CPU
//! (the aggregate load, the CPU record, and for each core its load and the
//! row that joins it to the record), the load averages, memory, swap,
//! battery, one row for each mount, for each interface its row, its
//! addresses and its counters, and the socket counts.
//!
//! Tiers: the root is tier 0.  What hangs from the root alone is tier 1,
//! and so is the aggregate load.  The CPU record, the load of a core, an
//! address and the counters of an interface are tier 2.  A join row is
//! tier 3.  A descriptor waits only for descriptors of a lower tier that
//! stand before it.

use vstd::prelude::*;
use crate::models;
use crate::plan::{descriptors_view, well_ordered, Descriptor, DescriptorView, Row, RowView, WritePlan};
use crate::plan_order::lemma_plan_well_ordered;
use crate::rows;
use crate::tables::cpu::{CpuCoreLoad, CpuInformation};
use crate::tables::network::Network;
use crate::timestamp::Timestamp;

verus! {

/// The descriptor of the root row.
pub open spec fn root_descriptor(row: RowView) -> DescriptorView {
    DescriptorView { tier: 0, first: None, second: None, row: row }
}

/// The descriptor of a row that hangs from the root alone.
pub open spec fn child(row: RowView) -> DescriptorView {
    DescriptorView { tier: 1, first: Some(0usize), second: None, row: row }
}

pub open spec fn os_section(os: Option<models::OperatingSystemView>) -> Seq<DescriptorView> {
    match os {
        Some(o) => seq![child(RowView::OsInfo(rows::os_row(o)))],
        None => Seq::empty(),
    }
}

pub open spec fn load_average_section(avg: Option<models::LoadAverage>) -> Seq<DescriptorView> {
    match avg {
        Some(a) => seq![child(RowView::LoadAverage(rows::load_average_row(a)))],
        None => Seq::empty(),
    }
}

pub open spec fn memory_section(memory: Option<models::Memory>) -> Seq<DescriptorView> {
    match memory {
        Some(m) => seq![child(RowView::MemoryInfo(rows::memory_row(m)))],
        None => Seq::empty(),
    }
}

pub open spec fn swap_section(swap: Option<models::Swap>) -> Seq<DescriptorView> {
    match swap {
        Some(s) => seq![child(RowView::SwapInfo(rows::swap_row(s)))],
        None => Seq::empty(),
    }
}

pub open spec fn battery_section(battery: Option<models::BatteryLife>) -> Seq<DescriptorView> {
    match battery {
        Some(b) => seq![child(RowView::BatteryLife(rows::battery_row(b)))],
        None => Seq::empty(),
    }
}

pub open spec fn socket_section(sockets: Option<models::SocketStatistics>) -> Seq<DescriptorView> {
    match sockets {
        Some(s) => seq![child(RowView::SocketStatistic(rows::socket_row(s)))],
        None => Seq::empty(),
    }
}

/// One descriptor for each mount, in the order of the snapshot.
pub open spec fn mounts_section(mounts: Seq<models::FilesystemView>) -> Seq<DescriptorView> {
    Seq::new(mounts.len(), |i: int| child(RowView::FilesystemInfo(rows::mount_row(mounts[i]))))
}

/// The descriptor of the aggregate load.
pub open spec fn aggregate_descriptor(load: models::CpuLoad) -> DescriptorView {
    DescriptorView {
        tier: 1,
        first: Some(0usize),
        second: None,
        row: RowView::CpuLoad(rows::cpu_load_row(load)),
    }
}

/// The descriptor of the CPU record: it waits for the root and for the
/// aggregate load, which stands at `aggregate`.
pub open spec fn cpu_descriptor(temperature: u32, aggregate: int) -> DescriptorView {
    DescriptorView {
        tier: 2,
        first: Some(0usize),
        second: Some(aggregate as usize),
        row: RowView::CpuInformation(rows::cpu_row(temperature)),
    }
}

/// The descriptor of the load of one core: it waits for the aggregate load.
pub open spec fn core_load_descriptor(load: models::CpuLoad, aggregate: int) -> DescriptorView {
    DescriptorView {
        tier: 2,
        first: Some(aggregate as usize),
        second: None,
        row: RowView::CpuLoad(rows::cpu_load_row(load)),
    }
}

/// The descriptor of a join row: it waits for the CPU record at `record`
/// and for the load of its core at `load`.
pub open spec fn join_descriptor(record: int, load: int) -> DescriptorView {
    DescriptorView {
        tier: 3,
        first: Some(record as usize),
        second: Some(load as usize),
        row: RowView::CpuCoreLoad(rows::join_row()),
    }
}

/// For each core its load and, right behind it, its join row.  The
/// aggregate load stands at `aggregate`, the CPU record behind it, the
/// first core's load behind that.
pub open spec fn cores_section(loads: Seq<models::CpuLoad>, aggregate: int) -> Seq<DescriptorView> {
    Seq::new(
        2 * loads.len(),
        |k: int|
            if k % 2 == 0 {
                core_load_descriptor(loads[k / 2], aggregate)
            } else {
                join_descriptor(aggregate + 1, aggregate + 2 + k - 1)
            },
    )
}

/// The CPU section of a plan in which it begins at position `at`.
pub open spec fn cpu_section(cpu: Option<models::CpuInformationView>, at: int) -> Seq<DescriptorView> {
    match cpu {
        Some(c) => seq![aggregate_descriptor(c.aggregate_load), cpu_descriptor(c.temperature, at)]
            + cores_section(c.loads, at),
        None => Seq::empty(),
    }
}

/// The counters reported under `name`: those of the first entry of that name.
pub open spec fn counters_of(
    table: Seq<models::NetworkStatisticsEntryView>,
    name: Seq<char>,
) -> Option<models::NetworkStatistics>
    decreases table.len(),
{
    if table.len() == 0 {
        None
    } else if table[0].interface == name {
        Some(table[0].statistics)
    } else {
        counters_of(table.drop_first(), name)
    }
}

/// The descriptor of an address of the interface at `interface`.
pub open spec fn address_descriptor(address: models::NetworkAddressView, interface: int) -> DescriptorView {
    DescriptorView {
        tier: 2,
        first: Some(interface as usize),
        second: None,
        row: RowView::NetworkAddress(rows::address_row(address)),
    }
}

/// The descriptor of the counters of the interface at `interface`.
pub open spec fn counters_descriptor(counters: models::NetworkStatistics, interface: int) -> DescriptorView {
    DescriptorView {
        tier: 2,
        first: Some(0usize),
        second: Some(interface as usize),
        row: RowView::NetworkStatistic(rows::statistics_row(counters)),
    }
}

pub open spec fn addresses_section(
    addresses: Seq<models::NetworkAddressView>,
    interface: int,
) -> Seq<DescriptorView> {
    Seq::new(addresses.len(), |i: int| address_descriptor(addresses[i], interface))
}

pub open spec fn counters_section(
    counters: Option<models::NetworkStatistics>,
    interface: int,
) -> Seq<DescriptorView> {
    match counters {
        Some(c) => seq![counters_descriptor(c, interface)],
        None => Seq::empty(),
    }
}

/// The rows of one interface, in a plan in which they begin at `at`: the
/// interface under the key it was reported with, its addresses, and the
/// counters reported under the interface's own name, if there are any.
pub open spec fn interface_section(
    entry: models::NetworkEntryView,
    table: Seq<models::NetworkStatisticsEntryView>,
    at: int,
) -> Seq<DescriptorView> {
    seq![child(RowView::Network(rows::network_row(entry.interface)))]
        + addresses_section(entry.network.addrs, at)
        + counters_section(counters_of(table, entry.network.name), at)
}

/// The rows of all interfaces, in the order of the snapshot, in a plan in
/// which they begin at `at`.
pub open spec fn networks_section(
    entries: Seq<models::NetworkEntryView>,
    table: Seq<models::NetworkStatisticsEntryView>,
    at: int,
) -> Seq<DescriptorView>
    decreases entries.len(),
{
    if entries.len() == 0 {
        Seq::empty()
    } else {
        let before = networks_section(entries.drop_last(), table, at);
        before + interface_section(entries.last(), table, at + before.len())
    }
}

/// The plan of the snapshot `info` of the device `profile_id`, whose host
/// name decoded to `hostname`, taken in at `created`.
pub open spec fn plan_of(
    info: models::SystemInformationView,
    hostname: Seq<char>,
    profile_id: i32,
    created: Timestamp,
) -> Seq<DescriptorView> {
    let root = seq![
        root_descriptor(
            RowView::SystemInformation(
                rows::root_row(hostname, info.uptime, info.boot_time, profile_id, created),
            ),
        ),
    ];
    let with_os = root + os_section(info.os_info);
    let with_cpu = with_os + cpu_section(info.cpu, with_os.len() as int);
    let with_mounts = with_cpu + load_average_section(info.load_avg) + memory_section(info.memory)
        + swap_section(info.swap) + battery_section(info.battery_life) + mounts_section(info.mounts);
    with_mounts + networks_section(info.networks, info.net_stats, with_mounts.len() as int)
        + socket_section(info.socket_stats)
}

/// Appends a descriptor to a plan under construction.
fn push(plan: &mut Vec<Descriptor>, descriptor: Descriptor)
    ensures
        descriptors_view(final(plan)@) == descriptors_view(old(plan)@).push(descriptor@),
        descriptors_view(final(plan)@) == descriptors_view(old(plan)@) + seq![descriptor@],
        final(plan)@.len() == old(plan)@.len() + 1,
{
    plan.push(descriptor);
    assert(descriptors_view(plan@) =~= descriptors_view(old(plan)@).push(descriptor@));
    assert(descriptors_view(old(plan)@).push(descriptor@) =~= descriptors_view(old(plan)@)
        + seq![descriptor@]);
}

/// Appends the descriptor of a row that hangs from the root alone.
fn push_child(plan: &mut Vec<Descriptor>, row: Row)
    ensures
        descriptors_view(final(plan)@) == descriptors_view(old(plan)@) + seq![child(row@)],
        final(plan)@.len() == old(plan)@.len() + 1,
{
    push(plan, Descriptor { tier: 1, first: Some(0), second: None, row });
}

/// Leaves a plan as it is where a section is absent.
proof fn nothing_added(plan: Seq<DescriptorView>)
    ensures
        plan == plan + Seq::<DescriptorView>::empty(),
{
    assert(plan =~= plan + Seq::<DescriptorView>::empty());
}

fn push_os(plan: &mut Vec<Descriptor>, os: &Option<models::OperatingSystem>)
    ensures
        descriptors_view(final(plan)@) == descriptors_view(old(plan)@) + os_section(
            models::os_view(*os),
        ),
{
    match os {
        Some(o) => push_child(plan, Row::OsInfo(rows::os_info_row(o))),
        None => {
            proof {
                nothing_added(descriptors_view(plan@));
            }
        },
    }
}

fn push_load_average(plan: &mut Vec<Descriptor>, avg: &Option<models::LoadAverage>)
    ensures
        descriptors_view(final(plan)@) == descriptors_view(old(plan)@) + load_average_section(*avg),
{
    match avg {
        Some(a) => push_child(plan, Row::LoadAverage(rows::load_average(a))),
        None => {
            proof {
                nothing_added(descriptors_view(plan@));
            }
        },
    }
}

fn push_memory(plan: &mut Vec<Descriptor>, memory: &Option<models::Memory>)
    ensures
        descriptors_view(final(plan)@) == descriptors_view(old(plan)@) + memory_section(*memory),
{
    match memory {
        Some(m) => push_child(plan, Row::MemoryInfo(rows::memory_info_row(m))),
        None => {
            proof {
                nothing_added(descriptors_view(plan@));
            }
        },
    }
}

fn push_swap(plan: &mut Vec<Descriptor>, swap: &Option<models::Swap>)
    ensures
        descriptors_view(final(plan)@) == descriptors_view(old(plan)@) + swap_section(*swap),
{
    match swap {
        Some(s) => push_child(plan, Row::SwapInfo(rows::swap_info_row(s))),
        None => {
            proof {
                nothing_added(descriptors_view(plan@));
            }
        },
    }
}

fn push_battery(plan: &mut Vec<Descriptor>, battery: &Option<models::BatteryLife>)
    ensures
        descriptors_view(final(plan)@) == descriptors_view(old(plan)@) + battery_section(*battery),
{
    match battery {
        Some(b) => push_child(plan, Row::BatteryLife(rows::battery_life_row(b))),
        None => {
            proof {
                nothing_added(descriptors_view(plan@));
            }
        },
    }
}

fn push_sockets(plan: &mut Vec<Descriptor>, sockets: &Option<models::SocketStatistics>)
    ensures
        descriptors_view(final(plan)@) == descriptors_view(old(plan)@) + socket_section(*sockets),
{
    match sockets {
        Some(s) => push_child(plan, Row::SocketStatistic(rows::socket_statistic_row(s))),
        None => {
            proof {
                nothing_added(descriptors_view(plan@));
            }
        },
    }
}

fn push_mounts(plan: &mut Vec<Descriptor>, mounts: &Vec<models::Filesystem>)
    ensures
        descriptors_view(final(plan)@) == descriptors_view(old(plan)@) + mounts_section(
            models::mounts_view(mounts@),
        ),
{
    let ghost before = descriptors_view(plan@);
    let ghost views = models::mounts_view(mounts@);
    let mut i: usize = 0;
    proof {
        assert(before =~= before + mounts_section(views.take(0)));
    }
    while i < mounts.len()
        invariant
            i <= mounts.len(),
            views == models::mounts_view(mounts@),
            descriptors_view(plan@) == before + mounts_section(views.take(i as int)),
        decreases mounts.len() - i,
    {
        push_child(plan, Row::FilesystemInfo(rows::filesystem_info_row(&mounts[i])));
        proof {
            assert(descriptors_view(plan@) =~= before + mounts_section(views.take(i + 1)));
        }
        i = i + 1;
    }
    proof {
        assert(views.take(i as int) =~= views);
    }
}

fn push_cores(plan: &mut Vec<Descriptor>, loads: &Vec<models::CpuLoad>, aggregate: usize)
    requires
        old(plan)@.len() == aggregate + 2,
    ensures
        descriptors_view(final(plan)@) == descriptors_view(old(plan)@) + cores_section(
            loads@,
            aggregate as int,
        ),
{
    let ghost before = descriptors_view(plan@);
    let record: usize = plan.len() - 1;
    let mut i: usize = 0;
    proof {
        assert(before =~= before + cores_section(loads@.take(0), aggregate as int));
    }
    while i < loads.len()
        invariant
            i <= loads.len(),
            record == aggregate + 1,
            plan@.len() == aggregate + 2 + 2 * i,
            descriptors_view(plan@) == before + cores_section(loads@.take(i as int), aggregate as int),
        decreases loads.len() - i,
    {
        let at: usize = plan.len();
        push(
            plan,
            Descriptor {
                tier: 2,
                first: Some(aggregate),
                second: None,
                row: Row::CpuLoad(rows::cpu_load(&loads[i])),
            },
        );
        push(
            plan,
            Descriptor {
                tier: 3,
                first: Some(record),
                second: Some(at),
                row: Row::CpuCoreLoad(CpuCoreLoad::new(0, 0)),
            },
        );
        proof {
            assert(descriptors_view(plan@) =~= before + cores_section(
                loads@.take(i + 1),
                aggregate as int,
            ));
        }
        i = i + 1;
    }
    proof {
        assert(loads@.take(i as int) =~= loads@);
    }
}

fn push_cpu(plan: &mut Vec<Descriptor>, cpu: &Option<models::CpuInformation>)
    ensures
        descriptors_view(final(plan)@) == descriptors_view(old(plan)@) + cpu_section(
            models::cpu_view(*cpu),
            old(plan)@.len() as int,
        ),
{
    match cpu {
        Some(c) => {
            let ghost before = descriptors_view(plan@);
            let aggregate: usize = plan.len();
            push(
                plan,
                Descriptor {
                    tier: 1,
                    first: Some(0),
                    second: None,
                    row: Row::CpuLoad(rows::cpu_load(&c.aggregate_load)),
                },
            );
            push(
                plan,
                Descriptor {
                    tier: 2,
                    first: Some(0),
                    second: Some(aggregate),
                    row: Row::CpuInformation(CpuInformation::new(0, c.temperature, 0)),
                },
            );
            push_cores(plan, &c.loads, aggregate);
            proof {
                assert(descriptors_view(plan@) =~= before + cpu_section(
                    models::cpu_view(*cpu),
                    aggregate as int,
                ));
            }
        },
        None => {
            proof {
                nothing_added(descriptors_view(plan@));
            }
        },
    }
}

/// The counters that a snapshot's counter table holds under `name`.
pub fn find_counters(table: &Vec<models::NetworkStatisticsEntry>, name: &str) -> (r: Option<
    models::NetworkStatistics,
>)
    ensures
        r == counters_of(models::net_stats_view(table@), name@),
{
    let ghost views = models::net_stats_view(table@);
    let mut i: usize = 0;
    proof {
        assert(views.skip(0) =~= views);
    }
    while i < table.len()
        invariant
            i <= table.len(),
            views == models::net_stats_view(table@),
            counters_of(views, name@) == counters_of(views.skip(i as int), name@),
        decreases table.len() - i,
    {
        if crate::text::same_text(table[i].interface.as_str(), name) {
            return Some(table[i].statistics);
        }
        proof {
            assert(views.skip(i as int).drop_first() =~= views.skip(i + 1));
        }
        i = i + 1;
    }
    None
}

fn push_addresses(plan: &mut Vec<Descriptor>, addresses: &Vec<models::NetworkAddress>, interface: usize)
    ensures
        descriptors_view(final(plan)@) == descriptors_view(old(plan)@) + addresses_section(
            models::addresses_view(addresses@),
            interface as int,
        ),
{
    let ghost before = descriptors_view(plan@);
    let ghost views = models::addresses_view(addresses@);
    let mut i: usize = 0;
    proof {
        assert(before =~= before + addresses_section(views.take(0), interface as int));
    }
    while i < addresses.len()
        invariant
            i <= addresses.len(),
            views == models::addresses_view(addresses@),
            descriptors_view(plan@) == before + addresses_section(
                views.take(i as int),
                interface as int,
            ),
        decreases addresses.len() - i,
    {
        push(
            plan,
            Descriptor {
                tier: 2,
                first: Some(interface),
                second: None,
                row: Row::NetworkAddress(rows::network_address_row(&addresses[i])),
            },
        );
        proof {
            assert(descriptors_view(plan@) =~= before + addresses_section(
                views.take(i + 1),
                interface as int,
            ));
        }
        i = i + 1;
    }
    proof {
        assert(views.take(i as int) =~= views);
    }
}

fn push_interface(
    plan: &mut Vec<Descriptor>,
    entry: &models::NetworkEntry,
    table: &Vec<models::NetworkStatisticsEntry>,
)
    ensures
        descriptors_view(final(plan)@) == descriptors_view(old(plan)@) + interface_section(
            entry@,
            models::net_stats_view(table@),
            old(plan)@.len() as int,
        ),
{
    let ghost before = descriptors_view(plan@);
    let interface: usize = plan.len();
    push_child(plan, Row::Network(Network::new(0, entry.interface.as_str())));
    push_addresses(plan, &entry.network.addrs, interface);
    match find_counters(table, entry.network.name.as_str()) {
        Some(counters) => {
            push(
                plan,
                Descriptor {
                    tier: 2,
                    first: Some(0),
                    second: Some(interface),
                    row: Row::NetworkStatistic(rows::network_statistic_row(&counters)),
                },
            );
        },
        None => {
            proof {
                nothing_added(descriptors_view(plan@));
            }
        },
    }
    proof {
        assert(descriptors_view(plan@) =~= before + interface_section(
            entry@,
            models::net_stats_view(table@),
            interface as int,
        ));
    }
}

fn push_networks(
    plan: &mut Vec<Descriptor>,
    entries: &Vec<models::NetworkEntry>,
    table: &Vec<models::NetworkStatisticsEntry>,
)
    ensures
        descriptors_view(final(plan)@) == descriptors_view(old(plan)@) + networks_section(
            models::networks_view(entries@),
            models::net_stats_view(table@),
            old(plan)@.len() as int,
        ),
{
    let ghost before = descriptors_view(plan@);
    let ghost views = models::networks_view(entries@);
    let ghost counters = models::net_stats_view(table@);
    let ghost at = plan@.len() as int;
    let mut i: usize = 0;
    proof {
        assert(before =~= before + networks_section(views.take(0), counters, at));
    }
    while i < entries.len()
        invariant
            i <= entries.len(),
            views == models::networks_view(entries@),
            counters == models::net_stats_view(table@),
            at == before.len(),
            descriptors_view(plan@) == before + networks_section(views.take(i as int), counters, at),
        decreases entries.len() - i,
    {
        push_interface(plan, &entries[i], table);
        proof {
            assert(views.take(i + 1).drop_last() =~= views.take(i as int));
            assert(views.take(i + 1).last() == entries[i as int]@);
            assert(descriptors_view(plan@) =~= before + networks_section(
                views.take(i + 1),
                counters,
                at,
            ));
        }
        i = i + 1;
    }
    proof {
        assert(views.take(i as int) =~= views);
    }
}

/// Turns a snapshot into its write plan.  `hostname` is the snapshot's host
/// name, decoded; `profile_id` the key of the device that sent it;
/// `created` the time the snapshot was taken in.
pub fn normalize(
    info: &models::SystemInformation,
    hostname: &str,
    profile_id: i32,
    created: Timestamp,
) -> (plan: WritePlan)
    ensures
        plan@ == plan_of(info@, hostname@, profile_id, created),
        well_ordered(plan@),
{
    let mut descriptors: Vec<Descriptor> = Vec::new();
    proof {
        assert(descriptors_view(descriptors@) =~= Seq::<DescriptorView>::empty());
    }
    let root = rows::system_information_row(info, hostname, profile_id, created);
    push(
        &mut descriptors,
        Descriptor { tier: 0, first: None, second: None, row: Row::SystemInformation(root) },
    );
    proof {
        assert(descriptors_view(descriptors@) =~= seq![
            root_descriptor(
                RowView::SystemInformation(
                    rows::root_row(hostname@, info.uptime, info.boot_time, profile_id, created),
                ),
            ),
        ]);
    }
    push_os(&mut descriptors, &info.os_info);
    push_cpu(&mut descriptors, &info.cpu);
    push_load_average(&mut descriptors, &info.load_avg);
    push_memory(&mut descriptors, &info.memory);
    push_swap(&mut descriptors, &info.swap);
    push_battery(&mut descriptors, &info.battery_life);
    push_mounts(&mut descriptors, &info.mounts);
    push_networks(&mut descriptors, &info.networks, &info.net_stats);
    push_sockets(&mut descriptors, &info.socket_stats);
    proof {
        assert(descriptors_view(descriptors@).len() == descriptors.len());
        lemma_plan_well_ordered(info@, hostname@, profile_id, created);
    }
    WritePlan { descriptors }
}

} // verus!
