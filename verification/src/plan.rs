//! The write plan: the rows that one snapshot becomes, in an order in which
//! every row stands behind the rows it refers to.
//!
//! A row that refers to another row cannot be written before that row has a
//! generated key.  A descriptor therefore names the descriptors it waits for
//! by their position in the plan, and carries its row with the foreign keys
//! still 0; `RowView::resolved` says which keys go where once they are known.

use vstd::prelude::*;
use crate::tables::cpu::{CpuCoreLoad, CpuInformation, CpuLoad};
use crate::tables::network::{Network, NetworkAddress, NetworkAddressView, NetworkStatistic, NetworkView};
use crate::tables::system::{
    BatteryLife, FilesystemInfo, FilesystemInfoView, LoadAverage, MemoryInfo, OsInfo, OsInfoView,
    SocketStatistic, SwapInfo, SystemInformation, SystemInformationView,
};

verus! {

/// The table a row belongs to.
#[derive(Clone, Copy, Debug, PartialEq, Eq, Structural)]
pub enum EntityKind {
    SystemInformation,
    OsInfo,
    CpuLoad,
    CpuInformation,
    CpuCoreLoad,
    LoadAverage,
    MemoryInfo,
    SwapInfo,
    BatteryLife,
    FilesystemInfo,
    Network,
    NetworkAddress,
    NetworkStatistic,
    SocketStatistic,
}

/// A row of any of the snapshot's tables.
#[derive(Debug, PartialEq, Eq)]
pub enum Row {
    SystemInformation(SystemInformation),
    OsInfo(OsInfo),
    CpuLoad(CpuLoad),
    CpuInformation(CpuInformation),
    CpuCoreLoad(CpuCoreLoad),
    LoadAverage(LoadAverage),
    MemoryInfo(MemoryInfo),
    SwapInfo(SwapInfo),
    BatteryLife(BatteryLife),
    FilesystemInfo(FilesystemInfo),
    Network(Network),
    NetworkAddress(NetworkAddress),
    NetworkStatistic(NetworkStatistic),
    SocketStatistic(SocketStatistic),
}

pub enum RowView {
    SystemInformation(SystemInformationView),
    OsInfo(OsInfoView),
    CpuLoad(CpuLoad),
    CpuInformation(CpuInformation),
    CpuCoreLoad(CpuCoreLoad),
    LoadAverage(LoadAverage),
    MemoryInfo(MemoryInfo),
    SwapInfo(SwapInfo),
    BatteryLife(BatteryLife),
    FilesystemInfo(FilesystemInfoView),
    Network(NetworkView),
    NetworkAddress(NetworkAddressView),
    NetworkStatistic(NetworkStatistic),
    SocketStatistic(SocketStatistic),
}

impl View for Row {
    type V = RowView;

    open spec fn view(&self) -> RowView {
        match self {
            Row::SystemInformation(r) => RowView::SystemInformation(r@),
            Row::OsInfo(r) => RowView::OsInfo(r@),
            Row::CpuLoad(r) => RowView::CpuLoad(*r),
            Row::CpuInformation(r) => RowView::CpuInformation(*r),
            Row::CpuCoreLoad(r) => RowView::CpuCoreLoad(*r),
            Row::LoadAverage(r) => RowView::LoadAverage(*r),
            Row::MemoryInfo(r) => RowView::MemoryInfo(*r),
            Row::SwapInfo(r) => RowView::SwapInfo(*r),
            Row::BatteryLife(r) => RowView::BatteryLife(*r),
            Row::FilesystemInfo(r) => RowView::FilesystemInfo(r@),
            Row::Network(r) => RowView::Network(r@),
            Row::NetworkAddress(r) => RowView::NetworkAddress(r@),
            Row::NetworkStatistic(r) => RowView::NetworkStatistic(*r),
            Row::SocketStatistic(r) => RowView::SocketStatistic(*r),
        }
    }
}

impl RowView {
    /// The table of the row.
    pub open spec fn kind(self) -> EntityKind {
        match self {
            RowView::SystemInformation(_) => EntityKind::SystemInformation,
            RowView::OsInfo(_) => EntityKind::OsInfo,
            RowView::CpuLoad(_) => EntityKind::CpuLoad,
            RowView::CpuInformation(_) => EntityKind::CpuInformation,
            RowView::CpuCoreLoad(_) => EntityKind::CpuCoreLoad,
            RowView::LoadAverage(_) => EntityKind::LoadAverage,
            RowView::MemoryInfo(_) => EntityKind::MemoryInfo,
            RowView::SwapInfo(_) => EntityKind::SwapInfo,
            RowView::BatteryLife(_) => EntityKind::BatteryLife,
            RowView::FilesystemInfo(_) => EntityKind::FilesystemInfo,
            RowView::Network(_) => EntityKind::Network,
            RowView::NetworkAddress(_) => EntityKind::NetworkAddress,
            RowView::NetworkStatistic(_) => EntityKind::NetworkStatistic,
            RowView::SocketStatistic(_) => EntityKind::SocketStatistic,
        }
    }

    /// The row with its foreign keys set: `first` is the generated key of
    /// the first descriptor that the row waits for, `second` that of the
    /// second.  A row takes the keys its table has columns for:
    /// the snapshot's key for the rows that hang from the root, the
    /// snapshot's and the aggregate load's for a CPU record, the CPU
    /// record's and the core load's for a join row, the interface's for an
    /// address, the snapshot's and the interface's for traffic counters.
    /// The root and the loads have no such column and stay as they are.
    pub open spec fn resolved(self, first: i32, second: i32) -> RowView {
        match self {
            RowView::SystemInformation(r) => self,
            RowView::CpuLoad(r) => self,
            RowView::OsInfo(r) => RowView::OsInfo(OsInfoView { system_information_id: first, ..r }),
            RowView::LoadAverage(r) => RowView::LoadAverage(
                LoadAverage { system_information_id: first, ..r },
            ),
            RowView::MemoryInfo(r) => RowView::MemoryInfo(
                MemoryInfo { system_information_id: first, ..r },
            ),
            RowView::SwapInfo(r) => RowView::SwapInfo(SwapInfo { system_information_id: first, ..r }),
            RowView::BatteryLife(r) => RowView::BatteryLife(
                BatteryLife { system_information_id: first, ..r },
            ),
            RowView::FilesystemInfo(r) => RowView::FilesystemInfo(
                FilesystemInfoView { system_information_id: first, ..r },
            ),
            RowView::Network(r) => RowView::Network(NetworkView { system_information_id: first, ..r }),
            RowView::SocketStatistic(r) => RowView::SocketStatistic(
                SocketStatistic { system_information_id: first, ..r },
            ),
            RowView::CpuInformation(r) => RowView::CpuInformation(
                CpuInformation { system_information_id: first, aggregate_load_id: second, ..r },
            ),
            RowView::CpuCoreLoad(r) => RowView::CpuCoreLoad(
                CpuCoreLoad { cpu_information_id: first, cpu_load_id: second, ..r },
            ),
            RowView::NetworkAddress(r) => RowView::NetworkAddress(
                NetworkAddressView { network_id: first, ..r },
            ),
            RowView::NetworkStatistic(r) => RowView::NetworkStatistic(
                NetworkStatistic { system_information_id: first, network_id: second, ..r },
            ),
        }
    }
}

impl Clone for Row {
    fn clone(&self) -> (r: Self)
        ensures
            r@ == self@,
    {
        match self {
            Row::SystemInformation(x) => Row::SystemInformation(x.clone()),
            Row::OsInfo(x) => Row::OsInfo(x.clone()),
            Row::CpuLoad(x) => Row::CpuLoad(*x),
            Row::CpuInformation(x) => Row::CpuInformation(*x),
            Row::CpuCoreLoad(x) => Row::CpuCoreLoad(*x),
            Row::LoadAverage(x) => Row::LoadAverage(*x),
            Row::MemoryInfo(x) => Row::MemoryInfo(*x),
            Row::SwapInfo(x) => Row::SwapInfo(*x),
            Row::BatteryLife(x) => Row::BatteryLife(*x),
            Row::FilesystemInfo(x) => Row::FilesystemInfo(x.clone()),
            Row::Network(x) => Row::Network(x.clone()),
            Row::NetworkAddress(x) => Row::NetworkAddress(x.clone()),
            Row::NetworkStatistic(x) => Row::NetworkStatistic(*x),
            Row::SocketStatistic(x) => Row::SocketStatistic(*x),
        }
    }
}

impl Row {
    /// The table of the row.
    pub fn kind(&self) -> (k: EntityKind)
        ensures
            k == self@.kind(),
    {
        match self {
            Row::SystemInformation(_) => EntityKind::SystemInformation,
            Row::OsInfo(_) => EntityKind::OsInfo,
            Row::CpuLoad(_) => EntityKind::CpuLoad,
            Row::CpuInformation(_) => EntityKind::CpuInformation,
            Row::CpuCoreLoad(_) => EntityKind::CpuCoreLoad,
            Row::LoadAverage(_) => EntityKind::LoadAverage,
            Row::MemoryInfo(_) => EntityKind::MemoryInfo,
            Row::SwapInfo(_) => EntityKind::SwapInfo,
            Row::BatteryLife(_) => EntityKind::BatteryLife,
            Row::FilesystemInfo(_) => EntityKind::FilesystemInfo,
            Row::Network(_) => EntityKind::Network,
            Row::NetworkAddress(_) => EntityKind::NetworkAddress,
            Row::NetworkStatistic(_) => EntityKind::NetworkStatistic,
            Row::SocketStatistic(_) => EntityKind::SocketStatistic,
        }
    }

    /// The row with its foreign keys set to the generated keys of the
    /// descriptors it waited for.
    pub fn resolve(self, first: i32, second: i32) -> (r: Row)
        ensures
            r@ == self@.resolved(first, second),
    {
        match self {
            Row::SystemInformation(x) => Row::SystemInformation(x),
            Row::CpuLoad(x) => Row::CpuLoad(x),
            Row::OsInfo(x) => {
                let mut x = x;
                x.system_information_id = first;
                Row::OsInfo(x)
            },
            Row::LoadAverage(x) => {
                let mut x = x;
                x.system_information_id = first;
                Row::LoadAverage(x)
            },
            Row::MemoryInfo(x) => {
                let mut x = x;
                x.system_information_id = first;
                Row::MemoryInfo(x)
            },
            Row::SwapInfo(x) => {
                let mut x = x;
                x.system_information_id = first;
                Row::SwapInfo(x)
            },
            Row::BatteryLife(x) => {
                let mut x = x;
                x.system_information_id = first;
                Row::BatteryLife(x)
            },
            Row::FilesystemInfo(x) => {
                let mut x = x;
                x.system_information_id = first;
                Row::FilesystemInfo(x)
            },
            Row::Network(x) => {
                let mut x = x;
                x.system_information_id = first;
                Row::Network(x)
            },
            Row::SocketStatistic(x) => {
                let mut x = x;
                x.system_information_id = first;
                Row::SocketStatistic(x)
            },
            Row::CpuInformation(x) => {
                let mut x = x;
                x.system_information_id = first;
                x.aggregate_load_id = second;
                Row::CpuInformation(x)
            },
            Row::CpuCoreLoad(x) => {
                let mut x = x;
                x.cpu_information_id = first;
                x.cpu_load_id = second;
                Row::CpuCoreLoad(x)
            },
            Row::NetworkAddress(x) => {
                let mut x = x;
                x.network_id = first;
                Row::NetworkAddress(x)
            },
            Row::NetworkStatistic(x) => {
                let mut x = x;
                x.system_information_id = first;
                x.network_id = second;
                Row::NetworkStatistic(x)
            },
        }
    }
}

/// One row of a plan: its tier, the descriptors it waits for (positions in
/// the plan), and the row with its foreign keys still 0.
#[derive(Debug, PartialEq, Eq)]
pub struct Descriptor {
    pub tier: u8,
    pub first: Option<usize>,
    pub second: Option<usize>,
    pub row: Row,
}

pub struct DescriptorView {
    pub tier: u8,
    pub first: Option<usize>,
    pub second: Option<usize>,
    pub row: RowView,
}

impl View for Descriptor {
    type V = DescriptorView;

    open spec fn view(&self) -> DescriptorView {
        DescriptorView { tier: self.tier, first: self.first, second: self.second, row: self.row@ }
    }
}

/// The views of a sequence of descriptors.
pub open spec fn descriptors_view(v: Seq<Descriptor>) -> Seq<DescriptorView> {
    v.map_values(|d: Descriptor| d@)
}

/// The rows of one snapshot, in writing order.
#[derive(Debug, PartialEq, Eq)]
pub struct WritePlan {
    pub descriptors: Vec<Descriptor>,
}

impl View for WritePlan {
    type V = Seq<DescriptorView>;

    open spec fn view(&self) -> Seq<DescriptorView> {
        descriptors_view(self.descriptors@)
    }
}

/// The descriptor that stands at `i` waits, through `parent`, for a
/// descriptor that stands before it, has a lower tier and holds a row of
/// the table `kind`.
pub open spec fn waits_for(plan: Seq<DescriptorView>, i: int, parent: Option<usize>, kind: EntityKind) -> bool {
    match parent {
        Some(p) => p < i && plan[p as int].tier < plan[i].tier && plan[p as int].row.kind() == kind,
        None => false,
    }
}

/// The descriptor at `i` has the tier of its table and refers to rows of
/// the tables that its own table has foreign keys for, and to nothing
/// else.  The root is tier 0.  A load is tier 1 where it waits for the
/// root (the aggregate load) and tier 2 where it waits for the aggregate
/// load (the load of a core).  A CPU record, an address and the counters
/// of an interface are tier 2, a join row is tier 3, and every other row
/// is tier 1.
pub open spec fn references_fit(plan: Seq<DescriptorView>, i: int) -> bool {
    let d = plan[i];
    match d.row.kind() {
        EntityKind::SystemInformation => d.tier == 0 && d.first is None && d.second is None,
        EntityKind::CpuLoad => d.second is None && (d.tier == 1 && waits_for(
            plan,
            i,
            d.first,
            EntityKind::SystemInformation,
        ) || d.tier == 2 && waits_for(plan, i, d.first, EntityKind::CpuLoad)),
        EntityKind::CpuInformation => d.tier == 2 && waits_for(
            plan,
            i,
            d.first,
            EntityKind::SystemInformation,
        ) && waits_for(plan, i, d.second, EntityKind::CpuLoad),
        EntityKind::CpuCoreLoad => d.tier == 3 && waits_for(
            plan,
            i,
            d.first,
            EntityKind::CpuInformation,
        ) && waits_for(plan, i, d.second, EntityKind::CpuLoad),
        EntityKind::NetworkAddress => d.tier == 2 && waits_for(plan, i, d.first, EntityKind::Network)
            && d.second is None,
        EntityKind::NetworkStatistic => d.tier == 2 && waits_for(
            plan,
            i,
            d.first,
            EntityKind::SystemInformation,
        ) && waits_for(plan, i, d.second, EntityKind::Network),
        _ => d.tier == 1 && waits_for(plan, i, d.first, EntityKind::SystemInformation)
            && d.second is None,
    }
}

/// A plan is well ordered when its first descriptor is the root, of tier
/// 0, and every other descriptor has a higher tier and refers only to
/// descriptors before it, of lower tiers and of the right tables.  In such
/// a plan every foreign key is the key of a row of the same plan.
pub open spec fn well_ordered(plan: Seq<DescriptorView>) -> bool {
    &&& plan.len() > 0
    &&& plan[0].tier == 0
    &&& plan[0].row.kind() == EntityKind::SystemInformation
    &&& forall|i: int| 0 <= i < plan.len() ==> #[trigger] references_fit(plan, i)
    &&& forall|i: int|
        0 < i < plan.len() ==> (#[trigger] plan[i]).tier > 0 && plan[i].row.kind()
            != EntityKind::SystemInformation
}

/// In a well-ordered plan two descriptors of one tier do not wait for each
/// other: the rows of a tier can be written in any order.
pub proof fn lemma_same_tier_independent(plan: Seq<DescriptorView>, i: usize, j: usize)
    requires
        well_ordered(plan),
        i < plan.len(),
        j < plan.len(),
        plan[i as int].tier == plan[j as int].tier,
    ensures
        plan[i as int].first != Some(j),
        plan[i as int].second != Some(j),
        plan[j as int].first != Some(i),
        plan[j as int].second != Some(i),
{
    assert(references_fit(plan, i as int));
    assert(references_fit(plan, j as int));
}

/// How many descriptors of a plan hold a row of the table `kind`.
pub open spec fn count_kind(plan: Seq<DescriptorView>, kind: EntityKind) -> nat
    decreases plan.len(),
{
    if plan.len() == 0 {
        0
    } else {
        count_kind(plan.drop_last(), kind) + if plan.last().row.kind() == kind {
            1nat
        } else {
            0nat
        }
    }
}

/// Counting goes through concatenation.
pub proof fn lemma_count_kind_add(a: Seq<DescriptorView>, b: Seq<DescriptorView>, kind: EntityKind)
    ensures
        count_kind(a + b, kind) == count_kind(a, kind) + count_kind(b, kind),
    decreases b.len(),
{
    if b.len() == 0 {
        assert(a + b =~= a);
    } else {
        assert((a + b).drop_last() =~= a + b.drop_last());
        assert((a + b).last() == b.last());
        lemma_count_kind_add(a, b.drop_last(), kind);
    }
}

/// In a sequence of descriptors that all hold rows of one table, that
/// table is counted once for each descriptor and no other table at all.
pub proof fn lemma_count_kind_uniform(s: Seq<DescriptorView>, of: EntityKind, kind: EntityKind)
    requires
        forall|i: int| 0 <= i < s.len() ==> (#[trigger] s[i]).row.kind() == of,
    ensures
        count_kind(s, kind) == (if kind == of {
            s.len()
        } else {
            0
        }),
    decreases s.len(),
{
    if s.len() > 0 {
        assert(s.last() == s[s.len() - 1]);
        assert forall|i: int| 0 <= i < s.drop_last().len() implies (#[trigger] s.drop_last()[i]).row.kind()
            == of by {
            assert(s.drop_last()[i] == s[i]);
        }
        lemma_count_kind_uniform(s.drop_last(), of, kind);
    }
}

/// A single descriptor is counted for its own table alone.
pub proof fn lemma_count_kind_one(d: DescriptorView, kind: EntityKind)
    ensures
        count_kind(seq![d], kind) == (if d.row.kind() == kind {
            1nat
        } else {
            0nat
        }),
{
    assert(seq![d].drop_last() =~= Seq::<DescriptorView>::empty());
    assert(count_kind(seq![d].drop_last(), kind) == 0);
    assert(seq![d].last() == d);
}

} // verus!
