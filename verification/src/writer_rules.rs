//! What holds of every write, whatever the storage answers.
//!
//! A write is consistent when it came about from the start of a plan by
//! handing out rows and recording answers.  The functions of the writer
//! keep a write consistent; the lemmas here say what follows.

use vstd::prelude::*;
use crate::plan::{count_kind, references_fit, well_ordered, DescriptorView, EntityKind, RowView};
use crate::writer::{
    key_at, report_entries, ReportEntry, StorageError, WriteOutcome, WritePolicy, WriterView,
};

verus! {

/// The descriptor that `parent` names was written before the one at `i`.
pub open spec fn parent_written(outcomes: Seq<WriteOutcome>, i: int, parent: Option<usize>) -> bool {
    match parent {
        None => true,
        Some(p) => p < i && outcomes[p as int] is Written,
    }
}

/// All that the descriptor at `i` waits for was written when its turn came.
pub open spec fn was_ready(w: WriterView, i: int) -> bool {
    parent_written(w.outcomes, i, w.plan[i].first) && parent_written(w.outcomes, i, w.plan[i].second)
}

/// The write is one that the writer can have come to: a descriptor was
/// passed over exactly if something it waits for was not written, and the
/// write has stopped exactly if its last answer was the failure of a
/// critical write.
pub open spec fn consistent(w: WriterView) -> bool {
    &&& w.outcomes.len() <= w.plan.len()
    &&& forall|i: int|
        0 <= i < w.outcomes.len() ==> ((#[trigger] w.outcomes[i]) is Skipped <==> !was_ready(w, i))
    &&& forall|i: int|
        0 <= i < w.outcomes.len() - 1 ==> !(w.critical(i) && (#[trigger] w.outcomes[i]) is Failed)
    &&& w.aborted <==> w.outcomes.len() > 0 && w.critical(w.outcomes.len() - 1)
        && w.outcomes[w.outcomes.len() - 1] is Failed
}

/// The write `later` continues the write `earlier`: the same plan, and
/// every answer of `earlier` stands in `later`.
pub open spec fn continues(earlier: WriterView, later: WriterView) -> bool {
    &&& later.plan == earlier.plan
    &&& later.policy == earlier.policy
    &&& earlier.outcomes.len() <= later.outcomes.len()
    &&& forall|i: int| 0 <= i < earlier.outcomes.len() ==> later.outcomes[i] == earlier.outcomes[i]
}

/// A write that has not begun is consistent.
pub proof fn lemma_start_consistent(plan: Seq<DescriptorView>)
    ensures
        consistent(WriterView::start(plan)),
        forall|policy: WritePolicy| consistent(#[trigger] WriterView::begin(plan, policy)),
{
}

proof fn lemma_push_keeps(w: WriterView, outcome: WriteOutcome, i: int)
    requires
        0 <= i < w.outcomes.len(),
    ensures
        was_ready(WriterView { outcomes: w.outcomes.push(outcome), ..w }, i) == was_ready(w, i),
        was_ready(
            WriterView { outcomes: w.outcomes.push(outcome), aborted: !w.aborted, ..w },
            i,
        ) == was_ready(w, i),
{
}

proof fn lemma_ready_now(w: WriterView)
    requires
        !w.over(),
    ensures
        w.ready() == was_ready(w, w.outcomes.len() as int),
        forall|o: WriteOutcome|
            was_ready(WriterView { outcomes: w.outcomes.push(o), ..w }, w.outcomes.len() as int)
                == w.ready(),
        forall|o: WriteOutcome|
            was_ready(
                WriterView { outcomes: w.outcomes.push(o), aborted: !w.aborted, ..w },
                w.outcomes.len() as int,
            ) == w.ready(),
{
}

/// Passing over is done once: a settled write is over or ready, settling
/// it again changes nothing, and it hands out and records as the write
/// it was settled from.
pub proof fn lemma_settled_once(w: WriterView)
    ensures
        w.settled().over() || w.settled().ready(),
        w.settled().settled() == w.settled(),
        w.settled().pending() == w.pending(),
        forall|answer: Result<i32, StorageError>|
            (#[trigger] w.settled().recorded(answer)) == w.recorded(answer),
    decreases w.plan.len() - w.outcomes.len(),
{
    if w.over() || w.ready() {
    } else {
        lemma_settled_once(w.skip());
    }
}

/// Passing over keeps the plan and the policy of a write.
pub proof fn lemma_policy_is_kept(w: WriterView)
    ensures
        w.settled().policy == w.policy,
        w.settled().plan == w.plan,
    decreases w.plan.len() - w.outcomes.len(),
{
    if w.over() || w.ready() {
    } else {
        lemma_policy_is_kept(w.skip());
    }
}

/// Passing over one descriptor that is not ready keeps a write consistent.
pub proof fn lemma_skip_consistent(w: WriterView)
    requires
        consistent(w),
        !w.over(),
        !w.ready(),
    ensures
        consistent(w.skip()),
{
    let next = w.skip();
    lemma_ready_now(w);
    assert forall|i: int| 0 <= i < next.outcomes.len() implies ((#[trigger] next.outcomes[i])
        is Skipped <==> !was_ready(next, i)) by {
        if i < w.outcomes.len() {
            lemma_push_keeps(w, WriteOutcome::Skipped, i);
            assert(next.outcomes[i] == w.outcomes[i]);
        }
    }
    assert forall|i: int| 0 <= i < next.outcomes.len() - 1 implies !(next.critical(i) && (
    #[trigger] next.outcomes[i]) is Failed) by {
        assert(next.outcomes[i] == w.outcomes[i]);
    }
}

/// Passing over what cannot be written keeps a write consistent and
/// continues it.
pub proof fn lemma_settled(w: WriterView)
    requires
        consistent(w),
    ensures
        consistent(w.settled()),
        continues(w, w.settled()),
        w.settled().aborted == w.aborted,
        w.settled().over() || w.settled().ready(),
    decreases w.plan.len() - w.outcomes.len(),
{
    if w.over() || w.ready() {
    } else {
        let next = w.skip();
        lemma_skip_consistent(w);
        lemma_settled(next);
    }
}

/// Recording an answer keeps a write consistent and continues it.
pub proof fn lemma_recorded(w: WriterView, answer: Result<i32, StorageError>)
    requires
        consistent(w),
    ensures
        consistent(w.recorded(answer)),
        continues(w, w.recorded(answer)),
{
    lemma_settled(w);
    let s = w.settled();
    if !s.over() {
        let next = s.recorded(answer);
        assert(s.settled() == s);
        assert(next == w.recorded(answer));
        lemma_ready_now(s);
        let n = s.outcomes.len() as int;
        assert forall|i: int| 0 <= i < next.outcomes.len() implies ((#[trigger] next.outcomes[i])
            is Skipped <==> !was_ready(next, i)) by {
            if i < n {
                assert(next.outcomes[i] == s.outcomes[i]);
                assert(was_ready(next, i) == was_ready(s, i));
            } else {
                assert(was_ready(next, n) == s.ready());
            }
        }
        assert forall|i: int| 0 <= i < next.outcomes.len() - 1 implies !(next.critical(i) && (
        #[trigger] next.outcomes[i]) is Failed) by {
            assert(next.outcomes[i] == s.outcomes[i]);
        }
    }
}

/// The first row that a write of a well-ordered plan hands out is the root
/// row, as the plan holds it.
pub proof fn lemma_root_first(plan: Seq<DescriptorView>)
    requires
        well_ordered(plan),
    ensures
        WriterView::start(plan).pending() == Some(plan[0].row),
{
    let w = WriterView::start(plan);
    assert(references_fit(plan, 0));
    assert(w.ready());
}

/// When the write of the root fails, the write is over: no row is handed
/// out any more, and the write counts as failed.
pub proof fn lemma_root_failure_stops(plan: Seq<DescriptorView>, e: StorageError)
    requires
        well_ordered(plan),
    ensures
        WriterView::start(plan).recorded(Err(e)).aborted,
        WriterView::start(plan).recorded(Err(e)).pending() is None,
        WriterView::start(plan).recorded(Err(e)).root_key() is None,
        forall|answer: Result<i32, StorageError>|
            (#[trigger] WriterView::start(plan).recorded(Err(e)).recorded(answer))
                == WriterView::start(plan).recorded(Err(e)),
{
    let w = WriterView::start(plan);
    assert(references_fit(plan, 0));
    assert(w.ready());
}

/// Once the root of a well-ordered plan is written, a write as far as it
/// goes cannot fail any more: whatever the storage answers from then on,
/// the write goes on and its root keeps its key.
pub proof fn lemma_root_stays(w: WriterView, key: i32)
    requires
        well_ordered(w.plan),
        consistent(w),
        w.policy == WritePolicy::BestEffort,
        w.outcomes.len() > 0,
        w.outcomes[0] == WriteOutcome::Written(key),
    ensures
        !w.aborted,
        w.root_key() == Some(key),
        w.settled().root_key() == Some(key),
        forall|answer: Result<i32, StorageError>|
            (#[trigger] w.recorded(answer)).root_key() == Some(key),
{
    let n = w.outcomes.len() as int;
    if w.aborted {
        if n - 1 > 0 {
            assert(w.plan[n - 1].tier > 0);
        }
        assert(false);
    }
    lemma_settled(w);
    assert(w.settled().outcomes[0] == w.outcomes[0]);
    assert forall|answer: Result<i32, StorageError>| (#[trigger] w.recorded(answer)).root_key()
        == Some(key) by {
        lemma_recorded(w, answer);
        let next = w.recorded(answer);
        assert(next.outcomes[0] == w.outcomes[0]);
        let m = next.outcomes.len() as int;
        if next.aborted {
            if m - 1 > 0 {
                assert(next.plan[m - 1].tier > 0);
            }
            assert(false);
        }
    }
}

/// In a write of a well-ordered plan that went through the whole plan
/// without a failure, every row was written.
pub proof fn lemma_all_written(w: WriterView, i: int)
    requires
        well_ordered(w.plan),
        consistent(w),
        forall|j: int| 0 <= j < w.outcomes.len() ==> !((#[trigger] w.outcomes[j]) is Failed),
        0 <= i < w.outcomes.len(),
    ensures
        w.outcomes[i] is Written,
    decreases i,
{
    assert(references_fit(w.plan, i));
    match w.plan[i].first {
        Some(p) => {
            if p < i {
                lemma_all_written(w, p as int);
            }
        },
        None => {},
    }
    match w.plan[i].second {
        Some(p) => {
            if p < i {
                lemma_all_written(w, p as int);
            }
        },
        None => {},
    }
    assert(was_ready(w, i));
}

/// Under the policy that makes every failure fatal, a write that has not
/// stopped has had no failure.
pub proof fn lemma_atomic_unfailed(w: WriterView)
    requires
        consistent(w),
        w.policy == WritePolicy::AtomicPlan,
        !w.aborted,
    ensures
        forall|j: int| 0 <= j < w.outcomes.len() ==> !((#[trigger] w.outcomes[j]) is Failed),
{
    assert forall|j: int| 0 <= j < w.outcomes.len() implies !((#[trigger] w.outcomes[j])
        is Failed) by {
        assert(w.critical(j));
    }
}

/// All or nothing: under the policy that makes every failure fatal, a
/// write of a well-ordered plan that is over has either written every row
/// of the plan, or it has stopped at a failure and counts as failed.
pub proof fn lemma_atomic_all_or_nothing(w: WriterView)
    requires
        well_ordered(w.plan),
        consistent(w),
        w.policy == WritePolicy::AtomicPlan,
        w.over(),
    ensures
        w.aborted <==> w.root_key() is None,
        !w.aborted ==> w.outcomes.len() == w.plan.len() && forall|i: int|
            0 <= i < w.outcomes.len() ==> (#[trigger] w.outcomes[i]) is Written,
{
    if !w.aborted {
        lemma_atomic_unfailed(w);
        assert forall|i: int| 0 <= i < w.outcomes.len() implies (#[trigger] w.outcomes[i])
            is Written by {
            lemma_all_written(w, i);
        }
        assert(w.outcomes[0] is Written);
    }
}

/// The tables whose rows refer to the root of the snapshot and to nothing
/// else.
pub open spec fn hangs_from_root(kind: EntityKind) -> bool {
    kind == EntityKind::OsInfo || kind == EntityKind::LoadAverage || kind == EntityKind::MemoryInfo
        || kind == EntityKind::SwapInfo || kind == EntityKind::BatteryLife || kind
        == EntityKind::FilesystemInfo || kind == EntityKind::Network || kind
        == EntityKind::SocketStatistic
}

/// In a well-ordered plan a row of such a table waits for the root alone.
pub proof fn lemma_waits_for_root(plan: Seq<DescriptorView>, i: int)
    requires
        well_ordered(plan),
        0 <= i < plan.len(),
        hangs_from_root(plan[i].row.kind()),
    ensures
        plan[i].first == Some(0usize),
        plan[i].second is None,
{
    assert(references_fit(plan, i));
    let p = plan[i].first->0;
    if p != 0 {
        assert(plan[p as int].row.kind() != EntityKind::SystemInformation);
    }
}

/// Once the root is written, a row that hangs from the root alone is
/// never passed over: the storage is asked for it, and it is written or
/// the storage has failed.
pub proof fn lemma_child_attempted(w: WriterView, i: int)
    requires
        well_ordered(w.plan),
        consistent(w),
        w.outcomes.len() > 0,
        w.outcomes[0] is Written,
        0 <= i < w.outcomes.len(),
        hangs_from_root(w.plan[i].row.kind()),
    ensures
        !(w.outcomes[i] is Skipped),
{
    lemma_waits_for_root(w.plan, i);
    if i == 0 {
        assert(w.plan[0].row.kind() == EntityKind::SystemInformation);
    }
    assert(was_ready(w, i));
}

/// The key of the snapshot that a row refers to, for the rows of the
/// tables that have a column for it.
pub open spec fn snapshot_key(row: RowView) -> Option<i32> {
    match row {
        RowView::OsInfo(r) => Some(r.system_information_id),
        RowView::LoadAverage(r) => Some(r.system_information_id),
        RowView::MemoryInfo(r) => Some(r.system_information_id),
        RowView::SwapInfo(r) => Some(r.system_information_id),
        RowView::BatteryLife(r) => Some(r.system_information_id),
        RowView::FilesystemInfo(r) => Some(r.system_information_id),
        RowView::Network(r) => Some(r.system_information_id),
        RowView::SocketStatistic(r) => Some(r.system_information_id),
        RowView::CpuInformation(r) => Some(r.system_information_id),
        RowView::NetworkStatistic(r) => Some(r.system_information_id),
        _ => None,
    }
}

/// Every row with a column for the snapshot's key that a write of a
/// well-ordered plan hands out carries, in that column, the key under
/// which the root of this very write was stored.
pub proof fn lemma_rows_name_the_root(w: WriterView, key: i32)
    requires
        well_ordered(w.plan),
        consistent(w),
        w.outcomes.len() > 0,
        w.outcomes[0] == WriteOutcome::Written(key),
        w.pending() is Some,
    ensures
        snapshot_key(w.pending()->0) is Some ==> snapshot_key(w.pending()->0) == Some(key),
{
    lemma_settled(w);
    let s = w.settled();
    let i = s.outcomes.len() as int;
    assert(s.outcomes[0] == w.outcomes[0]);
    assert(references_fit(s.plan, i));
    let d = s.plan[i];
    if snapshot_key(w.pending()->0) is Some {
        let p = d.first->0;
        if p != 0 {
            assert(s.plan[p as int].row.kind() != EntityKind::SystemInformation);
        }
    }
}

/// How many rows of the table `kind` a report tells were written.
pub open spec fn rows_written(entries: Seq<ReportEntry>, kind: EntityKind) -> nat
    decreases entries.len(),
{
    if entries.len() == 0 {
        0
    } else {
        rows_written(entries.drop_last(), kind) + if entries.last().kind == kind
            && entries.last().outcome is Written {
            1nat
        } else {
            0nat
        }
    }
}

/// How many rows of the table `kind` a report tells the storage failed to
/// write.
pub open spec fn rows_failed(entries: Seq<ReportEntry>, kind: EntityKind) -> nat
    decreases entries.len(),
{
    if entries.len() == 0 {
        0
    } else {
        rows_failed(entries.drop_last(), kind) + if entries.last().kind == kind
            && entries.last().outcome is Failed {
            1nat
        } else {
            0nat
        }
    }
}

proof fn lemma_accounted_upto(w: WriterView, kind: EntityKind, n: int)
    requires
        well_ordered(w.plan),
        consistent(w),
        w.outcomes.len() == w.plan.len(),
        w.outcomes[0] is Written,
        hangs_from_root(kind),
        0 <= n <= w.plan.len(),
    ensures
        rows_written(report_entries(w).take(n), kind) + rows_failed(report_entries(w).take(n), kind)
            == count_kind(w.plan.take(n), kind),
    decreases n,
{
    let entries = report_entries(w);
    if n > 0 {
        lemma_accounted_upto(w, kind, n - 1);
        assert(entries.take(n).drop_last() =~= entries.take(n - 1));
        assert(w.plan.take(n).drop_last() =~= w.plan.take(n - 1));
        assert(entries.take(n).last() == entries[n - 1]);
        assert(w.plan.take(n).last() == w.plan[n - 1]);
        if w.plan[n - 1].row.kind() == kind {
            lemma_child_attempted(w, n - 1);
        }
    }
}

/// In a write of a well-ordered plan that went through the whole plan and
/// whose root was written, the rows of a table that hangs from the root
/// alone are all accounted for: each was written, or the storage failed
/// on it.  So with k failures among the n rows of the table, n - k rows
/// of it are stored.
pub proof fn lemma_children_accounted(w: WriterView, kind: EntityKind)
    requires
        well_ordered(w.plan),
        consistent(w),
        w.outcomes.len() == w.plan.len(),
        w.root_key() is Some,
        hangs_from_root(kind),
    ensures
        rows_written(report_entries(w), kind) + rows_failed(report_entries(w), kind) == count_kind(
            w.plan,
            kind,
        ),
{
    lemma_accounted_upto(w, kind, w.plan.len() as int);
    assert(report_entries(w).take(w.plan.len() as int) =~= report_entries(w));
    assert(w.plan.take(w.plan.len() as int) =~= w.plan);
}

/// A row is handed out only when every row it refers to has its generated
/// key, and it carries exactly those keys: the keys under which the rows
/// of this very write were stored.
pub proof fn lemma_handed_out_after_its_parents(w: WriterView)
    requires
        consistent(w),
        w.pending() is Some,
    ensures
        ({
            let s = w.settled();
            let d = s.plan[s.outcomes.len() as int];
            &&& s.outcomes.len() < s.plan.len()
            &&& (d.first matches Some(p) ==> p < s.outcomes.len() && s.outcomes[p as int]
                == WriteOutcome::Written(key_at(s.outcomes, d.first)->0))
            &&& (d.second matches Some(p) ==> p < s.outcomes.len() && s.outcomes[p as int]
                == WriteOutcome::Written(key_at(s.outcomes, d.second)->0))
            &&& w.pending() == Some(
                d.row.resolved(key_at(s.outcomes, d.first)->0, key_at(s.outcomes, d.second)->0),
            )
        }),
{
    lemma_settled(w);
}

/// A report of a write in which the storage never failed counts no
/// failed row.
pub proof fn lemma_no_failure_counted(w: WriterView, kind: EntityKind)
    requires
        forall|j: int| 0 <= j < w.outcomes.len() ==> !((#[trigger] w.outcomes[j]) is Failed),
    ensures
        rows_failed(report_entries(w), kind) == 0,
{
    lemma_no_failure_upto(w, kind, w.plan.len() as int);
    assert(report_entries(w).take(w.plan.len() as int) =~= report_entries(w));
}

proof fn lemma_no_failure_upto(w: WriterView, kind: EntityKind, n: int)
    requires
        forall|j: int| 0 <= j < w.outcomes.len() ==> !((#[trigger] w.outcomes[j]) is Failed),
        0 <= n <= w.plan.len(),
    ensures
        rows_failed(report_entries(w).take(n), kind) == 0,
    decreases n,
{
    let entries = report_entries(w);
    if n > 0 {
        lemma_no_failure_upto(w, kind, n - 1);
        assert(entries.take(n).drop_last() =~= entries.take(n - 1));
        assert(entries.take(n).last() == entries[n - 1]);
    }
}

} // verus!
