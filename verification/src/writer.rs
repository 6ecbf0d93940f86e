//! The writer: carries out a write plan against a storage it does not see.
//!
//! The writer hands out one row at a time, with its foreign keys set, and
//! takes the storage's answer to it: the generated key, or an error.  The
//! caller does the storing.  Descriptors are taken in the order of the plan.
//!
//! Policy.  A write follows one of two policies, and says which.
//!
//! Under `BestEffort`, the policy of a write that is begun without naming
//! one, a descriptor of tier 0 is critical: when its write fails the writer
//! stops, and nothing after it is attempted.  The failure of any other
//! write is recorded and the writer goes on; a descriptor that waits for a
//! row that was not written is not attempted.  A snapshot may so be stored
//! with rows missing, and nothing is rolled back.
//!
//! Under `AtomicPlan` every descriptor is critical: the first failure stops
//! the writer, and the write has failed.  The caller is to write such a plan
//! inside one transaction of its storage and to roll it back on failure.
//!
//! Under either policy nothing is retried.

use vstd::prelude::*;
use crate::plan::{DescriptorView, EntityKind, Row, RowView, WritePlan};

verus! {

/// Why the storage did not take a row or give an answer.
#[derive(Clone, Copy, Debug, PartialEq, Eq, Structural)]
pub enum StorageError {
    /// No connection to the storage could be had, or it was lost.
    Unavailable,
    /// The storage refused the row: a constraint of the table was violated.
    ConstraintViolation,
    /// Any other failure of the storage.
    Other,
}

/// What became of one descriptor.
#[derive(Clone, Copy, Debug, PartialEq, Eq, Structural)]
pub enum WriteOutcome {
    /// The row was stored under this generated key.
    Written(i32),
    /// The storage was asked and failed.
    Failed(StorageError),
    /// The storage was not asked.
    Skipped,
}

/// A failure of the persistence of a snapshot.
#[derive(Clone, Copy, Debug, PartialEq, Eq, Structural)]
pub enum PersistenceFailure {
    /// The root row was not written; the snapshot is lost.
    RootWriteFailed,
    /// A row other than the root was not written; the snapshot stands
    /// without it.
    ChildWriteFailed,
}

/// Why a row is missing from a stored snapshot.
#[derive(Clone, Copy, Debug, PartialEq, Eq, Structural)]
pub enum WriteError {
    Storage(StorageError),
    NotAttempted,
}

/// Which failures are fatal to a write.
#[derive(Clone, Copy, Debug, PartialEq, Eq, Structural)]
pub enum WritePolicy {
    /// Only the failure of the root is fatal.
    BestEffort,
    /// Every failure is fatal: all rows are stored, or the write has failed.
    AtomicPlan,
}

/// A write in progress: the plan, its policy, and what became of its
/// first descriptors.
#[derive(Debug, PartialEq, Eq)]
pub struct Writer {
    pub plan: WritePlan,
    pub outcomes: Vec<WriteOutcome>,
    pub aborted: bool,
    pub policy: WritePolicy,
}

pub struct WriterView {
    pub plan: Seq<DescriptorView>,
    pub outcomes: Seq<WriteOutcome>,
    pub aborted: bool,
    pub policy: WritePolicy,
}

impl View for Writer {
    type V = WriterView;

    open spec fn view(&self) -> WriterView {
        WriterView {
            plan: self.plan@,
            outcomes: self.outcomes@,
            aborted: self.aborted,
            policy: self.policy,
        }
    }
}

/// The key that a descriptor takes from the descriptor it waits for at
/// `parent`: 0 where it waits for none, the generated key where that
/// descriptor was written, and none where it was not.
pub open spec fn key_at(outcomes: Seq<WriteOutcome>, parent: Option<usize>) -> Option<i32> {
    match parent {
        None => Some(0i32),
        Some(p) => if p < outcomes.len() {
            match outcomes[p as int] {
                WriteOutcome::Written(id) => Some(id),
                _ => None,
            }
        } else {
            None
        },
    }
}

impl WriterView {
    /// A plan with nothing written yet, to be written under `policy`.
    pub open spec fn begin(plan: Seq<DescriptorView>, policy: WritePolicy) -> WriterView {
        WriterView { plan: plan, outcomes: Seq::empty(), aborted: false, policy: policy }
    }

    /// A plan with nothing written yet, to be written as far as it goes.
    pub open spec fn start(plan: Seq<DescriptorView>) -> WriterView {
        WriterView::begin(plan, WritePolicy::BestEffort)
    }

    /// The failure of the descriptor at `i` is fatal to the write.
    pub open spec fn critical(self, i: int) -> bool {
        self.plan[i].tier == 0 || self.policy == WritePolicy::AtomicPlan
    }

    /// The write has stopped or has gone through the whole plan.
    pub open spec fn over(self) -> bool {
        self.aborted || self.outcomes.len() >= self.plan.len()
    }

    /// The next descriptor can be written: all it waits for was written.
    pub open spec fn ready(self) -> bool {
        &&& !self.over()
        &&& key_at(self.outcomes, self.plan[self.outcomes.len() as int].first) is Some
        &&& key_at(self.outcomes, self.plan[self.outcomes.len() as int].second) is Some
    }

    /// The next descriptor is passed over.
    pub open spec fn skip(self) -> WriterView {
        WriterView { outcomes: self.outcomes.push(WriteOutcome::Skipped), ..self }
    }

    /// The write after every descriptor that cannot be written has been
    /// passed over: it is over, or its next descriptor is ready.
    pub open spec fn settled(self) -> WriterView
        decreases self.plan.len() - self.outcomes.len(),
    {
        if self.over() || self.ready() {
            self
        } else {
            self.skip().settled()
        }
    }

    /// The row to store next, with its foreign keys set, if there is one.
    pub open spec fn pending(self) -> Option<RowView> {
        let s = self.settled();
        if s.over() {
            None
        } else {
            let d = s.plan[s.outcomes.len() as int];
            Some(d.row.resolved(key_at(s.outcomes, d.first)->0, key_at(s.outcomes, d.second)->0))
        }
    }

    /// The write after the storage has answered to the pending row.  Where
    /// no row is pending the answer is dropped.
    pub open spec fn recorded(self, answer: Result<i32, StorageError>) -> WriterView {
        let s = self.settled();
        if s.over() {
            s
        } else {
            match answer {
                Ok(id) => WriterView { outcomes: s.outcomes.push(WriteOutcome::Written(id)), ..s },
                Err(e) => WriterView {
                    outcomes: s.outcomes.push(WriteOutcome::Failed(e)),
                    aborted: s.critical(s.outcomes.len() as int),
                    ..s
                },
            }
        }
    }

    /// The outcome of the descriptor at `i` once the write is closed: what
    /// was recorded, and `Skipped` for what the write never came to.
    pub open spec fn outcome(self, i: int) -> WriteOutcome {
        if 0 <= i < self.outcomes.len() {
            self.outcomes[i]
        } else {
            WriteOutcome::Skipped
        }
    }

    /// The failure of a write that has failed: the loss of the root, or,
    /// where the policy makes it fatal, the loss of another row.
    pub open spec fn lost(self) -> PersistenceFailure {
        if self.aborted && 0 < self.outcomes.len() <= self.plan.len() && self.plan[self.outcomes.len()
            - 1].tier > 0 {
            PersistenceFailure::ChildWriteFailed
        } else {
            PersistenceFailure::RootWriteFailed
        }
    }

    /// The generated key of the root, if the root was written and the
    /// write has not failed.
    pub open spec fn root_key(self) -> Option<i32> {
        if self.aborted || self.plan.len() == 0 {
            None
        } else {
            match self.outcome(0) {
                WriteOutcome::Written(id) => Some(id),
                _ => None,
            }
        }
    }
}

/// One line of a report: a descriptor's table and what became of it.
#[derive(Clone, Copy, Debug, PartialEq, Eq, Structural)]
pub struct ReportEntry {
    pub kind: EntityKind,
    pub outcome: WriteOutcome,
}

/// The report of a write whose root was written: the root's generated key
/// and, for each descriptor of the plan in its order, what became of it.
#[derive(Debug, PartialEq, Eq)]
pub struct WriteReport {
    pub root_id: i32,
    pub entries: Vec<ReportEntry>,
}

/// The lines of the report of a write.
pub open spec fn report_entries(w: WriterView) -> Seq<ReportEntry> {
    Seq::new(w.plan.len(), |i: int| ReportEntry { kind: w.plan[i].row.kind(), outcome: w.outcome(i) })
}

impl Writer {
    /// Begins the write of a plan as far as it goes.
    pub fn new(plan: WritePlan) -> (w: Writer)
        ensures
            w@ == WriterView::start(plan@),
    {
        Writer { plan, outcomes: Vec::new(), aborted: false, policy: WritePolicy::BestEffort }
    }

    /// Begins the write of a plan under a policy.
    pub fn with_policy(plan: WritePlan, policy: WritePolicy) -> (w: Writer)
        ensures
            w@ == WriterView::begin(plan@, policy),
    {
        Writer { plan, outcomes: Vec::new(), aborted: false, policy }
    }

    fn key_of(&self, parent: Option<usize>) -> (r: Option<i32>)
        ensures
            r == key_at(self.outcomes@, parent),
    {
        match parent {
            None => Some(0),
            Some(p) => if p < self.outcomes.len() {
                match self.outcomes[p] {
                    WriteOutcome::Written(id) => Some(id),
                    _ => None,
                }
            } else {
                None
            },
        }
    }

    /// Whether the write has stopped or gone through the whole plan.
    pub fn is_over(&self) -> (r: bool)
        ensures
            r == self@.over(),
    {
        self.aborted || self.outcomes.len() >= self.plan.descriptors.len()
    }

    /// The row to store next, with its foreign keys set; `None` when the
    /// write is over.  Descriptors that cannot be written are passed over
    /// on the way.  Asking twice gives the same row.
    pub fn next(&mut self) -> (r: Option<Row>)
        ensures
            final(self)@ == old(self)@.settled(),
            r is Some <==> old(self)@.pending() is Some,
            r matches Some(row) ==> Some(row@) == old(self)@.pending(),
    {
        loop
            invariant
                self@.settled() == old(self)@.settled(),
            decreases self.plan.descriptors.len() - self.outcomes.len(),
        {
            if self.is_over() {
                return None;
            }
            let at: usize = self.outcomes.len();
            let first = self.key_of(self.plan.descriptors[at].first);
            let second = self.key_of(self.plan.descriptors[at].second);
            match (first, second) {
                (Some(a), Some(b)) => {
                    let row = self.plan.descriptors[at].row.clone();
                    return Some(row.resolve(a, b));
                },
                _ => {
                    self.outcomes.push(WriteOutcome::Skipped);
                },
            }
        }
    }

    /// Takes the storage's answer to the row that `next` gave.  Where no
    /// row is pending the answer is dropped.
    pub fn record(&mut self, answer: Result<i32, StorageError>)
        ensures
            final(self)@ == old(self)@.recorded(answer),
    {
        let _ = self.next();
        if self.is_over() {
            return ;
        }
        match answer {
            Ok(id) => {
                self.outcomes.push(WriteOutcome::Written(id));
            },
            Err(e) => {
                let at: usize = self.outcomes.len();
                let critical = self.plan.descriptors[at].tier == 0 || match self.policy {
                    WritePolicy::AtomicPlan => true,
                    WritePolicy::BestEffort => false,
                };
                self.outcomes.push(WriteOutcome::Failed(e));
                self.aborted = critical;
            },
        }
    }

    /// Whether the write, as it stands, has its root written and has not
    /// failed.
    pub fn succeeded(&self) -> (r: bool)
        ensures
            r == (self@.root_key() is Some),
    {
        if self.aborted || self.plan.descriptors.len() == 0 || self.outcomes.len() == 0 {
            return false;
        }
        match self.outcomes[0] {
            WriteOutcome::Written(_) => true,
            _ => false,
        }
    }

    /// The failure of the write, taken as failed: the loss of the root, or,
    /// where the policy made it fatal, the loss of another row.
    pub fn lost(&self) -> (r: PersistenceFailure)
        ensures
            r == self@.lost(),
    {
        if self.aborted {
            let last: usize = self.outcomes.len();
            if last > 0 && last <= self.plan.descriptors.len() && self.plan.descriptors[last - 1].tier
                > 0 {
                return PersistenceFailure::ChildWriteFailed;
            }
        }
        PersistenceFailure::RootWriteFailed
    }

    /// Closes the write.  It succeeded if the root was written and no
    /// failure was fatal; the report then tells what became of every
    /// descriptor, and counts as skipped what the write had not come to.
    pub fn finish(self) -> (r: Result<WriteReport, PersistenceFailure>)
        ensures
            self@.root_key() is None ==> r == Err::<WriteReport, _>(self@.lost()),
            self@.root_key() matches Some(id) ==> (r matches Ok(report) && report.root_id == id
                && report.entries@ == report_entries(self@)),
    {
        if !self.succeeded() {
            return Err(self.lost());
        }
        let root_id: i32 = match self.outcomes[0] {
            WriteOutcome::Written(id) => id,
            _ => {
                return Err(PersistenceFailure::RootWriteFailed);
            },
        };
        let mut entries: Vec<ReportEntry> = Vec::new();
        let mut i: usize = 0;
        while i < self.plan.descriptors.len()
            invariant
                i <= self.plan.descriptors.len(),
                entries@.len() == i,
                forall|j: int| 0 <= j < i ==> entries@[j] == report_entries(self@)[j],
            decreases self.plan.descriptors.len() - i,
        {
            let outcome = if i < self.outcomes.len() {
                self.outcomes[i]
            } else {
                WriteOutcome::Skipped
            };
            entries.push(ReportEntry { kind: self.plan.descriptors[i].row.kind(), outcome });
            i = i + 1;
        }
        proof {
            assert(entries@ =~= report_entries(self@));
        }
        Ok(WriteReport { root_id, entries })
    }
}

/// A row that is missing from a stored snapshot: the position of its
/// descriptor in the plan, its table, and why it is missing.
#[derive(Clone, Copy, Debug, PartialEq, Eq, Structural)]
pub struct MissingRow {
    pub descriptor: usize,
    pub kind: EntityKind,
    pub error: WriteError,
}

/// Why a row with this outcome is missing, if it is.
pub open spec fn error_of(outcome: WriteOutcome) -> Option<WriteError> {
    match outcome {
        WriteOutcome::Written(_) => None,
        WriteOutcome::Failed(e) => Some(WriteError::Storage(e)),
        WriteOutcome::Skipped => Some(WriteError::NotAttempted),
    }
}

/// The positions of the descriptors whose rows were written, ascending.
pub open spec fn succeeded_of(entries: Seq<ReportEntry>) -> Seq<usize>
    decreases entries.len(),
{
    if entries.len() == 0 {
        Seq::empty()
    } else {
        let before = succeeded_of(entries.drop_last());
        if entries.last().outcome is Written {
            before.push((entries.len() - 1) as usize)
        } else {
            before
        }
    }
}

/// The rows that were not written, by ascending position.
pub open spec fn failed_of(entries: Seq<ReportEntry>) -> Seq<MissingRow>
    decreases entries.len(),
{
    if entries.len() == 0 {
        Seq::empty()
    } else {
        let before = failed_of(entries.drop_last());
        match error_of(entries.last().outcome) {
            Some(error) => before.push(
                MissingRow {
                    descriptor: (entries.len() - 1) as usize,
                    kind: entries.last().kind,
                    error: error,
                },
            ),
            None => before,
        }
    }
}

/// Some row of the snapshot is missing.
pub open spec fn partial(entries: Seq<ReportEntry>) -> bool {
    exists|i: int| 0 <= i < entries.len() && !((#[trigger] entries[i]).outcome is Written)
}

impl WriteReport {
    /// The failure of a stored snapshot, if it has one: rows are missing.
    /// It is not fatal and is not shown to the caller of the service.
    pub fn failure(&self) -> (r: Option<PersistenceFailure>)
        ensures
            r == (if partial(self.entries@) {
                Some(PersistenceFailure::ChildWriteFailed)
            } else {
                None
            }),
    {
        let mut i: usize = 0;
        while i < self.entries.len()
            invariant
                i <= self.entries.len(),
                forall|j: int| 0 <= j < i ==> (#[trigger] self.entries@[j]).outcome is Written,
            decreases self.entries.len() - i,
        {
            match self.entries[i].outcome {
                WriteOutcome::Written(_) => {},
                _ => {
                    return Some(PersistenceFailure::ChildWriteFailed);
                },
            }
            i = i + 1;
        }
        None
    }

    /// The positions in the plan of the descriptors whose rows are stored.
    pub fn succeeded(&self) -> (r: Vec<usize>)
        ensures
            r@ == succeeded_of(self.entries@),
    {
        let mut found: Vec<usize> = Vec::new();
        let mut i: usize = 0;
        while i < self.entries.len()
            invariant
                i <= self.entries.len(),
                found@ == succeeded_of(self.entries@.take(i as int)),
            decreases self.entries.len() - i,
        {
            proof {
                assert(self.entries@.take(i + 1).drop_last() =~= self.entries@.take(i as int));
            }
            match self.entries[i].outcome {
                WriteOutcome::Written(_) => {
                    found.push(i);
                },
                _ => {},
            }
            i = i + 1;
        }
        proof {
            assert(self.entries@.take(i as int) =~= self.entries@);
        }
        found
    }

    /// The rows that are missing from the stored snapshot, each with the
    /// reason.  None of them has made the write fail.
    pub fn failed(&self) -> (r: Vec<MissingRow>)
        ensures
            r@ == failed_of(self.entries@),
    {
        let mut found: Vec<MissingRow> = Vec::new();
        let mut i: usize = 0;
        while i < self.entries.len()
            invariant
                i <= self.entries.len(),
                found@ == failed_of(self.entries@.take(i as int)),
            decreases self.entries.len() - i,
        {
            proof {
                assert(self.entries@.take(i + 1).drop_last() =~= self.entries@.take(i as int));
            }
            let entry = self.entries[i];
            match entry.outcome {
                WriteOutcome::Written(_) => {},
                WriteOutcome::Failed(e) => {
                    found.push(
                        MissingRow { descriptor: i, kind: entry.kind, error: WriteError::Storage(e) },
                    );
                },
                WriteOutcome::Skipped => {
                    found.push(
                        MissingRow { descriptor: i, kind: entry.kind, error: WriteError::NotAttempted },
                    );
                },
            }
            i = i + 1;
        }
        proof {
            assert(self.entries@.take(i as int) =~= self.entries@);
        }
        found
    }
}

} // verus!
