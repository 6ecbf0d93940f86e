//! What holds of the ingestion of every snapshot.

use vstd::prelude::*;
use crate::ingest::{
    after_begin, after_end, begun, begun_with, closed, end_of, finished, opened, persisted,
    rejected, resolved, stored, validated, AuthenticatingView, BodyView, ClosingView, End,
    IngestionView, ReplyView, RequestView,
};
use crate::models::SystemInformationView;
use crate::normalize::plan_of;
use crate::plan::{count_kind, EntityKind, RowView};
use crate::plan_order::{lemma_plan_counts, lemma_plan_well_ordered};
use crate::response::{AuthFailure, Failure, Status};
use crate::rows::root_row;
use crate::tables::registry::DeviceProfileView;
use crate::text::decoded;
use crate::timestamp::Timestamp;
use crate::writer::{StorageError, WriteOutcome, WritePolicy, WriterView};
use crate::writer_rules::{
    consistent, continues, lemma_children_accounted, lemma_recorded, lemma_root_first,
    lemma_root_stays, lemma_settled, lemma_start_consistent, rows_failed, rows_written,
};

verus! {

/// A request that does not show the server's API key, or shows none, is
/// turned down with the status 400, whatever its body, whichever device
/// it names and whatever the policy.  It is turned down in its first
/// state: the registry is not asked, and no row is ever handed out for it.
pub proof fn theorem_api_key_required(
    server_key: Seq<char>,
    policy: WritePolicy,
    request: RequestView,
)
    requires
        request.api_key != Some(server_key),
    ensures
        begun_with(server_key, policy, request) == rejected(
            Failure::Auth(
                if request.api_key is None {
                    AuthFailure::MissingApiKey
                } else {
                    AuthFailure::InvalidApiKey
                },
            ),
        ),
        begun_with(server_key, policy, request) matches IngestionView::Responded(reply)
            && reply.status_of() == Status::BadRequest,
        begun(server_key, request) == begun_with(server_key, policy, request),
{
}

/// A request for a registered device that does not show that device's
/// key, or shows none, is turned down with the status 400, whatever its
/// body.  It is turned down when the registry has answered: no row is ever
/// handed out for it.
pub proof fn theorem_profile_key_required(a: AuthenticatingView, profile: DeviceProfileView)
    requires
        profile.id_device_profile == a.profile_id,
        a.profile_key != Some(profile.profile_key),
    ensures
        resolved(a, Ok(Some(profile))) == rejected(Failure::Auth(AuthFailure::InvalidProfileKey)),
        resolved(a, Ok(Some(profile))) matches IngestionView::Responded(reply) && reply.status_of()
            == Status::BadRequest,
{
}

/// A request whose device the registry does not have is turned down with
/// the status 400, and one for which the registry could not be asked with
/// the status 500; no row is handed out for either.  The profile of
/// another device does not stand for the device of the request, whatever
/// key the request shows.
pub proof fn theorem_device_required(a: AuthenticatingView, other: DeviceProfileView, e: StorageError)
    ensures
        resolved(a, Ok(None)) == rejected(Failure::Auth(AuthFailure::ProfileNotFound)),
        other.id_device_profile != a.profile_id ==> resolved(a, Ok(Some(other))) == rejected(
            Failure::Auth(AuthFailure::ProfileNotFound),
        ),
        resolved(a, Err(e)) == rejected(Failure::StorageUnavailable),
        Failure::StorageUnavailable.status_of() == Status::InternalServerError,
{
}

/// A body that is no snapshot, or whose host name is not text, is turned
/// down with the status 400 after authentication; no row is handed out.
pub proof fn theorem_snapshot_required(a: AuthenticatingView, profile: DeviceProfileView)
    requires
        profile.id_device_profile == a.profile_id,
        a.profile_key == Some(profile.profile_key),
        validated(a.body) is Err,
    ensures
        resolved(a, Ok(Some(profile))) == rejected(Failure::Validation(validated(a.body)->Err_0)),
        Failure::Validation(validated(a.body)->Err_0).status_of() == Status::BadRequest,
{
}

/// The write of the snapshot `info` of the device `profile_id` has begun
/// as far as it goes, and stands at `w`.
pub open spec fn writing(
    w: WriterView,
    info: SystemInformationView,
    hostname: Seq<char>,
    profile_id: i32,
    received: Timestamp,
) -> bool {
    &&& w.plan == plan_of(info, hostname, profile_id, received)
    &&& w.plan.len() <= usize::MAX
    &&& w.policy == WritePolicy::BestEffort
    &&& consistent(w)
}

/// A request that shows the server's API key and the key of its device,
/// with a snapshot whose host name is text, comes to the state of
/// persisting.  The first row it hands out is the root row of the
/// snapshot, and that row names the device of the request's path.  The
/// plan it writes holds exactly one root row.
pub proof fn theorem_accepted_snapshot(
    server_key: Seq<char>,
    request: RequestView,
    profile: DeviceProfileView,
    info: SystemInformationView,
)
    requires
        request.api_key == Some(server_key),
        request.profile_id <= i32::MAX,
        profile.id_device_profile == request.profile_id,
        request.profile_key == Some(profile.profile_key),
        request.body == BodyView::Snapshot(info),
        decoded(info.hostname) is Some,
        plan_of(info, decoded(info.hostname)->0, request.profile_id as i32, request.received).len()
            <= usize::MAX,
    ensures
        begun(server_key, request) matches IngestionView::Authenticating(a) && a.profile_id
            == request.profile_id && (resolved(a, Ok(Some(profile))) matches IngestionView::Persisting(
            w,
            row,
        ) && writing(w, info, decoded(info.hostname)->0, a.profile_id, request.received)
            && w.outcomes.len() == 0 && row == RowView::SystemInformation(
            root_row(
                decoded(info.hostname)->0,
                info.uptime,
                info.boot_time,
                request.profile_id as i32,
                request.received,
            ),
        ) && count_kind(w.plan, EntityKind::SystemInformation) == 1),
{
    let hostname = decoded(info.hostname)->0;
    let id = request.profile_id as i32;
    let plan = plan_of(info, hostname, id, request.received);
    lemma_plan_well_ordered(info, hostname, id, request.received);
    lemma_plan_counts(info, hostname, id, request.received, EntityKind::SystemInformation);
    lemma_root_first(plan);
    lemma_start_consistent(plan);
    lemma_settled(WriterView::start(plan));
    let w = WriterView::start(plan);
    assert(w.ready());
    assert(w.settled() == w);
}

/// Once the storage has answered to the root row with a key, the request
/// cannot fail any more.  Whatever the storage answers to the rows that
/// follow, the request stays in the state of persisting and then comes to
/// the reply that the snapshot is stored under that key, with the status
/// 200: rows may be missing from the snapshot, the reply does not show it.
pub proof fn theorem_success_is_kept(
    w: WriterView,
    info: SystemInformationView,
    hostname: Seq<char>,
    profile_id: i32,
    received: Timestamp,
    key: i32,
    answer: Result<i32, StorageError>,
)
    requires
        writing(w, info, hostname, profile_id, received),
        w.outcomes.len() == 0 && answer == Ok::<i32, StorageError>(key) || w.outcomes.len() > 0
            && w.outcomes[0] == WriteOutcome::Written(key),
    ensures
        match stored(w, answer) {
            IngestionView::Persisting(next, row) => writing(next, info, hostname, profile_id, received)
                && continues(w, next) && next.outcomes.len() > 0 && next.outcomes[0]
                == WriteOutcome::Written(key) && next.pending() == Some(row),
            IngestionView::Responded(reply) => reply matches ReplyView::Stored(root, entries) && root
                == key && entries.len() == w.plan.len() && reply.status_of() == Status::Success,
            _ => false,
        },
{
    lemma_plan_well_ordered(info, hostname, profile_id, received);
    lemma_recorded(w, answer);
    let next = w.recorded(answer);
    if w.outcomes.len() == 0 {
        lemma_root_first(w.plan);
        lemma_settled(w);
        assert(w.outcomes =~= Seq::<WriteOutcome>::empty());
        assert(w == WriterView::start(w.plan));
        assert(w.ready());
        assert(w.settled() == w);
        assert(next.outcomes[0] == WriteOutcome::Written(key));
    } else {
        assert(next.outcomes[0] == w.outcomes[0]);
    }
    lemma_root_stays(next, key);
    lemma_settled(next);
    let s = next.settled();
    assert(s.outcomes[0] == next.outcomes[0]);
    assert(s.settled() == s) by {
        lemma_settled(s);
    }
    lemma_root_stays(s, key);
}

/// When the storage fails on the root row, the request is answered at
/// once with the status 500, and no further row is handed out.
pub proof fn theorem_root_failure(
    info: SystemInformationView,
    hostname: Seq<char>,
    profile_id: i32,
    received: Timestamp,
    e: StorageError,
)
    requires
        plan_of(info, hostname, profile_id, received).len() <= usize::MAX,
    ensures
        stored(WriterView::start(plan_of(info, hostname, profile_id, received)), Err(e)) == rejected(
            Failure::Persistence(crate::writer::PersistenceFailure::RootWriteFailed),
        ),
        Failure::Persistence(crate::writer::PersistenceFailure::RootWriteFailed).status_of()
            == Status::InternalServerError,
{
    let plan = plan_of(info, hostname, profile_id, received);
    lemma_plan_well_ordered(info, hostname, profile_id, received);
    crate::writer_rules::lemma_root_failure_stops(plan, e);
    let w = WriterView::start(plan).recorded(Err(e));
    assert(w.settled() == w);
}

/// For a snapshot with n mounts whose write went through the whole plan
/// with the root written, the reply is that the snapshot is stored, and
/// the report accounts for each of the n mount rows: it was written, or
/// the storage failed on it.  So where every write succeeded n mount rows
/// are stored, and where the storage failed on one of them n - 1 are
/// stored; the status is 200 either way.
pub proof fn theorem_mounts_accounted(
    w: WriterView,
    info: SystemInformationView,
    hostname: Seq<char>,
    profile_id: i32,
    received: Timestamp,
)
    requires
        writing(w, info, hostname, profile_id, received),
        w.outcomes.len() == w.plan.len(),
        w.root_key() is Some,
    ensures
        closed(w) matches ReplyView::Stored(root, entries) && Some(root) == w.root_key()
            && rows_written(entries, EntityKind::FilesystemInfo) + rows_failed(
            entries,
            EntityKind::FilesystemInfo,
        ) == info.mounts.len() && closed(w).status_of() == Status::Success,
{
    lemma_plan_well_ordered(info, hostname, profile_id, received);
    lemma_plan_counts(info, hostname, profile_id, received, EntityKind::FilesystemInfo);
    lemma_children_accounted(w, EntityKind::FilesystemInfo);
}

/// The persisting of a snapshot comes to an end: when the storage answers
/// to the root row with a key, then, whatever it answers to the rows that
/// follow, the request has its reply after at most as many answers as the
/// plan has rows, and the reply is that the snapshot is stored under that
/// key, with the status 200.
pub proof fn theorem_snapshot_is_stored(
    w: WriterView,
    info: SystemInformationView,
    hostname: Seq<char>,
    profile_id: i32,
    received: Timestamp,
    key: i32,
    answers: Seq<Result<i32, StorageError>>,
)
    requires
        writing(w, info, hostname, profile_id, received),
        w.outcomes.len() == 0 && answers.len() > 0 && answers[0] == Ok::<i32, StorageError>(key)
            || w.outcomes.len() > 0 && w.outcomes[0] == WriteOutcome::Written(key),
        answers.len() >= w.plan.len() - w.outcomes.len(),
    ensures
        persisted(w, answers) matches IngestionView::Responded(reply) && (
        reply matches ReplyView::Stored(root, entries) && root == key && entries.len() == w.plan.len()
            && reply.status_of() == Status::Success),
    decreases answers.len(),
{
    lemma_plan_well_ordered(info, hostname, profile_id, received);
    if answers.len() == 0 {
        lemma_root_stays(w, key);
        lemma_settled(w);
        let s = w.settled();
        assert(s.over());
        assert(s.settled() == s);
        assert(s.outcomes[0] == w.outcomes[0]);
        lemma_root_stays(s, key);
    } else {
        theorem_success_is_kept(w, info, hostname, profile_id, received, key, answers[0]);
        match stored(w, answers[0]) {
            IngestionView::Persisting(next, _) => {
                lemma_settled(w);
                lemma_recorded(w, answers[0]);
                let s = w.settled();
                if s.over() {
                    assert(s.settled() == s);
                    assert(w.recorded(answers[0]) == s);
                    assert(false);
                }
                lemma_settled(w.recorded(answers[0]));
                assert(next.outcomes.len() > w.outcomes.len());
                theorem_snapshot_is_stored(
                    next,
                    info,
                    hostname,
                    profile_id,
                    received,
                    key,
                    answers.drop_first(),
                );
            },
            _ => {},
        }
    }
}

/// The write `w` came about without a failure of the storage.
pub open spec fn unfailed(w: WriterView) -> bool {
    forall|j: int| 0 <= j < w.outcomes.len() ==> !((#[trigger] w.outcomes[j]) is Failed)
}

/// When the storage answers to every row with a key, every row of the
/// plan is stored: the reply is the report in which each row is written.
/// For a snapshot with n mounts these are, among the others, n mount rows.
pub proof fn theorem_all_rows_stored(
    w: WriterView,
    info: SystemInformationView,
    hostname: Seq<char>,
    profile_id: i32,
    received: Timestamp,
    answers: Seq<Result<i32, StorageError>>,
)
    requires
        writing(w, info, hostname, profile_id, received),
        unfailed(w),
        forall|i: int| 0 <= i < answers.len() ==> (#[trigger] answers[i]) is Ok,
        answers.len() >= w.plan.len() - w.outcomes.len(),
        w.outcomes.len() > 0 || answers.len() > 0,
    ensures
        persisted(w, answers) matches IngestionView::Responded(reply) && (
        reply matches ReplyView::Stored(_, entries) && entries.len() == w.plan.len() && (forall|
            i: int,
        |
            0 <= i < entries.len() ==> (#[trigger] entries[i]).outcome is Written) && rows_written(
            entries,
            EntityKind::FilesystemInfo,
        ) == info.mounts.len()),
    decreases answers.len(),
{
    lemma_plan_well_ordered(info, hostname, profile_id, received);
    if answers.len() == 0 {
        lemma_settled(w);
        let s = w.settled();
        assert(s.over());
        assert(s.settled() == s);
        lemma_unfailed_settled(w);
        lemma_report_of_unfailed(s, info, hostname, profile_id, received);
    } else {
        lemma_settled(w);
        lemma_recorded(w, answers[0]);
        lemma_unfailed_settled(w);
        let s = w.settled();
        let r = w.recorded(answers[0]);
        assert(unfailed(r)) by {
            if !s.over() {
                assert forall|j: int| 0 <= j < r.outcomes.len() implies !((#[trigger] r.outcomes[j])
                    is Failed) by {
                    if j < s.outcomes.len() {
                        assert(r.outcomes[j] == s.outcomes[j]);
                    }
                }
            }
        }
        lemma_settled(r);
        lemma_unfailed_settled(r);
        let next = r.settled();
        assert(next.settled() == next) by {
            lemma_settled(next);
        }
        match stored(w, answers[0]) {
            IngestionView::Persisting(n, _) => {
                assert(n == next);
                if s.over() {
                    assert(s.settled() == s);
                    assert(r == s);
                    assert(false);
                }
                assert(next.outcomes.len() > w.outcomes.len());
                theorem_all_rows_stored(
                    next,
                    info,
                    hostname,
                    profile_id,
                    received,
                    answers.drop_first(),
                );
            },
            _ => {
                assert(next.over());
                lemma_report_of_unfailed(next, info, hostname, profile_id, received);
            },
        }
    }
}

proof fn lemma_unfailed_settled(w: WriterView)
    requires
        consistent(w),
        unfailed(w),
    ensures
        unfailed(w.settled()),
    decreases w.plan.len() - w.outcomes.len(),
{
    if w.over() || w.ready() {
    } else {
        let next = w.skip();
        assert forall|j: int| 0 <= j < next.outcomes.len() implies !((#[trigger] next.outcomes[j])
            is Failed) by {
            if j < w.outcomes.len() {
                assert(next.outcomes[j] == w.outcomes[j]);
            }
        }
        lemma_settled(w);
        assert(consistent(next)) by {
            crate::writer_rules::lemma_skip_consistent(w);
        }
        lemma_unfailed_settled(next);
    }
}

proof fn lemma_report_of_unfailed(
    w: WriterView,
    info: SystemInformationView,
    hostname: Seq<char>,
    profile_id: i32,
    received: Timestamp,
)
    requires
        writing(w, info, hostname, profile_id, received),
        unfailed(w),
        w.over(),
        w.outcomes.len() > 0,
    ensures
        closed(w) matches ReplyView::Stored(_, entries) && entries.len() == w.plan.len() && (forall|
            i: int,
        |
            0 <= i < entries.len() ==> (#[trigger] entries[i]).outcome is Written) && rows_written(
            entries,
            EntityKind::FilesystemInfo,
        ) == info.mounts.len(),
{
    lemma_plan_well_ordered(info, hostname, profile_id, received);
    let n = w.outcomes.len() as int;
    if w.aborted {
        assert(w.outcomes[n - 1] is Failed);
        assert(false);
    }
    assert(w.outcomes.len() == w.plan.len());
    assert forall|i: int| 0 <= i < w.outcomes.len() implies (#[trigger] w.outcomes[i]) is Written by {
        crate::writer_rules::lemma_all_written(w, i);
    }
    assert(w.outcomes[0] is Written);
    let entries = crate::writer::report_entries(w);
    assert forall|i: int| 0 <= i < entries.len() implies (#[trigger] entries[i]).outcome is Written by {
        assert(w.outcomes[i] is Written);
    }
    theorem_mounts_accounted(w, info, hostname, profile_id, received);
    crate::writer_rules::lemma_no_failure_counted(w, EntityKind::FilesystemInfo);
}

/// Under the atomic policy no row is handed out before the transaction
/// has begun: a request that was authenticated, with a snapshot whose host
/// name is text, first has its caller begin the transaction.  Where the
/// transaction cannot begin the request fails with the status 500, with
/// nothing written; where it has begun the first row handed out is the
/// root row.
pub proof fn theorem_transaction_begins_first(
    a: AuthenticatingView,
    profile: DeviceProfileView,
    info: SystemInformationView,
    e: StorageError,
)
    requires
        a.policy == WritePolicy::AtomicPlan,
        profile.id_device_profile == a.profile_id,
        a.profile_key == Some(profile.profile_key),
        a.body == BodyView::Snapshot(info),
        decoded(info.hostname) is Some,
        plan_of(info, decoded(info.hostname)->0, a.profile_id, a.received).len() <= usize::MAX,
    ensures
        ({
            let plan = plan_of(info, decoded(info.hostname)->0, a.profile_id, a.received);
            let w = WriterView::begin(plan, WritePolicy::AtomicPlan);
            &&& resolved(a, Ok(Some(profile))) == IngestionView::Opening(w)
            &&& after_begin(w, Err(e)) == rejected(Failure::StorageUnavailable)
            &&& Failure::StorageUnavailable.status_of() == Status::InternalServerError
            &&& after_begin(w, Ok(())) == IngestionView::Persisting(w, plan[0].row)
        }),
{
    let hostname = decoded(info.hostname)->0;
    let plan = plan_of(info, hostname, a.profile_id, a.received);
    let w = WriterView::begin(plan, WritePolicy::AtomicPlan);
    lemma_plan_well_ordered(info, hostname, a.profile_id, a.received);
    assert(crate::plan::references_fit(plan, 0));
    assert(w.ready());
    assert(w.settled() == w);
}

/// Under the atomic policy a request whose write is over has its caller
/// end the transaction, and is answered in one of two ways: the snapshot
/// is stored with every row of its plan, or the request has failed with
/// the status 500.  The transaction is committed exactly where every row
/// was written, and the snapshot counts as stored only when the commit
/// succeeded.  No snapshot is reported stored with rows missing.
pub proof fn theorem_atomic_plan(
    w: WriterView,
    info: SystemInformationView,
    hostname: Seq<char>,
    profile_id: i32,
    received: Timestamp,
    answer: Result<(), StorageError>,
)
    requires
        w.plan == plan_of(info, hostname, profile_id, received),
        w.plan.len() <= usize::MAX,
        w.policy == WritePolicy::AtomicPlan,
        consistent(w),
        w.over(),
    ensures
        finished(w) == IngestionView::Closing(ClosingView { writer: w, end: end_of(w) }),
        end_of(w) == End::Commit <==> w.outcomes.len() == w.plan.len() && forall|i: int|
            0 <= i < w.outcomes.len() ==> (#[trigger] w.outcomes[i]) is Written,
        match after_end(ClosingView { writer: w, end: end_of(w) }, answer) {
            ReplyView::Stored(_, entries) => end_of(w) == End::Commit && answer is Ok && entries.len()
                == w.plan.len() && forall|i: int|
                0 <= i < entries.len() ==> (#[trigger] entries[i]).outcome is Written,
            ReplyView::Rejected(failure) => failure.status_of() == Status::InternalServerError,
        },
{
    lemma_plan_well_ordered(info, hostname, profile_id, received);
    crate::writer_rules::lemma_atomic_all_or_nothing(w);
    if !w.aborted {
        let entries = crate::writer::report_entries(w);
        assert forall|i: int| 0 <= i < entries.len() implies (#[trigger] entries[i]).outcome
            is Written by {
            assert(w.outcomes[i] is Written);
        }
    } else {
        let n = w.outcomes.len() as int;
        assert(w.outcomes[n - 1] is Failed);
    }
}

/// Under the atomic policy the first failure of the storage ends the
/// write: no further row is handed out, the transaction is to be rolled
/// back, and the request is then answered with the status 500, whatever
/// the rollback comes to.
pub proof fn theorem_atomic_failure_is_fatal(
    w: WriterView,
    e: StorageError,
    answer: Result<(), StorageError>,
)
    requires
        consistent(w),
        w.policy == WritePolicy::AtomicPlan,
        w.pending() is Some,
    ensures
        stored(w, Err(e)) matches IngestionView::Closing(c) && c.end == End::Rollback && (after_end(
            c,
            answer,
        ) matches ReplyView::Rejected(failure) && failure is Persistence && failure.status_of()
            == Status::InternalServerError),
{
    lemma_settled(w);
    let next = w.recorded(Err(e));
    assert(next.aborted);
    assert(next.settled() == next);
}

/// As far as it goes, a write has no transaction: the request never has
/// its caller begin or end one.
pub proof fn theorem_best_effort_has_no_transaction(w: WriterView, answer: Result<i32, StorageError>)
    requires
        w.policy == WritePolicy::BestEffort,
    ensures
        !(opened(w) is Opening),
        !(opened(w) is Closing),
        !(stored(w, answer) is Opening),
        !(stored(w, answer) is Closing),
{
    crate::writer_rules::lemma_policy_is_kept(w);
    crate::writer_rules::lemma_policy_is_kept(w.recorded(answer));
    assert(w.recorded(answer).policy == w.policy);
}

} // verus!
