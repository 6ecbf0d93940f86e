//! The ingestion of one snapshot, from the request to the response.
//!
//! A request passes through three states and never goes back:
//! authenticating, persisting, responded.  The library decides; its caller
//! asks the registry and the storage.  In the state `Authenticating` the
//! caller looks the device up and hands over what the registry answered.
//! In the state `Persisting` the caller stores the row it was given and
//! hands over what the storage answered.  In the state `Responded` the
//! reply is there, and nothing is left to do.  Nothing is kept from one
//! request to the next.
//!
//! A request is taken in under one of the two policies of the writer.
//! Under `BestEffort`, the policy of `begin`, a snapshot whose root is
//! stored is a success, and rows that are missing from it are told in the
//! report and not to the caller.  Under `AtomicPlan` the failure of any
//! row fails the request, and the rows are written inside one transaction
//! of the storage: while persisting, the request first has its caller
//! begin the transaction (`Opening`), and at the end has it commit or roll
//! back (`Closing`).  No row is handed out before the transaction has
//! begun, and a snapshot counts as stored only when the commit succeeded.

use vstd::prelude::*;
use crate::api_key::ApiKeyVault;
use crate::auth::{answered, challenged, Challenge, ChallengeView};
use crate::models::{SystemInformation, SystemInformationView};
use crate::normalize::{normalize, plan_of};
use crate::plan::{Row, RowView};
use crate::profile_key::lookup_view;
use crate::response::{Failure, Status, ValidationFailure};
use crate::tables::registry::{DeviceProfile, DeviceProfileView};
use crate::text::{decode_text, decoded, opt_text};
use crate::timestamp::Timestamp;
use crate::writer::{
    report_entries, ReportEntry, StorageError, WritePolicy, WriteReport, Writer, WriterView,
};

verus! {

/// What the deserializer made of the body of a request.
#[derive(Debug, PartialEq, Eq)]
pub enum Body {
    /// The body is not a snapshot document.
    Malformed,
    Snapshot(SystemInformation),
}

pub enum BodyView {
    Malformed,
    Snapshot(SystemInformationView),
}

impl View for Body {
    type V = BodyView;

    open spec fn view(&self) -> BodyView {
        match self {
            Body::Malformed => BodyView::Malformed,
            Body::Snapshot(info) => BodyView::Snapshot(info@),
        }
    }
}

/// A request to store a snapshot: its two key headers, the device its
/// path names, its body, and the time it came in.
#[derive(Debug, PartialEq, Eq)]
pub struct Request {
    pub api_key: Option<String>,
    pub profile_key: Option<String>,
    pub profile_id: u32,
    pub body: Body,
    pub received: Timestamp,
}

pub struct RequestView {
    pub api_key: Option<Seq<char>>,
    pub profile_key: Option<Seq<char>>,
    pub profile_id: u32,
    pub body: BodyView,
    pub received: Timestamp,
}

impl View for Request {
    type V = RequestView;

    open spec fn view(&self) -> RequestView {
        RequestView {
            api_key: opt_text(self.api_key),
            profile_key: opt_text(self.profile_key),
            profile_id: self.profile_id,
            body: self.body@,
            received: self.received,
        }
    }
}

/// A request that showed the API key and waits for its device to be
/// looked up under `profile_id`.
#[derive(Debug, PartialEq, Eq)]
pub struct Authenticating {
    pub profile_id: i32,
    pub profile_key: Option<String>,
    pub body: Body,
    pub received: Timestamp,
    pub policy: WritePolicy,
}

pub struct AuthenticatingView {
    pub profile_id: i32,
    pub profile_key: Option<Seq<char>>,
    pub body: BodyView,
    pub received: Timestamp,
    pub policy: WritePolicy,
}

impl AuthenticatingView {
    /// The authentication that the request waits in.
    pub open spec fn challenge(self) -> ChallengeView {
        ChallengeView { profile_id: self.profile_id, profile_key: self.profile_key }
    }
}

impl View for Authenticating {
    type V = AuthenticatingView;

    open spec fn view(&self) -> AuthenticatingView {
        AuthenticatingView {
            profile_id: self.profile_id,
            profile_key: opt_text(self.profile_key),
            body: self.body@,
            received: self.received,
            policy: self.policy,
        }
    }
}

/// A request whose snapshot is being written.
#[derive(Debug, PartialEq, Eq)]
pub struct Persisting {
    pub writer: Writer,
}

impl View for Persisting {
    type V = WriterView;

    open spec fn view(&self) -> WriterView {
        self.writer@
    }
}

/// A request under the atomic policy whose caller is to begin the
/// transaction in which its snapshot will be written.
#[derive(Debug, PartialEq, Eq)]
pub struct Opening {
    pub writer: Writer,
}

impl View for Opening {
    type V = WriterView;

    open spec fn view(&self) -> WriterView {
        self.writer@
    }
}

/// How a transaction is to end.
#[derive(Clone, Copy, Debug, PartialEq, Eq, Structural)]
pub enum End {
    Commit,
    Rollback,
}

/// A request under the atomic policy whose write is over and whose caller
/// is to end the transaction as `end` says.
#[derive(Debug, PartialEq, Eq)]
pub struct Closing {
    pub writer: Writer,
    pub end: End,
}

pub struct ClosingView {
    pub writer: WriterView,
    pub end: End,
}

impl View for Closing {
    type V = ClosingView;

    open spec fn view(&self) -> ClosingView {
        ClosingView { writer: self.writer@, end: self.end }
    }
}

/// The reply to a request: the report of the stored snapshot, or the
/// failure that kept the snapshot from being stored.
#[derive(Debug, PartialEq, Eq)]
pub enum Reply {
    Stored(WriteReport),
    Rejected(Failure),
}

pub enum ReplyView {
    Stored(i32, Seq<ReportEntry>),
    Rejected(Failure),
}

impl View for Reply {
    type V = ReplyView;

    open spec fn view(&self) -> ReplyView {
        match self {
            Reply::Stored(report) => ReplyView::Stored(report.root_id, report.entries@),
            Reply::Rejected(failure) => ReplyView::Rejected(*failure),
        }
    }
}

impl ReplyView {
    /// The status of the reply: success for a stored snapshot, whether or
    /// not rows of it are missing, and else the status of the failure.
    pub open spec fn status_of(self) -> Status {
        match self {
            ReplyView::Stored(_, _) => Status::Success,
            ReplyView::Rejected(failure) => failure.status_of(),
        }
    }
}

impl Reply {
    /// The status of the reply.
    pub fn status(&self) -> (r: Status)
        ensures
            r == self@.status_of(),
    {
        match self {
            Reply::Stored(_) => Status::Success,
            Reply::Rejected(failure) => failure.status(),
        }
    }
}

/// The three states of a request.
#[derive(Clone, Copy, Debug, PartialEq, Eq, Structural)]
pub enum Phase {
    Authenticating,
    Persisting,
    Responded,
}

/// A request in one of its three states.  While persisting it tells what
/// its caller is to do next: store the row it carries, or, under the
/// atomic policy, begin or end the transaction.
#[derive(Debug, PartialEq, Eq)]
pub enum Ingestion {
    Authenticating(Authenticating),
    Opening(Opening),
    Persisting(Persisting, Row),
    Closing(Closing),
    Responded(Reply),
}

pub enum IngestionView {
    Authenticating(AuthenticatingView),
    Opening(WriterView),
    Persisting(WriterView, RowView),
    Closing(ClosingView),
    Responded(ReplyView),
}

impl View for Ingestion {
    type V = IngestionView;

    open spec fn view(&self) -> IngestionView {
        match self {
            Ingestion::Authenticating(a) => IngestionView::Authenticating(a@),
            Ingestion::Opening(o) => IngestionView::Opening(o@),
            Ingestion::Persisting(p, row) => IngestionView::Persisting(p@, row@),
            Ingestion::Closing(c) => IngestionView::Closing(c@),
            Ingestion::Responded(reply) => IngestionView::Responded(reply@),
        }
    }
}

impl IngestionView {
    /// The state of the request.  Beginning and ending the transaction
    /// belong to persisting.
    pub open spec fn phase_of(self) -> Phase {
        match self {
            IngestionView::Authenticating(_) => Phase::Authenticating,
            IngestionView::Opening(_) => Phase::Persisting,
            IngestionView::Persisting(_, _) => Phase::Persisting,
            IngestionView::Closing(_) => Phase::Persisting,
            IngestionView::Responded(_) => Phase::Responded,
        }
    }
}

/// A reply that turns a request down.
pub open spec fn rejected(failure: Failure) -> IngestionView {
    IngestionView::Responded(ReplyView::Rejected(failure))
}

/// The first state of a request whose snapshot is to be written under
/// `policy`.  A request that does not show the server's API key is turned
/// down at once, and so is one whose path names a device that the registry
/// cannot hold; any other waits for its device to be looked up.
pub open spec fn begun_with(
    server_key: Seq<char>,
    policy: WritePolicy,
    request: RequestView,
) -> IngestionView {
    match challenged(server_key, request.api_key, request.profile_id) {
        Err(failure) => rejected(Failure::Auth(failure)),
        Ok(profile_id) => IngestionView::Authenticating(
            AuthenticatingView {
                profile_id: profile_id,
                profile_key: request.profile_key,
                body: request.body,
                received: request.received,
                policy: policy,
            },
        ),
    }
}

/// The first state of a request whose snapshot is to be written as far as
/// it goes.
pub open spec fn begun(server_key: Seq<char>, request: RequestView) -> IngestionView {
    begun_with(server_key, WritePolicy::BestEffort, request)
}

/// The snapshot of a body and its host name as text, or why the body
/// cannot be stored.
pub open spec fn validated(body: BodyView) -> Result<(SystemInformationView, Seq<char>), ValidationFailure> {
    match body {
        BodyView::Malformed => Err(ValidationFailure::MalformedBody),
        BodyView::Snapshot(info) => match decoded(info.hostname) {
            Some(hostname) => Ok((info, hostname)),
            None => Err(ValidationFailure::EncodingError),
        },
    }
}

/// The reply that closes a write: the report where the write succeeded,
/// else the failure that was fatal to it.
pub open spec fn closed(w: WriterView) -> ReplyView {
    match w.root_key() {
        Some(id) => ReplyView::Stored(id, report_entries(w)),
        None => ReplyView::Rejected(Failure::Persistence(w.lost())),
    }
}

/// How the transaction of a write that is over is to end: it is
/// committed where the write succeeded, and rolled back where it failed.
pub open spec fn end_of(w: WriterView) -> End {
    if w.root_key() is Some {
        End::Commit
    } else {
        End::Rollback
    }
}

/// The state of a request whose write is over.  As far as it goes, the
/// write has its reply.  Under the atomic policy the transaction is to be
/// ended first.
pub open spec fn finished(w: WriterView) -> IngestionView {
    if w.policy == WritePolicy::AtomicPlan {
        IngestionView::Closing(ClosingView { writer: w, end: end_of(w) })
    } else {
        IngestionView::Responded(closed(w))
    }
}

/// The state of a request whose write stands at `w`: persisting, with the
/// next row, while there is one; finished when the write is over.
pub open spec fn advanced(w: WriterView) -> IngestionView {
    match w.pending() {
        Some(row) => IngestionView::Persisting(w.settled(), row),
        None => finished(w.settled()),
    }
}

/// The state of a request whose write is about to begin: as far as it
/// goes, the first row is handed out; under the atomic policy the
/// transaction is to be begun first.
pub open spec fn opened(w: WriterView) -> IngestionView {
    if w.policy == WritePolicy::AtomicPlan {
        IngestionView::Opening(w)
    } else {
        advanced(w)
    }
}

/// The state after the storage has answered to the beginning of the
/// transaction.  Where it could not begin, the request has failed, with
/// nothing written; else the first row is handed out.
pub open spec fn after_begin(w: WriterView, answer: Result<(), StorageError>) -> IngestionView {
    match answer {
        Ok(_) => advanced(w),
        Err(_) => rejected(Failure::StorageUnavailable),
    }
}

/// The reply after the storage has answered to the end of the
/// transaction.  A snapshot is stored when its commit succeeded; where the
/// commit failed nothing is stored, and the storage is to blame.  After a
/// rollback the reply is the failure of the write, whether or not the
/// rollback itself succeeded.
pub open spec fn after_end(c: ClosingView, answer: Result<(), StorageError>) -> ReplyView {
    match c.end {
        End::Commit => match answer {
            Ok(_) => closed(c.writer),
            Err(_) => ReplyView::Rejected(Failure::StorageUnavailable),
        },
        End::Rollback => ReplyView::Rejected(Failure::Persistence(c.writer.lost())),
    }
}

/// The state after the registry has answered.  The request is turned down
/// where the registry could not be asked (the server's fault), where it
/// does not have the device, and where the request does not show the
/// device's key; then the body is validated; and only then the write of
/// the snapshot's plan begins: as far as it goes with its first row, and
/// under the atomic policy with the transaction.
pub open spec fn resolved(
    a: AuthenticatingView,
    lookup: Result<Option<DeviceProfileView>, StorageError>,
) -> IngestionView {
    match answered(a.challenge(), lookup) {
        Err(failure) => rejected(failure),
        Ok(credentials) => match validated(a.body) {
            Err(failure) => rejected(Failure::Validation(failure)),
            Ok((info, hostname)) => opened(
                WriterView::begin(
                    plan_of(info, hostname, credentials.profile_id, a.received),
                    a.policy,
                ),
            ),
        },
    }
}

/// The state after the storage has answered to the row that was handed out.
pub open spec fn stored(w: WriterView, answer: Result<i32, StorageError>) -> IngestionView {
    advanced(w.recorded(answer))
}

/// The state that a request in the state of persisting comes to when the
/// storage gives these answers, one to each row that is handed out, in
/// their order.  Answers that are left over when the request has its
/// reply are not asked for.
pub open spec fn persisted(w: WriterView, answers: Seq<Result<i32, StorageError>>) -> IngestionView
    decreases answers.len(),
{
    if answers.len() == 0 {
        advanced(w)
    } else {
        match stored(w, answers[0]) {
            IngestionView::Persisting(next, _) => persisted(next, answers.drop_first()),
            other => other,
        }
    }
}

fn advance(writer: Writer) -> (r: Ingestion)
    ensures
        r@ == advanced(writer@),
{
    let mut writer = writer;
    match writer.next() {
        Some(row) => Ingestion::Persisting(Persisting { writer }, row),
        None => match writer.policy {
            WritePolicy::AtomicPlan => {
                let end = if writer.succeeded() {
                    End::Commit
                } else {
                    End::Rollback
                };
                Ingestion::Closing(Closing { writer, end })
            },
            WritePolicy::BestEffort => Ingestion::Responded(close(writer)),
        },
    }
}

fn close(writer: Writer) -> (r: Reply)
    ensures
        r@ == closed(writer@),
{
    match writer.finish() {
        Ok(report) => Reply::Stored(report),
        Err(failure) => Reply::Rejected(Failure::Persistence(failure)),
    }
}

impl Ingestion {
    /// Takes a request in; its snapshot will be written as far as it goes.
    pub fn begin(vault: &ApiKeyVault, request: Request) -> (r: Ingestion)
        ensures
            r@ == begun(vault@, request@),
    {
        Ingestion::begin_with(vault, WritePolicy::BestEffort, request)
    }

    /// Takes a request in; its snapshot will be written under `policy`.
    pub fn begin_with(vault: &ApiKeyVault, policy: WritePolicy, request: Request) -> (r: Ingestion)
        ensures
            r@ == begun_with(vault@, policy, request@),
    {
        let api_key = match &request.api_key {
            Some(key) => Some(key.as_str()),
            None => None,
        };
        match Challenge::begin(vault, api_key, request.profile_key, request.profile_id) {
            Err(failure) => Ingestion::Responded(Reply::Rejected(Failure::Auth(failure))),
            Ok(challenge) => Ingestion::Authenticating(
                Authenticating {
                    profile_id: challenge.profile_id,
                    profile_key: challenge.profile_key,
                    body: request.body,
                    received: request.received,
                    policy,
                },
            ),
        }
    }

    /// The state the request is in.
    pub fn phase(&self) -> (r: Phase)
        ensures
            r == self@.phase_of(),
    {
        match self {
            Ingestion::Authenticating(_) => Phase::Authenticating,
            Ingestion::Opening(_) => Phase::Persisting,
            Ingestion::Persisting(_, _) => Phase::Persisting,
            Ingestion::Closing(_) => Phase::Persisting,
            Ingestion::Responded(_) => Phase::Responded,
        }
    }
}

impl Authenticating {
    /// Takes what the registry answered when it was asked for the device
    /// `profile_id`.
    pub fn resolve(self, lookup: Result<Option<DeviceProfile>, StorageError>) -> (r: Ingestion)
        ensures
            r@ == resolved(self@, lookup_view(lookup)),
    {
        let challenge = Challenge { profile_id: self.profile_id, profile_key: self.profile_key };
        let credentials = match challenge.answer(lookup) {
            Err(failure) => {
                return Ingestion::Responded(Reply::Rejected(failure));
            },
            Ok(credentials) => credentials,
        };
        match &self.body {
            Body::Malformed => Ingestion::Responded(
                Reply::Rejected(Failure::Validation(ValidationFailure::MalformedBody)),
            ),
            Body::Snapshot(info) => match decode_text(&info.hostname) {
                None => Ingestion::Responded(
                    Reply::Rejected(Failure::Validation(ValidationFailure::EncodingError)),
                ),
                Some(hostname) => {
                    let plan = normalize(
                        info,
                        hostname.as_str(),
                        credentials.profile_id,
                        self.received,
                    );
                    let writer = Writer::with_policy(plan, self.policy);
                    match self.policy {
                        WritePolicy::AtomicPlan => Ingestion::Opening(Opening { writer }),
                        WritePolicy::BestEffort => advance(writer),
                    }
                },
            },
        }
    }
}

impl Opening {
    /// Takes what the storage answered when it was asked to begin the
    /// transaction.
    pub fn begun(self, answer: Result<(), StorageError>) -> (r: Ingestion)
        ensures
            r@ == after_begin(self@, answer),
    {
        match answer {
            Ok(_) => advance(self.writer),
            Err(_) => Ingestion::Responded(Reply::Rejected(Failure::StorageUnavailable)),
        }
    }
}

impl Closing {
    /// Takes what the storage answered when it was asked to end the
    /// transaction as `end` says, and gives the reply.
    pub fn ended(self, answer: Result<(), StorageError>) -> (r: Ingestion)
        ensures
            r@ == IngestionView::Responded(after_end(self@, answer)),
    {
        match self.end {
            End::Commit => match answer {
                Ok(_) => Ingestion::Responded(close(self.writer)),
                Err(_) => Ingestion::Responded(Reply::Rejected(Failure::StorageUnavailable)),
            },
            End::Rollback => {
                let failure = self.writer.lost();
                Ingestion::Responded(Reply::Rejected(Failure::Persistence(failure)))
            },
        }
    }
}

impl Persisting {
    /// Takes what the storage answered to the row that was handed out.
    pub fn stored(self, answer: Result<i32, StorageError>) -> (r: Ingestion)
        ensures
            r@ == stored(self@, answer),
    {
        let mut writer = self.writer;
        writer.record(answer);
        advance(writer)
    }
}

} // verus!
