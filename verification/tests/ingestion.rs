use monitoring_ingest::api_key::ApiKeyVault;
use monitoring_ingest::ingest::{
    Authenticating, Body, Closing, End, Ingestion, Opening, Persisting, Phase, Reply, Request,
};
use monitoring_ingest::normalize::normalize;
use monitoring_ingest::models::{Filesystem, SystemInformation};
use monitoring_ingest::plan::{EntityKind, Row};
use monitoring_ingest::profile_store::ProfileStore;
use monitoring_ingest::response::{AuthFailure, Failure, Status, ValidationFailure};
use monitoring_ingest::tables::registry::DeviceProfile;
use monitoring_ingest::timestamp::Timestamp;
use monitoring_ingest::writer::{
    PersistenceFailure, StorageError, WriteOutcome, WritePolicy, Writer,
};

fn i_mount(name: &str) -> Filesystem {
    Filesystem {
        files: 1,
        files_total: 2,
        files_avail: 1,
        free: 3,
        avail: 4,
        total: 5,
        name_max: 255,
        fs_type: String::from("ext4"),
        fs_mounted_from: String::from("/dev/sda1"),
        fs_mounted_on: String::from(name),
    }
}

fn i_snapshot(hostname: &[u8], mounts: usize) -> SystemInformation {
    let mut list: Vec<Filesystem> = Vec::new();
    let mut i: usize = 0;
    while i < mounts {
        list.push(i_mount(&format!("/m{}", i)));
        i += 1;
    }
    SystemInformation {
        hostname: hostname.to_vec(),
        os_info: None,
        cpu: None,
        load_avg: None,
        memory: None,
        swap: None,
        battery_life: None,
        mounts: list,
        networks: Vec::new(),
        net_stats: Vec::new(),
        socket_stats: None,
        uptime: 1,
        boot_time: Timestamp::new(0, 0),
    }
}

fn i_request(api: Option<&str>, key: Option<&str>, id: u32, body: Body) -> Request {
    Request {
        api_key: api.map(String::from),
        profile_key: key.map(String::from),
        profile_id: id,
        body,
        received: Timestamp::new(1_700_000_000, 0),
    }
}

fn i_registry() -> ProfileStore {
    let mut store = ProfileStore::new();
    store.register_at("dev1", "k1", 7, Timestamp::new(1, 0)).expect("registered");
    store.register_at("dev2", "k2", 8, Timestamp::new(2, 0)).expect("registered");
    store
}

/// What the run of a request came to: the reply, and the rows that the
/// storage was asked to store.
struct Run {
    reply: Reply,
    lookups: usize,
    asked: Vec<Row>,
    stored: Vec<Row>,
}

/// Runs a request against a registry and a storage that answers as
/// `storage` says, by the number of the attempt.
fn i_run(
    vault: &ApiKeyVault,
    registry: Result<&ProfileStore, StorageError>,
    request: Request,
    storage: &dyn Fn(usize, &Row) -> Result<i32, StorageError>,
) -> Run {
    let mut state = Ingestion::begin(vault, request);
    let mut lookups: usize = 0;
    let mut asked: Vec<Row> = Vec::new();
    let mut stored: Vec<Row> = Vec::new();
    let mut steps: usize = 0;
    loop {
        steps += 1;
        assert!(steps < 10_000);
        state = match state {
            Ingestion::Authenticating(a) => {
                lookups += 1;
                let answer: Result<Option<DeviceProfile>, StorageError> = match registry {
                    Ok(store) => Ok(store.get(a.profile_id).cloned()),
                    Err(e) => Err(e),
                };
                a.resolve(answer)
            }
            Ingestion::Persisting(p, row) => {
                let answer = storage(asked.len(), &row);
                if answer.is_ok() {
                    stored.push(row.clone());
                }
                asked.push(row);
                p.stored(answer)
            }
            Ingestion::Responded(reply) => {
                return Run { reply, lookups, asked, stored };
            }
            other => panic!("a transaction without the atomic policy: {:?}", other),
        };
    }
}

#[test]
fn matching_keys_store_one_root_row_for_the_device_of_the_path() {
    let vault = ApiKeyVault::new("secret");
    let registry = i_registry();
    let request = i_request(Some("secret"), Some("k2"), 2, Body::Snapshot(i_snapshot(b"alpha", 2)));
    let run = i_run(&vault, Ok(&registry), request, &|n, _| Ok(500 + n as i32));
    assert_eq!(run.reply.status(), Status::Success);
    assert_eq!(run.reply.status().code(), 200);
    assert_eq!(run.lookups, 1);
    let roots: Vec<&Row> =
        run.stored.iter().filter(|r| r.kind() == EntityKind::SystemInformation).collect();
    assert_eq!(roots.len(), 1);
    match roots[0] {
        Row::SystemInformation(r) => {
            assert_eq!(r.device_profile_id, 2);
            assert_eq!(r.hostname, "alpha");
            assert_eq!(r.create_date, Timestamp::new(1_700_000_000, 0));
        }
        other => panic!("{:?}", other),
    }
    match run.reply {
        Reply::Stored(report) => {
            assert_eq!(report.root_id, 500);
            assert_eq!(report.entries.len(), 3);
        }
        other => panic!("{:?}", other),
    }
}

#[test]
fn a_wrong_api_key_writes_nothing_and_answers_400() {
    let vault = ApiKeyVault::new("secret");
    let registry = i_registry();
    let request = i_request(Some("Secret"), Some("k1"), 1, Body::Snapshot(i_snapshot(b"alpha", 2)));
    let run = i_run(&vault, Ok(&registry), request, &|n, _| Ok(n as i32));
    assert_eq!(run.reply, Reply::Rejected(Failure::Auth(AuthFailure::InvalidApiKey)));
    assert_eq!(run.reply.status(), Status::BadRequest);
    assert_eq!(run.reply.status().code(), 400);
    assert_eq!(run.lookups, 0);
    assert!(run.asked.is_empty());
}

#[test]
fn an_absent_api_key_writes_nothing_and_answers_400_whatever_the_body() {
    let vault = ApiKeyVault::new("secret");
    let registry = i_registry();
    for body in [
        Body::Malformed,
        Body::Snapshot(i_snapshot(b"alpha", 1)),
        Body::Snapshot(i_snapshot(&[0xff, 0xfe], 0)),
    ] {
        let run = i_run(&vault, Ok(&registry), i_request(None, Some("k1"), 1, body), &|n, _| {
            Ok(n as i32)
        });
        assert_eq!(run.reply, Reply::Rejected(Failure::Auth(AuthFailure::MissingApiKey)));
        assert_eq!(run.reply.status().code(), 400);
        assert_eq!(run.lookups, 0);
        assert!(run.asked.is_empty());
    }
}

#[test]
fn a_wrong_profile_key_writes_nothing_and_answers_400() {
    let vault = ApiKeyVault::new("secret");
    let registry = i_registry();
    for key in [Some("k2"), Some(""), Some("k1 "), None] {
        let request = i_request(Some("secret"), key, 1, Body::Snapshot(i_snapshot(b"alpha", 2)));
        let run = i_run(&vault, Ok(&registry), request, &|n, _| Ok(n as i32));
        assert_eq!(run.reply, Reply::Rejected(Failure::Auth(AuthFailure::InvalidProfileKey)));
        assert_eq!(run.reply.status().code(), 400);
        assert_eq!(run.lookups, 1);
        assert!(run.asked.is_empty());
    }
}

#[test]
fn an_unknown_device_answers_400() {
    let vault = ApiKeyVault::new("secret");
    let registry = i_registry();
    let request = i_request(Some("secret"), Some("k1"), 3, Body::Snapshot(i_snapshot(b"alpha", 0)));
    let run = i_run(&vault, Ok(&registry), request, &|n, _| Ok(n as i32));
    assert_eq!(run.reply, Reply::Rejected(Failure::Auth(AuthFailure::ProfileNotFound)));
    assert_eq!(run.reply.status().code(), 400);
    assert!(run.asked.is_empty());
}

#[test]
fn a_device_id_beyond_the_keys_of_the_registry_is_not_looked_up() {
    let vault = ApiKeyVault::new("secret");
    let registry = i_registry();
    let request =
        i_request(Some("secret"), Some("k1"), 2_147_483_648, Body::Snapshot(i_snapshot(b"a", 0)));
    let run = i_run(&vault, Ok(&registry), request, &|n, _| Ok(n as i32));
    assert_eq!(run.reply, Reply::Rejected(Failure::Auth(AuthFailure::ProfileNotFound)));
    assert_eq!(run.lookups, 0);
    let request =
        i_request(Some("secret"), Some("k1"), 2_147_483_647, Body::Snapshot(i_snapshot(b"a", 0)));
    let run = i_run(&vault, Ok(&registry), request, &|n, _| Ok(n as i32));
    assert_eq!(run.reply, Reply::Rejected(Failure::Auth(AuthFailure::ProfileNotFound)));
    assert_eq!(run.lookups, 1);
}

#[test]
fn an_unreachable_registry_answers_500() {
    let vault = ApiKeyVault::new("secret");
    let request = i_request(Some("secret"), Some("k1"), 1, Body::Snapshot(i_snapshot(b"alpha", 0)));
    let run = i_run(&vault, Err(StorageError::Unavailable), request, &|n, _| Ok(n as i32));
    assert_eq!(run.reply, Reply::Rejected(Failure::StorageUnavailable));
    assert_eq!(run.reply.status(), Status::InternalServerError);
    assert_eq!(run.reply.status().code(), 500);
    assert!(run.asked.is_empty());
}

#[test]
fn a_body_that_is_no_snapshot_answers_400_after_authentication() {
    let vault = ApiKeyVault::new("secret");
    let registry = i_registry();
    let run = i_run(
        &vault,
        Ok(&registry),
        i_request(Some("secret"), Some("k1"), 1, Body::Malformed),
        &|n, _| Ok(n as i32),
    );
    assert_eq!(run.reply, Reply::Rejected(Failure::Validation(ValidationFailure::MalformedBody)));
    assert_eq!(run.reply.status().code(), 400);
    assert_eq!(run.lookups, 1);
    assert!(run.asked.is_empty());
}

#[test]
fn a_host_name_that_is_not_text_answers_400() {
    let vault = ApiKeyVault::new("secret");
    let registry = i_registry();
    let body = Body::Snapshot(i_snapshot(&[b'a', 0xc3, 0x28], 1));
    let run =
        i_run(&vault, Ok(&registry), i_request(Some("secret"), Some("k1"), 1, body), &|n, _| {
            Ok(n as i32)
        });
    assert_eq!(run.reply, Reply::Rejected(Failure::Validation(ValidationFailure::EncodingError)));
    assert_eq!(run.reply.status().code(), 400);
    assert!(run.asked.is_empty());
}

#[test]
fn a_host_name_in_utf8_is_decoded() {
    let vault = ApiKeyVault::new("secret");
    let registry = i_registry();
    let body = Body::Snapshot(i_snapshot("grüße-β".as_bytes(), 0));
    let run =
        i_run(&vault, Ok(&registry), i_request(Some("secret"), Some("k1"), 1, body), &|n, _| {
            Ok(n as i32)
        });
    assert_eq!(run.reply.status().code(), 200);
    match &run.stored[0] {
        Row::SystemInformation(r) => assert_eq!(r.hostname, "grüße-β"),
        other => panic!("{:?}", other),
    }
}

#[test]
fn a_failing_root_write_answers_500_and_attempts_nothing_else() {
    let vault = ApiKeyVault::new("secret");
    let registry = i_registry();
    let request = i_request(Some("secret"), Some("k1"), 1, Body::Snapshot(i_snapshot(b"alpha", 3)));
    let run = i_run(&vault, Ok(&registry), request, &|_, _| Err(StorageError::Unavailable));
    assert_eq!(
        run.reply,
        Reply::Rejected(Failure::Persistence(PersistenceFailure::RootWriteFailed))
    );
    assert_eq!(run.reply.status().code(), 500);
    assert_eq!(run.asked.len(), 1);
    assert!(run.stored.is_empty());
}

#[test]
fn n_mounts_give_n_rows_that_name_the_new_snapshot() {
    let vault = ApiKeyVault::new("secret");
    let registry = i_registry();
    let request = i_request(Some("secret"), Some("k1"), 1, Body::Snapshot(i_snapshot(b"alpha", 4)));
    let run = i_run(&vault, Ok(&registry), request, &|n, _| Ok(77 + n as i32));
    assert_eq!(run.reply.status().code(), 200);
    let mounts: Vec<&Row> =
        run.stored.iter().filter(|r| r.kind() == EntityKind::FilesystemInfo).collect();
    assert_eq!(mounts.len(), 4);
    for row in mounts {
        match row {
            Row::FilesystemInfo(r) => assert_eq!(r.system_information_id, 77),
            other => panic!("{:?}", other),
        }
    }
}

#[test]
fn one_mount_forced_to_fail_leaves_n_minus_one_and_still_answers_200() {
    let vault = ApiKeyVault::new("secret");
    let registry = i_registry();
    let request = i_request(Some("secret"), Some("k1"), 1, Body::Snapshot(i_snapshot(b"alpha", 4)));
    let run = i_run(&vault, Ok(&registry), request, &|n, row| match row {
        Row::FilesystemInfo(r) if r.fs_mounted_on == "/m2" => Err(StorageError::Other),
        _ => Ok(77 + n as i32),
    });
    assert_eq!(run.reply.status(), Status::Success);
    assert_eq!(run.reply.status().code(), 200);
    assert_eq!(run.asked.len(), 5);
    let mounts =
        run.stored.iter().filter(|r| r.kind() == EntityKind::FilesystemInfo).count();
    assert_eq!(mounts, 3);
    match run.reply {
        Reply::Stored(report) => {
            assert_eq!(report.root_id, 77);
            let outcomes: Vec<WriteOutcome> = report.entries.iter().map(|e| e.outcome).collect();
            assert_eq!(
                outcomes,
                vec![
                    WriteOutcome::Written(77),
                    WriteOutcome::Written(78),
                    WriteOutcome::Written(79),
                    WriteOutcome::Failed(StorageError::Other),
                    WriteOutcome::Written(81),
                ]
            );
        }
        other => panic!("{:?}", other),
    }
}

#[test]
fn a_request_passes_through_its_three_states_in_order() {
    let vault = ApiKeyVault::new("secret");
    let registry = i_registry();
    let request = i_request(Some("secret"), Some("k1"), 1, Body::Snapshot(i_snapshot(b"alpha", 0)));
    let state = Ingestion::begin(&vault, request);
    assert_eq!(state.phase(), Phase::Authenticating);
    let a: Authenticating = match state {
        Ingestion::Authenticating(a) => a,
        other => panic!("{:?}", other),
    };
    assert_eq!(a.profile_id, 1);
    let state = a.resolve(Ok(registry.get(1).cloned()));
    assert_eq!(state.phase(), Phase::Persisting);
    let p: Persisting = match state {
        Ingestion::Persisting(p, row) => {
            assert_eq!(row.kind(), EntityKind::SystemInformation);
            p
        }
        other => panic!("{:?}", other),
    };
    let state = p.stored(Ok(12));
    assert_eq!(state.phase(), Phase::Responded);
}

#[test]
fn two_requests_do_not_touch_each_other() {
    let vault = ApiKeyVault::new("secret");
    let registry = i_registry();
    let one = i_request(Some("secret"), Some("k1"), 1, Body::Snapshot(i_snapshot(b"one", 1)));
    let two = i_request(Some("secret"), Some("k2"), 2, Body::Snapshot(i_snapshot(b"two", 1)));
    // interleave the two requests step by step
    let a1 = match Ingestion::begin(&vault, one) {
        Ingestion::Authenticating(a) => a,
        other => panic!("{:?}", other),
    };
    let a2 = match Ingestion::begin(&vault, two) {
        Ingestion::Authenticating(a) => a,
        other => panic!("{:?}", other),
    };
    let (p2, r2) = match a2.resolve(Ok(registry.get(2).cloned())) {
        Ingestion::Persisting(p, row) => (p, row),
        other => panic!("{:?}", other),
    };
    let (p1, r1) = match a1.resolve(Ok(registry.get(1).cloned())) {
        Ingestion::Persisting(p, row) => (p, row),
        other => panic!("{:?}", other),
    };
    match (&r1, &r2) {
        (Row::SystemInformation(x), Row::SystemInformation(y)) => {
            assert_eq!((x.device_profile_id, x.hostname.as_str()), (1, "one"));
            assert_eq!((y.device_profile_id, y.hostname.as_str()), (2, "two"));
        }
        other => panic!("{:?}", other),
    }
    let (p1, m1) = match p1.stored(Ok(10)) {
        Ingestion::Persisting(p, row) => (p, row),
        other => panic!("{:?}", other),
    };
    let (p2, m2) = match p2.stored(Ok(20)) {
        Ingestion::Persisting(p, row) => (p, row),
        other => panic!("{:?}", other),
    };
    match (&m1, &m2) {
        (Row::FilesystemInfo(x), Row::FilesystemInfo(y)) => {
            assert_eq!(x.system_information_id, 10);
            assert_eq!(y.system_information_id, 20);
        }
        other => panic!("{:?}", other),
    }
    match (p2.stored(Ok(21)), p1.stored(Err(StorageError::Other))) {
        (Ingestion::Responded(Reply::Stored(b)), Ingestion::Responded(Reply::Stored(a))) => {
            assert_eq!(a.root_id, 10);
            assert_eq!(b.root_id, 20);
        }
        other => panic!("{:?}", other),
    }
}

#[test]
fn two_requests_for_one_device_each_get_their_own_snapshot() {
    let vault = ApiKeyVault::new("secret");
    let registry = i_registry();
    let mut next_key: i32 = 0;
    let mut roots: Vec<i32> = Vec::new();
    for name in ["first", "second"] {
        let request =
            i_request(Some("secret"), Some("k1"), 1, Body::Snapshot(i_snapshot(name.as_bytes(), 2)));
        let base = next_key;
        let run = i_run(&vault, Ok(&registry), request, &|n, _| Ok(base + 1 + n as i32));
        next_key = base + run.asked.len() as i32;
        match run.reply {
            Reply::Stored(report) => {
                assert_eq!(report.succeeded(), vec![0, 1, 2]);
                roots.push(report.root_id);
            }
            other => panic!("{:?}", other),
        }
    }
    assert_eq!(roots, vec![1, 4]);
}

#[test]
fn the_profile_of_another_device_is_no_answer() {
    let vault = ApiKeyVault::new("secret");
    let registry = i_registry();
    let request = i_request(Some("secret"), Some("k2"), 1, Body::Snapshot(i_snapshot(b"alpha", 0)));
    let waiting = match Ingestion::begin(&vault, request) {
        Ingestion::Authenticating(a) => a,
        other => panic!("{:?}", other),
    };
    // a registry that answers with the second device when asked for the first
    let state = waiting.resolve(Ok(registry.get(2).cloned()));
    assert_eq!(
        state,
        Ingestion::Responded(Reply::Rejected(Failure::Auth(AuthFailure::ProfileNotFound)))
    );
}

/// What the run of a request under the atomic policy came to: the reply,
/// and what the storage was asked to do, in order.
struct AtomicRun {
    reply: Reply,
    asked: Vec<String>,
}

/// Runs a request under the atomic policy.  `begin` and `end` are what the
/// storage answers to the beginning and to the end of the transaction;
/// `storage` is what it answers to a row.
fn i_run_atomic(
    snapshot: SystemInformation,
    begin: Result<(), StorageError>,
    end: Result<(), StorageError>,
    storage: &dyn Fn(&Row) -> Result<i32, StorageError>,
) -> AtomicRun {
    let vault = ApiKeyVault::new("secret");
    let registry = i_registry();
    let request = i_request(Some("secret"), Some("k1"), 1, Body::Snapshot(snapshot));
    let mut state = Ingestion::begin_with(&vault, WritePolicy::AtomicPlan, request);
    let mut asked: Vec<String> = Vec::new();
    let mut steps: usize = 0;
    loop {
        steps += 1;
        assert!(steps < 10_000);
        state = match state {
            Ingestion::Authenticating(a) => {
                assert_eq!(a.policy, WritePolicy::AtomicPlan);
                a.resolve(Ok(registry.get(1).cloned()))
            }
            Ingestion::Opening(o) => {
                assert_eq!(o.writer.policy, WritePolicy::AtomicPlan);
                assert!(o.writer.outcomes.is_empty());
                asked.push(String::from("begin"));
                o.begun(begin)
            }
            Ingestion::Persisting(p, row) => {
                asked.push(format!("{:?}", row.kind()));
                let answer = storage(&row);
                p.stored(answer)
            }
            Ingestion::Closing(c) => {
                asked.push(match c.end {
                    End::Commit => String::from("commit"),
                    End::Rollback => String::from("rollback"),
                });
                c.ended(end)
            }
            Ingestion::Responded(reply) => return AtomicRun { reply, asked },
        };
    }
}

#[test]
fn under_the_atomic_policy_a_failing_mount_rolls_back_and_answers_500() {
    let run = i_run_atomic(i_snapshot(b"alpha", 4), Ok(()), Ok(()), &|row| match row {
        Row::FilesystemInfo(r) if r.fs_mounted_on == "/m1" => Err(StorageError::Other),
        _ => Ok(7),
    });
    // the transaction, the root, the first mount, the second mount; then the end
    assert_eq!(
        run.asked,
        vec!["begin", "SystemInformation", "FilesystemInfo", "FilesystemInfo", "rollback"]
    );
    assert_eq!(
        run.reply,
        Reply::Rejected(Failure::Persistence(PersistenceFailure::ChildWriteFailed))
    );
    assert_eq!(run.reply.status(), Status::InternalServerError);
    assert_eq!(run.reply.status().code(), 500);
}

#[test]
fn under_the_atomic_policy_a_failing_rollback_changes_nothing_of_the_reply() {
    let run =
        i_run_atomic(i_snapshot(b"alpha", 1), Ok(()), Err(StorageError::Unavailable), &|row| {
            match row {
                Row::SystemInformation(_) => Err(StorageError::Other),
                _ => Ok(7),
            }
        });
    assert_eq!(run.asked, vec!["begin", "SystemInformation", "rollback"]);
    assert_eq!(
        run.reply,
        Reply::Rejected(Failure::Persistence(PersistenceFailure::RootWriteFailed))
    );
    assert_eq!(run.reply.status().code(), 500);
}

#[test]
fn under_the_atomic_policy_a_snapshot_without_failures_is_committed_and_stored_in_full() {
    let run = i_run_atomic(i_snapshot(b"alpha", 2), Ok(()), Ok(()), &|_| Ok(3));
    assert_eq!(
        run.asked,
        vec!["begin", "SystemInformation", "FilesystemInfo", "FilesystemInfo", "commit"]
    );
    assert_eq!(run.reply.status().code(), 200);
    match run.reply {
        Reply::Stored(report) => {
            assert_eq!(report.root_id, 3);
            assert_eq!(report.succeeded(), vec![0, 1, 2]);
            assert_eq!(report.failure(), None);
        }
        other => panic!("{:?}", other),
    }
}

#[test]
fn under_the_atomic_policy_no_row_is_written_when_the_transaction_cannot_begin() {
    let run = i_run_atomic(i_snapshot(b"alpha", 2), Err(StorageError::Unavailable), Ok(()), &|_| {
        Ok(3)
    });
    assert_eq!(run.asked, vec!["begin"]);
    assert_eq!(run.reply, Reply::Rejected(Failure::StorageUnavailable));
    assert_eq!(run.reply.status().code(), 500);
}

#[test]
fn under_the_atomic_policy_a_failing_commit_stores_nothing_and_answers_500() {
    let run = i_run_atomic(i_snapshot(b"alpha", 1), Ok(()), Err(StorageError::Other), &|_| Ok(3));
    assert_eq!(run.asked, vec!["begin", "SystemInformation", "FilesystemInfo", "commit"]);
    assert_eq!(run.reply, Reply::Rejected(Failure::StorageUnavailable));
    assert_eq!(run.reply.status().code(), 500);
}

#[test]
fn as_far_as_it_goes_a_request_has_no_transaction() {
    let vault = ApiKeyVault::new("secret");
    let registry = i_registry();
    let request = i_request(Some("secret"), Some("k1"), 1, Body::Snapshot(i_snapshot(b"alpha", 2)));
    let mut state = Ingestion::begin(&vault, request);
    let mut rows: usize = 0;
    loop {
        state = match state {
            Ingestion::Authenticating(a) => a.resolve(Ok(registry.get(1).cloned())),
            Ingestion::Persisting(p, _) => {
                rows += 1;
                assert!(rows < 100);
                p.stored(Err(StorageError::Other))
            }
            Ingestion::Responded(_) => break,
            other => panic!("a transaction: {:?}", other),
        };
    }
    assert_eq!(rows, 1);
}

#[test]
fn a_request_is_best_effort_unless_it_is_told_otherwise() {
    let vault = ApiKeyVault::new("secret");
    let request = i_request(Some("secret"), Some("k1"), 1, Body::Malformed);
    match Ingestion::begin(&vault, request) {
        Ingestion::Authenticating(a) => assert_eq!(a.policy, WritePolicy::BestEffort),
        other => panic!("{:?}", other),
    }
}

#[test]
fn beginning_and_ending_the_transaction_belong_to_persisting() {
    let plan = normalize(&i_snapshot(b"alpha", 0), "alpha", 1, Timestamp::new(0, 0));
    let opening = Ingestion::Opening(Opening {
        writer: Writer::with_policy(plan, WritePolicy::AtomicPlan),
    });
    assert_eq!(opening.phase(), Phase::Persisting);
    let plan = normalize(&i_snapshot(b"alpha", 0), "alpha", 1, Timestamp::new(0, 0));
    let closing = Ingestion::Closing(Closing {
        writer: Writer::with_policy(plan, WritePolicy::AtomicPlan),
        end: End::Rollback,
    });
    assert_eq!(closing.phase(), Phase::Persisting);
}
