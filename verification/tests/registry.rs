use monitoring_ingest::profile_store::ProfileStore;
use monitoring_ingest::tables::registry::{DeviceProfile, ErrorLog};
use monitoring_ingest::timestamp::Timestamp;
use monitoring_ingest::writer::StorageError;

#[test]
fn registration_round_trip() {
    let mut store = ProfileStore::new();
    let profile = store
        .register_at("dev1", "k1", 7, Timestamp::new(1_700_000_000, 0))
        .expect("the registry has room");
    let id: i32 = profile.id_device_profile;
    assert!(id > 0);
    let found = store.get(id).expect("the profile was just registered");
    assert_eq!(found.device_name, "dev1");
    assert_eq!(found.profile_key, "k1");
    assert_eq!(found.create_user, 7);
    assert_eq!(found.create_date, Timestamp::new(1_700_000_000, 0));
    assert_eq!(found.id_device_profile, id);
    assert_eq!(found.modify_user, None);
    assert_eq!(found.modify_date, None);
    assert_eq!(found, &profile);
}

#[test]
fn keys_are_generated_in_sequence_from_one() {
    let mut store = ProfileStore::new();
    let a = store.register_at("a", "ka", 1, Timestamp::new(10, 1)).expect("room");
    let b = store.register_at("b", "kb", 2, Timestamp::new(20, 2)).expect("room");
    let c = store.register_at("c", "kc", 3, Timestamp::new(30, 3)).expect("room");
    assert_eq!([a.id_device_profile, b.id_device_profile, c.id_device_profile], [1, 2, 3]);
    assert_eq!(b.create_date, Timestamp::new(20, 2));
    assert_eq!(store.get(2), Some(&b));
    assert_eq!(store.get(0), None);
    assert_eq!(store.get(4), None);
    assert_eq!(store.get(-1), None);
}

#[test]
fn an_earlier_profile_is_still_found_after_a_later_registration() {
    let mut store = ProfileStore::new();
    let a = store.register_at("a", "ka", 1, Timestamp::new(10, 0)).expect("room");
    store.register_at("b", "kb", 2, Timestamp::new(20, 0)).expect("room");
    assert_eq!(store.get(1), Some(&a));
}

#[test]
fn the_list_holds_every_profile() {
    let mut store = ProfileStore::new();
    assert_eq!(store.list(), Vec::<DeviceProfile>::new());
    let a = store.register_at("a", "ka", 1, Timestamp::new(10, 0)).expect("room");
    let b = store.register_at("b", "kb", 2, Timestamp::new(20, 0)).expect("room");
    assert_eq!(store.list(), vec![a, b]);
}

#[test]
fn a_registry_without_a_free_key_refuses_and_stays_as_it_was() {
    let last = DeviceProfile::new("last", "k", 1, Timestamp::new(0, 0)).with_id(i32::MAX);
    let mut store = ProfileStore { profiles: vec![last.clone()] };
    assert_eq!(
        store.register_at("more", "k", 1, Timestamp::new(1, 0)),
        Err(StorageError::ConstraintViolation)
    );
    assert_eq!(store.profiles, vec![last]);
}

#[test]
fn the_next_key_follows_the_highest_key() {
    let five = DeviceProfile::new("five", "k", 1, Timestamp::new(0, 0)).with_id(5);
    let two = DeviceProfile::new("two", "k", 1, Timestamp::new(0, 0)).with_id(2);
    let mut store = ProfileStore { profiles: vec![five, two] };
    let next = store.register_at("next", "k", 1, Timestamp::new(1, 0)).expect("room");
    assert_eq!(next.id_device_profile, 6);
}

#[test]
fn a_new_profile_has_no_key_and_was_never_modified() {
    let p = DeviceProfile::new("dev", "key", 42, Timestamp::new(5, 6));
    assert_eq!(p.id_device_profile, 0);
    assert_eq!(p.device_name, "dev");
    assert_eq!(p.profile_key, "key");
    assert_eq!(p.create_user, 42);
    assert_eq!(p.create_date, Timestamp::new(5, 6));
    assert_eq!(p.modify_user, None);
    assert_eq!(p.modify_date, None);
    let stored = p.clone().with_id(9);
    assert_eq!(stored.id_device_profile, 9);
    assert_eq!(stored.device_name, "dev");
    assert_eq!(stored.create_date, p.create_date);
}

#[test]
fn an_error_log_entry_keeps_its_message() {
    let e = ErrorLog::new(3, "disk full", Timestamp::new(1, 2));
    assert_eq!(e.id_error_log, 0);
    assert_eq!(e.device_profile_id, 3);
    assert_eq!(e.message, "disk full");
    assert_eq!(e.create_date, Timestamp::new(1, 2));
    assert_eq!(e.clone().with_id(8).id_error_log, 8);
    assert_eq!(e.with_id(8).message, "disk full");
}
