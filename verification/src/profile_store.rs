//! The registry of devices: who may send snapshots, and with which key.
//!
//! A profile is registered once and never changed or deleted.  Keys are
//! generated: each new profile gets the key that follows the highest key
//! in the registry, so keys are positive and never used twice.

use vstd::prelude::*;
use crate::tables::registry::{DeviceProfile, DeviceProfileView};
use crate::timestamp::Timestamp;
use crate::writer::StorageError;

verus! {

/// The registry, in the order of registration.
#[derive(Debug, PartialEq, Eq)]
pub struct ProfileStore {
    pub profiles: Vec<DeviceProfile>,
}

/// The views of a sequence of profiles.
pub open spec fn profiles_view(v: Seq<DeviceProfile>) -> Seq<DeviceProfileView> {
    v.map_values(|p: DeviceProfile| p@)
}

impl View for ProfileStore {
    type V = Seq<DeviceProfileView>;

    open spec fn view(&self) -> Seq<DeviceProfileView> {
        profiles_view(self.profiles@)
    }
}

/// The profile with the key `id`: the first of that key in the registry.
pub open spec fn lookup(registry: Seq<DeviceProfileView>, id: i32) -> Option<DeviceProfileView>
    decreases registry.len(),
{
    if registry.len() == 0 {
        None
    } else if registry[0].id_device_profile == id {
        Some(registry[0])
    } else {
        lookup(registry.drop_first(), id)
    }
}

/// What is found under a key has that key.
pub proof fn lemma_lookup_finds_the_key(registry: Seq<DeviceProfileView>, id: i32)
    ensures
        lookup(registry, id) matches Some(profile) ==> profile.id_device_profile == id,
    decreases registry.len(),
{
    if registry.len() > 0 && registry[0].id_device_profile != id {
        lemma_lookup_finds_the_key(registry.drop_first(), id);
    }
}

/// The highest key in the registry, and 0 in an empty one.
pub open spec fn highest_key(registry: Seq<DeviceProfileView>) -> int
    decreases registry.len(),
{
    if registry.len() == 0 {
        0
    } else {
        let before = highest_key(registry.drop_last());
        if registry.last().id_device_profile > before {
            registry.last().id_device_profile as int
        } else {
            before
        }
    }
}

/// The profile that a registration stores.
pub open spec fn new_profile(
    registry: Seq<DeviceProfileView>,
    device_name: Seq<char>,
    profile_key: Seq<char>,
    create_user: i64,
    now: Timestamp,
) -> DeviceProfileView {
    DeviceProfileView {
        id_device_profile: (highest_key(registry) + 1) as i32,
        device_name: device_name,
        profile_key: profile_key,
        create_user: create_user,
        create_date: now,
        modify_user: None,
        modify_date: None,
    }
}

/// No key is left for another profile.
pub open spec fn full(registry: Seq<DeviceProfileView>) -> bool {
    highest_key(registry) >= i32::MAX
}

/// No profile of the registry has a key above the highest, and the
/// highest is not negative.
pub proof fn lemma_highest_key(registry: Seq<DeviceProfileView>)
    ensures
        0 <= highest_key(registry) <= i32::MAX,
        forall|i: int|
            0 <= i < registry.len() ==> (#[trigger] registry[i]).id_device_profile <= highest_key(
                registry,
            ),
    decreases registry.len(),
{
    if registry.len() > 0 {
        lemma_highest_key(registry.drop_last());
        assert forall|i: int| 0 <= i < registry.len() implies (#[trigger] registry[i]).id_device_profile
            <= highest_key(registry) by {
            if i < registry.len() - 1 {
                assert(registry.drop_last()[i] == registry[i]);
            }
        }
    }
}

/// A key that no profile has is not found.
pub proof fn lemma_lookup_absent(registry: Seq<DeviceProfileView>, id: i32)
    requires
        forall|i: int| 0 <= i < registry.len() ==> (#[trigger] registry[i]).id_device_profile != id,
    ensures
        lookup(registry, id) is None,
    decreases registry.len(),
{
    if registry.len() > 0 {
        assert forall|i: int| 0 <= i < registry.drop_first().len() implies (
        #[trigger] registry.drop_first()[i]).id_device_profile != id by {
            assert(registry.drop_first()[i] == registry[i + 1]);
        }
        lemma_lookup_absent(registry.drop_first(), id);
    }
}

/// A profile put behind a registry that does not have its key is found
/// under that key, and every other key finds what it found before.
pub proof fn lemma_lookup_push(registry: Seq<DeviceProfileView>, profile: DeviceProfileView, id: i32)
    requires
        lookup(registry, profile.id_device_profile) is None,
    ensures
        lookup(registry.push(profile), id) == (if id == profile.id_device_profile {
            Some(profile)
        } else {
            lookup(registry, id)
        }),
    decreases registry.len(),
{
    let after = registry.push(profile);
    if registry.len() == 0 {
        assert(after.drop_first() =~= registry);
    } else {
        assert(after[0] == registry[0]);
        assert(after.drop_first() =~= registry.drop_first().push(profile));
        lemma_lookup_push(registry.drop_first(), profile, id);
    }
}

/// Registration round trip: a profile that was just registered is found
/// under its generated key, with the name, the key and the owner it was
/// registered with; its generated key is positive; and every profile that
/// was in the registry before is still found as before.
pub proof fn lemma_registered_is_found(
    registry: Seq<DeviceProfileView>,
    device_name: Seq<char>,
    profile_key: Seq<char>,
    create_user: i64,
    now: Timestamp,
)
    requires
        !full(registry),
    ensures
        ({
            let profile = new_profile(registry, device_name, profile_key, create_user, now);
            &&& profile.id_device_profile > 0
            &&& lookup(registry.push(profile), profile.id_device_profile) == Some(profile)
            &&& forall|id: i32|
                id != profile.id_device_profile ==> #[trigger] lookup(registry.push(profile), id)
                    == lookup(registry, id)
        }),
{
    let profile = new_profile(registry, device_name, profile_key, create_user, now);
    lemma_highest_key(registry);
    lemma_lookup_absent(registry, profile.id_device_profile);
    lemma_lookup_push(registry, profile, profile.id_device_profile);
    assert forall|id: i32| id != profile.id_device_profile implies #[trigger] lookup(
        registry.push(profile),
        id,
    ) == lookup(registry, id) by {
        lemma_lookup_push(registry, profile, id);
    }
}

impl ProfileStore {
    /// An empty registry.
    pub fn new() -> (r: Self)
        ensures
            r@ == Seq::<DeviceProfileView>::empty(),
    {
        let r = ProfileStore { profiles: Vec::new() };
        proof {
            assert(r@ =~= Seq::<DeviceProfileView>::empty());
        }
        r
    }

    fn highest(&self) -> (r: i32)
        ensures
            r == highest_key(self@),
    {
        let mut high: i32 = 0;
        let mut i: usize = 0;
        while i < self.profiles.len()
            invariant
                i <= self.profiles.len(),
                high == highest_key(self@.take(i as int)),
            decreases self.profiles.len() - i,
        {
            proof {
                assert(self@.take(i + 1).drop_last() =~= self@.take(i as int));
                assert(self@.take(i + 1).last() == self.profiles@[i as int]@);
            }
            if self.profiles[i].id_device_profile > high {
                high = self.profiles[i].id_device_profile;
            }
            i = i + 1;
        }
        proof {
            assert(self@.take(i as int) =~= self@);
        }
        high
    }

    /// Registers a device at the time `now`.  The profile gets the key
    /// that follows the highest key of the registry.  Registration fails,
    /// and leaves the registry as it was, only when no key is left.
    pub fn register_at(
        &mut self,
        device_name: &str,
        profile_key: &str,
        create_user: i64,
        now: Timestamp,
    ) -> (r: Result<DeviceProfile, StorageError>)
        ensures
            full(old(self)@) ==> r == Err::<DeviceProfile, _>(StorageError::ConstraintViolation)
                && final(self)@ == old(self)@,
            !full(old(self)@) ==> (r matches Ok(profile) && profile@ == new_profile(
                old(self)@,
                device_name@,
                profile_key@,
                create_user,
                now,
            ) && final(self)@ == old(self)@.push(profile@)),
    {
        let high = self.highest();
        if high >= i32::MAX {
            return Err(StorageError::ConstraintViolation);
        }
        let profile = DeviceProfile::new(device_name, profile_key, create_user, now).with_id(high + 1);
        let copy = profile.clone();
        self.profiles.push(copy);
        proof {
            assert(self@ =~= old(self)@.push(profile@));
        }
        Ok(profile)
    }

    /// The profile with the key `id`, if the registry has one.
    pub fn get(&self, id: i32) -> (r: Option<&DeviceProfile>)
        ensures
            match lookup(self@, id) {
                Some(profile) => r matches Some(p) && p@ == profile,
                None => r is None,
            },
    {
        let mut i: usize = 0;
        proof {
            assert(self@.skip(0) =~= self@);
        }
        while i < self.profiles.len()
            invariant
                i <= self.profiles.len(),
                lookup(self@, id) == lookup(self@.skip(i as int), id),
            decreases self.profiles.len() - i,
        {
            if self.profiles[i].id_device_profile == id {
                return Some(&self.profiles[i]);
            }
            proof {
                assert(self@.skip(i as int).drop_first() =~= self@.skip(i + 1));
            }
            i = i + 1;
        }
        None
    }

    /// All profiles, in the order of their registration.
    pub fn list(&self) -> (r: Vec<DeviceProfile>)
        ensures
            profiles_view(r@) == self@,
    {
        let mut all: Vec<DeviceProfile> = Vec::new();
        let mut i: usize = 0;
        proof {
            assert(profiles_view(all@) =~= self@.take(0));
        }
        while i < self.profiles.len()
            invariant
                i <= self.profiles.len(),
                profiles_view(all@) == self@.take(i as int),
            decreases self.profiles.len() - i,
        {
            let copy = self.profiles[i].clone();
            all.push(copy);
            proof {
                assert(self@[i as int] == self.profiles@[i as int]@);
                assert(profiles_view(all@) =~= self@.take(i as int).push(copy@));
                assert(self@.take(i + 1) =~= self@.take(i as int).push(self@[i as int]));
            }
            i = i + 1;
        }
        proof {
            assert(self@.take(i as int) =~= self@);
        }
        all
    }
}

} // verus!
