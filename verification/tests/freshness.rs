use cargo_supply_chain::crates_cache::{CacheFile, CacheState, CratesCache, Loaded};
use cargo_supply_chain::records::MetadataStored;
use cargo_supply_chain::time::{Duration, Timestamp};
use std::path::PathBuf;

fn at(secs: u64) -> Timestamp {
    Timestamp::from_unix(Duration::from_secs(secs))
}

fn cache_stamped(secs: u64) -> CratesCache {
    let mut cache = CratesCache::with_dir(Some(PathBuf::from("/nonexistent/cache")));
    cache.fill(Loaded::Metadata(MetadataStored { timestamp: at(secs), etag: None }));
    cache
}

#[test]
fn metadata_exactly_max_age_old_is_not_fresh() {
    let max_age = Duration::from_secs(48 * 3600);
    let mut cache = cache_stamped(1_000_000);
    let now = at(1_000_000 + 48 * 3600);
    assert_eq!(cache.validate_at(&now, &max_age), Some(false));
    assert_eq!(cache.expire_at(&now, &max_age), CacheState::Expired);
}

#[test]
fn metadata_one_second_younger_than_max_age_is_fresh() {
    let max_age = Duration::from_secs(48 * 3600);
    let mut cache = cache_stamped(1_000_000);
    let now = at(1_000_000 + 48 * 3600 - 1);
    assert_eq!(cache.validate_at(&now, &max_age), Some(true));
    assert_eq!(cache.expire_at(&now, &max_age), CacheState::Fresh);
    assert!(cache.cache_dir().is_some());
}

#[test]
fn one_nanosecond_decides_freshness() {
    let max_age = Duration::new(10, 5).unwrap();
    let stamp = Timestamp::from_unix(Duration::new(100, 999_999_999).unwrap());
    let meta = MetadataStored { timestamp: stamp, etag: None };
    let boundary = stamp.checked_add(&max_age).unwrap();
    assert_eq!(boundary, Timestamp::from_unix(Duration::new(111, 4).unwrap()));
    assert_eq!(meta.validate_at(&boundary, &max_age), Some(false));
    let just_before = Timestamp::from_unix(Duration::new(111, 3).unwrap());
    assert_eq!(meta.validate_at(&just_before, &max_age), Some(true));
}

#[test]
fn age_is_the_span_since_the_timestamp() {
    let cache = cache_stamped(500);
    assert_eq!(cache.age_at(&at(1700)), Some(Duration::from_secs(1200)));
    let meta = MetadataStored { timestamp: at(500), etag: None };
    assert_eq!(meta.age_at(&at(500)), Ok(Duration::from_secs(0)));
}

#[test]
fn a_timestamp_ahead_of_the_clock_has_no_age() {
    let mut cache = cache_stamped(2_000);
    let now = at(1_999);
    assert_eq!(cache.age_at(&now), None);
    assert_eq!(cache.validate_at(&now, &Duration::from_secs(10)), None);
    assert_eq!(cache.expire_at(&now, &Duration::from_secs(10)), CacheState::Unknown);
}

#[test]
fn without_metadata_the_state_is_unknown() {
    let mut cache = CratesCache::with_dir(Some(PathBuf::from("/nonexistent/cache")));
    assert_eq!(cache.age_at(&at(10)), None);
    assert_eq!(cache.expire_at(&at(10), &Duration::from_secs(10)), CacheState::Unknown);
    assert!(cache.cache_dir().is_none());
}

#[test]
fn a_verdict_other_than_fresh_detaches_the_cache() {
    let mut cache = cache_stamped(0);
    assert!(cache.load_metadata().is_some());
    assert_eq!(cache.expire_at(&at(100), &Duration::from_secs(100)), CacheState::Expired);
    assert!(cache.cache_dir().is_none());
    assert!(cache.load_metadata().is_none());
    assert!(!cache.wants(CacheFile::Crates));
    // Once detached, even a generous limit finds nothing to go by.
    assert_eq!(cache.expire_at(&at(100), &Duration::from_secs(1000)), CacheState::Unknown);
}

#[test]
fn the_system_clock_finds_an_old_cache_expired() {
    // 1970 is long ago by any clock that is not broken.
    let mut cache = cache_stamped(0);
    assert_eq!(cache.expire(Duration::from_secs(60)), CacheState::Expired);
    let mut empty = CratesCache::with_dir(Some(PathBuf::from("/nonexistent/cache")));
    assert_eq!(empty.expire(Duration::from_secs(60)), CacheState::Unknown);
    assert_eq!(empty.age(), None);
}

#[test]
fn the_system_clock_finds_a_new_cache_fresh() {
    let now = Timestamp::now().expect("the clock reads a time after 1970");
    let mut cache = CratesCache::with_dir(Some(PathBuf::from("/nonexistent/cache")));
    cache.fill(Loaded::Metadata(MetadataStored { timestamp: now, etag: None }));
    assert_eq!(cache.validate(&Duration::from_secs(3600)), Some(true));
    assert_eq!(cache.expire(Duration::from_secs(3600)), CacheState::Fresh);
    let age = cache.age().expect("metadata stamped a moment ago has an age");
    assert!(age.shorter_than(&Duration::from_secs(3600)));
    let meta = MetadataStored { timestamp: now, etag: None };
    assert!(meta.age().is_ok());
    assert_eq!(meta.validate(&Duration::from_secs(3600)), Some(true));
}

#[test]
fn a_filled_slot_keeps_what_it_has() {
    let mut cache = cache_stamped(7);
    assert!(!cache.wants(CacheFile::Metadata));
    cache.fill(Loaded::Metadata(MetadataStored { timestamp: at(9), etag: None }));
    assert_eq!(cache.load_metadata().unwrap().timestamp, at(7));
    cache.replace(Loaded::Metadata(MetadataStored { timestamp: at(9), etag: None }));
    assert_eq!(cache.load_metadata().unwrap().timestamp, at(9));
}

#[test]
fn a_detached_cache_takes_nothing_in() {
    let mut cache = CratesCache::with_dir(None);
    assert!(!cache.wants(CacheFile::Metadata));
    cache.fill(Loaded::Metadata(MetadataStored { timestamp: at(9), etag: None }));
    assert!(cache.load_metadata().is_none());
}

#[test]
fn file_names_are_those_of_the_cache_directory() {
    assert_eq!(CacheFile::Metadata.file_name(), "metadata.json");
    assert_eq!(CacheFile::Crates.file_name(), "crates.json");
    assert_eq!(CacheFile::CrateOwners.file_name(), "crate_owners.json");
    assert_eq!(CacheFile::Users.file_name(), "users.json");
    assert_eq!(CacheFile::Teams.file_name(), "teams.json");
    assert_eq!(CacheFile::Versions.file_name(), "versions.json");
    assert_eq!(CacheFile::Metadata.part_name(), "metadata.part");
    assert_eq!(CacheFile::CrateOwners.part_name(), "crate_owners.part");
}

#[test]
fn a_new_cache_has_read_nothing() {
    let cache = CratesCache::new();
    assert!(cache.load_metadata().is_none());
    assert!(cache.load_crates().is_none());
    assert!(cache.load_crate_owners().is_none());
    assert!(cache.load_users().is_none());
    assert!(cache.load_teams().is_none());
    assert!(cache.load_versions().is_none());
    assert_eq!(cache.publisher_users("serde"), None);
}
