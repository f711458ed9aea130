use cargo_supply_chain::crates_cache::{CacheFile, CacheState, CratesCache, Loaded};
use cargo_supply_chain::error::CacheError;
use cargo_supply_chain::index::{group_by_key, index_by_key, CrateIndex};
use cargo_supply_chain::records::{MetadataStored, Publisher};
use cargo_supply_chain::store::{CacheUpdater, DirProbe};
use cargo_supply_chain::time::{Duration, Timestamp};
use std::collections::HashMap;
use std::path::PathBuf;

fn at(secs: u64) -> Timestamp {
    Timestamp::from_unix(Duration::from_secs(secs))
}

fn attached() -> CratesCache {
    CratesCache::with_dir(Some(PathBuf::from("/nonexistent/cache")))
}

fn metadata(secs: u64, etag: &str) -> Loaded {
    Loaded::Metadata(MetadataStored { timestamp: at(secs), etag: Some(etag.to_string()) })
}

/// A directory of files in memory: visible names and temporary names to
/// content, with renames that can be made to fail.
struct FakeDir {
    files: HashMap<String, String>,
    fail_rename_of: Option<CacheFile>,
}

impl FakeDir {
    fn write_part(&mut self, file: CacheFile, content: &str) {
        self.files.insert(file.part_name().to_string(), content.to_string());
    }

    fn rename_all(&mut self, renames: &[CacheFile]) -> Result<(), CacheError> {
        for file in renames {
            if self.fail_rename_of == Some(*file) {
                return Err(CacheError::Io);
            }
            let content = self.files.remove(file.part_name()).ok_or(CacheError::Io)?;
            self.files.insert(file.file_name().to_string(), content);
        }
        Ok(())
    }
}

#[test]
fn only_a_directory_is_accepted() {
    assert!(CacheUpdater::new(DirProbe::Directory).is_ok());
    assert_eq!(CacheUpdater::new(DirProbe::Other).err(), Some(CacheError::AlreadyExists));
    assert_eq!(CacheUpdater::new(DirProbe::Missing).err(), Some(CacheError::NotFound));
    assert_eq!(CacheUpdater::new(DirProbe::NoPath).err(), Some(CacheError::NotFound));
}

#[test]
fn only_a_missing_directory_is_created() {
    assert!(DirProbe::Missing.needs_creation());
    assert!(!DirProbe::Directory.needs_creation());
    assert!(!DirProbe::Other.needs_creation());
    assert!(!DirProbe::NoPath.needs_creation());
}

#[test]
fn the_metadata_file_is_renamed_last() {
    let mut cache = attached();
    let mut updater = CacheUpdater::new(DirProbe::Directory).unwrap();
    assert_eq!(updater.store(&mut cache, metadata(1, "v")), CacheFile::Metadata);
    assert_eq!(updater.store(&mut cache, Loaded::Users(index_by_key(vec![]))), CacheFile::Users);
    assert_eq!(
        updater.store(&mut cache, Loaded::Crates(CrateIndex::from_records(vec![]))),
        CacheFile::Crates
    );
    assert_eq!(updater.store(&mut cache, Loaded::Teams(index_by_key(vec![]))), CacheFile::Teams);
    assert_eq!(
        updater.store(&mut cache, Loaded::CrateOwners(group_by_key(vec![]))),
        CacheFile::CrateOwners
    );
    assert_eq!(
        updater.store(&mut cache, Loaded::Versions(vec![Publisher { crate_id: 1, published_by: 2 }])),
        CacheFile::Versions
    );
    assert!(updater.is_complete());
    assert_eq!(
        updater.commit(),
        vec![
            CacheFile::CrateOwners,
            CacheFile::Crates,
            CacheFile::Teams,
            CacheFile::Users,
            CacheFile::Versions,
            CacheFile::Metadata,
        ]
    );
    // nothing is left staged
    assert!(!updater.is_staged(CacheFile::Metadata));
    assert_eq!(updater.commit(), vec![]);
}

#[test]
fn a_commit_names_a_file_that_was_staged_twice_once() {
    let mut cache = attached();
    let mut updater = CacheUpdater::new(DirProbe::Directory).unwrap();
    updater.store(&mut cache, metadata(1, "a"));
    updater.store(&mut cache, metadata(2, "b"));
    assert!(updater.is_staged(CacheFile::Metadata));
    assert!(!updater.is_staged(CacheFile::Crates));
    assert!(!updater.is_complete());
    assert_eq!(updater.commit(), vec![CacheFile::Metadata]);
    // the later content is the one in memory
    assert_eq!(cache.load_metadata().unwrap().etag.as_deref(), Some("b"));
}

#[test]
fn staged_content_is_read_back_before_the_commit() {
    let mut cache = attached();
    cache.fill(metadata(1, "old"));
    let mut updater = CacheUpdater::new(DirProbe::Directory).unwrap();
    updater.store(&mut cache, metadata(2, "new"));
    assert_eq!(cache.load_metadata().unwrap().etag.as_deref(), Some("new"));
    assert_eq!(cache.load_metadata().unwrap().timestamp, at(2));
}

#[test]
fn an_interrupted_commit_leaves_the_old_metadata_in_charge() {
    // on disk: a cache from day 1
    let mut dir = FakeDir { files: HashMap::new(), fail_rename_of: Some(CacheFile::Users) };
    dir.files.insert("metadata.json".to_string(), "stamped 100".to_string());
    dir.files.insert("crates.json".to_string(), "old crates".to_string());
    dir.files.insert("users.json".to_string(), "old users".to_string());

    // a refresh stages everything anew
    let mut cache = attached();
    let mut updater = CacheUpdater::new(DirProbe::Directory).unwrap();
    for (content, text) in [
        (Loaded::CrateOwners(group_by_key(vec![])), "new owners"),
        (Loaded::Crates(CrateIndex::from_records(vec![])), "new crates"),
        (Loaded::Users(index_by_key(vec![])), "new users"),
        (Loaded::Teams(index_by_key(vec![])), "new teams"),
        (metadata(900, "v2"), "stamped 900"),
    ] {
        let file = updater.store(&mut cache, content);
        dir.write_part(file, text);
    }
    // staging alone has replaced nothing
    assert_eq!(dir.files["metadata.json"], "stamped 100");
    assert_eq!(dir.files["crates.json"], "old crates");

    // the commit fails at users.json
    let renames = updater.commit();
    assert_eq!(dir.rename_all(&renames), Err(CacheError::Io));
    assert_eq!(dir.files["crates.json"], "new crates");
    assert_eq!(dir.files["users.json"], "old users");
    assert_eq!(dir.files["metadata.json"], "stamped 100");
    assert_eq!(dir.files["metadata.part"], "stamped 900");

    // a cache opened afterwards goes by the old timestamp: at second 150,
    // with 60 seconds allowed, a cache stamped 100 is fresh, whereas one
    // stamped 900 would lie ahead of the clock
    let mut reopened = attached();
    assert_eq!(dir.files["metadata.json"], "stamped 100");
    reopened.fill(Loaded::Metadata(MetadataStored { timestamp: at(100), etag: None }));
    assert_eq!(reopened.expire_at(&at(150), &Duration::from_secs(60)), CacheState::Fresh);
}

#[test]
fn a_commit_that_goes_through_publishes_every_staged_file() {
    let mut dir = FakeDir { files: HashMap::new(), fail_rename_of: None };
    dir.files.insert("metadata.json".to_string(), "stamped 100".to_string());
    let mut cache = attached();
    let mut updater = CacheUpdater::new(DirProbe::Directory).unwrap();
    let file = updater.store(&mut cache, Loaded::Teams(index_by_key(vec![])));
    dir.write_part(file, "new teams");
    let file = updater.store(&mut cache, metadata(900, "v2"));
    dir.write_part(file, "stamped 900");
    let renames = updater.commit();
    assert_eq!(renames, vec![CacheFile::Teams, CacheFile::Metadata]);
    assert_eq!(dir.rename_all(&renames), Ok(()));
    assert_eq!(dir.files["teams.json"], "new teams");
    assert_eq!(dir.files["metadata.json"], "stamped 900");
    assert!(!dir.files.contains_key("teams.part"));
    assert!(!dir.files.contains_key("metadata.part"));
}
