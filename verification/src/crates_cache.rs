//! The cache as it is held in memory: one slot for each stored collection,
//! filled when its file is first read and replaced when a new one is staged.

use vstd::prelude::*;
use std::collections::HashMap;
use std::path::PathBuf;
use crate::freshness::{age_between, fresh_at};
use crate::index::{group_views, CrateIndex};
use crate::records::{Crate, CrateOwner, MetadataStored, Publisher, Team, User};
use crate::time::{Duration, Timestamp};

verus! {

/// Declares `std::path::PathBuf` as a type whose values are carried through
/// unseen: nothing is claimed of what a path holds.
#[verifier::external_type_specification]
#[verifier::external_body]
pub struct ExPathBuf(PathBuf);

/// What a check of the cache's age found.
#[derive(Clone, Copy, Debug, PartialEq, Eq, Structural)]
pub enum CacheState {
    /// The cache is younger than the age allowed.
    Fresh,
    /// The cache has reached the age allowed, or passed it.
    Expired,
    /// No usable metadata tells the cache's age.
    Unknown,
}

/// How a refresh from the bulk dump ended.
#[derive(Clone, Copy, Debug, PartialEq, Eq, Structural)]
pub enum DownloadState {
    /// The token still matched and the resource was not stale.
    Fresh,
    /// There was a newer resource.
    Expired,
    /// The dump was fetched again, but its token had not changed.
    Stale,
}

/// The files of the cache directory.
#[derive(Clone, Copy, Debug, PartialEq, Eq, Hash, Structural)]
pub enum CacheFile {
    Metadata,
    Crates,
    CrateOwners,
    Users,
    Teams,
    Versions,
}

impl CacheFile {
    /// The name under which the file is visible in the cache directory.
    pub open spec fn name(self) -> Seq<char> {
        match self {
            CacheFile::Metadata => "metadata.json"@,
            CacheFile::Crates => "crates.json"@,
            CacheFile::CrateOwners => "crate_owners.json"@,
            CacheFile::Users => "users.json"@,
            CacheFile::Teams => "teams.json"@,
            CacheFile::Versions => "versions.json"@,
        }
    }

    /// The name under which the file is written before it is committed.
    pub open spec fn staged_name(self) -> Seq<char> {
        match self {
            CacheFile::Metadata => "metadata.part"@,
            CacheFile::Crates => "crates.part"@,
            CacheFile::CrateOwners => "crate_owners.part"@,
            CacheFile::Users => "users.part"@,
            CacheFile::Teams => "teams.part"@,
            CacheFile::Versions => "versions.part"@,
        }
    }

    /// The name under which the file is visible in the cache directory.
    pub fn file_name(&self) -> (r: &'static str)
        ensures
            r@ == self.name(),
    {
        match self {
            CacheFile::Metadata => "metadata.json",
            CacheFile::Crates => "crates.json",
            CacheFile::CrateOwners => "crate_owners.json",
            CacheFile::Users => "users.json",
            CacheFile::Teams => "teams.json",
            CacheFile::Versions => "versions.json",
        }
    }

    /// The name under which the file is written before it is committed.
    pub fn part_name(&self) -> (r: &'static str)
        ensures
            r@ == self.staged_name(),
    {
        match self {
            CacheFile::Metadata => "metadata.part",
            CacheFile::Crates => "crates.part",
            CacheFile::CrateOwners => "crate_owners.part",
            CacheFile::Users => "users.part",
            CacheFile::Teams => "teams.part",
            CacheFile::Versions => "versions.part",
        }
    }
}

/// The content of one file of the cache, read from disk or about to be
/// written there.
pub enum Loaded {
    Metadata(MetadataStored),
    Crates(CrateIndex),
    CrateOwners(HashMap<u64, Vec<CrateOwner>>),
    Users(HashMap<u64, User>),
    Teams(HashMap<u64, Team>),
    Versions(Vec<Publisher>),
}

/// The mathematical value of a [`Loaded`].
pub enum LoadedView {
    Metadata(MetadataStored),
    Crates(Map<Seq<char>, Crate>),
    CrateOwners(Map<u64, Seq<CrateOwner>>),
    Users(Map<u64, User>),
    Teams(Map<u64, Team>),
    Versions(Seq<Publisher>),
}

impl LoadedView {
    /// The file that this content belongs to.
    pub open spec fn file(self) -> CacheFile {
        match self {
            LoadedView::Metadata(_) => CacheFile::Metadata,
            LoadedView::Crates(_) => CacheFile::Crates,
            LoadedView::CrateOwners(_) => CacheFile::CrateOwners,
            LoadedView::Users(_) => CacheFile::Users,
            LoadedView::Teams(_) => CacheFile::Teams,
            LoadedView::Versions(_) => CacheFile::Versions,
        }
    }
}

impl View for Loaded {
    type V = LoadedView;

    open spec fn view(&self) -> LoadedView {
        match self {
            Loaded::Metadata(m) => LoadedView::Metadata(*m),
            Loaded::Crates(c) => LoadedView::Crates(c@),
            Loaded::CrateOwners(o) => LoadedView::CrateOwners(group_views(o@)),
            Loaded::Users(u) => LoadedView::Users(u@),
            Loaded::Teams(t) => LoadedView::Teams(t@),
            Loaded::Versions(v) => LoadedView::Versions(v@),
        }
    }
}

impl Loaded {
    /// The file that this content belongs to.
    pub fn file(&self) -> (r: CacheFile)
        ensures
            r == self@.file(),
    {
        match self {
            Loaded::Metadata(_) => CacheFile::Metadata,
            Loaded::Crates(_) => CacheFile::Crates,
            Loaded::CrateOwners(_) => CacheFile::CrateOwners,
            Loaded::Users(_) => CacheFile::Users,
            Loaded::Teams(_) => CacheFile::Teams,
            Loaded::Versions(_) => CacheFile::Versions,
        }
    }
}

/// The mathematical value of a [`CratesCache`]: where the cache lives, if it
/// is still attached to a directory, and what each slot holds, if anything.
pub struct CacheView {
    pub dir: Option<PathBuf>,
    pub metadata: Option<MetadataStored>,
    pub crates: Option<Map<Seq<char>, Crate>>,
    pub crate_owners: Option<Map<u64, Seq<CrateOwner>>>,
    pub users: Option<Map<u64, User>>,
    pub teams: Option<Map<u64, Team>>,
    pub versions: Option<Seq<Publisher>>,
}

impl CacheView {
    /// A cache at `dir` with every slot empty.
    pub open spec fn empty(dir: Option<PathBuf>) -> CacheView {
        CacheView {
            dir,
            metadata: None,
            crates: None,
            crate_owners: None,
            users: None,
            teams: None,
            versions: None,
        }
    }

    /// Whether the slot of `file` holds something.
    pub open spec fn holds(self, file: CacheFile) -> bool {
        self.content(file) is Some
    }

    /// What the slot of `file` holds, if anything.
    pub open spec fn content(self, file: CacheFile) -> Option<LoadedView> {
        match file {
            CacheFile::Metadata => match self.metadata {
                Some(m) => Some(LoadedView::Metadata(m)),
                None => None,
            },
            CacheFile::Crates => match self.crates {
                Some(c) => Some(LoadedView::Crates(c)),
                None => None,
            },
            CacheFile::CrateOwners => match self.crate_owners {
                Some(o) => Some(LoadedView::CrateOwners(o)),
                None => None,
            },
            CacheFile::Users => match self.users {
                Some(u) => Some(LoadedView::Users(u)),
                None => None,
            },
            CacheFile::Teams => match self.teams {
                Some(t) => Some(LoadedView::Teams(t)),
                None => None,
            },
            CacheFile::Versions => match self.versions {
                Some(v) => Some(LoadedView::Versions(v)),
                None => None,
            },
        }
    }

    /// Whether `file` has yet to be read from disk: the cache is attached to a
    /// directory and the slot of `file` is empty.
    pub open spec fn wants(self, file: CacheFile) -> bool {
        self.dir is Some && !self.holds(file)
    }

    /// The cache with `content` in its slot, whatever the slot held.
    pub open spec fn with(self, content: LoadedView) -> CacheView {
        match content {
            LoadedView::Metadata(m) => CacheView { metadata: Some(m), ..self },
            LoadedView::Crates(c) => CacheView { crates: Some(c), ..self },
            LoadedView::CrateOwners(o) => CacheView { crate_owners: Some(o), ..self },
            LoadedView::Users(u) => CacheView { users: Some(u), ..self },
            LoadedView::Teams(t) => CacheView { teams: Some(t), ..self },
            LoadedView::Versions(v) => CacheView { versions: Some(v), ..self },
        }
    }

    /// The cache after `content` was read from disk: it fills its slot where
    /// the cache wanted it, and is dropped otherwise.
    pub open spec fn fill(self, content: LoadedView) -> CacheView {
        if self.wants(content.file()) {
            self.with(content)
        } else {
            self
        }
    }

    /// The cache cut off from its directory.
    pub open spec fn detached(self) -> CacheView {
        CacheView { dir: None, ..self }
    }

    /// The metadata that the cache can show: what its slot holds, while the
    /// cache is attached to a directory.
    pub open spec fn usable_metadata(self) -> Option<MetadataStored> {
        if self.dir is Some {
            self.metadata
        } else {
            None
        }
    }

    /// Whether the cache is, at `now`, strictly younger than `max_age`; none
    /// where no metadata can be shown or its timestamp lies ahead of `now`.
    pub open spec fn fresh(self, now: Timestamp, max_age: Duration) -> Option<bool> {
        match self.usable_metadata() {
            Some(m) => fresh_at(m.timestamp, now, max_age),
            None => None,
        }
    }

    /// What a check of the cache's age at `now` finds.
    pub open spec fn verdict(self, now: Timestamp, max_age: Duration) -> CacheState {
        match self.fresh(now, max_age) {
            Some(true) => CacheState::Fresh,
            Some(false) => CacheState::Expired,
            None => CacheState::Unknown,
        }
    }

    /// The cache after a check of its age that found `state`: anything but
    /// `Fresh` cuts it off from its directory.
    pub open spec fn after_verdict(self, state: CacheState) -> CacheView {
        if state == CacheState::Fresh {
            self
        } else {
            self.detached()
        }
    }
}

/// The cache: a directory of files and, in memory, what was read of them.
pub struct CratesCache {
    cache_dir: Option<PathBuf>,
    metadata: Option<MetadataStored>,
    crates: Option<CrateIndex>,
    crate_owners: Option<HashMap<u64, Vec<CrateOwner>>>,
    users: Option<HashMap<u64, User>>,
    teams: Option<HashMap<u64, Team>>,
    versions: Option<Vec<Publisher>>,
}

impl View for CratesCache {
    type V = CacheView;

    closed spec fn view(&self) -> CacheView {
        CacheView {
            dir: self.cache_dir,
            metadata: self.metadata,
            crates: match self.crates {
                Some(c) => Some(c@),
                None => None,
            },
            crate_owners: match self.crate_owners {
                Some(o) => Some(group_views(o@)),
                None => None,
            },
            users: match self.users {
                Some(u) => Some(u@),
                None => None,
            },
            teams: match self.teams {
                Some(t) => Some(t@),
                None => None,
            },
            versions: match self.versions {
                Some(v) => Some(v@),
                None => None,
            },
        }
    }
}

/// Asks `directories_next::ProjectDirs::from` for the project directories of
/// the application that the three names describe, and takes the cache
/// directory among them. The answer depends on the platform and on the
/// environment of the process, so nothing is claimed of it.
#[verifier::external_body]
fn project_cache_dir(qualifier: &str, organization: &str, application: &str) -> Option<PathBuf> {
    let projects = directories_next::ProjectDirs::from(qualifier, organization, application)?;
    Some(projects.cache_dir().to_owned())
}

impl CratesCache {
    /// Opens the cache in the platform's cache directory for this
    /// application, if the platform names one. Nothing is read yet.
    pub fn new() -> (cache: Self)
        ensures
            cache@ == CacheView::empty(cache@.dir),
    {
        Self::with_dir(project_cache_dir("", "rust-secure-code", "cargo-supply-chain"))
    }

    /// Opens the cache in `dir`; with `None` it is detached from the start.
    /// Nothing is read yet.
    pub fn with_dir(dir: Option<PathBuf>) -> (cache: Self)
        ensures
            cache@ == CacheView::empty(dir),
    {
        CratesCache {
            cache_dir: dir,
            metadata: None,
            crates: None,
            crate_owners: None,
            users: None,
            teams: None,
            versions: None,
        }
    }

    /// The directory that the cache is attached to, if it still is.
    pub fn cache_dir(&self) -> (r: Option<&PathBuf>)
        ensures
            r is Some <==> self@.dir is Some,
            r matches Some(d) ==> self@.dir == Some(*d),
    {
        self.cache_dir.as_ref()
    }

    /// Whether `file` has yet to be read from disk.
    pub fn wants(&self, file: CacheFile) -> (r: bool)
        ensures
            r == self@.wants(file),
    {
        self.cache_dir.is_some() && match file {
            CacheFile::Metadata => self.metadata.is_none(),
            CacheFile::Crates => self.crates.is_none(),
            CacheFile::CrateOwners => self.crate_owners.is_none(),
            CacheFile::Users => self.users.is_none(),
            CacheFile::Teams => self.teams.is_none(),
            CacheFile::Versions => self.versions.is_none(),
        }
    }

    /// Takes in what was read from a file of the cache directory. A slot that
    /// is already filled keeps what it has, and a detached cache takes nothing.
    pub fn fill(&mut self, content: Loaded)
        ensures
            final(self)@ == old(self)@.fill(content@),
    {
        if self.wants(content.file()) {
            self.replace(content);
        }
    }

    /// Puts `content` in its slot, whatever the slot held.
    pub fn replace(&mut self, content: Loaded)
        ensures
            final(self)@ == old(self)@.with(content@),
    {
        match content {
            Loaded::Metadata(m) => {
                self.metadata = Some(m);
            },
            Loaded::Crates(c) => {
                self.crates = Some(c);
            },
            Loaded::CrateOwners(o) => {
                self.crate_owners = Some(o);
            },
            Loaded::Users(u) => {
                self.users = Some(u);
            },
            Loaded::Teams(t) => {
                self.teams = Some(t);
            },
            Loaded::Versions(v) => {
                self.versions = Some(v);
            },
        }
    }

    /// The metadata in memory, while the cache is attached to a directory.
    pub fn load_metadata(&self) -> (r: Option<&MetadataStored>)
        ensures
            r is Some <==> self@.usable_metadata() is Some,
            r matches Some(m) ==> self@.usable_metadata() == Some(*m),
    {
        if self.cache_dir.is_none() {
            return None;
        }
        self.metadata.as_ref()
    }

    /// The package index in memory, while the cache is attached to a directory.
    pub fn load_crates(&self) -> (r: Option<&CrateIndex>)
        ensures
            r is Some <==> self@.dir is Some && self@.crates is Some,
            r matches Some(c) ==> self@.crates == Some(c@),
    {
        if self.cache_dir.is_none() {
            return None;
        }
        self.crates.as_ref()
    }

    /// The ownership edges in memory, while the cache is attached to a directory.
    pub fn load_crate_owners(&self) -> (r: Option<&HashMap<u64, Vec<CrateOwner>>>)
        ensures
            r is Some <==> self@.dir is Some && self@.crate_owners is Some,
            r matches Some(o) ==> self@.crate_owners == Some(group_views(o@)),
    {
        if self.cache_dir.is_none() {
            return None;
        }
        self.crate_owners.as_ref()
    }

    /// The individual accounts in memory, while the cache is attached to a directory.
    pub fn load_users(&self) -> (r: Option<&HashMap<u64, User>>)
        ensures
            r is Some <==> self@.dir is Some && self@.users is Some,
            r matches Some(u) ==> self@.users == Some(u@),
    {
        if self.cache_dir.is_none() {
            return None;
        }
        self.users.as_ref()
    }

    /// The group accounts in memory, while the cache is attached to a directory.
    pub fn load_teams(&self) -> (r: Option<&HashMap<u64, Team>>)
        ensures
            r is Some <==> self@.dir is Some && self@.teams is Some,
            r matches Some(t) ==> self@.teams == Some(t@),
    {
        if self.cache_dir.is_none() {
            return None;
        }
        self.teams.as_ref()
    }

    /// The version publishers in memory, while the cache is attached to a directory.
    pub fn load_versions(&self) -> (r: Option<&Vec<Publisher>>)
        ensures
            r is Some <==> self@.dir is Some && self@.versions is Some,
            r matches Some(v) ==> self@.versions == Some(v@),
    {
        if self.cache_dir.is_none() {
            return None;
        }
        self.versions.as_ref()
    }

    /// Whether the cache is, at `now`, strictly younger than `max_age`; `None`
    /// where no metadata can be shown or its timestamp lies ahead of `now`.
    pub fn validate_at(&self, now: &Timestamp, max_age: &Duration) -> (r: Option<bool>)
        ensures
            r == self@.fresh(*now, *max_age),
    {
        match self.load_metadata() {
            Some(meta) => meta.validate_at(now, max_age),
            None => None,
        }
    }

    /// Whether the cache is, by the system clock, strictly younger than
    /// `max_age`. Without usable metadata the answer is `None`, whatever the
    /// clock reads.
    pub fn validate(&self, max_age: &Duration) -> (r: Option<bool>)
        ensures
            self@.usable_metadata() is None ==> r is None,
            r is None || exists|now: Timestamp| r == #[trigger] self@.fresh(now, *max_age),
    {
        match Timestamp::now() {
            Some(now) => self.validate_at(&now, max_age),
            None => None,
        }
    }

    /// Checks the cache's age at `now`. Any finding but `Fresh` cuts the cache
    /// off from its directory, so that nothing stale is read from it later.
    pub fn expire_at(&mut self, now: &Timestamp, max_age: &Duration) -> (state: CacheState)
        ensures
            state == old(self)@.verdict(*now, *max_age),
            final(self)@ == old(self)@.after_verdict(state),
    {
        match self.validate_at(now, max_age) {
            Some(true) => CacheState::Fresh,
            None => {
                self.cache_dir = None;
                CacheState::Unknown
            },
            Some(false) => {
                self.cache_dir = None;
                CacheState::Expired
            },
        }
    }

    /// Checks the cache's age by the system clock. Any finding but `Fresh`
    /// cuts the cache off from its directory. Whatever the clock reads, a
    /// cache without usable metadata is found `Unknown`, and any other
    /// finding is the finding at some point in time.
    pub fn expire(&mut self, max_age: Duration) -> (state: CacheState)
        ensures
            final(self)@ == old(self)@.after_verdict(state),
            old(self)@.usable_metadata() is None ==> state == CacheState::Unknown,
            state == CacheState::Unknown || exists|now: Timestamp|
                state == #[trigger] old(self)@.verdict(now, max_age),
    {
        match Timestamp::now() {
            Some(now) => self.expire_at(&now, &max_age),
            None => {
                self.cache_dir = None;
                CacheState::Unknown
            },
        }
    }

    /// The cache's age at `now`, where metadata can be shown and its
    /// timestamp does not lie ahead of `now`.
    pub fn age_at(&self, now: &Timestamp) -> (r: Option<Duration>)
        ensures
            r is Some <==> (self@.usable_metadata() matches Some(m) && age_between(
                m.timestamp,
                *now,
            ) is Some),
            r matches Some(d) ==> d.well_formed() && Some(d.as_nanos()) == age_between(
                self@.usable_metadata().unwrap().timestamp,
                *now,
            ),
    {
        match self.load_metadata() {
            Some(meta) => match meta.age_at(now) {
                Ok(age) => Some(age),
                Err(_) => None,
            },
            None => None,
        }
    }

    /// The cache's age by the system clock. Without usable metadata there is
    /// none, whatever the clock reads.
    pub fn age(&self) -> (r: Option<Duration>)
        ensures
            self@.usable_metadata() is None ==> r is None,
            r matches Some(d) ==> d.well_formed() && exists|now: Timestamp| #[trigger]
                age_between(self@.usable_metadata().unwrap().timestamp, now) == Some(d.as_nanos()),
    {
        match Timestamp::now() {
            Some(now) => self.age_at(&now),
            None => None,
        }
    }
}

} // verus!
