//! Staged writes: new content is kept under a temporary name until one
//! commit makes it visible, the metadata file last.

use vstd::prelude::*;
use std::path::PathBuf;
use crate::crates_cache::{CacheFile, CacheView, CratesCache, Loaded, LoadedView};
use crate::error::CacheError;
use crate::time::{Duration, Timestamp};

verus! {

/// What stands at the path of the cache directory.
#[derive(Clone, Copy, Debug, PartialEq, Eq, Structural)]
pub enum DirProbe {
    /// The platform names no cache directory, so there is no path.
    NoPath,
    /// Nothing.
    Missing,
    /// A directory.
    Directory,
    /// Something that is no directory.
    Other,
}

impl DirProbe {
    /// Whether the directory has to be created before anything is staged.
    pub fn needs_creation(&self) -> (r: bool)
        ensures
            r == (*self == DirProbe::Missing),
    {
        match self {
            DirProbe::Missing => true,
            _ => false,
        }
    }

    /// Why nothing can be staged in a directory that was probed so, if
    /// anything stands against it.
    pub open spec fn refusal(self) -> Option<CacheError> {
        match self {
            DirProbe::Directory => None,
            DirProbe::Other => Some(CacheError::AlreadyExists),
            DirProbe::NoPath => Some(CacheError::NotFound),
            DirProbe::Missing => Some(CacheError::NotFound),
        }
    }
}

/// `file` alone where it is staged, and nothing where it is not.
pub open spec fn pick(staged: Set<CacheFile>, file: CacheFile) -> Seq<CacheFile> {
    if staged.contains(file) {
        seq![file]
    } else {
        Seq::empty()
    }
}

/// The files that a commit of `staged` renames, in order: the staged record
/// files by name, and the metadata file, if staged, after all of them.
pub open spec fn commit_plan(staged: Set<CacheFile>) -> Seq<CacheFile> {
    pick(staged, CacheFile::CrateOwners) + pick(staged, CacheFile::Crates) + pick(
        staged,
        CacheFile::Teams,
    ) + pick(staged, CacheFile::Users) + pick(staged, CacheFile::Versions) + pick(
        staged,
        CacheFile::Metadata,
    )
}

/// The files that a refresh has to stage before the rest of the archive may
/// be left unread.
pub open spec fn required_files() -> Set<CacheFile> {
    set![
        CacheFile::CrateOwners,
        CacheFile::Crates,
        CacheFile::Users,
        CacheFile::Teams,
        CacheFile::Metadata,
    ]
}

/// A two-phase update of the cache directory: content is staged under
/// temporary names and replaces nothing until it is committed.
#[derive(Debug)]
pub struct CacheUpdater {
    metadata: bool,
    crates: bool,
    crate_owners: bool,
    users: bool,
    teams: bool,
    versions: bool,
}

impl View for CacheUpdater {
    type V = Set<CacheFile>;

    /// The files that are staged.
    closed spec fn view(&self) -> Set<CacheFile> {
        Set::new(
            |f: CacheFile|
                match f {
                    CacheFile::Metadata => self.metadata,
                    CacheFile::Crates => self.crates,
                    CacheFile::CrateOwners => self.crate_owners,
                    CacheFile::Users => self.users,
                    CacheFile::Teams => self.teams,
                    CacheFile::Versions => self.versions,
                },
        )
    }
}

impl CacheUpdater {
    /// Starts an update of the directory that was probed, with nothing
    /// staged. Whatever stands at the path but a directory is left alone and
    /// refused; so is a directory that is not there.
    pub fn new(probe: DirProbe) -> (r: Result<CacheUpdater, CacheError>)
        ensures
            r is Ok <==> probe.refusal() is None,
            r matches Ok(updater) ==> updater@ == Set::<CacheFile>::empty(),
            r matches Err(e) ==> probe.refusal() == Some(e),
    {
        match probe {
            DirProbe::Directory => {
                let updater = CacheUpdater {
                    metadata: false,
                    crates: false,
                    crate_owners: false,
                    users: false,
                    teams: false,
                    versions: false,
                };
                Ok(updater)
            },
            DirProbe::Other => Err(CacheError::AlreadyExists),
            DirProbe::NoPath => Err(CacheError::NotFound),
            DirProbe::Missing => Err(CacheError::NotFound),
        }
    }

    /// Whether `file` is staged.
    pub fn is_staged(&self, file: CacheFile) -> (r: bool)
        ensures
            r == self@.contains(file),
    {
        match file {
            CacheFile::Metadata => self.metadata,
            CacheFile::Crates => self.crates,
            CacheFile::CrateOwners => self.crate_owners,
            CacheFile::Users => self.users,
            CacheFile::Teams => self.teams,
            CacheFile::Versions => self.versions,
        }
    }

    /// Whether every required file is staged.
    pub fn is_complete(&self) -> (r: bool)
        ensures
            r == required_files().subset_of(self@),
    {
        proof {
            assert(required_files().subset_of(self@) ==> self@.contains(CacheFile::CrateOwners)
                && self@.contains(CacheFile::Crates) && self@.contains(CacheFile::Users)
                && self@.contains(CacheFile::Teams) && self@.contains(CacheFile::Metadata));
        }
        self.crate_owners && self.crates && self.users && self.teams && self.metadata
    }

    /// Stages `content`: it takes the place of whatever the cache held in
    /// memory for its file, at once, and the file is marked as staged. The
    /// file returned is the one to write under its temporary name; on disk
    /// nothing is replaced before the commit.
    pub fn store(&mut self, cache: &mut CratesCache, content: Loaded) -> (file: CacheFile)
        ensures
            file == content@.file(),
            final(self)@ == old(self)@.insert(file),
            final(cache)@ == old(cache)@.with(content@),
    {
        let file = content.file();
        cache.replace(content);
        match file {
            CacheFile::Metadata => {
                self.metadata = true;
            },
            CacheFile::Crates => {
                self.crates = true;
            },
            CacheFile::CrateOwners => {
                self.crate_owners = true;
            },
            CacheFile::Users => {
                self.users = true;
            },
            CacheFile::Teams => {
                self.teams = true;
            },
            CacheFile::Versions => {
                self.versions = true;
            },
        }
        file
    }

    /// Ends the update: the files to rename from their temporary to their
    /// visible names, one by one and in this order, stopping at the first
    /// rename that fails. The metadata file, if staged, comes last. Nothing
    /// is staged afterwards.
    pub fn commit(&mut self) -> (renames: Vec<CacheFile>)
        ensures
            renames@ == commit_plan(old(self)@),
            final(self)@ == Set::<CacheFile>::empty(),
    {
        let mut renames: Vec<CacheFile> = Vec::new();
        let ghost staged = self@;
        plan_step(&mut renames, self.crate_owners, CacheFile::CrateOwners);
        plan_step(&mut renames, self.crates, CacheFile::Crates);
        plan_step(&mut renames, self.teams, CacheFile::Teams);
        plan_step(&mut renames, self.users, CacheFile::Users);
        plan_step(&mut renames, self.versions, CacheFile::Versions);
        plan_step(&mut renames, self.metadata, CacheFile::Metadata);
        self.metadata = false;
        self.crates = false;
        self.crate_owners = false;
        self.users = false;
        self.teams = false;
        self.versions = false;
        renames
    }
}

/// Adds `file` to the plan where it is staged.
fn plan_step(renames: &mut Vec<CacheFile>, staged: bool, file: CacheFile)
    ensures
        final(renames)@ == old(renames)@ + if staged {
            seq![file]
        } else {
            Seq::empty()
        },
{
    if staged {
        renames.push(file);
    }
}

/// What the cache directory holds: the files under their visible names, and
/// the staged ones under their temporary names.
pub struct Disk {
    pub visible: Map<CacheFile, LoadedView>,
    pub parts: Map<CacheFile, LoadedView>,
}

impl Disk {
    /// The directory after `content` was written under the temporary name of
    /// its file.
    pub open spec fn staged(self, content: LoadedView) -> Disk {
        Disk { visible: self.visible, parts: self.parts.insert(content.file(), content) }
    }

    /// The directory after each of `contents` was written under the
    /// temporary name of its file, in order.
    pub open spec fn staged_all(self, contents: Seq<LoadedView>) -> Disk
        decreases contents.len(),
    {
        if contents.len() == 0 {
            self
        } else {
            self.staged_all(contents.drop_last()).staged(contents.last())
        }
    }

    /// The directory after the staged `file` was renamed to its visible name.
    /// Where nothing is staged under it, the rename fails and changes nothing.
    pub open spec fn renamed(self, file: CacheFile) -> Disk {
        if self.parts.contains_key(file) {
            Disk {
                visible: self.visible.insert(file, self.parts[file]),
                parts: self.parts.remove(file),
            }
        } else {
            self
        }
    }

    /// The directory after the files of `renames` were renamed in order.
    pub open spec fn after(self, renames: Seq<CacheFile>) -> Disk
        decreases renames.len(),
    {
        if renames.len() == 0 {
            self
        } else {
            self.after(renames.drop_last()).renamed(renames.last())
        }
    }

    /// What a cache opened at `dir` holds once it has read the metadata file
    /// of this directory, if there is one.
    pub open spec fn reopened(self, dir: PathBuf) -> CacheView {
        if self.visible.contains_key(CacheFile::Metadata) && self.visible[CacheFile::Metadata].file()
            == CacheFile::Metadata {
            CacheView::empty(Some(dir)).fill(self.visible[CacheFile::Metadata])
        } else {
            CacheView::empty(Some(dir))
        }
    }
}

/// Whatever is staged, and however much of it, no visible file changes
/// before a commit: a refresh that is given up while it stages leaves
/// the cache as it was.
pub proof fn lemma_staging_replaces_nothing(disk: Disk, contents: Seq<LoadedView>)
    ensures
        disk.staged_all(contents).visible == disk.visible,
    decreases contents.len(),
{
    if contents.len() > 0 {
        lemma_staging_replaces_nothing(disk, contents.drop_last());
    }
}

/// Renames of other files leave a file as it is, visible and staged.
pub proof fn lemma_renames_of_others(disk: Disk, renames: Seq<CacheFile>, file: CacheFile)
    requires
        !renames.contains(file),
    ensures
        disk.after(renames).visible.contains_key(file) == disk.visible.contains_key(file),
        disk.after(renames).visible[file] == disk.visible[file],
        disk.after(renames).parts.contains_key(file) == disk.parts.contains_key(file),
        disk.after(renames).parts[file] == disk.parts[file],
    decreases renames.len(),
{
    if renames.len() > 0 {
        let init = renames.drop_last();
        assert forall|i: int| 0 <= i < init.len() implies init[i] != file by {}
        lemma_renames_of_others(disk, init, file);
    }
}

/// In a commit plan the metadata file stands nowhere but at the end, and
/// there only if it is staged.
pub proof fn lemma_metadata_comes_last(staged: Set<CacheFile>)
    ensures
        forall|i: int|
            0 <= i < commit_plan(staged).len() && #[trigger] commit_plan(staged)[i]
                == CacheFile::Metadata ==> i == commit_plan(staged).len() - 1,
        commit_plan(staged).contains(CacheFile::Metadata) <==> staged.contains(
            CacheFile::Metadata,
        ),
{
    let plan = commit_plan(staged);
    if staged.contains(CacheFile::Metadata) {
        assert(plan[plan.len() - 1] == CacheFile::Metadata);
    }
}

/// A commit plan names each staged file once, and no other file.
pub proof fn lemma_commit_plan_covers(staged: Set<CacheFile>)
    ensures
        forall|f: CacheFile| #[trigger] commit_plan(staged).contains(f) <==> staged.contains(f),
        commit_plan(staged).no_duplicates(),
{
    let nothing = Seq::<CacheFile>::empty();
    let upto_owners = nothing + pick(staged, CacheFile::CrateOwners);
    let upto_crates = upto_owners + pick(staged, CacheFile::Crates);
    let upto_teams = upto_crates + pick(staged, CacheFile::Teams);
    let upto_users = upto_teams + pick(staged, CacheFile::Users);
    let upto_versions = upto_users + pick(staged, CacheFile::Versions);
    let upto_all = upto_versions + pick(staged, CacheFile::Metadata);
    lemma_plan_grows(nothing, staged, CacheFile::CrateOwners);
    lemma_plan_grows(upto_owners, staged, CacheFile::Crates);
    lemma_plan_grows(upto_crates, staged, CacheFile::Teams);
    lemma_plan_grows(upto_teams, staged, CacheFile::Users);
    lemma_plan_grows(upto_users, staged, CacheFile::Versions);
    lemma_plan_grows(upto_versions, staged, CacheFile::Metadata);
    assert forall|f: CacheFile| #[trigger] upto_all.contains(f) <==> staged.contains(f) by {}
}

/// What one more step of a commit plan adds to the steps before it.
proof fn lemma_plan_grows(before: Seq<CacheFile>, staged: Set<CacheFile>, file: CacheFile)
    requires
        before.no_duplicates(),
        !before.contains(file),
    ensures
        (before + pick(staged, file)).no_duplicates(),
        forall|f: CacheFile| #[trigger]
            (before + pick(staged, file)).contains(f) <==> before.contains(f) || (f == file
                && staged.contains(file)),
{
    let grown = before + pick(staged, file);
    if staged.contains(file) {
        assert forall|f: CacheFile| #[trigger] grown.contains(f) <==> before.contains(f) || f
            == file by {
            if before.contains(f) {
                let i = choose|i: int| 0 <= i < before.len() && before[i] == f;
                assert(grown[i] == f);
            }
            if f == file {
                assert(grown[before.len() as int] == f);
            }
        }
    }
}

/// A commit that is interrupted, because one of its renames fails, before
/// the last rename has not touched the metadata file: the file is there or
/// not as before, with its content as before, and a check of the cache's age
/// by a cache opened afterwards finds what it would have found before the
/// commit began.
pub proof fn lemma_interrupted_commit_keeps_metadata(
    disk: Disk,
    staged: Set<CacheFile>,
    done: int,
    dir: PathBuf,
    now: Timestamp,
    max_age: Duration,
)
    requires
        0 <= done < commit_plan(staged).len(),
    ensures
        ({
            let cut = disk.after(commit_plan(staged).take(done));
            &&& cut.visible.contains_key(CacheFile::Metadata) == disk.visible.contains_key(
                CacheFile::Metadata,
            )
            &&& cut.visible[CacheFile::Metadata] == disk.visible[CacheFile::Metadata]
            &&& cut.reopened(dir).verdict(now, max_age) == disk.reopened(dir).verdict(now, max_age)
        }),
{
    let plan = commit_plan(staged);
    let prefix = plan.take(done);
    lemma_metadata_comes_last(staged);
    assert forall|i: int| 0 <= i < prefix.len() implies prefix[i] != CacheFile::Metadata by {}
    lemma_renames_of_others(disk, prefix, CacheFile::Metadata);
}

/// A commit that goes through makes every staged file visible with the
/// content that was staged for it, and leaves the other files as they were.
pub proof fn lemma_commit_publishes(disk: Disk, staged: Set<CacheFile>, file: CacheFile)
    requires
        forall|f: CacheFile| staged.contains(f) ==> #[trigger] disk.parts.contains_key(f),
    ensures
        ({
            let done = disk.after(commit_plan(staged));
            &&& staged.contains(file) ==> done.visible.contains_key(file) && done.visible[file]
                == disk.parts[file]
            &&& !staged.contains(file) ==> done.visible.contains_key(file)
                == disk.visible.contains_key(file) && done.visible[file] == disk.visible[file]
        }),
{
    lemma_commit_plan_covers(staged);
    let plan = commit_plan(staged);
    if staged.contains(file) {
        lemma_after_publishes(disk, plan, file);
    } else {
        lemma_renames_of_others(disk, plan, file);
    }
}

/// After renames that name a staged file just once, the file is visible
/// with the content that was staged for it.
proof fn lemma_after_publishes(disk: Disk, renames: Seq<CacheFile>, file: CacheFile)
    requires
        renames.no_duplicates(),
        renames.contains(file),
        disk.parts.contains_key(file),
    ensures
        disk.after(renames).visible.contains_key(file),
        disk.after(renames).visible[file] == disk.parts[file],
        !disk.after(renames).parts.contains_key(file),
    decreases renames.len(),
{
    let init = renames.drop_last();
    let last = renames.last();
    if last == file {
        assert forall|i: int| 0 <= i < init.len() implies init[i] != file by {}
        lemma_renames_of_others(disk, init, file);
    } else {
        let i = choose|i: int| 0 <= i < renames.len() && renames[i] == file;
        assert(init[i] == file);
        lemma_after_publishes(disk, init, file);
    }
}

} // verus!
