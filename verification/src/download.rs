//! A refresh of the cache from the bulk dump, as the decisions it takes:
//! what to ask the server for, what to make of its answer, where each entry
//! of the archive goes, when enough has been read, and how the refresh ends.

use vstd::prelude::*;
use vstd::utf8::encode_utf8;
use crate::crates_cache::{CacheFile, CacheView, CratesCache, DownloadState, Loaded, LoadedView};
use crate::error::CacheError;
use crate::index::{
    group_by_key, grouped_by_key, index_by_key, latest_by_key, latest_by_name, CrateIndex,
};
use crate::records::{
    clone_text, same_text, text_view, Crate, CrateOwner, Metadata, MetadataStored, Team, User,
};
use crate::store::{commit_plan, required_files, CacheUpdater};
use crate::tabular::{parse_table, parsed, record_views};
use crate::time::{Duration, Timestamp};

verus! {

/// What a request for the dump carries, and what is kept for the end of
/// the refresh.
#[derive(Debug)]
pub struct RequestPlan {
    /// The validator token to send as a precondition, if any.
    pub if_none_match: Option<String>,
    /// The validator token of the metadata in the cache, if any.
    pub remembered: Option<String>,
}

impl CacheView {
    /// The validator token that the cache remembers.
    pub open spec fn remembered_token(self) -> Option<String> {
        match self.usable_metadata() {
            Some(m) => m.etag,
            None => None,
        }
    }

    /// The validator token to send with a request at `now`: the remembered
    /// one, while the cache is strictly younger than `max_age`.
    pub open spec fn precondition_token(self, now: Timestamp, max_age: Duration) -> Option<String> {
        if self.fresh(now, max_age) == Some(true) {
            self.remembered_token()
        } else {
            None
        }
    }
}

impl CratesCache {
    /// Plans the request for the dump at `now`: the stored validator token is
    /// sent as a precondition only while the cache is younger than `max_age`,
    /// and is remembered either way.
    pub fn plan_request_at(&self, now: &Timestamp, max_age: &Duration) -> (plan: RequestPlan)
        ensures
            plan.remembered == self@.remembered_token(),
            plan.if_none_match == self@.precondition_token(*now, *max_age),
    {
        match self.load_metadata() {
            Some(meta) => {
                let remembered = clone_text(&meta.etag);
                let if_none_match = match meta.validate_at(now, max_age) {
                    Some(true) => clone_text(&meta.etag),
                    _ => None,
                };
                RequestPlan { if_none_match, remembered }
            },
            None => RequestPlan { if_none_match: None, remembered: None },
        }
    }

    /// Plans the request for the dump by the system clock. Whatever the
    /// clock reads, the stored token is remembered, and no other token is
    /// ever sent.
    pub fn plan_request(&self, max_age: &Duration) -> (plan: RequestPlan)
        ensures
            plan.remembered == self@.remembered_token(),
            plan.if_none_match is Some ==> plan.if_none_match == self@.remembered_token(),
            plan.if_none_match is None || exists|now: Timestamp|
                plan.if_none_match == #[trigger] self@.precondition_token(now, *max_age),
    {
        match Timestamp::now() {
            Some(now) => self.plan_request_at(&now, max_age),
            None => match self.load_metadata() {
                Some(meta) => RequestPlan { if_none_match: None, remembered: clone_text(&meta.etag) },
                None => RequestPlan { if_none_match: None, remembered: None },
            },
        }
    }
}

/// What the server's answer means for the refresh.
#[derive(Clone, Copy, Debug, PartialEq, Eq, Structural)]
pub enum Reply {
    /// The precondition matched: the dump has not changed.
    NotModified,
    /// The body of the answer is the dump.
    Dump,
}

/// What a response status means: 304 that nothing changed, 200 that the
/// dump follows, and any other status is an error.
pub open spec fn reply_of(status: u16) -> Result<Reply, CacheError> {
    if status == 304 {
        Ok(Reply::NotModified)
    } else if status == 200 {
        Ok(Reply::Dump)
    } else {
        Err(CacheError::InvalidResponse)
    }
}

/// Tells what a response status means for the refresh.
pub fn classify_status(status: u16) -> (r: Result<Reply, CacheError>)
    ensures
        r == reply_of(status),
{
    if status == 304 {
        Ok(Reply::NotModified)
    } else if status == 200 {
        Ok(Reply::Dump)
    } else {
        Err(CacheError::InvalidResponse)
    }
}

impl Reply {
    /// How the refresh ends at once on this answer, if it does: an unchanged
    /// dump leaves the cache fresh, with no file touched.
    pub fn settled(&self) -> (r: Option<DownloadState>)
        ensures
            r == match *self {
                Reply::NotModified => Some(DownloadState::Fresh),
                Reply::Dump => None,
            },
    {
        match self {
            Reply::NotModified => Some(DownloadState::Fresh),
            Reply::Dump => None,
        }
    }
}

/// The tables of the dump that the cache keeps.
#[derive(Clone, Copy, Debug, PartialEq, Eq, Structural)]
pub enum Table {
    CrateOwners,
    Crates,
    Users,
    Teams,
}

impl Table {
    /// The file of the cache that the table fills.
    pub open spec fn file(self) -> CacheFile {
        match self {
            Table::CrateOwners => CacheFile::CrateOwners,
            Table::Crates => CacheFile::Crates,
            Table::Users => CacheFile::Users,
            Table::Teams => CacheFile::Teams,
        }
    }
}

/// Where an entry of the archive goes.
#[derive(Clone, Copy, Debug, PartialEq, Eq, Structural)]
pub enum Route {
    /// To the reader of a table.
    Table(Table),
    /// To the reader of the dump's own metadata.
    Metadata,
    /// Nowhere: the cache has no use for the entry.
    Ignored,
}

/// Whether `path` ends in `suffix`.
pub open spec fn ends_with(path: Seq<u8>, suffix: Seq<u8>) -> bool {
    suffix.len() <= path.len() && path.subrange(path.len() - suffix.len(), path.len() as int)
        == suffix
}

/// Where the entry at `path` goes, by the end of the path.
pub open spec fn route_of(path: Seq<u8>) -> Route {
    if ends_with(path, encode_utf8("crate_owners.csv"@)) {
        Route::Table(Table::CrateOwners)
    } else if ends_with(path, encode_utf8("crates.csv"@)) {
        Route::Table(Table::Crates)
    } else if ends_with(path, encode_utf8("users.csv"@)) {
        Route::Table(Table::Users)
    } else if ends_with(path, encode_utf8("teams.csv"@)) {
        Route::Table(Table::Teams)
    } else if ends_with(path, encode_utf8("metadata.json"@)) {
        Route::Metadata
    } else {
        Route::Ignored
    }
}

/// Whether `path` ends in `suffix`.
pub fn has_suffix(path: &[u8], suffix: &[u8]) -> (r: bool)
    ensures
        r == ends_with(path@, suffix@),
{
    if suffix.len() > path.len() {
        return false;
    }
    let start: usize = path.len() - suffix.len();
    let mut i: usize = 0;
    while i < suffix.len()
        invariant
            start + suffix.len() == path.len(),
            i <= suffix.len(),
            forall|j: int| 0 <= j < i ==> path@[start + j] == suffix@[j],
        decreases suffix.len() - i,
    {
        if path[start + i] != suffix[i] {
            return false;
        }
        i += 1;
    }
    assert(path@.subrange(start as int, path.len() as int) =~= suffix@);
    true
}

/// Tells where the entry at `path` goes.
pub fn route(path: &[u8]) -> (r: Route)
    ensures
        r == route_of(path@),
{
    if has_suffix(path, "crate_owners.csv".as_bytes()) {
        Route::Table(Table::CrateOwners)
    } else if has_suffix(path, "crates.csv".as_bytes()) {
        Route::Table(Table::Crates)
    } else if has_suffix(path, "users.csv".as_bytes()) {
        Route::Table(Table::Users)
    } else if has_suffix(path, "teams.csv".as_bytes()) {
        Route::Table(Table::Teams)
    } else if has_suffix(path, "metadata.json".as_bytes()) {
        Route::Metadata
    } else {
        Route::Ignored
    }
}

/// Whether `content` is what the bytes `data` of the table `table` stage:
/// the index of a list of records with the values that `data` writes.
pub open spec fn staged_from(table: Table, data: Seq<u8>, content: LoadedView) -> bool {
    match table {
        Table::CrateOwners => exists|records: Seq<CrateOwner>|
            parsed::<CrateOwner>(data) == Some(record_views(records)) && content
                == LoadedView::CrateOwners(#[trigger] grouped_by_key(records)),
        Table::Crates => exists|records: Seq<Crate>|
            parsed::<Crate>(data) == Some(record_views(records)) && content == LoadedView::Crates(
                #[trigger] latest_by_name(records),
            ),
        Table::Users => exists|records: Seq<User>|
            parsed::<User>(data) == Some(record_views(records)) && content == LoadedView::Users(
                #[trigger] latest_by_key(records),
            ),
        Table::Teams => exists|records: Seq<Team>|
            parsed::<Team>(data) == Some(record_views(records)) && content == LoadedView::Teams(
                #[trigger] latest_by_key(records),
            ),
    }
}

/// Whether the bytes `data` of the table `table` write records.
pub open spec fn well_written(table: Table, data: Seq<u8>) -> bool {
    match table {
        Table::CrateOwners => parsed::<CrateOwner>(data) is Some,
        Table::Crates => parsed::<Crate>(data) is Some,
        Table::Users => parsed::<User>(data) is Some,
        Table::Teams => parsed::<Team>(data) is Some,
    }
}

/// Reads the bytes of a table of the dump and indexes its records: packages
/// by name, accounts by id, ownership edges grouped by package.
pub fn read_table(table: Table, data: &[u8]) -> (r: Result<Loaded, CacheError>)
    ensures
        r is Ok <==> well_written(table, data@),
        r matches Ok(content) ==> staged_from(table, data@, content@) && content@.file()
            == table.file(),
        r matches Err(e) ==> e == CacheError::Deserialize,
{
    match table {
        Table::CrateOwners => {
            let records = parse_table::<CrateOwner>(data)?;
            Ok(Loaded::CrateOwners(group_by_key(records)))
        },
        Table::Crates => {
            let records = parse_table::<Crate>(data)?;
            Ok(Loaded::Crates(CrateIndex::from_records(records)))
        },
        Table::Users => {
            let records = parse_table::<User>(data)?;
            Ok(Loaded::Users(index_by_key(records)))
        },
        Table::Teams => {
            let records = parse_table::<Team>(data)?;
            Ok(Loaded::Teams(index_by_key(records)))
        },
    }
}

/// How a refresh that read the dump ends: `Stale` where the dump's token is
/// the remembered one, `Expired` where it is another.
pub open spec fn settled(remembered: Option<Seq<char>>, etag: Option<Seq<char>>) -> DownloadState {
    if remembered == etag {
        DownloadState::Stale
    } else {
        DownloadState::Expired
    }
}

/// The reading of one dump into the cache.
#[derive(Debug)]
pub struct Ingest {
    updater: CacheUpdater,
    remembered: Option<String>,
    etag: Option<String>,
}

/// The mathematical value of an [`Ingest`].
pub struct IngestView {
    /// The files staged so far.
    pub staged: Set<CacheFile>,
    /// The validator token that the cache held before the refresh.
    pub remembered: Option<Seq<char>>,
    /// The validator token that came with the dump.
    pub etag: Option<Seq<char>>,
}

impl IngestView {
    /// Whether every required file is staged, so that the rest of the
    /// archive need not be read.
    pub open spec fn complete(self) -> bool {
        required_files().subset_of(self.staged)
    }

    /// The reading with `file` staged as well.
    pub open spec fn with_staged(self, file: CacheFile) -> IngestView {
        IngestView { staged: self.staged.insert(file), ..self }
    }
}

/// What one entry of the archive came to.
#[derive(Clone, Copy, Debug, PartialEq, Eq, Structural)]
pub struct Step {
    /// The file that was staged: its content, now in the cache's memory, is
    /// to be written under the file's temporary name.
    pub file: CacheFile,
    /// Whether every required file is staged by now, so that no further
    /// entry is to be read.
    pub complete: bool,
}

/// The end of a reading.
#[derive(Debug)]
pub struct Outcome {
    /// The files to rename from their temporary to their visible names, in
    /// this order, stopping at the first rename that fails.
    pub renames: Vec<CacheFile>,
    /// How the refresh ends if every rename goes through.
    pub state: DownloadState,
}

impl Outcome {
    /// How the refresh ends once `renamed` of the renames have gone through:
    /// as planned if that is all of them, and as a failure of input or
    /// output if the commit was cut short.
    pub fn conclude(&self, renamed: usize) -> (r: Result<DownloadState, CacheError>)
        ensures
            r == if renamed >= self.renames.len() {
                Ok::<DownloadState, CacheError>(self.state)
            } else {
                Err::<DownloadState, CacheError>(CacheError::Io)
            },
    {
        if renamed >= self.renames.len() {
            Ok(self.state)
        } else {
            Err(CacheError::Io)
        }
    }
}

impl View for Ingest {
    type V = IngestView;

    closed spec fn view(&self) -> IngestView {
        IngestView {
            staged: self.updater@,
            remembered: text_view(self.remembered),
            etag: text_view(self.etag),
        }
    }
}

impl Ingest {
    /// Begins the reading of a dump that came with the token `etag`, for a
    /// cache that remembered the token `remembered`. What `updater` has
    /// staged, normally nothing, counts as staged by the reading.
    pub fn begin(updater: CacheUpdater, remembered: Option<String>, etag: Option<String>) -> (ingest:
        Ingest)
        ensures
            ingest@ == (IngestView {
                staged: updater@,
                remembered: text_view(remembered),
                etag: text_view(etag),
            }),
    {
        Ingest { updater, remembered, etag }
    }

    /// Whether every required file is staged, so that the rest of the
    /// archive need not be read.
    pub fn is_complete(&self) -> (r: bool)
        ensures
            r == self@.complete(),
    {
        self.updater.is_complete()
    }

    /// Takes the entry of a table: its records are read, indexed and
    /// staged, and take the place of what the cache held in memory. Bytes
    /// that write no records are an error and change nothing.
    pub fn table(&mut self, cache: &mut CratesCache, table: Table, data: &[u8]) -> (r: Result<
        Step,
        CacheError,
    >)
        ensures
            r is Ok <==> well_written(table, data@),
            r matches Ok(step) ==> {
                &&& step.file == table.file()
                &&& final(self)@ == old(self)@.with_staged(step.file)
                &&& step.complete == final(self)@.complete()
                &&& final(cache)@.content(step.file) matches Some(content) && staged_from(
                    table,
                    data@,
                    content,
                ) && final(cache)@ == old(cache)@.with(content)
            },
            r matches Err(e) ==> {
                &&& e == CacheError::Deserialize
                &&& final(self)@ == old(self)@
                &&& final(cache)@ == old(cache)@
            },
    {
        match read_table(table, data) {
            Ok(content) => {
                let file = self.updater.store(cache, content);
                Ok(Step { file, complete: self.updater.is_complete() })
            },
            Err(e) => Err(e),
        }
    }

    /// Takes the dump's own metadata: its timestamp is staged together with
    /// the token that came with the dump, and takes the place of the
    /// metadata that the cache held in memory.
    pub fn metadata(&mut self, cache: &mut CratesCache, dump: Metadata) -> (step: Step)
        ensures
            step.file == CacheFile::Metadata,
            final(self)@ == old(self)@.with_staged(CacheFile::Metadata),
            step.complete == final(self)@.complete(),
            final(cache)@.metadata matches Some(stored) && stored.timestamp == dump.timestamp
                && text_view(stored.etag) == old(self)@.etag && final(cache)@ == old(
                cache,
            )@.with(LoadedView::Metadata(stored)),
    {
        let stored = MetadataStored { timestamp: dump.timestamp, etag: clone_text(&self.etag) };
        let file = self.updater.store(cache, Loaded::Metadata(stored));
        Step { file, complete: self.updater.is_complete() }
    }

    /// Ends the reading: what was staged is to be committed, the metadata
    /// file last, and the refresh then ends as `Stale` where the dump came
    /// with the token that the cache remembered, as `Expired` otherwise.
    pub fn finish(self) -> (outcome: Outcome)
        ensures
            outcome.renames@ == commit_plan(self@.staged),
            outcome.state == settled(self@.remembered, self@.etag),
    {
        let mut updater = self.updater;
        let renames = updater.commit();
        let state = if same_text(&self.remembered, &self.etag) {
            DownloadState::Stale
        } else {
            DownloadState::Expired
        };
        Outcome { renames, state }
    }
}

/// A reading is complete exactly when the four record files and the
/// metadata file are staged; the versions file is not waited for.
pub proof fn lemma_complete_means_all_five(ingest: IngestView)
    ensures
        ingest.complete() <==> {
            &&& ingest.staged.contains(CacheFile::CrateOwners)
            &&& ingest.staged.contains(CacheFile::Crates)
            &&& ingest.staged.contains(CacheFile::Users)
            &&& ingest.staged.contains(CacheFile::Teams)
            &&& ingest.staged.contains(CacheFile::Metadata)
        },
{
}

/// A complete reading stays complete whatever is staged after it, and a file
/// that is staged again changes nothing.
pub proof fn lemma_complete_stays(ingest: IngestView, file: CacheFile)
    ensures
        ingest.complete() ==> ingest.with_staged(file).complete(),
        ingest.staged.contains(file) ==> ingest.with_staged(file) == ingest,
{
    if ingest.staged.contains(file) {
        assert(ingest.staged.insert(file) =~= ingest.staged);
    }
}

/// A refresh that read the dump never ends as `Fresh`: it ends as `Stale`
/// exactly where the dump came with the remembered token (or both came with
/// none), and as `Expired` otherwise.
pub proof fn lemma_refresh_outcome(remembered: Option<Seq<char>>, etag: Option<Seq<char>>)
    ensures
        settled(remembered, etag) != DownloadState::Fresh,
        settled(remembered, etag) == DownloadState::Stale <==> remembered == etag,
        settled(remembered, etag) == DownloadState::Expired <==> remembered != etag,
{
}

/// Once metadata with a token has been put in an attached cache, the next
/// request made while that metadata is fresh carries the token as its
/// precondition, so that an unchanged dump is not fetched again.
pub proof fn lemma_next_request_is_conditional(
    cache: CacheView,
    stored: MetadataStored,
    now: Timestamp,
    max_age: Duration,
)
    requires
        cache.dir is Some,
        stored.timestamp.nanos() <= now.nanos() < stored.timestamp.nanos() + max_age.as_nanos(),
    ensures
        cache.with(LoadedView::Metadata(stored)).precondition_token(now, max_age) == stored.etag,
        cache.with(LoadedView::Metadata(stored)).remembered_token() == stored.etag,
{
}

/// A cache that is no longer fresh, or cannot tell, sends no precondition:
/// the dump is then fetched whatever the server holds.
pub proof fn lemma_stale_cache_asks_unconditionally(
    cache: CacheView,
    now: Timestamp,
    max_age: Duration,
)
    requires
        cache.fresh(now, max_age) != Some(true),
    ensures
        cache.precondition_token(now, max_age) is None,
{
}

} // verus!
