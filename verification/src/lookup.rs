//! Who may publish a package: from its name to its ownership edges to the
//! accounts they point to.

use vstd::prelude::*;
use std::collections::HashMap;
use crate::crates_cache::{CacheFile, CacheView, CratesCache};
use crate::publishers::{PublisherData, PublisherKind};
use crate::records::{clone_text, CrateOwner, OwnerKind, Team, User};

verus! {

/// An account that an ownership edge can point to.
pub trait Account: Sized {
    /// The account as a publisher.
    spec fn as_publisher(&self) -> PublisherData;

    /// The account as a publisher.
    fn publisher(&self) -> (p: PublisherData)
        ensures
            p == self.as_publisher(),
    ;
}

impl Account for User {
    open spec fn as_publisher(&self) -> PublisherData {
        PublisherData {
            id: self.id,
            login: self.gh_login,
            kind: PublisherKind::user,
            name: self.name,
            avatar: self.gh_avatar,
        }
    }

    fn publisher(&self) -> (p: PublisherData) {
        PublisherData {
            id: self.id,
            login: self.gh_login.clone(),
            kind: PublisherKind::user,
            name: clone_text(&self.name),
            avatar: clone_text(&self.gh_avatar),
        }
    }
}

impl Account for Team {
    open spec fn as_publisher(&self) -> PublisherData {
        PublisherData {
            id: self.id,
            login: self.login,
            kind: PublisherKind::team,
            name: self.name,
            avatar: self.avatar,
        }
    }

    fn publisher(&self) -> (p: PublisherData) {
        PublisherData {
            id: self.id,
            login: self.login.clone(),
            kind: PublisherKind::team,
            name: clone_text(&self.name),
            avatar: clone_text(&self.avatar),
        }
    }
}

/// Whether `edge` is of kind `kind` and points to an account among `accounts`.
pub open spec fn resolves<A: Account>(edge: CrateOwner, kind: OwnerKind, accounts: Map<u64, A>) -> bool {
    edge.owner_kind == kind && accounts.contains_key(edge.owner_id)
}

/// The publishers that the edges of kind `kind` point to, in the order of the
/// edges. An edge whose account is not among `accounts` gives none.
pub open spec fn publishers_among<A: Account>(
    edges: Seq<CrateOwner>,
    kind: OwnerKind,
    accounts: Map<u64, A>,
) -> Seq<PublisherData> {
    edges.filter(|e: CrateOwner| resolves(e, kind, accounts)).map_values(
        |e: CrateOwner| accounts[e.owner_id].as_publisher(),
    )
}

/// One more edge at the end adds its publisher, if it resolves, and nothing
/// otherwise.
pub proof fn lemma_publishers_among_push<A: Account>(
    edges: Seq<CrateOwner>,
    edge: CrateOwner,
    kind: OwnerKind,
    accounts: Map<u64, A>,
)
    ensures
        publishers_among(edges.push(edge), kind, accounts) == if resolves(edge, kind, accounts) {
            publishers_among(edges, kind, accounts).push(accounts[edge.owner_id].as_publisher())
        } else {
            publishers_among(edges, kind, accounts)
        },
{
    reveal(Seq::filter);
    assert(edges.push(edge).drop_last() =~= edges);
    let kept = edges.filter(|e: CrateOwner| resolves(e, kind, accounts));
    if resolves(edge, kind, accounts) {
        assert(kept.push(edge).map_values(|e: CrateOwner| accounts[e.owner_id].as_publisher())
            =~= kept.map_values(|e: CrateOwner| accounts[e.owner_id].as_publisher()).push(
            accounts[edge.owner_id].as_publisher(),
        ));
    }
}

/// The ownership edges of the package named `name`: none where the cache is
/// detached, a needed slot is empty, the package is unknown or no edge is
/// filed under its id.
pub open spec fn edges_of(cache: CacheView, name: Seq<char>) -> Option<Seq<CrateOwner>> {
    if cache.dir is Some && cache.crates is Some && cache.crate_owners is Some
        && cache.crates.unwrap().contains_key(name) && cache.crate_owners.unwrap().contains_key(
        cache.crates.unwrap()[name].id,
    ) {
        Some(cache.crate_owners.unwrap()[cache.crates.unwrap()[name].id])
    } else {
        None
    }
}

/// The individuals that may publish the package named `name`.
pub open spec fn publisher_users_of(cache: CacheView, name: Seq<char>) -> Option<
    Seq<PublisherData>,
> {
    match (edges_of(cache, name), cache.users) {
        (Some(edges), Some(users)) => Some(publishers_among(edges, OwnerKind::user, users)),
        _ => None,
    }
}

/// The groups that may publish the package named `name`.
pub open spec fn publisher_teams_of(cache: CacheView, name: Seq<char>) -> Option<
    Seq<PublisherData>,
> {
    match (edges_of(cache, name), cache.teams) {
        (Some(edges), Some(teams)) => Some(publishers_among(edges, OwnerKind::team, teams)),
        _ => None,
    }
}

/// The file of accounts that edges of kind `kind` point into.
pub open spec fn accounts_file(kind: OwnerKind) -> CacheFile {
    match kind {
        OwnerKind::user => CacheFile::Users,
        OwnerKind::team => CacheFile::Teams,
    }
}

/// The file that a lookup of the publishers of kind `kind` of the package
/// named `name` has to read next: the package index first, the ownership
/// edges once the package is known, the accounts once it has edges. None
/// where the lookup is settled by what is in memory.
pub open spec fn next_to_read(cache: CacheView, name: Seq<char>, kind: OwnerKind) -> Option<
    CacheFile,
> {
    if cache.dir is None {
        None
    } else if cache.crates is None {
        Some(CacheFile::Crates)
    } else if !cache.crates.unwrap().contains_key(name) {
        None
    } else if cache.crate_owners is None {
        Some(CacheFile::CrateOwners)
    } else if !cache.crate_owners.unwrap().contains_key(cache.crates.unwrap()[name].id) {
        None
    } else if !cache.holds(accounts_file(kind)) {
        Some(accounts_file(kind))
    } else {
        None
    }
}

/// The publishers that the edges of kind `kind` point to, in the order of the
/// edges; an edge whose account is unknown is passed over.
pub fn publishers_from<A: Account>(
    edges: &Vec<CrateOwner>,
    kind: OwnerKind,
    accounts: &HashMap<u64, A>,
) -> (out: Vec<PublisherData>)
    ensures
        out@ == publishers_among(edges@, kind, accounts@),
{
    let mut out: Vec<PublisherData> = Vec::new();
    let mut i: usize = 0;
    assert(out@ =~= publishers_among(edges@.take(0), kind, accounts@)) by {
        reveal(Seq::filter);
    }
    while i < edges.len()
        invariant
            i <= edges.len(),
            out@ == publishers_among(edges@.take(i as int), kind, accounts@),
        decreases edges.len() - i,
    {
        let edge = edges[i];
        proof {
            assert(edges@.take(i + 1) =~= edges@.take(i as int).push(edge));
            lemma_publishers_among_push(edges@.take(i as int), edge, kind, accounts@);
        }
        if edge.owner_kind == kind {
            match accounts.get(&edge.owner_id) {
                Some(account) => {
                    out.push(account.publisher());
                },
                None => {},
            }
        }
        i += 1;
    }
    assert(edges@.take(edges.len() as int) =~= edges@);
    out
}

impl CratesCache {
    /// The ownership edges of the package named `crate_name`, from what is in
    /// memory.
    fn edges(&self, crate_name: &str) -> (r: Option<&Vec<CrateOwner>>)
        ensures
            r is Some <==> edges_of(self@, crate_name@) is Some,
            r matches Some(e) ==> edges_of(self@, crate_name@) == Some(e@),
    {
        let id: u64 = match self.load_crates() {
            Some(crates) => match crates.get(crate_name) {
                Some(c) => c.id,
                None => {
                    return None;
                },
            },
            None => {
                return None;
            },
        };
        match self.load_crate_owners() {
            Some(owners) => owners.get(&id),
            None => None,
        }
    }

    /// The individuals that may publish the package named `crate_name`, from
    /// what is in memory. An edge that points to no known individual is
    /// passed over. `None` where the cache is detached, a needed collection
    /// has not been read, the package is unknown, or no edge at all is
    /// filed under it.
    pub fn publisher_users(&self, crate_name: &str) -> (r: Option<Vec<PublisherData>>)
        ensures
            r is Some <==> publisher_users_of(self@, crate_name@) is Some,
            r matches Some(list) ==> publisher_users_of(self@, crate_name@) == Some(list@),
    {
        match self.edges(crate_name) {
            Some(edges) => match self.load_users() {
                Some(users) => Some(publishers_from(edges, OwnerKind::user, users)),
                None => None,
            },
            None => None,
        }
    }

    /// The groups that may publish the package named `crate_name`, from
    /// what is in memory. An edge that points to no known group is passed
    /// over. `None` where the cache is detached, a needed collection has not
    /// been read, the package is unknown, or no edge at all is filed under it.
    pub fn publisher_teams(&self, crate_name: &str) -> (r: Option<Vec<PublisherData>>)
        ensures
            r is Some <==> publisher_teams_of(self@, crate_name@) is Some,
            r matches Some(list) ==> publisher_teams_of(self@, crate_name@) == Some(list@),
    {
        match self.edges(crate_name) {
            Some(edges) => match self.load_teams() {
                Some(teams) => Some(publishers_from(edges, OwnerKind::team, teams)),
                None => None,
            },
            None => None,
        }
    }

    /// The individuals and the groups that may publish the package named
    /// `crate_name`, where the cache can tell both; where it cannot tell
    /// either, the live API has to be asked for both.
    pub fn cached_publishers(&self, crate_name: &str) -> (r: Option<
        (Vec<PublisherData>, Vec<PublisherData>),
    >)
        ensures
            r is Some <==> publisher_users_of(self@, crate_name@) is Some && publisher_teams_of(
                self@,
                crate_name@,
            ) is Some,
            r matches Some(pair) ==> publisher_users_of(self@, crate_name@) == Some(pair.0@)
                && publisher_teams_of(self@, crate_name@) == Some(pair.1@),
    {
        match self.publisher_users(crate_name) {
            Some(users) => match self.publisher_teams(crate_name) {
                Some(teams) => Some((users, teams)),
                None => None,
            },
            None => None,
        }
    }

    /// The file that a lookup of the publishers of kind `kind` of the package
    /// named `crate_name` has to read next, if any.
    pub fn next_to_read(&self, crate_name: &str, kind: OwnerKind) -> (r: Option<CacheFile>)
        ensures
            r == next_to_read(self@, crate_name@, kind),
    {
        if self.cache_dir().is_none() {
            return None;
        }
        let id: u64 = match self.load_crates() {
            Some(crates) => match crates.get(crate_name) {
                Some(c) => c.id,
                None => {
                    return None;
                },
            },
            None => {
                return Some(CacheFile::Crates);
            },
        };
        match self.load_crate_owners() {
            Some(owners) => {
                if !owners.contains_key(&id) {
                    return None;
                }
            },
            None => {
                return Some(CacheFile::CrateOwners);
            },
        }
        let file = match kind {
            OwnerKind::user => CacheFile::Users,
            OwnerKind::team => CacheFile::Teams,
        };
        if self.wants(file) {
            Some(file)
        } else {
            None
        }
    }
}

/// A package that the index does not know has no publishers to show: the
/// lookup gives nothing, whatever else the cache holds.
pub proof fn lemma_unknown_package_gives_none(cache: CacheView, name: Seq<char>)
    requires
        cache.crates matches Some(crates) && !crates.contains_key(name),
    ensures
        publisher_users_of(cache, name) is None,
        publisher_teams_of(cache, name) is None,
{
}

/// A known package with edges, none of which is of the kind asked for,
/// gives an empty list, which is not the same as nothing.
pub proof fn lemma_no_owner_of_kind_gives_empty<A: Account>(
    edges: Seq<CrateOwner>,
    kind: OwnerKind,
    accounts: Map<u64, A>,
)
    requires
        forall|i: int| 0 <= i < edges.len() ==> edges[i].owner_kind != kind,
    ensures
        publishers_among(edges, kind, accounts) == Seq::<PublisherData>::empty(),
    decreases edges.len(),
{
    reveal(Seq::filter);
    if edges.len() > 0 {
        lemma_no_owner_of_kind_gives_empty(edges.drop_last(), kind, accounts);
        lemma_publishers_among_push(edges.drop_last(), edges.last(), kind, accounts);
    }
}

/// A known package with edges, none of them to an individual, has an empty
/// list of individuals; only an unknown package has none at all.
pub proof fn lemma_known_package_without_users(cache: CacheView, name: Seq<char>)
    requires
        cache.dir is Some,
        cache.users is Some,
        edges_of(cache, name) matches Some(edges) && forall|i: int|
            0 <= i < edges.len() ==> edges[i].owner_kind != OwnerKind::user,
    ensures
        publisher_users_of(cache, name) == Some(Seq::<PublisherData>::empty()),
{
    lemma_no_owner_of_kind_gives_empty(
        edges_of(cache, name).unwrap(),
        OwnerKind::user,
        cache.users.unwrap(),
    );
}

/// An edge that points to no known account is dropped: the list is the one
/// that the other edges give.
pub proof fn lemma_dangling_edge_is_dropped<A: Account>(
    before: Seq<CrateOwner>,
    dangling: CrateOwner,
    after: Seq<CrateOwner>,
    kind: OwnerKind,
    accounts: Map<u64, A>,
)
    requires
        !accounts.contains_key(dangling.owner_id),
    ensures
        publishers_among(before.push(dangling) + after, kind, accounts) == publishers_among(
            before + after,
            kind,
            accounts,
        ),
{
    let keep = |e: CrateOwner| resolves(e, kind, accounts);
    lemma_publishers_among_push(before, dangling, kind, accounts);
    Seq::filter_distributes_over_add(before.push(dangling), after, keep);
    Seq::filter_distributes_over_add(before, after, keep);
    assert(before.push(dangling).filter(keep) == before.filter(keep)) by {
        reveal(Seq::filter);
        assert(before.push(dangling).drop_last() =~= before);
    }
}

/// Of two edges of a package, one to a known individual and one to an
/// account that is not known, the lookup gives the one individual.
pub proof fn lemma_one_known_one_dangling(
    known: CrateOwner,
    dangling: CrateOwner,
    users: Map<u64, User>,
)
    requires
        known.owner_kind == OwnerKind::user,
        users.contains_key(known.owner_id),
        !users.contains_key(dangling.owner_id),
    ensures
        publishers_among(seq![known, dangling], OwnerKind::user, users) == seq![
            users[known.owner_id].as_publisher(),
        ],
        publishers_among(seq![dangling, known], OwnerKind::user, users) == seq![
            users[known.owner_id].as_publisher(),
        ],
{
    let empty = Seq::<CrateOwner>::empty();
    assert(publishers_among(empty, OwnerKind::user, users) =~= Seq::<PublisherData>::empty()) by {
        reveal(Seq::filter);
    }
    lemma_publishers_among_push(empty, known, OwnerKind::user, users);
    lemma_publishers_among_push(empty.push(known), dangling, OwnerKind::user, users);
    assert(empty.push(known).push(dangling) =~= seq![known, dangling]);
    lemma_publishers_among_push(empty, dangling, OwnerKind::user, users);
    lemma_publishers_among_push(empty.push(dangling), known, OwnerKind::user, users);
    assert(empty.push(dangling).push(known) =~= seq![dangling, known]);
    assert(Seq::<PublisherData>::empty().push(users[known.owner_id].as_publisher()) =~= seq![
        users[known.owner_id].as_publisher(),
    ]);
}

} // verus!
