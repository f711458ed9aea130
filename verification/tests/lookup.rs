use cargo_supply_chain::crates_cache::{CacheFile, CratesCache, Loaded};
use cargo_supply_chain::index::{group_by_key, index_by_key, CrateIndex};
use cargo_supply_chain::lookup::publishers_from;
use cargo_supply_chain::publishers::{PublisherData, PublisherKind};
use cargo_supply_chain::records::{Crate, CrateOwner, OwnerKind, Team, User};
use std::path::PathBuf;

fn package(name: &str, id: u64) -> Crate {
    Crate { name: name.to_string(), id, repository: None }
}

fn user(id: u64, login: &str) -> User {
    User {
        id,
        gh_avatar: Some(format!("https://avatars.example/{}", id)),
        gh_id: Some(format!("{}", id + 1000)),
        gh_login: login.to_string(),
        name: Some(format!("{} the Great", login)),
    }
}

fn team(id: u64, login: &str) -> Team {
    Team { id, avatar: None, login: login.to_string(), name: None }
}

fn edge(crate_id: u64, owner_id: u64, owner_kind: OwnerKind) -> CrateOwner {
    CrateOwner { crate_id, owner_id, owner_kind }
}

fn sample_cache() -> CratesCache {
    let mut cache = CratesCache::with_dir(Some(PathBuf::from("/nonexistent/cache")));
    cache.fill(Loaded::Crates(CrateIndex::from_records(vec![
        package("alpha", 1),
        package("beta", 2),
        package("gamma", 3),
        package("delta", 4),
    ])));
    cache.fill(Loaded::CrateOwners(group_by_key(vec![
        edge(1, 10, OwnerKind::user),
        edge(1, 99, OwnerKind::user),
        edge(2, 20, OwnerKind::team),
        edge(3, 11, OwnerKind::user),
        edge(3, 20, OwnerKind::team),
        edge(3, 10, OwnerKind::user),
    ])));
    cache.fill(Loaded::Users(index_by_key(vec![user(10, "ann"), user(11, "bob")])));
    cache.fill(Loaded::Teams(index_by_key(vec![team(20, "github:org:core")])));
    cache
}

#[test]
fn a_dangling_edge_is_dropped_not_reported() {
    let cache = sample_cache();
    let found = cache.publisher_users("alpha").expect("alpha is known");
    assert_eq!(found.len(), 1);
    let ann = &found[0];
    assert_eq!(ann.id, 10);
    assert_eq!(ann.login, "ann");
    assert_eq!(ann.kind, PublisherKind::user);
    assert_eq!(ann.name.as_deref(), Some("ann the Great"));
    assert_eq!(ann.avatar.as_deref(), Some("https://avatars.example/10"));
}

#[test]
fn an_unknown_package_gives_none() {
    let cache = sample_cache();
    assert!(cache.publisher_users("nonexistent-pkg").is_none());
    assert!(cache.publisher_teams("nonexistent-pkg").is_none());
}

#[test]
fn a_known_package_without_owners_of_a_kind_gives_an_empty_list() {
    let cache = sample_cache();
    // beta has a team edge only, alpha has user edges only
    assert_eq!(cache.publisher_users("beta").map(|list| list.len()), Some(0));
    assert_eq!(cache.publisher_teams("alpha").map(|list| list.len()), Some(0));
}

#[test]
fn a_package_without_any_edge_gives_none() {
    let cache = sample_cache();
    assert!(cache.publisher_users("delta").is_none());
    assert!(cache.publisher_teams("delta").is_none());
}

#[test]
fn publishers_come_in_the_order_of_the_edges() {
    let cache = sample_cache();
    let users = cache.publisher_users("gamma").unwrap();
    let ids: Vec<u64> = users.iter().map(|p| p.id).collect();
    assert_eq!(ids, vec![11, 10]);
    let teams = cache.publisher_teams("gamma").unwrap();
    assert_eq!(teams.len(), 1);
    assert_eq!(teams[0].id, 20);
    assert_eq!(teams[0].login, "github:org:core");
    assert_eq!(teams[0].kind, PublisherKind::team);
    assert_eq!(teams[0].name, None);
    assert_eq!(teams[0].avatar, None);
}

#[test]
fn a_lookup_needs_each_collection_in_memory() {
    let mut cache = CratesCache::with_dir(Some(PathBuf::from("/nonexistent/cache")));
    assert_eq!(cache.next_to_read("alpha", OwnerKind::user), Some(CacheFile::Crates));
    assert!(cache.publisher_users("alpha").is_none());
    cache.fill(Loaded::Crates(CrateIndex::from_records(vec![package("alpha", 1)])));
    assert_eq!(cache.next_to_read("alpha", OwnerKind::user), Some(CacheFile::CrateOwners));
    // an unknown package settles the lookup without another file
    assert_eq!(cache.next_to_read("omega", OwnerKind::user), None);
    cache.fill(Loaded::CrateOwners(group_by_key(vec![edge(1, 10, OwnerKind::user)])));
    assert_eq!(cache.next_to_read("alpha", OwnerKind::user), Some(CacheFile::Users));
    assert_eq!(cache.next_to_read("alpha", OwnerKind::team), Some(CacheFile::Teams));
    assert!(cache.publisher_users("alpha").is_none());
    cache.fill(Loaded::Users(index_by_key(vec![user(10, "ann")])));
    assert_eq!(cache.next_to_read("alpha", OwnerKind::user), None);
    assert_eq!(cache.publisher_users("alpha").map(|list| list.len()), Some(1));
    assert!(cache.publisher_teams("alpha").is_none());
}

#[test]
fn both_kinds_are_told_together_or_not_at_all() {
    let cache = sample_cache();
    let (users, teams) = cache.cached_publishers("gamma").expect("gamma is known");
    assert_eq!(users.iter().map(|p| p.id).collect::<Vec<u64>>(), vec![11, 10]);
    assert_eq!(teams.iter().map(|p| p.id).collect::<Vec<u64>>(), vec![20]);
    let (users, teams) = cache.cached_publishers("beta").expect("beta is known");
    assert!(users.is_empty());
    assert_eq!(teams.len(), 1);
    assert!(cache.cached_publishers("nonexistent-pkg").is_none());
    // without the groups in memory the cache cannot tell both
    let mut partial = CratesCache::with_dir(Some(PathBuf::from("/nonexistent/cache")));
    partial.fill(Loaded::Crates(CrateIndex::from_records(vec![package("alpha", 1)])));
    partial.fill(Loaded::CrateOwners(group_by_key(vec![edge(1, 10, OwnerKind::user)])));
    partial.fill(Loaded::Users(index_by_key(vec![user(10, "ann")])));
    assert!(partial.publisher_users("alpha").is_some());
    assert!(partial.cached_publishers("alpha").is_none());
}

#[test]
fn a_detached_cache_answers_no_lookup() {
    let mut cache = sample_cache();
    assert!(cache.publisher_users("alpha").is_some());
    let now = cargo_supply_chain::time::Timestamp::from_unix(
        cargo_supply_chain::time::Duration::from_secs(5),
    );
    cache.expire_at(&now, &cargo_supply_chain::time::Duration::from_secs(5));
    assert!(cache.publisher_users("alpha").is_none());
    assert_eq!(cache.next_to_read("alpha", OwnerKind::user), None);
}

#[test]
fn publishers_from_passes_over_other_kinds_and_unknown_accounts() {
    let edges = vec![
        edge(1, 20, OwnerKind::team),
        edge(1, 10, OwnerKind::user),
        edge(1, 77, OwnerKind::user),
        edge(1, 10, OwnerKind::user),
    ];
    let users = index_by_key(vec![user(10, "ann"), user(20, "not-a-team")]);
    let found = publishers_from(&edges, OwnerKind::user, &users);
    let ids: Vec<u64> = found.iter().map(|p| p.id).collect();
    assert_eq!(ids, vec![10, 10]);
}

#[test]
fn publishers_are_equal_and_ordered_by_id_alone() {
    let a = PublisherData {
        id: 5,
        login: "a".to_string(),
        kind: PublisherKind::user,
        name: None,
        avatar: None,
    };
    let b = PublisherData {
        id: 5,
        login: "b".to_string(),
        kind: PublisherKind::team,
        name: Some("B".to_string()),
        avatar: None,
    };
    let c = PublisherData { id: 6, ..a.clone() };
    assert!(a == b);
    assert!(a != c);
    assert!(a < c);
    assert!(!(a < b) && !(b < a));
    assert_eq!(a.partial_cmp(&c), Some(std::cmp::Ordering::Less));
    assert_eq!(c.partial_cmp(&b), Some(std::cmp::Ordering::Greater));
    assert!(PublisherKind::team < PublisherKind::user);
}
