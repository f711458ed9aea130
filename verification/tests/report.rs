use cargo_supply_chain::common::{PkgSource, SourcedPackage};
use cargo_supply_chain::publishers::{PublisherData, PublisherKind};
use cargo_supply_chain::report::{
    any_team, github_org, sort_crate_names, sort_transposed_map_for_diffing,
    sort_transposed_map_for_display, transpose_publishers_map, ByCrateName, ByExposure, ById,
    ByKindThenLogin, StructuredOutput,
};
use cargo_supply_chain::sorting::sort;

fn user(id: u64, login: &str) -> PublisherData {
    PublisherData { id, login: login.to_string(), kind: PublisherKind::user, name: None, avatar: None }
}

fn team(id: u64, login: &str) -> PublisherData {
    PublisherData { id, login: login.to_string(), kind: PublisherKind::team, name: None, avatar: None }
}

fn strings(names: &[&str]) -> Vec<String> {
    names.iter().map(|n| n.to_string()).collect()
}

fn shown(list: &[(PublisherData, Vec<String>)]) -> Vec<(u64, String, Vec<String>)> {
    list.iter().map(|(p, crates)| (p.id, p.login.clone(), crates.clone())).collect()
}

#[test]
fn publishers_are_listed_once_by_id_with_their_packages() {
    let input = vec![
        ("alpha".to_string(), vec![user(30, "zed"), user(10, "ann")]),
        ("beta".to_string(), vec![]),
        ("gamma".to_string(), vec![user(10, "ann-renamed"), user(20, "bob")]),
        ("delta".to_string(), vec![user(10, "ann")]),
    ];
    let transposed = transpose_publishers_map(&input);
    assert_eq!(
        shown(&transposed),
        vec![
            (10, "ann".to_string(), strings(&["alpha", "gamma", "delta"])),
            (20, "bob".to_string(), strings(&["gamma"])),
            (30, "zed".to_string(), strings(&["alpha"])),
        ]
    );
    assert!(transpose_publishers_map(&Vec::new()).is_empty());
}

#[test]
fn a_publisher_named_twice_for_a_package_holds_it_twice() {
    let input = vec![("alpha".to_string(), vec![user(1, "a"), user(1, "a")])];
    assert_eq!(
        shown(&transpose_publishers_map(&input)),
        vec![(1, "a".to_string(), strings(&["alpha", "alpha"]))]
    );
}

#[test]
fn package_names_are_sorted_within_each_publisher() {
    let list = vec![
        (user(2, "bob"), strings(&["z", "a", "m"])),
        (user(1, "ann"), strings(&[])),
        (user(3, "cid"), strings(&["b", "b", "a"])),
    ];
    assert_eq!(
        shown(&sort_crate_names(list)),
        vec![
            (2, "bob".to_string(), strings(&["a", "m", "z"])),
            (1, "ann".to_string(), strings(&[])),
            (3, "cid".to_string(), strings(&["a", "b", "b"])),
        ]
    );
}

#[test]
fn for_display_the_widest_reach_comes_first_then_the_login() {
    let list = vec![
        (user(1, "dora"), strings(&["a"])),
        (user(2, "bob"), strings(&["a", "b"])),
        (user(3, "ann"), strings(&["c"])),
        (user(4, "cid"), strings(&["a", "b", "c"])),
        (user(5, "abe"), strings(&["x", "y"])),
    ];
    let logins: Vec<String> =
        sort_transposed_map_for_display(list).into_iter().map(|(p, _)| p.login).collect();
    assert_eq!(logins, strings(&["cid", "abe", "bob", "ann", "dora"]));
}

#[test]
fn for_diffing_the_login_alone_decides() {
    let list = vec![
        (user(1, "dora"), strings(&["a"])),
        (user(2, "bob"), strings(&["a", "b"])),
        (user(3, "Ann"), strings(&["c"])),
        (user(4, "cid"), strings(&["a", "b", "c"])),
    ];
    let logins: Vec<String> =
        sort_transposed_map_for_diffing(list).into_iter().map(|(p, _)| p.login).collect();
    assert_eq!(logins, strings(&["Ann", "bob", "cid", "dora"]));
}

#[test]
fn the_accounts_of_a_package_list_groups_first() {
    let mut accounts = vec![user(1, "zed"), team(2, "github:org:b"), user(3, "ann"), team(4, "github:org:a")];
    sort::<PublisherData, ByKindThenLogin>(&mut accounts);
    let logins: Vec<&str> = accounts.iter().map(|p| p.login.as_str()).collect();
    assert_eq!(logins, vec!["github:org:a", "github:org:b", "ann", "zed"]);
    sort::<PublisherData, ById>(&mut accounts);
    let ids: Vec<u64> = accounts.iter().map(|p| p.id).collect();
    assert_eq!(ids, vec![1, 2, 3, 4]);
}

#[test]
fn packages_with_groups_come_first_then_those_with_more_publishers() {
    let mut packages = vec![
        ("solo".to_string(), vec![user(1, "a")]),
        ("crowd".to_string(), vec![user(1, "a"), user(2, "b"), user(3, "c")]),
        ("teamed".to_string(), vec![team(9, "github:o:t")]),
        ("pair-b".to_string(), vec![user(1, "a"), user(2, "b")]),
        ("pair-a".to_string(), vec![user(1, "a"), user(2, "b")]),
        ("big-team".to_string(), vec![user(1, "a"), team(9, "github:o:t")]),
    ];
    assert!(any_team(&packages[2].1));
    assert!(!any_team(&packages[1].1));
    assert!(!any_team(&Vec::new()));
    sort::<(String, Vec<PublisherData>), ByExposure>(&mut packages);
    let names: Vec<&str> = packages.iter().map(|(n, _)| n.as_str()).collect();
    assert_eq!(names, vec!["big-team", "teamed", "crowd", "pair-a", "pair-b", "solo"]);
    sort::<(String, Vec<PublisherData>), ByCrateName>(&mut packages);
    let names: Vec<&str> = packages.iter().map(|(n, _)| n.as_str()).collect();
    assert_eq!(names, vec!["big-team", "crowd", "pair-a", "pair-b", "solo", "teamed"]);
}

#[test]
fn a_group_login_names_its_organisation() {
    assert_eq!(github_org("github:rust-lang:core").as_deref(), Some("rust-lang"));
    assert_eq!(github_org("github:rust-lang").as_deref(), Some("rust-lang"));
    assert_eq!(github_org("github:").as_deref(), Some(""));
    assert_eq!(github_org("github::team").as_deref(), Some(""));
    assert_eq!(github_org("github:ünï:x").as_deref(), Some("ünï"));
    assert_eq!(github_org("gitlab:org:team"), None);
    assert_eq!(github_org("github"), None);
    assert_eq!(github_org(""), None);
    assert_eq!(github_org("GitHub:org"), None);
}

#[test]
fn the_structured_report_names_what_it_leaves_out() {
    let dep = |source: PkgSource, name: &str| SourcedPackage {
        source,
        name: name.to_string(),
        version: "0.1.0".to_string(),
        authors: vec![],
    };
    let deps = vec![
        dep(PkgSource::Local, "my-app"),
        dep(PkgSource::CratesIo, "serde"),
        dep(PkgSource::Foreign, "patched"),
        dep(PkgSource::Local, "helper"),
        dep(PkgSource::Local, "my-app"),
    ];
    let publishers = vec![
        ("serde".to_string(), vec![user(30, "c"), team(10, "github:o:t"), user(20, "b")]),
        ("rand".to_string(), vec![]),
    ];
    let out = StructuredOutput::new(&deps, publishers);
    assert_eq!(out.not_audited().local_crates(), &strings(&["helper", "my-app"]));
    assert_eq!(out.not_audited().foreign_crates(), &strings(&["patched"]));
    let covered = out.crates_io_crates();
    assert_eq!(covered.len(), 2);
    assert_eq!(covered[0].0, "serde");
    let ids: Vec<u64> = covered[0].1.iter().map(|p| p.id).collect();
    assert_eq!(ids, vec![10, 20, 30]);
    assert_eq!(covered[1].0, "rand");
    assert!(covered[1].1.is_empty());
}
