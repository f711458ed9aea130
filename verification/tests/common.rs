use cargo_supply_chain::common::{
    comma_separated_list, crate_names_from_source, sorted_names, ByName, PkgSource,
    SourcedPackage,
};
use cargo_supply_chain::sorting::{bytes_less, sort, str_less};

fn dep(name: &str, source: PkgSource) -> SourcedPackage {
    SourcedPackage { source, name: name.to_string(), version: "1.0.0".to_string(), authors: vec![] }
}

fn strings(names: &[&str]) -> Vec<String> {
    names.iter().map(|n| n.to_string()).collect()
}

#[test]
fn names_are_joined_with_comma_and_space() {
    assert_eq!(comma_separated_list(&[]), "");
    assert_eq!(comma_separated_list(&strings(&["serde"])), "serde");
    assert_eq!(comma_separated_list(&strings(&["serde", "rand", "libc"])), "serde, rand, libc");
    assert_eq!(comma_separated_list(&strings(&["", ""])), ", ");
}

#[test]
fn a_workspace_member_is_local_wherever_else_it_comes_from() {
    assert_eq!(PkgSource::classify(true, true), PkgSource::Local);
    assert_eq!(PkgSource::classify(true, false), PkgSource::Local);
    assert_eq!(PkgSource::classify(false, true), PkgSource::CratesIo);
    assert_eq!(PkgSource::classify(false, false), PkgSource::Foreign);
}

#[test]
fn names_of_one_source_come_sorted_and_once() {
    let deps = vec![
        dep("serde", PkgSource::CratesIo),
        dep("my-app", PkgSource::Local),
        dep("rand", PkgSource::CratesIo),
        dep("patched", PkgSource::Foreign),
        dep("serde", PkgSource::CratesIo),
        dep("Zlib", PkgSource::CratesIo),
        dep("rand", PkgSource::Foreign),
    ];
    assert_eq!(
        crate_names_from_source(&deps, PkgSource::CratesIo),
        strings(&["Zlib", "rand", "serde"])
    );
    assert_eq!(crate_names_from_source(&deps, PkgSource::Local), strings(&["my-app"]));
    assert_eq!(crate_names_from_source(&deps, PkgSource::Foreign), strings(&["patched", "rand"]));
    assert!(crate_names_from_source(&[], PkgSource::Local).is_empty());
    assert!(crate_names_from_source(&deps[..1], PkgSource::Local).is_empty());
}

#[test]
fn sorted_names_agree_with_the_standard_sort() {
    let names = strings(&["b", "a", "", "ab", "a", "B", "é", "z", "e", "b", "aa", "a\u{0}"]);
    let mut expected = names.clone();
    expected.sort_unstable();
    expected.dedup();
    assert_eq!(sorted_names(names), expected);
}

#[test]
fn texts_are_ordered_by_their_bytes() {
    assert!(str_less("a", "b"));
    assert!(!str_less("b", "a"));
    assert!(!str_less("a", "a"));
    assert!(str_less("", "a"));
    assert!(!str_less("", ""));
    assert!(str_less("a", "ab"));
    assert!(str_less("Z", "a"));
    assert!(str_less("z", "é"));
    assert!(bytes_less(&[1, 2], &[1, 3]));
    assert!(bytes_less(&[1, 255], &[2]));
    assert!(!bytes_less(&[2], &[1, 255]));
    for (a, b) in [("abc", "abd"), ("x", ""), ("same", "same"), ("é", "e"), ("10", "9")] {
        assert_eq!(str_less(a, b), a < b, "{:?} {:?}", a, b);
    }
}

#[test]
fn sorting_keeps_every_item() {
    let mut names = strings(&["d", "b", "d", "a", "c", "b"]);
    sort::<String, ByName>(&mut names);
    assert_eq!(names, strings(&["a", "b", "b", "c", "d", "d"]));
    let mut one = strings(&["x"]);
    sort::<String, ByName>(&mut one);
    assert_eq!(one, strings(&["x"]));
    let mut none: Vec<String> = Vec::new();
    sort::<String, ByName>(&mut none);
    assert!(none.is_empty());
}
