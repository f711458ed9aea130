//! What the reports share: where a package comes from, and lists of names.

use vstd::prelude::*;
use vstd::string::StringExecFns;
use crate::sorting::{
    lemma_lex_asymmetric, lemma_lex_not_after_transitive, lemma_lex_transitive,
    lemma_text_neither_less_means_same, sort, sorted, str_less, text_less, Order,
};

verus! {

/// Where a package of the dependency graph comes from.
#[derive(Debug, Copy, Clone, Eq, PartialEq, Hash, Structural)]
pub enum PkgSource {
    /// A member of the workspace.
    Local,
    /// The public registry.
    CratesIo,
    /// Anywhere else.
    Foreign,
}

impl PkgSource {
    /// The source of a package, from what its metadata says: a member of
    /// the workspace is local wherever it is also published, a package of
    /// the public registry comes from there, and every other is foreign.
    pub open spec fn of(workspace_member: bool, from_registry: bool) -> PkgSource {
        if workspace_member {
            PkgSource::Local
        } else if from_registry {
            PkgSource::CratesIo
        } else {
            PkgSource::Foreign
        }
    }

    /// Tells the source of a package from what its metadata says.
    pub fn classify(workspace_member: bool, from_registry: bool) -> (r: PkgSource)
        ensures
            r == Self::of(workspace_member, from_registry),
    {
        if workspace_member {
            PkgSource::Local
        } else if from_registry {
            PkgSource::CratesIo
        } else {
            PkgSource::Foreign
        }
    }
}

/// A package of the dependency graph, with where it comes from.
#[derive(Debug, PartialEq, Eq)]
pub struct SourcedPackage {
    pub source: PkgSource,
    pub name: String,
    pub version: String,
    /// The authors that the package declares.
    pub authors: Vec<String>,
}

/// A copy of a list of strings.
pub fn copy_strings(list: &Vec<String>) -> (copy: Vec<String>)
    ensures
        copy@ == list@,
{
    let mut copy: Vec<String> = Vec::new();
    let mut i: usize = 0;
    while i < list.len()
        invariant
            i <= list.len(),
            copy@ == list@.take(i as int),
        decreases list.len() - i,
    {
        copy.push(list[i].clone());
        i += 1;
    }
    copy
}

impl Clone for SourcedPackage {
    fn clone(&self) -> (r: Self)
        ensures
            r.source == self.source,
            r.name == self.name,
            r.version == self.version,
            r.authors@ == self.authors@,
    {
        SourcedPackage {
            source: self.source,
            name: self.name.clone(),
            version: self.version.clone(),
            authors: copy_strings(&self.authors),
        }
    }
}

/// The order of names: by the bytes of their texts.
pub struct ByName;

impl Order<String> for ByName {
    open spec fn before(a: String, b: String) -> bool {
        text_less(a@, b@)
    }

    fn is_before(a: &String, b: &String) -> (r: bool) {
        str_less(a.as_str(), b.as_str())
    }

    proof fn lemma_asymmetric(a: String, b: String) {
        lemma_lex_asymmetric(vstd::utf8::encode_utf8(a@), vstd::utf8::encode_utf8(b@));
    }

    proof fn lemma_not_after_transitive(a: String, b: String, c: String) {
        lemma_lex_not_after_transitive(
            vstd::utf8::encode_utf8(a@),
            vstd::utf8::encode_utf8(b@),
            vstd::utf8::encode_utf8(c@),
        );
    }
}

/// The texts of a list of strings, in the same order.
pub open spec fn texts(list: Seq<String>) -> Seq<Seq<char>> {
    list.map_values(|s: String| s@)
}

/// Whether each text of `names` comes strictly before all that follow it.
pub open spec fn strictly_increasing(names: Seq<Seq<char>>) -> bool {
    forall|i: int, j: int| 0 <= i < j < names.len() ==> text_less(names[i], names[j])
}

/// Whether a package of `crates` that comes from `source` bears `name`.
pub open spec fn named_from(crates: Seq<SourcedPackage>, source: PkgSource, name: Seq<char>) -> bool {
    exists|k: int|
        0 <= k < crates.len() && (#[trigger] crates[k]).source == source && crates[k].name@ == name
}

/// Drops from a list in order every name that repeats the one before it.
fn without_repeats(ordered: Vec<String>) -> (names: Vec<String>)
    requires
        sorted::<String, ByName>(ordered@),
    ensures
        strictly_increasing(texts(names@)),
        forall|name: Seq<char>| #[trigger]
            texts(names@).contains(name) <==> texts(ordered@).contains(name),
{
    let ghost all = ordered@;
    let ghost all_texts = texts(all);
    let mut names: Vec<String> = Vec::new();
    for name in it: ordered
        invariant
            it.seq() == all,
            all_texts == texts(all),
            sorted::<String, ByName>(all),
            strictly_increasing(texts(names@)),
            names.len() == 0 <==> it.index() == 0,
            names.len() > 0 ==> names@[names.len() - 1]@ == all[it.index() - 1]@,
            forall|k: int|
                0 <= k < names.len() ==> all_texts.take(it.index() as int).contains(
                    #[trigger] texts(names@)[k],
                ),
            forall|m: int|
                0 <= m < it.index() ==> texts(names@).contains(#[trigger] all_texts[m]),
    {
        let ghost held = names@;
        let ghost at = it.index() as int;
        let fresh = match names.last() {
            Some(last) => *last != name,
            None => true,
        };
        proof {
            assert forall|k: int| 0 <= k < held.len() implies all_texts.take(at + 1).contains(
                #[trigger] texts(held)[k],
            ) by {
                let m = choose|m: int|
                    0 <= m < all_texts.take(at).len() && all_texts.take(at)[m] == texts(held)[k];
                assert(all_texts.take(at + 1)[m] == texts(held)[k]);
            }
        }
        if fresh {
            proof {
                if held.len() > 0 {
                    let last = held[held.len() - 1];
                    assert(!ByName::before(all[at], all[at - 1]));
                    if !text_less(last@, name@) {
                        lemma_text_neither_less_means_same(last@, name@);
                    }
                }
            }
            names.push(name);
            proof {
                let now = texts(names@);
                let then = texts(held);
                assert forall|a: int, b: int| 0 <= a < b < now.len() implies text_less(
                    now[a],
                    now[b],
                ) by {
                    if b < held.len() {
                        assert(now[a] == then[a] && now[b] == then[b]);
                    } else if a < held.len() - 1 {
                        let last = held.len() - 1;
                        assert(text_less(then[a], then[last]));
                        lemma_lex_transitive(
                            vstd::utf8::encode_utf8(held[a]@),
                            vstd::utf8::encode_utf8(held[last]@),
                            vstd::utf8::encode_utf8(name@),
                        );
                    }
                }
                assert forall|k: int| 0 <= k < names.len() implies all_texts.take(
                    at + 1,
                ).contains(#[trigger] now[k]) by {
                    if k < held.len() {
                        assert(now[k] == then[k]);
                    } else {
                        assert(all_texts.take(at + 1)[at] == now[k]);
                    }
                }
                assert forall|m: int| 0 <= m < at + 1 implies now.contains(
                    #[trigger] all_texts[m],
                ) by {
                    if m < at {
                        let k = choose|k: int| 0 <= k < then.len() && then[k] == all_texts[m];
                        assert(now[k] == all_texts[m]);
                    } else {
                        assert(now[names.len() - 1] == all_texts[m]);
                    }
                }
            }
        } else {
            proof {
                let now = texts(names@);
                assert forall|m: int| 0 <= m < at + 1 implies now.contains(
                    #[trigger] all_texts[m],
                ) by {
                    if m == at {
                        assert(now[names.len() - 1] == all_texts[m]);
                    }
                }
            }
        }
    }
    proof {
        let now = texts(names@);
        assert forall|name: Seq<char>| #[trigger] now.contains(name) <==> all_texts.contains(
            name,
        ) by {
            if now.contains(name) {
                let k = choose|k: int| 0 <= k < now.len() && now[k] == name;
                assert(all_texts.take(all.len() as int).contains(now[k]));
            }
            if all_texts.contains(name) {
                let m = choose|m: int| 0 <= m < all_texts.len() && all_texts[m] == name;
                assert(now.contains(all_texts[m]));
            }
        }
    }
    names
}

/// The names of `list`, each once, in the order of names.
pub fn sorted_names(list: Vec<String>) -> (names: Vec<String>)
    ensures
        strictly_increasing(texts(names@)),
        forall|name: Seq<char>| #[trigger]
            texts(names@).contains(name) <==> texts(list@).contains(name),
{
    let mut ordered = list;
    sort::<String, ByName>(&mut ordered);
    proof {
        let before = list@;
        let after = ordered@;
        before.to_multiset_ensures();
        after.to_multiset_ensures();
        assert forall|name: Seq<char>| #[trigger]
            texts(after).contains(name) <==> texts(before).contains(name) by {
            if texts(after).contains(name) {
                let k = choose|k: int| 0 <= k < texts(after).len() && texts(after)[k] == name;
                assert(after.to_multiset().count(after[k]) > 0);
                let m = choose|m: int| 0 <= m < before.len() && before[m] == after[k];
                assert(texts(before)[m] == name);
            }
            if texts(before).contains(name) {
                let k = choose|k: int| 0 <= k < texts(before).len() && texts(before)[k] == name;
                assert(before.to_multiset().count(before[k]) > 0);
                let m = choose|m: int| 0 <= m < after.len() && after[m] == before[k];
                assert(texts(after)[m] == name);
            }
        }
    }
    without_repeats(ordered)
}

/// The names of the packages of `crates` that come from `source`, each
/// once, in the order of names.
pub fn crate_names_from_source(crates: &[SourcedPackage], source: PkgSource) -> (names: Vec<String>)
    ensures
        strictly_increasing(texts(names@)),
        forall|name: Seq<char>| #[trigger]
            texts(names@).contains(name) <==> named_from(crates@, source, name),
{
    let mut found: Vec<String> = Vec::new();
    let mut i: usize = 0;
    while i < crates.len()
        invariant
            i <= crates.len(),
            forall|k: int|
                0 <= k < found.len() ==> named_from(crates@, source, #[trigger] texts(found@)[k]),
            forall|k: int|
                0 <= k < i && (#[trigger] crates@[k]).source == source ==> texts(found@).contains(
                    crates@[k].name@,
                ),
        decreases crates.len() - i,
    {
        if crates[i].source == source {
            let ghost before = found@;
            found.push(crates[i].name.clone());
            proof {
                let now = texts(found@);
                let then = texts(before);
                assert(now[found.len() - 1] == crates@[i as int].name@);
                assert forall|k: int| 0 <= k < found.len() implies named_from(
                    crates@,
                    source,
                    #[trigger] now[k],
                ) by {
                    if k < before.len() {
                        assert(now[k] == then[k]);
                    }
                }
                assert forall|k: int|
                    0 <= k < i + 1 && (#[trigger] crates@[k]).source == source implies now.contains(
                    crates@[k].name@,
                ) by {
                    if k < i {
                        let m = choose|m: int| 0 <= m < then.len() && then[m] == crates@[k].name@;
                        assert(now[m] == crates@[k].name@);
                    }
                }
            }
        }
        i += 1;
    }
    let ghost gathered = texts(found@);
    let names = sorted_names(found);
    proof {
        assert forall|name: Seq<char>| #[trigger]
            texts(names@).contains(name) <==> named_from(crates@, source, name) by {
            if gathered.contains(name) {
                let k = choose|k: int| 0 <= k < gathered.len() && gathered[k] == name;
                assert(named_from(crates@, source, gathered[k]));
            }
            if named_from(crates@, source, name) {
                let c = choose|c: int|
                    0 <= c < crates.len() && (#[trigger] crates@[c]).source == source
                        && crates@[c].name@ == name;
                assert(gathered.contains(crates@[c].name@));
            }
        }
    }
    names
}

/// The texts of `list` in a row, with `separator` between each two.
pub open spec fn joined(list: Seq<Seq<char>>, separator: Seq<char>) -> Seq<char>
    decreases list.len(),
{
    if list.len() == 0 {
        Seq::empty()
    } else if list.len() == 1 {
        list[0]
    } else {
        joined(list.drop_last(), separator) + separator + list.last()
    }
}

/// The names of `list` in one line, a comma and a space between each two.
pub fn comma_separated_list(list: &[String]) -> (line: String)
    ensures
        line@ == joined(list.deep_view(), ", "@),
{
    let ghost names = list.deep_view();
    let mut result = String::new();
    let mut i: usize = 0;
    while i < list.len()
        invariant
            i <= list.len(),
            names == list.deep_view(),
            result@ == joined(names.take(i as int), ", "@),
        decreases list.len() - i,
    {
        proof {
            assert(names.take(i + 1).drop_last() =~= names.take(i as int));
        }
        if i != 0 {
            result.append(", ");
        }
        result.append(list[i].as_str());
        i += 1;
    }
    assert(names.take(list.len() as int) =~= names);
    result
}

} // verus!
