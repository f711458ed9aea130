//! Indexes over flat lists of records: one record per key, or all the records
//! of each key.

use vstd::prelude::*;
use vstd::hash_map::StringHashMap;
use std::collections::HashMap;
use crate::records::{Crate, CrateOwner, Team, User};

verus! {

/// A record that is found by a number.
pub trait Keyed: Sized {
    /// The number under which the record is filed.
    spec fn key_of(&self) -> u64;

    /// The number under which the record is filed.
    fn key(&self) -> (k: u64)
        ensures
            k == self.key_of(),
    ;
}

impl Keyed for User {
    open spec fn key_of(&self) -> u64 {
        self.id
    }

    fn key(&self) -> (k: u64) {
        self.id
    }
}

impl Keyed for Team {
    open spec fn key_of(&self) -> u64 {
        self.id
    }

    fn key(&self) -> (k: u64) {
        self.id
    }
}

impl Keyed for CrateOwner {
    open spec fn key_of(&self) -> u64 {
        self.crate_id
    }

    fn key(&self) -> (k: u64) {
        self.crate_id
    }
}

/// The records of `entries` that are filed under `k`, in their order.
pub open spec fn with_key<T: Keyed>(entries: Seq<T>, k: u64) -> Seq<T> {
    entries.filter(|e: T| e.key_of() == k)
}

/// For each key that occurs in `entries`, the last record filed under it.
pub open spec fn latest_by_key<T: Keyed>(entries: Seq<T>) -> Map<u64, T> {
    Map::new(|k: u64| with_key(entries, k).len() > 0, |k: u64| with_key(entries, k).last())
}

/// For each key that occurs in `entries`, all the records filed under it, in
/// their order.
pub open spec fn grouped_by_key<T: Keyed>(entries: Seq<T>) -> Map<u64, Seq<T>> {
    Map::new(|k: u64| with_key(entries, k).len() > 0, |k: u64| with_key(entries, k))
}

/// The lists of a map of record lists, each as a sequence.
pub open spec fn group_views<T>(groups: Map<u64, Vec<T>>) -> Map<u64, Seq<T>> {
    groups.map_values(|g: Vec<T>| g@)
}

/// One more record at the end only adds to the records of its own key.
pub proof fn lemma_with_key_push<T: Keyed>(entries: Seq<T>, e: T, k: u64)
    ensures
        with_key(entries.push(e), k) == if e.key_of() == k {
            with_key(entries, k).push(e)
        } else {
            with_key(entries, k)
        },
{
    reveal(Seq::filter);
    assert(entries.push(e).drop_last() =~= entries);
}

/// Files each record under its key; of two records with one key the later stays.
pub fn index_by_key<T: Keyed>(entries: Vec<T>) -> (index: HashMap<u64, T>)
    ensures
        index@ == latest_by_key(entries@),
{
    let mut index: HashMap<u64, T> = HashMap::new();
    let ghost all = entries@;
    assert(index@ =~= latest_by_key(all.take(0))) by {
        reveal(Seq::filter);
    }
    for e in it: entries
        invariant
            it.seq() == all,
            index@ == latest_by_key(all.take(it.index() as int)),
    {
        let ghost before = all.take(it.index() as int);
        let k = e.key();
        proof {
            assert(all.take(it.index() + 1) =~= before.push(e));
            assert forall|j: u64| #[trigger]
                with_key(before.push(e), j) == if e.key_of() == j {
                    with_key(before, j).push(e)
                } else {
                    with_key(before, j)
                } by {
                lemma_with_key_push(before, e, j);
            }
        }
        index.insert(k, e);
    }
    assert(all.take(all.len() as int) =~= all);
    index
}

/// Files each record under its key, keeping the records of one key together
/// and in the order in which they came.
pub fn group_by_key<T: Keyed>(entries: Vec<T>) -> (groups: HashMap<u64, Vec<T>>)
    ensures
        group_views(groups@) == grouped_by_key(entries@),
{
    let mut groups: HashMap<u64, Vec<T>> = HashMap::new();
    let ghost all = entries@;
    assert(group_views(groups@) =~= grouped_by_key(all.take(0))) by {
        reveal(Seq::filter);
    }
    for e in it: entries
        invariant
            it.seq() == all,
            group_views(groups@) == grouped_by_key(all.take(it.index() as int)),
    {
        let ghost before = all.take(it.index() as int);
        let ghost old_groups = groups@;
        let k = e.key();
        let mut group = match groups.remove(&k) {
            Some(g) => g,
            None => Vec::new(),
        };
        group.push(e);
        groups.insert(k, group);
        proof {
            assert(all.take(it.index() + 1) =~= before.push(e));
            assert forall|j: u64| #[trigger]
                with_key(before.push(e), j) == if e.key_of() == j {
                    with_key(before, j).push(e)
                } else {
                    with_key(before, j)
                } by {
                lemma_with_key_push(before, e, j);
            }
            let ghost after = grouped_by_key(before.push(e));
            assert(groups@ == old_groups.remove(k).insert(k, group));
            assert forall|j: u64| group_views(groups@).contains_key(j) == after.contains_key(
                j,
            ) by {
                assert(old_groups.contains_key(j) == group_views(old_groups).contains_key(j));
            }
            assert forall|j: u64| #[trigger] group_views(groups@).contains_key(j) implies group_views(
                groups@,
            )[j] == after[j] by {
                assert(group_views(groups@)[j] == groups@[j]@);
                if j != k {
                    assert(group_views(old_groups)[j] == old_groups[j]@);
                }
            }
        }
    }
    assert(all.take(all.len() as int) =~= all);
    groups
}

/// The packages of `entries` that bear the name `name`, in their order.
pub open spec fn with_name(entries: Seq<Crate>, name: Seq<char>) -> Seq<Crate> {
    entries.filter(|c: Crate| c.name@ == name)
}

/// For each name that occurs in `entries`, the last package that bears it.
pub open spec fn latest_by_name(entries: Seq<Crate>) -> Map<Seq<char>, Crate> {
    Map::new(
        |name: Seq<char>| with_name(entries, name).len() > 0,
        |name: Seq<char>| with_name(entries, name).last(),
    )
}

/// One more package at the end only adds to the packages of its own name.
pub proof fn lemma_with_name_push(entries: Seq<Crate>, c: Crate, name: Seq<char>)
    ensures
        with_name(entries.push(c), name) == if c.name@ == name {
            with_name(entries, name).push(c)
        } else {
            with_name(entries, name)
        },
{
    reveal(Seq::filter);
    assert(entries.push(c).drop_last() =~= entries);
}

/// The packages of the registry, found by name.
///
/// No two of the packages held bear the same name.
pub struct CrateIndex {
    records: Vec<Crate>,
    by_name: StringHashMap<usize>,
}

/// Whether `by_name` gives, for each record, the place where it stands, and
/// nothing else.
pub open spec fn places_agree(records: Seq<Crate>, by_name: Map<Seq<char>, usize>) -> bool {
    &&& forall|i: int|
        0 <= i < records.len() ==> by_name.contains_key(#[trigger] records[i].name@)
            && by_name[records[i].name@] == i
    &&& forall|name: Seq<char>| #[trigger]
        by_name.contains_key(name) ==> by_name[name] < records.len()
            && records[by_name[name] as int].name@ == name
}

/// The map from names to packages that `records` and `by_name` stand for.
pub open spec fn named(records: Seq<Crate>, by_name: Map<Seq<char>, usize>) -> Map<
    Seq<char>,
    Crate,
> {
    Map::new(
        |name: Seq<char>| by_name.contains_key(name),
        |name: Seq<char>| records[by_name[name] as int],
    )
}

impl CrateIndex {
    /// Each package stands where the map of names says, and the map names
    /// nothing else.
    #[verifier::type_invariant]
    pub closed spec fn well_formed(self) -> bool {
        places_agree(self.records@, self.by_name@)
    }

    /// The package that each name stands for.
    pub closed spec fn view(&self) -> Map<Seq<char>, Crate> {
        named(self.records@, self.by_name@)
    }

    /// An index that holds each name of `entries` once; of two packages with
    /// one name the later stays.
    pub fn from_records(entries: Vec<Crate>) -> (index: CrateIndex)
        ensures
            index@ == latest_by_name(entries@),
    {
        let mut records: Vec<Crate> = Vec::new();
        let mut by_name: StringHashMap<usize> = StringHashMap::new();
        let ghost all = entries@;
        assert(named(records@, by_name@) =~= latest_by_name(all.take(0))) by {
            reveal(Seq::filter);
        }
        for c in it: entries
            invariant
                it.seq() == all,
                places_agree(records@, by_name@),
                named(records@, by_name@) == latest_by_name(all.take(it.index() as int)),
        {
            let ghost before = all.take(it.index() as int);
            let ghost old_records = records@;
            let ghost old_places = by_name@;
            let ghost name = c.name@;
            proof {
                assert(all.take(it.index() + 1) =~= before.push(c));
                assert forall|n: Seq<char>| #[trigger]
                    with_name(before.push(c), n) == if c.name@ == n {
                        with_name(before, n).push(c)
                    } else {
                        with_name(before, n)
                    } by {
                    lemma_with_name_push(before, c, n);
                }
                assert(forall|n: Seq<char>|
                    named(old_records, old_places).contains_key(n) == latest_by_name(
                        before,
                    ).contains_key(n));
            }
            let place = match by_name.get(c.name.as_str()) {
                Some(p) => Some(*p),
                None => None,
            };
            match place {
                Some(p) => {
                    records.set(p, c);
                },
                None => {
                    by_name.insert(c.name.clone(), records.len());
                    records.push(c);
                },
            }
            proof {
                let after = latest_by_name(before.push(c));
                let now = named(records@, by_name@);
                let then = named(old_records, old_places);
                assert forall|n: Seq<char>| n != name implies by_name@.contains_key(n)
                    == old_places.contains_key(n) && (old_places.contains_key(n) ==> by_name@[n]
                    == old_places[n] && records@[old_places[n] as int]
                    == old_records[old_places[n] as int]) by {}
                assert forall|n: Seq<char>| now.contains_key(n) == #[trigger] after.contains_key(
                    n,
                ) by {
                    if n != name {
                        assert(then.contains_key(n) == latest_by_name(before).contains_key(n));
                    }
                }
                assert forall|n: Seq<char>| now.contains_key(n) implies now[n] == #[trigger] after[n] by {
                    if n != name {
                        assert(then[n] == latest_by_name(before)[n]);
                    }
                }
            }
        }
        assert(all.take(all.len() as int) =~= all);
        CrateIndex { records, by_name }
    }

    /// The package that bears `name`, if one does.
    pub fn get(&self, name: &str) -> (r: Option<&Crate>)
        ensures
            match r {
                Some(c) => self@.contains_key(name@) && *c == self@[name@],
                None => !self@.contains_key(name@),
            },
    {
        proof {
            use_type_invariant(self);
        }
        match self.by_name.get(name) {
            Some(p) => Some(&self.records[*p]),
            None => None,
        }
    }

    /// The packages held: one for each name, and each the one that its name
    /// stands for.
    pub fn records(&self) -> (r: &Vec<Crate>)
        ensures
            names_distinct(r@),
            forall|i: int|
                0 <= i < r.len() ==> self@.contains_key(#[trigger] r[i].name@) && self@[r[i].name@]
                    == r[i],
            forall|name: Seq<char>| #[trigger]
                self@.contains_key(name) ==> exists|i: int|
                    0 <= i < r.len() && #[trigger] r[i].name@ == name,
    {
        proof {
            use_type_invariant(self);
            assert forall|name: Seq<char>| #[trigger] self@.contains_key(name) implies exists|i: int|
                0 <= i < self.records.len() && #[trigger] self.records[i].name@ == name by {
                assert(self.records[self.by_name@[name] as int].name@ == name);
            }
        }
        &self.records
    }
}

/// Whether no two packages of `records` bear one name.
pub open spec fn names_distinct(records: Seq<Crate>) -> bool {
    forall|i: int, j: int|
        0 <= i < records.len() && 0 <= j < records.len() && #[trigger] records[i].name@
            == #[trigger] records[j].name@ ==> i == j
}

} // verus!
