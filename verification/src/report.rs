//! The orders in which the reports list publishers and packages.

use vstd::prelude::*;
use vstd::utf8::encode_utf8;
use crate::publishers::{PublisherData, PublisherKind};
use vstd::string::StrSliceExecFns;
use crate::common::{
    crate_names_from_source, named_from, strictly_increasing, texts, ByName, PkgSource,
    SourcedPackage,
};
use crate::numbers::chars_of;
use crate::sorting::{
    lemma_lex_asymmetric, lemma_lex_not_after_transitive, sort, sorted, str_less, text_less, Order,
};

verus! {

/// Of two texts at most one comes before the other.
pub proof fn lemma_text_asymmetric(a: Seq<char>, b: Seq<char>)
    ensures
        text_less(a, b) ==> !text_less(b, a),
{
    lemma_lex_asymmetric(encode_utf8(a), encode_utf8(b));
}

/// Where neither `a` comes after `b` nor `b` after `c`, `a` does not come
/// after `c`.
pub proof fn lemma_text_not_after_transitive(a: Seq<char>, b: Seq<char>, c: Seq<char>)
    requires
        !text_less(b, a),
        !text_less(c, b),
    ensures
        !text_less(c, a),
{
    lemma_lex_not_after_transitive(encode_utf8(a), encode_utf8(b), encode_utf8(c));
}

/// A publisher with the packages that it may publish.
pub type PublisherCrates = (PublisherData, Vec<String>);

/// A package with the accounts that may publish it.
pub type CratePublishers = (String, Vec<PublisherData>);

/// The order of publishers for comparing reports: by login.
pub struct ByLogin;

impl Order<PublisherCrates> for ByLogin {
    open spec fn before(a: PublisherCrates, b: PublisherCrates) -> bool {
        text_less(a.0.login@, b.0.login@)
    }

    fn is_before(a: &PublisherCrates, b: &PublisherCrates) -> (r: bool) {
        str_less(a.0.login.as_str(), b.0.login.as_str())
    }

    proof fn lemma_asymmetric(a: PublisherCrates, b: PublisherCrates) {
        lemma_text_asymmetric(a.0.login@, b.0.login@);
    }

    proof fn lemma_not_after_transitive(a: PublisherCrates, b: PublisherCrates, c: PublisherCrates) {
        lemma_text_not_after_transitive(a.0.login@, b.0.login@, c.0.login@);
    }
}

/// The order of publishers for reading: who may publish more packages comes
/// first, and among those with as many, the login decides.
pub struct ByReach;

impl Order<PublisherCrates> for ByReach {
    open spec fn before(a: PublisherCrates, b: PublisherCrates) -> bool {
        a.1.len() > b.1.len() || (a.1.len() == b.1.len() && text_less(a.0.login@, b.0.login@))
    }

    fn is_before(a: &PublisherCrates, b: &PublisherCrates) -> (r: bool) {
        a.1.len() > b.1.len() || (a.1.len() == b.1.len() && str_less(
            a.0.login.as_str(),
            b.0.login.as_str(),
        ))
    }

    proof fn lemma_asymmetric(a: PublisherCrates, b: PublisherCrates) {
        lemma_text_asymmetric(a.0.login@, b.0.login@);
    }

    proof fn lemma_not_after_transitive(a: PublisherCrates, b: PublisherCrates, c: PublisherCrates) {
        if a.1.len() == b.1.len() && b.1.len() == c.1.len() {
            lemma_text_not_after_transitive(a.0.login@, b.0.login@, c.0.login@);
        }
    }
}

/// The order of the accounts of one package: groups before individuals,
/// and the login among each.
pub struct ByKindThenLogin;

/// The place of a kind of publisher in a list: groups first.
pub open spec fn kind_rank(kind: PublisherKind) -> int {
    match kind {
        PublisherKind::team => 0,
        PublisherKind::user => 1,
    }
}

/// The place of a kind of publisher in a list: groups first.
fn rank_of(kind: PublisherKind) -> (r: u8)
    ensures
        r == kind_rank(kind),
{
    match kind {
        PublisherKind::team => 0,
        PublisherKind::user => 1,
    }
}

impl Order<PublisherData> for ByKindThenLogin {
    open spec fn before(a: PublisherData, b: PublisherData) -> bool {
        kind_rank(a.kind) < kind_rank(b.kind) || (a.kind == b.kind && text_less(a.login@, b.login@))
    }

    fn is_before(a: &PublisherData, b: &PublisherData) -> (r: bool) {
        let ra: u8 = rank_of(a.kind);
        let rb: u8 = rank_of(b.kind);
        ra < rb || (ra == rb && str_less(a.login.as_str(), b.login.as_str()))
    }

    proof fn lemma_asymmetric(a: PublisherData, b: PublisherData) {
        lemma_text_asymmetric(a.login@, b.login@);
    }

    proof fn lemma_not_after_transitive(a: PublisherData, b: PublisherData, c: PublisherData) {
        if a.kind == b.kind && b.kind == c.kind {
            lemma_text_not_after_transitive(a.login@, b.login@, c.login@);
        }
    }
}

/// The order of accounts by their id.
pub struct ById;

impl Order<PublisherData> for ById {
    open spec fn before(a: PublisherData, b: PublisherData) -> bool {
        a.id < b.id
    }

    fn is_before(a: &PublisherData, b: &PublisherData) -> (r: bool) {
        a.id < b.id
    }

    proof fn lemma_asymmetric(a: PublisherData, b: PublisherData) {
    }

    proof fn lemma_not_after_transitive(a: PublisherData, b: PublisherData, c: PublisherData) {
    }
}

/// The order of packages for comparing reports: by name.
pub struct ByCrateName;

impl Order<CratePublishers> for ByCrateName {
    open spec fn before(a: CratePublishers, b: CratePublishers) -> bool {
        text_less(a.0@, b.0@)
    }

    fn is_before(a: &CratePublishers, b: &CratePublishers) -> (r: bool) {
        str_less(a.0.as_str(), b.0.as_str())
    }

    proof fn lemma_asymmetric(a: CratePublishers, b: CratePublishers) {
        lemma_text_asymmetric(a.0@, b.0@);
    }

    proof fn lemma_not_after_transitive(a: CratePublishers, b: CratePublishers, c: CratePublishers) {
        lemma_text_not_after_transitive(a.0@, b.0@, c.0@);
    }
}

/// Whether a group is among `publishers`.
pub open spec fn has_team(publishers: Seq<PublisherData>) -> bool {
    exists|i: int| 0 <= i < publishers.len() && (#[trigger] publishers[i]).kind == PublisherKind::team
}

/// Tells whether a group is among `publishers`.
pub fn any_team(publishers: &Vec<PublisherData>) -> (r: bool)
    ensures
        r == has_team(publishers@),
{
    let mut i: usize = 0;
    while i < publishers.len()
        invariant
            i <= publishers.len(),
            forall|k: int| 0 <= k < i ==> (#[trigger] publishers@[k]).kind != PublisherKind::team,
        decreases publishers.len() - i,
    {
        if publishers[i].kind == PublisherKind::team {
            return true;
        }
        i += 1;
    }
    false
}

/// The order of packages for reading: those that a group may publish come
/// first; among the rest, as among those, the package with more publishers
/// comes first, and the name decides among packages with as many.
pub struct ByExposure;

/// Where a package stands by its groups: before the others if it has one.
pub open spec fn team_rank(publishers: Seq<PublisherData>) -> int {
    if has_team(publishers) {
        0
    } else {
        1
    }
}

impl Order<CratePublishers> for ByExposure {
    open spec fn before(a: CratePublishers, b: CratePublishers) -> bool {
        team_rank(a.1@) < team_rank(b.1@) || (team_rank(a.1@) == team_rank(b.1@) && (a.1.len()
            > b.1.len() || (a.1.len() == b.1.len() && text_less(a.0@, b.0@))))
    }

    fn is_before(a: &CratePublishers, b: &CratePublishers) -> (r: bool) {
        let ta = any_team(&a.1);
        let tb = any_team(&b.1);
        if ta != tb {
            ta
        } else {
            a.1.len() > b.1.len() || (a.1.len() == b.1.len() && str_less(a.0.as_str(), b.0.as_str()))
        }
    }

    proof fn lemma_asymmetric(a: CratePublishers, b: CratePublishers) {
        lemma_text_asymmetric(a.0@, b.0@);
    }

    proof fn lemma_not_after_transitive(a: CratePublishers, b: CratePublishers, c: CratePublishers) {
        if team_rank(a.1@) == team_rank(b.1@) && team_rank(b.1@) == team_rank(c.1@) && a.1.len()
            == b.1.len() && b.1.len() == c.1.len() {
            lemma_text_not_after_transitive(a.0@, b.0@, c.0@);
        }
    }
}

/// Puts publishers in the order for reading: who may publish more packages
/// comes first, and among those with as many, the login decides.
pub fn sort_transposed_map_for_display(input: Vec<PublisherCrates>) -> (result: Vec<PublisherCrates>)
    ensures
        sorted::<PublisherCrates, ByReach>(result@),
        result@.to_multiset() == input@.to_multiset(),
{
    let mut result = input;
    sort::<PublisherCrates, ByReach>(&mut result);
    result
}

/// Puts publishers in the order for comparing reports: by login.
pub fn sort_transposed_map_for_diffing(input: Vec<PublisherCrates>) -> (result: Vec<PublisherCrates>)
    ensures
        sorted::<PublisherCrates, ByLogin>(result@),
        result@.to_multiset() == input@.to_multiset(),
{
    let mut result = input;
    sort::<PublisherCrates, ByLogin>(&mut result);
    result
}

/// A package and one of the accounts that may publish it.
pub type Mention = (String, PublisherData);

/// The accounts of one package, each with the package's name.
pub open spec fn mentions_in(entry: CratePublishers) -> Seq<Mention> {
    Seq::new(entry.1.len() as nat, |j: int| (entry.0, entry.1@[j]))
}

/// Every package of `input` with every account that may publish it, in the
/// order of `input`.
pub open spec fn mentions_of(input: Seq<CratePublishers>) -> Seq<Mention>
    decreases input.len(),
{
    if input.len() == 0 {
        Seq::empty()
    } else {
        mentions_of(input.drop_last()) + mentions_in(input.last())
    }
}

/// The mentions of the account `id`, in their order.
pub open spec fn mentions_by(mentions: Seq<Mention>, id: u64) -> Seq<Mention> {
    mentions.filter(|m: Mention| m.1.id == id)
}

/// The packages that the account `id` is mentioned with, in their order.
pub open spec fn crates_by(mentions: Seq<Mention>, id: u64) -> Seq<String> {
    mentions_by(mentions, id).map_values(|m: Mention| m.0)
}

/// Whether `out` lists the account `id`.
pub open spec fn lists(out: Seq<PublisherCrates>, id: u64) -> bool {
    exists|k: int| 0 <= k < out.len() && (#[trigger] out[k]).0.id == id
}

/// Whether `out` turns `mentions` round: it lists each account that is
/// mentioned once, in the order of ids, as the account's first mention
/// describes it, with the packages that it is mentioned with.
pub open spec fn transposes(out: Seq<PublisherCrates>, mentions: Seq<Mention>) -> bool {
    &&& forall|a: int, b: int| 0 <= a < b < out.len() ==> out[a].0.id < out[b].0.id
    &&& forall|k: int|
        0 <= k < out.len() ==> {
            &&& mentions_by(mentions, (#[trigger] out[k]).0.id).len() > 0
            &&& out[k].0 == mentions_by(mentions, out[k].0.id)[0].1
            &&& out[k].1@ == crates_by(mentions, out[k].0.id)
        }
    &&& forall|i: int| 0 <= i < mentions.len() ==> lists(out, (#[trigger] mentions[i]).1.id)
}

/// One more mention at the end adds to the mentions of its own account only.
pub proof fn lemma_mentions_push(mentions: Seq<Mention>, last: Mention, id: u64)
    ensures
        mentions_by(mentions.push(last), id) == if last.1.id == id {
            mentions_by(mentions, id).push(last)
        } else {
            mentions_by(mentions, id)
        },
        crates_by(mentions.push(last), id) == if last.1.id == id {
            crates_by(mentions, id).push(last.0)
        } else {
            crates_by(mentions, id)
        },
{
    reveal(Seq::filter);
    assert(mentions.push(last).drop_last() =~= mentions);
    if last.1.id == id {
        assert(mentions_by(mentions, id).push(last).map_values(|m: Mention| m.0) =~= crates_by(
            mentions,
            id,
        ).push(last.0));
    }
}

/// An account that no mention names has no mentions.
pub proof fn lemma_no_mentions(mentions: Seq<Mention>, id: u64)
    requires
        forall|i: int| 0 <= i < mentions.len() ==> (#[trigger] mentions[i]).1.id != id,
    ensures
        mentions_by(mentions, id).len() == 0,
    decreases mentions.len(),
{
    reveal(Seq::filter);
    if mentions.len() > 0 {
        let init = mentions.drop_last();
        assert forall|i: int| 0 <= i < init.len() implies (#[trigger] init[i]).1.id != id by {
            assert(init[i] == mentions[i]);
        }
        lemma_no_mentions(init, id);
    }
}

/// Takes one more mention into a list that turns the mentions before it
/// round.
fn add_mention(
    out: &mut Vec<PublisherCrates>,
    name: &String,
    publisher: &PublisherData,
    Ghost(mentions): Ghost<Seq<Mention>>,
)
    requires
        transposes(old(out)@, mentions),
    ensures
        transposes(final(out)@, mentions.push((*name, *publisher))),
{
    let id: u64 = publisher.id;
    let ghost before = out@;
    let ghost last: Mention = (*name, *publisher);
    let ghost grown = mentions.push(last);
    let mut k: usize = 0;
    let mut stop = false;
    while k < out.len() && !stop
        invariant
            k <= out.len(),
            out@ == before,
            forall|j: int| 0 <= j < k ==> (#[trigger] before[j]).0.id < id,
            stop ==> k < out.len() && before[k as int].0.id >= id,
        decreases out.len() - k + if stop { 0int } else { 1int },
    {
        if out[k].0.id < id {
            k += 1;
        } else {
            stop = true;
        }
    }
    proof {
        assert forall|other: u64|
            mentions_by(grown, other) == if id == other {
                mentions_by(mentions, other).push(last)
            } else {
                mentions_by(mentions, other)
            } && crates_by(grown, other) == if id == other {
                crates_by(mentions, other).push(last.0)
            } else {
                crates_by(mentions, other)
            } by {
            lemma_mentions_push(mentions, last, other);
        }
    }
    if stop && out[k].0.id == id {
        let (known, mut crates) = out.remove(k);
        crates.push(name.clone());
        out.insert(k, (known, crates));
        proof {
            let after = out@;
            before.remove_ensures(k as int);
            before.remove(k as int).insert_ensures(k as int, after[k as int]);
            assert forall|j: int| 0 <= j < after.len() implies (#[trigger] after[j]).0
                == before[j].0 && (j != k ==> after[j] == before[j]) by {}
            assert forall|j: int| 0 <= j < after.len() implies {
                &&& mentions_by(grown, (#[trigger] after[j]).0.id).len() > 0
                &&& after[j].0 == mentions_by(grown, after[j].0.id)[0].1
                &&& after[j].1@ == crates_by(grown, after[j].0.id)
            } by {
                if j != k {
                    assert(before[j].0.id != id);
                }
            }
            assert forall|i: int| 0 <= i < grown.len() implies lists(
                after,
                (#[trigger] grown[i]).1.id,
            ) by {
                if i < mentions.len() {
                    let w = choose|w: int|
                        0 <= w < before.len() && (#[trigger] before[w]).0.id == mentions[i].1.id;
                    assert(after[w].0.id == mentions[i].1.id);
                } else {
                    assert(after[k as int].0.id == id);
                }
            }
        }
    } else {
        let mut crates: Vec<String> = Vec::new();
        crates.push(name.clone());
        out.insert(k, (publisher.clone(), crates));
        proof {
            let after = out@;
            before.insert_ensures(k as int, after[k as int]);
            assert forall|j: int| 0 <= j < before.len() implies (#[trigger] before[j]).0.id
                != id by {}
            assert forall|i: int| 0 <= i < mentions.len() implies (#[trigger] mentions[i]).1.id
                != id by {
                assert(lists(before, mentions[i].1.id));
            }
            lemma_no_mentions(mentions, id);
            assert forall|j: int| 0 <= j < after.len() implies {
                &&& mentions_by(grown, (#[trigger] after[j]).0.id).len() > 0
                &&& after[j].0 == mentions_by(grown, after[j].0.id)[0].1
                &&& after[j].1@ == crates_by(grown, after[j].0.id)
            } by {}
            assert forall|i: int| 0 <= i < grown.len() implies lists(
                after,
                (#[trigger] grown[i]).1.id,
            ) by {
                if i < mentions.len() {
                    let w = choose|w: int|
                        0 <= w < before.len() && (#[trigger] before[w]).0.id == mentions[i].1.id;
                    if w < k {
                        assert(after[w].0.id == mentions[i].1.id);
                    } else {
                        assert(after[w + 1].0.id == mentions[i].1.id);
                    }
                } else {
                    assert(after[k as int].0.id == id);
                }
            }
        }
    }
}

/// Turns a list of packages with their publishers into a list of
/// publishers with their packages: each account once, in the order of ids,
/// as its first mention describes it, with the names of the packages that
/// it may publish in the order in which they came.
pub fn transpose_publishers_map(input: &Vec<CratePublishers>) -> (result: Vec<PublisherCrates>)
    ensures
        transposes(result@, mentions_of(input@)),
{
    let mut out: Vec<PublisherCrates> = Vec::new();
    let mut i: usize = 0;
    while i < input.len()
        invariant
            i <= input.len(),
            transposes(out@, mentions_of(input@.take(i as int))),
        decreases input.len() - i,
    {
        let entry = &input[i];
        let ghost done = mentions_of(input@.take(i as int));
        let mut j: usize = 0;
        while j < entry.1.len()
            invariant
                j <= entry.1.len(),
                transposes(out@, done + mentions_in(*entry).take(j as int)),
            decreases entry.1.len() - j,
        {
            let ghost so_far = done + mentions_in(*entry).take(j as int);
            add_mention(&mut out, &entry.0, &entry.1[j], Ghost(so_far));
            assert(so_far.push((entry.0, entry.1@[j as int])) =~= done + mentions_in(*entry).take(
                j + 1,
            ));
            j += 1;
        }
        proof {
            assert(mentions_in(*entry).take(entry.1.len() as int) =~= mentions_in(*entry));
            assert(input@.take(i + 1).drop_last() =~= input@.take(i as int));
        }
        i += 1;
    }
    assert(input@.take(input.len() as int) =~= input@);
    out
}

/// Puts the package names of every publisher in the order of names. The
/// publishers stay as they are and where they are.
pub fn sort_crate_names(list: Vec<PublisherCrates>) -> (result: Vec<PublisherCrates>)
    ensures
        result.len() == list.len(),
        forall|k: int|
            0 <= k < result.len() ==> {
                &&& (#[trigger] result@[k]).0 == list@[k].0
                &&& sorted::<String, ByName>(result@[k].1@)
                &&& result@[k].1@.to_multiset() == list@[k].1@.to_multiset()
            },
{
    let ghost all = list@;
    let mut result: Vec<PublisherCrates> = Vec::new();
    for entry in it: list
        invariant
            it.seq() == all,
            result.len() == it.index(),
            forall|k: int|
                0 <= k < result.len() ==> {
                    &&& (#[trigger] result@[k]).0 == all[k].0
                    &&& sorted::<String, ByName>(result@[k].1@)
                    &&& result@[k].1@.to_multiset() == all[k].1@.to_multiset()
                },
    {
        let (publisher, mut crates) = entry;
        sort::<String, ByName>(&mut crates);
        result.push((publisher, crates));
    }
    result
}

/// Where the first colon of `s` at or after `from` stands, or the length of
/// `s` if there is none.
pub open spec fn colon_from(s: Seq<char>, from: int) -> int
    decreases s.len() - from,
{
    if from >= s.len() {
        s.len() as int
    } else if s[from] == ':' {
        from
    } else {
        colon_from(s, from + 1)
    }
}

/// The organisation that a group's login names: what stands between
/// `github:` at its start and the next colon, or the end. A login that does
/// not start so names none.
pub open spec fn org_of(login: Seq<char>) -> Option<Seq<char>> {
    if login.len() >= 7 && login.take(7) == "github:"@ {
        Some(login.subrange(7, colon_from(login, 7)))
    } else {
        None
    }
}

/// Reads the organisation that a group's login names.
pub fn github_org(login: &str) -> (org: Option<String>)
    ensures
        org is Some <==> org_of(login@) is Some,
        org matches Some(name) ==> org_of(login@) == Some(name@),
{
    let chars = chars_of(login);
    proof {
        reveal_strlit("github:");
    }
    if !(chars.len() >= 7 && chars[0] == 'g' && chars[1] == 'i' && chars[2] == 't' && chars[3] == 'h'
        && chars[4] == 'u' && chars[5] == 'b' && chars[6] == ':') {
        proof {
            if login@.len() >= 7 && login@.take(7) == "github:"@ {
                assert(login@.take(7)[0] == 'g' && login@.take(7)[1] == 'i' && login@.take(7)[2]
                    == 't' && login@.take(7)[3] == 'h' && login@.take(7)[4] == 'u' && login@.take(
                    7,
                )[5] == 'b' && login@.take(7)[6] == ':');
            }
        }
        return None;
    }
    assert(login@.take(7) =~= "github:"@);
    let mut end: usize = 7;
    while end < chars.len() && chars[end] != ':'
        invariant
            7 <= end <= chars.len(),
            chars@ == login@,
            colon_from(login@, 7) == colon_from(login@, end as int),
        decreases chars.len() - end,
    {
        end += 1;
    }
    Some(login.substring_char(7, end).to_owned())
}

/// The report in its structured form: what was looked at, and what was not.
#[derive(Debug)]
pub struct StructuredOutput {
    not_audited: NotAudited,
    /// The packages of the public registry, each with the accounts that
    /// may publish it.
    crates_io_crates: Vec<CratePublishers>,
}

/// The packages that the report does not cover.
#[derive(Debug)]
pub struct NotAudited {
    /// Names of packages that come from the local filesystem, not from a
    /// registry.
    local_crates: Vec<String>,
    /// Names of packages that come neither from the public registry nor
    /// from the local filesystem.
    foreign_crates: Vec<String>,
}

impl NotAudited {
    /// The names of the local packages, in order.
    pub closed spec fn local(self) -> Seq<String> {
        self.local_crates@
    }

    /// The names of the foreign packages, in order.
    pub closed spec fn foreign(self) -> Seq<String> {
        self.foreign_crates@
    }

    /// The names of the local packages, in order.
    pub fn local_crates(&self) -> (r: &Vec<String>)
        ensures
            r@ == self.local(),
    {
        &self.local_crates
    }

    /// The names of the foreign packages, in order.
    pub fn foreign_crates(&self) -> (r: &Vec<String>)
        ensures
            r@ == self.foreign(),
    {
        &self.foreign_crates
    }
}

impl StructuredOutput {
    /// What the report does not cover.
    pub closed spec fn uncovered(self) -> NotAudited {
        self.not_audited
    }

    /// The packages of the public registry with their publishers.
    pub closed spec fn covered(self) -> Seq<CratePublishers> {
        self.crates_io_crates@
    }

    /// Puts the report together: the names of the local and of the foreign
    /// packages among `dependencies`, each once and in order, and the
    /// packages of `publishers` as they come, the accounts of each in the
    /// order of their ids.
    pub fn new(dependencies: &[SourcedPackage], publishers: Vec<CratePublishers>) -> (out: Self)
        ensures
            strictly_increasing(texts(out.uncovered().local())),
            forall|name: Seq<char>| #[trigger]
                texts(out.uncovered().local()).contains(name) <==> named_from(
                    dependencies@,
                    PkgSource::Local,
                    name,
                ),
            strictly_increasing(texts(out.uncovered().foreign())),
            forall|name: Seq<char>| #[trigger]
                texts(out.uncovered().foreign()).contains(name) <==> named_from(
                    dependencies@,
                    PkgSource::Foreign,
                    name,
                ),
            out.covered().len() == publishers.len(),
            forall|k: int|
                0 <= k < publishers.len() ==> {
                    &&& (#[trigger] out.covered()[k]).0 == publishers@[k].0
                    &&& sorted::<PublisherData, ById>(out.covered()[k].1@)
                    &&& out.covered()[k].1@.to_multiset() == publishers@[k].1@.to_multiset()
                },
    {
        let local_crates = crate_names_from_source(dependencies, PkgSource::Local);
        let foreign_crates = crate_names_from_source(dependencies, PkgSource::Foreign);
        let ghost all = publishers@;
        let mut crates_io_crates: Vec<CratePublishers> = Vec::new();
        for entry in it: publishers
            invariant
                it.seq() == all,
                crates_io_crates.len() == it.index(),
                forall|k: int|
                    0 <= k < crates_io_crates.len() ==> {
                        &&& (#[trigger] crates_io_crates@[k]).0 == all[k].0
                        &&& sorted::<PublisherData, ById>(crates_io_crates@[k].1@)
                        &&& crates_io_crates@[k].1@.to_multiset() == all[k].1@.to_multiset()
                    },
        {
            let (name, mut accounts) = entry;
            sort::<PublisherData, ById>(&mut accounts);
            crates_io_crates.push((name, accounts));
        }
        StructuredOutput { not_audited: NotAudited { local_crates, foreign_crates }, crates_io_crates }
    }

    /// What the report does not cover.
    pub fn not_audited(&self) -> (r: &NotAudited)
        ensures
            *r == self.uncovered(),
    {
        &self.not_audited
    }

    /// The packages of the public registry with their publishers.
    pub fn crates_io_crates(&self) -> (r: &Vec<CratePublishers>)
        ensures
            r@ == self.covered(),
    {
        &self.crates_io_crates
    }
}

} // verus!
