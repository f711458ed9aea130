//! Putting lists in order: texts by their bytes, and anything else by a
//! rule that says which of two items comes first.

use vstd::prelude::*;
use vstd::utf8::encode_utf8;

verus! {

/// Whether `a` comes before `b` when the two are held against each other
/// byte by byte: at the first place where they differ the smaller byte
/// decides, and where one ends there, the shorter comes first.
pub open spec fn lex_less(a: Seq<u8>, b: Seq<u8>) -> bool
    decreases a.len(),
{
    if b.len() == 0 {
        false
    } else if a.len() == 0 {
        true
    } else if a[0] == b[0] {
        lex_less(a.skip(1), b.skip(1))
    } else {
        a[0] < b[0]
    }
}

/// Of two byte strings at most one comes before the other.
pub proof fn lemma_lex_asymmetric(a: Seq<u8>, b: Seq<u8>)
    ensures
        lex_less(a, b) ==> !lex_less(b, a),
    decreases a.len(),
{
    if a.len() > 0 && b.len() > 0 && a[0] == b[0] {
        lemma_lex_asymmetric(a.skip(1), b.skip(1));
    }
}

/// What comes before something that comes before a third comes before the
/// third.
pub proof fn lemma_lex_transitive(a: Seq<u8>, b: Seq<u8>, c: Seq<u8>)
    requires
        lex_less(a, b),
        lex_less(b, c),
    ensures
        lex_less(a, c),
    decreases a.len(),
{
    if a.len() > 0 && b.len() > 0 && c.len() > 0 && a[0] == b[0] && b[0] == c[0] {
        lemma_lex_transitive(a.skip(1), b.skip(1), c.skip(1));
    }
}

/// Of two byte strings that differ one comes before the other.
pub proof fn lemma_lex_total(a: Seq<u8>, b: Seq<u8>)
    ensures
        lex_less(a, b) || a == b || lex_less(b, a),
    decreases a.len(),
{
    if a.len() > 0 && b.len() > 0 && a[0] == b[0] {
        lemma_lex_total(a.skip(1), b.skip(1));
        if a.skip(1) == b.skip(1) {
            assert(a =~= seq![a[0]] + a.skip(1));
        }
    }
}

/// Where neither `a` comes after `b` nor `b` after `c`, `a` does not come
/// after `c`.
pub proof fn lemma_lex_not_after_transitive(a: Seq<u8>, b: Seq<u8>, c: Seq<u8>)
    requires
        !lex_less(b, a),
        !lex_less(c, b),
    ensures
        !lex_less(c, a),
{
    lemma_lex_total(a, b);
    lemma_lex_total(b, c);
    lemma_lex_asymmetric(a, c);
    lemma_lex_asymmetric(a, a);
    if lex_less(a, b) && lex_less(b, c) {
        lemma_lex_transitive(a, b, c);
    }
}

/// Whether the bytes `a` come before the bytes `b`.
pub fn bytes_less(a: &[u8], b: &[u8]) -> (r: bool)
    ensures
        r == lex_less(a@, b@),
{
    let mut i: usize = 0;
    assert(a@.skip(0) =~= a@ && b@.skip(0) =~= b@);
    while i < a.len() && i < b.len()
        invariant
            i <= a.len(),
            i <= b.len(),
            lex_less(a@, b@) == lex_less(a@.skip(i as int), b@.skip(i as int)),
        decreases a.len() - i,
    {
        if a[i] != b[i] {
            return a[i] < b[i];
        }
        assert(a@.skip(i as int).skip(1) =~= a@.skip(i + 1));
        assert(b@.skip(i as int).skip(1) =~= b@.skip(i + 1));
        i += 1;
    }
    i < b.len()
}

/// Whether the text `a` comes before the text `b`: by the bytes of their
/// UTF-8 encodings, as strings are ordered.
pub open spec fn text_less(a: Seq<char>, b: Seq<char>) -> bool {
    lex_less(encode_utf8(a), encode_utf8(b))
}

/// Two texts of which neither comes before the other are the same text.
pub proof fn lemma_text_neither_less_means_same(a: Seq<char>, b: Seq<char>)
    requires
        !text_less(a, b),
        !text_less(b, a),
    ensures
        a == b,
{
    lemma_lex_total(encode_utf8(a), encode_utf8(b));
    vstd::utf8::encode_utf8_decode_utf8(a);
    vstd::utf8::encode_utf8_decode_utf8(b);
}

/// Whether the text `a` comes before the text `b`.
pub fn str_less(a: &str, b: &str) -> (r: bool)
    ensures
        r == text_less(a@, b@),
{
    bytes_less(a.as_bytes(), b.as_bytes())
}

/// A rule that says which of two items comes first.
pub trait Order<T> {
    /// Whether `a` comes strictly before `b`.
    spec fn before(a: T, b: T) -> bool;

    /// Whether `a` comes strictly before `b`.
    fn is_before(a: &T, b: &T) -> (r: bool)
        ensures
            r == Self::before(*a, *b),
    ;

    /// Of two items at most one comes before the other.
    proof fn lemma_asymmetric(a: T, b: T)
        ensures
            Self::before(a, b) ==> !Self::before(b, a),
    ;

    /// Where neither `a` comes after `b` nor `b` after `c`, `a` does not
    /// come after `c`.
    proof fn lemma_not_after_transitive(a: T, b: T, c: T)
        requires
            !Self::before(b, a),
            !Self::before(c, b),
        ensures
            !Self::before(c, a),
    ;
}

/// Whether no item of `s` stands behind one that it comes before.
pub open spec fn sorted<T, O: Order<T>>(s: Seq<T>) -> bool {
    forall|i: int, j: int| 0 <= i < j < s.len() ==> !O::before(s[j], s[i])
}

/// Puts the items of `list` in order: afterwards no item stands behind one
/// that it comes before, and the items are those that were there.
pub fn sort<T, O: Order<T>>(list: &mut Vec<T>)
    ensures
        sorted::<T, O>(final(list)@),
        final(list)@.to_multiset() == old(list)@.to_multiset(),
{
    let ghost given = list@;
    if list.len() < 2 {
        return ;
    }
    let mut i: usize = 1;
    while i < list.len()
        invariant
            1 <= i <= list.len(),
            sorted::<T, O>(list@.take(i as int)),
            list@.to_multiset() == given.to_multiset(),
        decreases list.len() - i,
    {
        let ghost before_step = list@;
        let mut p: usize = 0;
        let mut found = false;
        while p < i && !found
            invariant
                p <= i < list.len(),
                list@ == before_step,
                found ==> p < i && O::before(list@[i as int], list@[p as int]),
                forall|k: int| 0 <= k < p ==> !O::before(list@[i as int], list@[k]),
            decreases i - p + if found { 0int } else { 1int },
        {
            if O::is_before(&list[i], &list[p]) {
                found = true;
            } else {
                p += 1;
            }
        }
        if found {
            let ghost x = list@[i as int];
            let item = list.remove(i);
            list.insert(p, item);
            proof {
                let s = before_step;
                let t = list@;
                s.remove(i as int).insert_ensures(p as int, x);
                s.remove_ensures(i as int);
                let u = t.take(i + 1);
                assert forall|a: int, b: int| 0 <= a < b < u.len() implies !O::before(
                    u[b],
                    u[a],
                ) by {
                    if a == p {
                        O::lemma_asymmetric(x, s[p as int]);
                        if b - 1 > p {
                            let w = s.take(i as int);
                            assert(!O::before(w[b - 1], w[p as int]));
                        } else {
                            O::lemma_asymmetric(s[p as int], s[p as int]);
                        }
                        O::lemma_not_after_transitive(x, s[p as int], s[b - 1]);
                    } else if a > p {
                        let w = s.take(i as int);
                        assert(!O::before(w[b - 1], w[a - 1]));
                    }
                }
                assert(t.remove(p as int) =~= s.remove(i as int));
                vstd::seq_lib::to_multiset_remove(t, p as int);
                vstd::seq_lib::to_multiset_remove(s, i as int);
                t.to_multiset_ensures();
                s.to_multiset_ensures();
                assert(t.contains(x) && s.contains(x));
                assert(t.to_multiset() =~= t.to_multiset().remove(x).insert(x));
            }
        } else {
            proof {
                let u = list@.take(i + 1);
                assert forall|a: int, b: int| 0 <= a < b < u.len() implies !O::before(
                    u[b],
                    u[a],
                ) by {
                    if b < i {
                        let w = list@.take(i as int);
                        assert(!O::before(w[b], w[a]));
                    }
                }
            }
        }
        i += 1;
    }
    assert(list@.take(list.len() as int) =~= list@);
}

} // verus!
