//! The order of `String`s and sorting by it.
//!
//! `String`'s `Ord` compares the UTF-8 bytes lexicographically, which orders
//! strings as their sequences of Unicode scalar values compare lexicographically;
//! `text_le` states that order over `Seq<char>`.
use vstd::prelude::*;
use vstd::relations::{sorted_by, total_ordering};
use crate::text::{chars_of, views};

verus! {

/// `a` sorts no later than `b`: lexicographic order on code points, a proper
/// prefix first.
pub open spec fn text_le(a: Seq<char>, b: Seq<char>) -> bool
    decreases a.len(),
{
    if a.len() == 0 {
        true
    } else if b.len() == 0 {
        false
    } else if a[0] != b[0] {
        (a[0] as int) < (b[0] as int)
    } else {
        text_le(a.drop_first(), b.drop_first())
    }
}

/// `text_le` as a relation value.
pub open spec fn text_leq() -> spec_fn(Seq<char>, Seq<char>) -> bool {
    |a: Seq<char>, b: Seq<char>| text_le(a, b)
}

/// The strings in ascending order (what `sort` leaves in a `Vec<String>`).
pub open spec fn sorted_texts(s: Seq<Seq<char>>) -> Seq<Seq<char>> {
    s.sort_by(text_leq())
}

proof fn lemma_text_le_reflexive(a: Seq<char>)
    ensures
        text_le(a, a),
    decreases a.len(),
{
    if a.len() > 0 {
        lemma_text_le_reflexive(a.drop_first());
    }
}

proof fn lemma_text_le_antisymmetric(a: Seq<char>, b: Seq<char>)
    requires
        text_le(a, b),
        text_le(b, a),
    ensures
        a == b,
    decreases a.len(),
{
    if a.len() == 0 {
        assert(b.len() == 0);
        assert(a =~= b);
    } else {
        assert(b.len() > 0);
        assert(a[0] == b[0]);
        lemma_text_le_antisymmetric(a.drop_first(), b.drop_first());
        assert(a =~= seq![a[0]] + a.drop_first());
        assert(b =~= seq![b[0]] + b.drop_first());
    }
}

proof fn lemma_text_le_transitive(a: Seq<char>, b: Seq<char>, c: Seq<char>)
    requires
        text_le(a, b),
        text_le(b, c),
    ensures
        text_le(a, c),
    decreases a.len(),
{
    if a.len() > 0 && b.len() > 0 && c.len() > 0 && a[0] == b[0] && b[0] == c[0] {
        lemma_text_le_transitive(a.drop_first(), b.drop_first(), c.drop_first());
    }
}

proof fn lemma_text_le_total(a: Seq<char>, b: Seq<char>)
    ensures
        text_le(a, b) || text_le(b, a),
    decreases a.len(),
{
    if a.len() > 0 && b.len() > 0 && a[0] == b[0] {
        lemma_text_le_total(a.drop_first(), b.drop_first());
    }
}

/// `text_le` is a total order.
pub proof fn lemma_text_total_ordering()
    ensures
        total_ordering(text_leq()),
{
    assert forall|a: Seq<char>| #[trigger] text_leq()(a, a) by {
        lemma_text_le_reflexive(a);
    }
    assert forall|a: Seq<char>, b: Seq<char>| #[trigger] text_leq()(a, b) && #[trigger] text_leq()(b, a) implies a == b by {
        lemma_text_le_antisymmetric(a, b);
    }
    assert forall|a: Seq<char>, b: Seq<char>, c: Seq<char>| #[trigger] text_leq()(a, b) && #[trigger] text_leq()(b, c) implies text_leq()(a, c) by {
        lemma_text_le_transitive(a, b, c);
    }
    assert forall|a: Seq<char>, b: Seq<char>| #[trigger] text_leq()(a, b) || #[trigger] text_leq()(b, a) by {
        lemma_text_le_total(a, b);
    }
}

/// Compares two texts by `text_le`.
pub fn chars_le(a: &Vec<char>, b: &Vec<char>) -> (r: bool)
    ensures
        r == text_le(a@, b@),
{
    let mut i: usize = 0;
    assert(a@.skip(0) =~= a@);
    assert(b@.skip(0) =~= b@);
    while i < a.len() && i < b.len()
        invariant
            i <= a.len(),
            i <= b.len(),
            text_le(a@, b@) == text_le(a@.skip(i as int), b@.skip(i as int)),
        decreases a.len() - i,
    {
        if a[i] != b[i] {
            return a[i] < b[i];
        }
        proof {
            assert(a@.skip(i as int).drop_first() =~= a@.skip(i + 1));
            assert(b@.skip(i as int).drop_first() =~= b@.skip(i + 1));
        }
        i += 1;
    }
    i == a.len()
}

proof fn lemma_insert_to_multiset<A>(s: Seq<A>, j: int, x: A)
    requires
        0 <= j <= s.len(),
    ensures
        s.insert(j, x).to_multiset() =~= s.to_multiset().insert(x),
{
    broadcast use vstd::seq_lib::group_to_multiset_ensures;
    broadcast use vstd::multiset::group_multiset_axioms;
    let t = s.insert(j, x);
    assert(t.remove(j) =~= s);
    assert(t[j] == x);
    assert(t.to_multiset().count(x) > 0) by {
        assert(t.contains(x));
    }
}

proof fn lemma_insert_keeps_sorted(s: Seq<Seq<char>>, j: int, x: Seq<char>)
    requires
        total_ordering(text_leq()),
        sorted_by(s, text_leq()),
        0 <= j <= s.len(),
        forall|k: int| 0 <= k < j ==> !text_le(x, #[trigger] s[k]),
        j < s.len() ==> text_le(x, s[j]),
    ensures
        sorted_by(s.insert(j, x), text_leq()),
{
    let leq = text_leq();
    let t = s.insert(j, x);
    assert forall|a: int, b: int| 0 <= a < b < t.len() implies #[trigger] leq(t[a], t[b]) by {
        if b < j {
            assert(leq(s[a], s[b]));
        } else if b == j {
            lemma_text_le_total(x, s[a]);
        } else if a < j {
            assert(leq(s[a], s[b - 1]));
        } else if a == j {
            if b > j + 1 {
                assert(leq(s[j], s[b - 1]));
                lemma_text_le_transitive(x, s[j], s[b - 1]);
            }
        } else {
            assert(leq(s[a - 1], s[b - 1]));
        }
    }
}

/// A sorted copy of `v`, in the order that `sort` gives a `Vec<String>`.
pub fn sort_strings(v: &[String]) -> (out: Vec<String>)
    ensures
        views(out@) == sorted_texts(views(v@)),
{
    proof {
        lemma_text_total_ordering();
    }
    let ghost leq = text_leq();
    let mut out: Vec<String> = Vec::new();
    let mut keys: Vec<Vec<char>> = Vec::new();
    let mut i: usize = 0;
    assert(views(out@).to_multiset() =~= views(v@.subrange(0, 0)).to_multiset()) by {
        assert(views(out@) =~= views(v@.subrange(0, 0)));
    }
    while i < v.len()
        invariant
            leq == text_leq(),
            total_ordering(leq),
            i <= v.len(),
            out.len() == keys.len(),
            forall|k: int| 0 <= k < keys.len() ==> (#[trigger] keys@[k])@ == out@[k]@,
            sorted_by(views(out@), leq),
            views(out@).to_multiset() == views(v@.subrange(0, i as int)).to_multiset(),
        decreases v.len() - i,
    {
        let x = chars_of(v[i].as_str());
        let ghost before = views(out@);
        let mut j: usize = 0;
        loop
            invariant_except_break
                j <= keys.len(),
                forall|k: int| 0 <= k < j ==> !text_le(x@, #[trigger] before[k]),
            invariant
                before == views(out@),
                out.len() == keys.len(),
                forall|k: int| 0 <= k < keys.len() ==> (#[trigger] keys@[k])@ == out@[k]@,
            ensures
                j <= keys.len(),
                forall|k: int| 0 <= k < j ==> !text_le(x@, #[trigger] before[k]),
                j < keys.len() ==> text_le(x@, before[j as int]),
            decreases keys.len() - j,
        {
            if j == keys.len() {
                break;
            }
            if chars_le(&x, &keys[j]) {
                assert(keys@[j as int]@ == before[j as int]);
                break;
            }
            assert(keys@[j as int]@ == before[j as int]);
            j += 1;
        }
        let item = v[i].clone();
        let ghost keys_before = keys@;
        let ghost out_before = out@;
        out.insert(j, item);
        keys.insert(j, x);
        proof {
            assert(views(out@) =~= before.insert(j as int, v@[i as int]@));
            lemma_insert_keeps_sorted(before, j as int, v@[i as int]@);
            assert forall|k: int| 0 <= k < keys.len() implies (#[trigger] keys@[k])@ == out@[k]@ by {
                if k < j {
                } else if k == j {
                } else {
                    assert(keys@[k] == keys_before[k - 1]);
                    assert(out@[k] == out_before[k - 1]);
                }
            }
            lemma_insert_to_multiset(before, j as int, v@[i as int]@);
            assert(views(v@.subrange(0, i + 1)) =~= views(v@.subrange(0, i as int)).push(v@[i as int]@));
            vstd::seq_lib::to_multiset_build(views(v@.subrange(0, i as int)), v@[i as int]@);
        }
        i += 1;
    }
    proof {
        assert(v@.subrange(0, v.len() as int) =~= v@);
        views(v@).lemma_sort_by_ensures(leq);
        vstd::seq_lib::lemma_sorted_unique(views(out@), views(v@).sort_by(leq), leq);
    }
    out
}

/// Sorting keeps every text and leaves them in ascending order.
pub proof fn lemma_sorted_texts_sorted_permutation(s: Seq<Seq<char>>)
    ensures
        sorted_by(sorted_texts(s), text_leq()),
        sorted_texts(s).to_multiset() == s.to_multiset(),
{
    lemma_text_total_ordering();
    s.lemma_sort_by_ensures(text_leq());
}

/// Sorting forgets the order it was given: two sequences holding the same texts
/// (counted with multiplicity) sort to the same sequence.
pub proof fn lemma_sorted_texts_order_independent(a: Seq<Seq<char>>, b: Seq<Seq<char>>)
    requires
        a.to_multiset() == b.to_multiset(),
    ensures
        sorted_texts(a) == sorted_texts(b),
{
    lemma_text_total_ordering();
    a.lemma_sort_by_ensures(text_leq());
    b.lemma_sort_by_ensures(text_leq());
    vstd::seq_lib::lemma_sorted_unique(sorted_texts(a), sorted_texts(b), text_leq());
}

} // verus!
