//! Sorting: the sorted arrangement of a collection under a total order is
//! unique, and insertion keeps a sequence sorted.

use vstd::prelude::*;
use vstd::relations::{sorted_by, total_ordering};

verus! {

broadcast use vstd::seq_lib::group_to_multiset_ensures;

/// The sorted arrangement of a collection is unique: two sequences sorted by
/// the same total order and holding the same elements (with multiplicity)
/// are equal.
pub proof fn lemma_sorted_arrangement_unique<A>(s1: Seq<A>, s2: Seq<A>, leq: spec_fn(A, A) -> bool)
    requires
        total_ordering(leq),
        sorted_by(s1, leq),
        sorted_by(s2, leq),
        s1.to_multiset() == s2.to_multiset(),
    ensures
        s1 == s2,
    decreases s1.len(),
{
    assert(s1.to_multiset().len() == s1.len());
    assert(s2.to_multiset().len() == s2.len());
    if s1.len() == 0 {
        assert(s1 =~= s2);
    } else {
        let m1 = s1[0];
        let m2 = s2[0];
        assert(s1.contains(m1));
        assert(s2.to_multiset().count(m1) > 0);
        assert(s2.contains(m1));
        let j = choose|j: int| 0 <= j < s2.len() && s2[j] == m1;
        assert(s1.to_multiset().count(m2) > 0);
        assert(s1.contains(m2));
        let i = choose|i: int| 0 <= i < s1.len() && s1[i] == m2;
        if j > 0 {
            assert(leq(s2[0], s2[j]));
        } else {
            assert(leq(m2, m1));
        }
        if i > 0 {
            assert(leq(s1[0], s1[i]));
        } else {
            assert(leq(m1, m2));
        }
        assert(m1 == m2);
        let t1 = s1.drop_first();
        let t2 = s2.drop_first();
        assert(t1 =~= s1.remove(0));
        assert(t2 =~= s2.remove(0));
        assert(t1.to_multiset() == s1.to_multiset().remove(m1));
        assert(t2.to_multiset() == s2.to_multiset().remove(m2));
        assert forall|a: int, b: int| 0 <= a < b < t1.len() implies #[trigger] leq(t1[a], t1[b]) by {
            assert(leq(s1[a + 1], s1[b + 1]));
        }
        assert forall|a: int, b: int| 0 <= a < b < t2.len() implies #[trigger] leq(t2[a], t2[b]) by {
            assert(leq(s2[a + 1], s2[b + 1]));
        }
        lemma_sorted_arrangement_unique(t1, t2, leq);
        assert forall|k: int| 0 <= k < s1.len() implies s1[k] == s2[k] by {
            if k > 0 {
                assert(s1[k] == t1[k - 1]);
                assert(s2[k] == t2[k - 1]);
            }
        }
        assert(s1 =~= s2);
    }
}

/// Inserting `x` where the elements at or below it end keeps a sorted
/// sequence sorted, and adds exactly `x` to its elements.
pub proof fn lemma_insert_sorted<A>(s: Seq<A>, pos: int, x: A, leq: spec_fn(A, A) -> bool)
    requires
        total_ordering(leq),
        sorted_by(s, leq),
        0 <= pos <= s.len(),
        forall|i: int| 0 <= i < pos ==> #[trigger] leq(s[i], x),
        pos < s.len() ==> !leq(s[pos], x),
    ensures
        sorted_by(s.insert(pos, x), leq),
        s.insert(pos, x).to_multiset() == s.to_multiset().insert(x),
{
    let r = s.insert(pos, x);
    s.insert_ensures(pos, x);
    if pos < s.len() {
        assert(leq(x, s[pos]));
    }
    assert forall|a: int, b: int| 0 <= a < b < r.len() implies #[trigger] leq(r[a], r[b]) by {
        if b < pos {
            assert(leq(s[a], s[b]));
        } else if b == pos {
            assert(leq(s[a], x));
        } else if a < pos {
            assert(leq(s[a], x));
            assert(leq(x, s[pos]));
            if b - 1 > pos {
                assert(leq(s[pos], s[b - 1]));
            }
            assert(leq(x, s[b - 1]));
        } else if a == pos {
            assert(leq(x, s[pos]));
            if b - 1 > pos {
                assert(leq(s[pos], s[b - 1]));
            }
        } else {
            assert(leq(s[a - 1], s[b - 1]));
        }
    }
    let pre = s.subrange(0, pos);
    let post = s.subrange(pos, s.len() as int);
    assert(s =~= pre + post);
    assert(r =~= pre.push(x) + post);
    vstd::seq_lib::lemma_multiset_commutative(pre, post);
    vstd::seq_lib::lemma_multiset_commutative(pre.push(x), post);
    assert(r.to_multiset() =~= s.to_multiset().insert(x));
}

/// The ascending order on `i64`.
pub open spec fn i64_le() -> spec_fn(i64, i64) -> bool {
    |x: i64, y: i64| x <= y
}

/// `v` sorted in ascending order.
pub fn sort_i64(v: &Vec<i64>) -> (r: Vec<i64>)
    ensures
        r@ == v@.sort_by(i64_le()),
{
    let ghost leq = i64_le();
    assert(total_ordering(leq));
    let mut r: Vec<i64> = Vec::new();
    let mut k: usize = 0;
    while k < v.len()
        invariant
            leq == i64_le(),
            total_ordering(leq),
            0 <= k <= v@.len(),
            sorted_by(r@, leq),
            r@.to_multiset() == v@.take(k as int).to_multiset(),
        decreases v@.len() - k,
    {
        let x = v[k];
        let mut pos: usize = 0;
        while pos < r.len() && r[pos] <= x
            invariant
                leq == i64_le(),
                0 <= pos <= r@.len(),
                forall|i: int| 0 <= i < pos ==> #[trigger] leq(r@[i], x),
            decreases r@.len() - pos,
        {
            pos = pos + 1;
        }
        proof {
            lemma_insert_sorted(r@, pos as int, x, leq);
            assert(v@.take(k + 1) =~= v@.take(k as int).push(x));
        }
        r.insert(pos, x);
        k = k + 1;
    }
    proof {
        assert(v@.take(v@.len() as int) =~= v@);
        v@.lemma_sort_by_ensures(leq);
        lemma_sorted_arrangement_unique(r@, v@.sort_by(leq), leq);
    }
    r
}


/// Lexicographic order on character sequences, comparing code points. On
/// strings this is the order std's `Ord for String` uses, since UTF-8 keeps
/// code point order byte by byte.
pub open spec fn chars_le(a: Seq<char>, b: Seq<char>) -> bool
    decreases a.len(),
{
    if a.len() == 0 {
        true
    } else if b.len() == 0 {
        false
    } else if (a[0] as int) < (b[0] as int) {
        true
    } else if (a[0] as int) > (b[0] as int) {
        false
    } else {
        chars_le(a.drop_first(), b.drop_first())
    }
}

/// [`chars_le`] as a relation.
pub open spec fn lex_le() -> spec_fn(Seq<char>, Seq<char>) -> bool {
    |a: Seq<char>, b: Seq<char>| chars_le(a, b)
}

proof fn lemma_chars_le_reflexive(a: Seq<char>)
    ensures
        chars_le(a, a),
    decreases a.len(),
{
    if a.len() > 0 {
        lemma_chars_le_reflexive(a.drop_first());
    }
}

proof fn lemma_chars_le_antisymmetric(a: Seq<char>, b: Seq<char>)
    requires
        chars_le(a, b),
        chars_le(b, a),
    ensures
        a == b,
    decreases a.len(),
{
    if a.len() > 0 && b.len() > 0 {
        lemma_chars_le_antisymmetric(a.drop_first(), b.drop_first());
        assert(a[0] as int == b[0] as int);
        assert(a[0] == b[0]);
        assert(a =~= seq![a[0]] + a.drop_first());
        assert(b =~= seq![b[0]] + b.drop_first());
    } else {
        assert(a.len() == 0 && b.len() == 0);
        assert(a =~= b);
    }
}

proof fn lemma_chars_le_transitive(a: Seq<char>, b: Seq<char>, c: Seq<char>)
    requires
        chars_le(a, b),
        chars_le(b, c),
    ensures
        chars_le(a, c),
    decreases a.len(),
{
    if a.len() > 0 && b.len() > 0 && c.len() > 0 {
        if a[0] == b[0] && b[0] == c[0] {
            lemma_chars_le_transitive(a.drop_first(), b.drop_first(), c.drop_first());
        }
    }
}

proof fn lemma_chars_le_total(a: Seq<char>, b: Seq<char>)
    ensures
        chars_le(a, b) || chars_le(b, a),
    decreases a.len(),
{
    if a.len() > 0 && b.len() > 0 {
        lemma_chars_le_total(a.drop_first(), b.drop_first());
    }
}

/// The lexicographic order on character sequences is a total order.
pub proof fn lemma_lex_total_ordering()
    ensures
        total_ordering(lex_le()),
{
    let r = lex_le();
    assert forall|x: Seq<char>| #[trigger] r(x, x) by {
        lemma_chars_le_reflexive(x);
    }
    assert forall|x: Seq<char>, y: Seq<char>| #[trigger] r(x, y) && #[trigger] r(y, x) implies x
        == y by {
        lemma_chars_le_antisymmetric(x, y);
    }
    assert forall|x: Seq<char>, y: Seq<char>, z: Seq<char>| #[trigger] r(x, y) && #[trigger] r(
        y,
        z,
    ) implies r(x, z) by {
        lemma_chars_le_transitive(x, y, z);
    }
    assert forall|x: Seq<char>, y: Seq<char>| #[trigger] r(x, y) || #[trigger] r(y, x) by {
        lemma_chars_le_total(x, y);
    }
}

/// Whether `a` comes no later than `b` in the lexicographic order.
pub fn str_le(a: &str, b: &str) -> (r: bool)
    ensures
        r == chars_le(a@, b@),
{
    let x = crate::text::chars_of(a);
    let y = crate::text::chars_of(b);
    let mut i: usize = 0;
    assert(a@.skip(0) =~= a@);
    assert(b@.skip(0) =~= b@);
    while i < x.len() && i < y.len() && x[i] == y[i]
        invariant
            0 <= i <= x@.len(),
            i <= y@.len(),
            x@ == a@,
            y@ == b@,
            forall|j: int| 0 <= j < i ==> x@[j] == y@[j],
            chars_le(a@, b@) == chars_le(a@.skip(i as int), b@.skip(i as int)),
        decreases x@.len() - i,
    {
        proof {
            assert(a@.skip(i as int).drop_first() =~= a@.skip(i + 1));
            assert(b@.skip(i as int).drop_first() =~= b@.skip(i + 1));
        }
        i = i + 1;
    }
    if i == x.len() {
        assert(a@.skip(i as int).len() == 0);
        true
    } else if i == y.len() {
        assert(b@.skip(i as int).len() == 0);
        false
    } else {
        assert(a@.skip(i as int)[0] == x@[i as int]);
        assert(b@.skip(i as int)[0] == y@[i as int]);
        x[i] < y[i]
    }
}

/// The characters of each string.
pub open spec fn string_views(s: Seq<String>) -> Seq<Seq<char>> {
    s.map_values(|x: String| x@)
}

/// `v` sorted in ascending lexicographic order.
pub fn sort_strings(v: &Vec<String>) -> (r: Vec<String>)
    ensures
        string_views(r@) == string_views(v@).sort_by(lex_le()),
{
    let ghost leq = lex_le();
    proof {
        lemma_lex_total_ordering();
    }
    let mut r: Vec<String> = Vec::new();
    let mut k: usize = 0;
    while k < v.len()
        invariant
            leq == lex_le(),
            total_ordering(leq),
            0 <= k <= v@.len(),
            sorted_by(string_views(r@), leq),
            string_views(r@).to_multiset() == string_views(v@).take(k as int).to_multiset(),
        decreases v@.len() - k,
    {
        let x = v[k].clone();
        let ghost xv = x@;
        let mut pos: usize = 0;
        while pos < r.len() && str_le(r[pos].as_str(), x.as_str())
            invariant
                leq == lex_le(),
                0 <= pos <= r@.len(),
                forall|i: int| 0 <= i < pos ==> #[trigger] leq(string_views(r@)[i], xv),
                xv == x@,
            decreases r@.len() - pos,
        {
            pos = pos + 1;
        }
        proof {
            lemma_insert_sorted(string_views(r@), pos as int, xv, leq);
            assert(string_views(v@).take(k + 1) =~= string_views(v@).take(k as int).push(xv));
        }
        let ghost old_r = r@;
        r.insert(pos, x);
        proof {
            assert(string_views(r@) =~= string_views(old_r).insert(pos as int, xv));
        }
        k = k + 1;
    }
    proof {
        assert(string_views(v@).take(v@.len() as int) =~= string_views(v@));
        string_views(v@).lemma_sort_by_ensures(leq);
        lemma_sorted_arrangement_unique(string_views(r@), string_views(v@).sort_by(leq), leq);
    }
    r
}

} // verus!
