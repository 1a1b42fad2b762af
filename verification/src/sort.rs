use vstd::prelude::*;
use vstd::multiset::Multiset;

verus! {

/// Keys by which records are ordered: a total preorder.
pub trait SortKey: Sized {
    spec fn key_le(&self, other: &Self) -> bool;

    fn le(&self, other: &Self) -> (r: bool)
        ensures
            r == self.key_le(other),
    ;

    proof fn lemma_total(a: &Self, b: &Self)
        ensures
            a.key_le(b) || b.key_le(a),
    ;

    proof fn lemma_transitive(a: &Self, b: &Self, c: &Self)
        requires
            a.key_le(b),
            b.key_le(c),
        ensures
            a.key_le(c),
    ;
}

/// Record identifiers and instants are ordered as integers.
impl SortKey for u128 {
    open spec fn key_le(&self, other: &Self) -> bool {
        *self <= *other
    }

    fn le(&self, other: &Self) -> (r: bool) {
        *self <= *other
    }

    proof fn lemma_total(a: &Self, b: &Self) {
    }

    proof fn lemma_transitive(a: &Self, b: &Self, c: &Self) {
    }
}

/// Instants are ordered as integers.
impl SortKey for i64 {
    open spec fn key_le(&self, other: &Self) -> bool {
        *self <= *other
    }

    fn le(&self, other: &Self) -> (r: bool) {
        *self <= *other
    }

    proof fn lemma_total(a: &Self, b: &Self) {
    }

    proof fn lemma_transitive(a: &Self, b: &Self, c: &Self) {
    }
}

/// Lexicographic order of character sequences (code point by code point, a
/// proper prefix first): the order of `String`s.
pub open spec fn chars_le(a: Seq<char>, b: Seq<char>) -> bool
    decreases a.len(),
{
    if a.len() == 0 {
        true
    } else if b.len() == 0 {
        false
    } else if (a[0] as u32) != (b[0] as u32) {
        (a[0] as u32) < (b[0] as u32)
    } else {
        chars_le(a.drop_first(), b.drop_first())
    }
}

/// Any two texts are ordered one way or the other.
pub proof fn lemma_chars_le_total(a: Seq<char>, b: Seq<char>)
    ensures
        chars_le(a, b) || chars_le(b, a),
    decreases a.len(),
{
    if a.len() > 0 && b.len() > 0 && (a[0] as u32) == (b[0] as u32) {
        lemma_chars_le_total(a.drop_first(), b.drop_first());
    }
}

/// The lexicographic order of texts is transitive.
pub proof fn lemma_chars_le_transitive(a: Seq<char>, b: Seq<char>, c: Seq<char>)
    requires
        chars_le(a, b),
        chars_le(b, c),
    ensures
        chars_le(a, c),
    decreases a.len(),
{
    if a.len() > 0 && b.len() > 0 && c.len() > 0 && (a[0] as u32) == (b[0] as u32) && (b[0] as u32)
        == (c[0] as u32) {
        lemma_chars_le_transitive(a.drop_first(), b.drop_first(), c.drop_first());
    }
}

/// Whether `a` comes no later than `b` in lexicographic order.
pub fn string_le(a: &String, b: &String) -> (r: bool)
    ensures
        r == chars_le(a@, b@),
{
    let sa = a.as_str();
    let sb = b.as_str();
    let na = sa.unicode_len();
    let nb = sb.unicode_len();
    assert(a@.skip(0) =~= a@);
    assert(b@.skip(0) =~= b@);
    let mut i: usize = 0;
    while i < na && i < nb
        invariant
            na == a@.len(),
            nb == b@.len(),
            sa@ == a@,
            sb@ == b@,
            i <= na,
            i <= nb,
            chars_le(a@, b@) == chars_le(a@.skip(i as int), b@.skip(i as int)),
        decreases na - i,
    {
        let ca = sa.get_char(i);
        let cb = sb.get_char(i);
        assert(a@.skip(i as int)[0] == ca);
        assert(b@.skip(i as int)[0] == cb);
        if (ca as u32) != (cb as u32) {
            return (ca as u32) < (cb as u32);
        }
        assert(a@.skip(i as int).drop_first() =~= a@.skip(i + 1));
        assert(b@.skip(i as int).drop_first() =~= b@.skip(i + 1));
        i = i + 1;
    }
    i == na
}

impl SortKey for String {
    open spec fn key_le(&self, other: &Self) -> bool {
        chars_le(self@, other@)
    }

    fn le(&self, other: &Self) -> (r: bool) {
        string_le(self, other)
    }

    proof fn lemma_total(a: &Self, b: &Self) {
        lemma_chars_le_total(a@, b@);
    }

    proof fn lemma_transitive(a: &Self, b: &Self, c: &Self) {
        lemma_chars_le_transitive(a@, b@, c@);
    }
}

/// Inserts `x` after every element whose key is no greater than its key,
/// scanning from the back: equal keys keep their order of arrival.
pub open spec fn insert_sorted<K: SortKey, T>(s: Seq<(K, T)>, x: (K, T)) -> Seq<(K, T)>
    decreases s.len(),
{
    if s.len() == 0 {
        seq![x]
    } else if s.last().0.key_le(&x.0) {
        s.push(x)
    } else {
        insert_sorted(s.drop_last(), x).push(s.last())
    }
}

/// The stable sort of keyed elements by key (insertion sort).
pub open spec fn stable_sorted<K: SortKey, T>(s: Seq<(K, T)>) -> Seq<(K, T)>
    decreases s.len(),
{
    if s.len() == 0 {
        s
    } else {
        insert_sorted(stable_sorted(s.drop_last()), s.last())
    }
}

/// Keys never decrease along the sequence.
pub open spec fn keys_ordered<K: SortKey, T>(s: Seq<(K, T)>) -> bool {
    forall|i: int, j: int| 0 <= i < j < s.len() ==> (#[trigger] s[i]).0.key_le(&(#[trigger] s[j]).0)
}

/// Where `insert_sorted` puts `x`: just after the last element (from the back)
/// whose key is no greater.
proof fn lemma_insert_sorted_split<K: SortKey, T>(s: Seq<(K, T)>, x: (K, T), p: int)
    requires
        0 <= p <= s.len(),
        forall|j: int| p <= j < s.len() ==> !(#[trigger] s[j]).0.key_le(&x.0),
        p == 0 || s[p - 1].0.key_le(&x.0),
    ensures
        insert_sorted(s, x) == s.take(p).push(x) + s.skip(p),
    decreases s.len(),
{
    if s.len() == 0 {
        assert(s.take(p).push(x) + s.skip(p) =~= seq![x]);
    } else if s.last().0.key_le(&x.0) {
        assert(p == s.len());
        assert(s.take(p) =~= s);
        assert(s.skip(p) =~= Seq::<(K, T)>::empty());
        assert(s.take(p).push(x) + s.skip(p) =~= s.push(x));
    } else {
        let s2 = s.drop_last();
        assert(p < s.len());
        lemma_insert_sorted_split(s2, x, p);
        assert(s2.take(p) =~= s.take(p));
        assert(s2.skip(p).push(s.last()) =~= s.skip(p));
        assert((s2.take(p).push(x) + s2.skip(p)).push(s.last()) =~= s.take(p).push(x) + s.skip(
            p,
        ));
    }
}

/// Sorts keyed elements by key, stably.
pub fn stable_sort_by_key<K: SortKey, T>(items: Vec<(K, T)>) -> (r: Vec<(K, T)>)
    ensures
        r@ == stable_sorted(items@),
{
    let mut input = items;
    let ghost given = input@;
    let mut out: Vec<(K, T)> = Vec::new();
    let mut taken: usize = 0;
    let len0 = input.len();
    let ghost n = given.len();
    assert(n == len0);
    while input.len() > 0
        invariant
            taken + input.len() == n,
            n == given.len(),
            n <= usize::MAX,
            input@ == given.skip(taken as int),
            out@ == stable_sorted(given.take(taken as int)),
        decreases input.len(),
    {
        let x = input.remove(0);
        proof {
            assert(given.take(taken + 1).drop_last() =~= given.take(taken as int));
            assert(given.take(taken + 1).last() == x);
            assert(input@ =~= given.skip(taken + 1));
        }
        let mut p: usize = out.len();
        while p > 0 && !out[p - 1].0.le(&x.0)
            invariant
                p <= out.len(),
                forall|j: int| p <= j < out.len() ==> !(#[trigger] out@[j]).0.key_le(&x.0),
            decreases p,
        {
            p = p - 1;
        }
        proof {
            lemma_insert_sorted_split(out@, x, p as int);
        }
        let ghost before = out@;
        out.insert(p, x);
        proof {
            assert(out@ =~= before.take(p as int).push(x) + before.skip(p as int));
        }
        taken = taken + 1;
    }
    proof {
        assert(given.take(n as int) =~= given);
    }
    out
}

/// Inserting into a key-ordered sequence keeps it key-ordered and keeps every
/// element.
proof fn lemma_insert_sorted_ordered<K: SortKey, T>(s: Seq<(K, T)>, x: (K, T))
    requires
        keys_ordered(s),
    ensures
        keys_ordered(insert_sorted(s, x)),
        insert_sorted(s, x).to_multiset() == s.to_multiset().insert(x),
    decreases s.len(),
{
    if s.len() == 0 {
        assert(seq![x].to_multiset() =~= Multiset::<(K, T)>::empty().insert(x)) by {
            broadcast use vstd::seq_lib::group_to_multiset_ensures;
        }
        assert(s.to_multiset() =~= Multiset::empty()) by {
            broadcast use vstd::seq_lib::group_to_multiset_ensures;
        }
    } else if s.last().0.key_le(&x.0) {
        let r = s.push(x);
        assert forall|i: int, j: int| 0 <= i < j < r.len() implies (#[trigger] r[i]).0.key_le(
            &(#[trigger] r[j]).0,
        ) by {
            if j == s.len() {
                if i < s.len() - 1 {
                    K::lemma_transitive(&s[i].0, &s.last().0, &x.0);
                }
            }
        }
        vstd::seq_lib::lemma_multiset_commutative(s, seq![x]);
        assert(s.push(x) =~= s + seq![x]);
        assert(seq![x].to_multiset() =~= Multiset::<(K, T)>::empty().insert(x)) by {
            broadcast use vstd::seq_lib::group_to_multiset_ensures;
        }
    } else {
        let s2 = s.drop_last();
        assert(keys_ordered(s2));
        lemma_insert_sorted_ordered(s2, x);
        let m = insert_sorted(s2, x);
        let r = m.push(s.last());
        K::lemma_total(&s.last().0, &x.0);
        assert forall|i: int, j: int| 0 <= i < j < r.len() implies (#[trigger] r[i]).0.key_le(
            &(#[trigger] r[j]).0,
        ) by {
            if j == m.len() {
                // every element of m is either x or an element of s2
                assert(m.to_multiset().count(r[i]) > 0) by {
                    broadcast use vstd::seq_lib::group_to_multiset_ensures;
                    assert(m.contains(r[i]));
                }
                assert(s2.to_multiset().insert(x).count(r[i]) > 0);
                if r[i] == x {
                } else {
                    assert(s2.to_multiset().count(r[i]) > 0);
                    assert(s2.contains(r[i])) by {
                        broadcast use vstd::seq_lib::group_to_multiset_ensures;
                    }
                    let k = choose|k: int| 0 <= k < s2.len() && s2[k] == r[i];
                    assert(s[k] == r[i]);
                    assert(s[k].0.key_le(&s[s.len() - 1].0));
                }
            }
        }
        vstd::seq_lib::lemma_multiset_commutative(m, seq![s.last()]);
        vstd::seq_lib::lemma_multiset_commutative(s2, seq![s.last()]);
        assert(m.push(s.last()) =~= m + seq![s.last()]);
        assert(s2.push(s.last()) =~= s2 + seq![s.last()]);
        assert(s2.push(s.last()) =~= s);
        assert(seq![s.last()].to_multiset() =~= Multiset::<(K, T)>::empty().insert(s.last())) by {
            broadcast use vstd::seq_lib::group_to_multiset_ensures;
        }
        assert(r.to_multiset() =~= s.to_multiset().insert(x));
    }
}

/// The stable sort orders elements by key and is a permutation of its input.
pub proof fn lemma_stable_sorted_is_sorted_permutation<K: SortKey, T>(s: Seq<(K, T)>)
    ensures
        keys_ordered(stable_sorted(s)),
        stable_sorted(s).to_multiset() == s.to_multiset(),
    decreases s.len(),
{
    if s.len() == 0 {
    } else {
        let s2 = s.drop_last();
        lemma_stable_sorted_is_sorted_permutation(s2);
        lemma_insert_sorted_ordered(stable_sorted(s2), s.last());
        vstd::seq_lib::lemma_multiset_commutative(s2, seq![s.last()]);
        assert(s2.push(s.last()) =~= s2 + seq![s.last()]);
        assert(s2.push(s.last()) =~= s);
        assert(seq![s.last()].to_multiset() =~= Multiset::<(K, T)>::empty().insert(s.last())) by {
            broadcast use vstd::seq_lib::group_to_multiset_ensures;
        }
    }
}

/// The elements whose key is equivalent to `k` (each no greater than the
/// other).
pub open spec fn key_equiv<K: SortKey, T>(k: K) -> spec_fn((K, T)) -> bool {
    |x: (K, T)| x.0.key_le(&k) && k.key_le(&x.0)
}

/// Inserting `x` keeps the elements of `k`'s key in their order, with `x`
/// last among them.
proof fn lemma_insert_sorted_filter<K: SortKey, T>(t: Seq<(K, T)>, x: (K, T), k: K)
    ensures
        insert_sorted(t, x).filter(key_equiv(k)) == (if key_equiv::<K, T>(k)(x) {
            t.filter(key_equiv(k)).push(x)
        } else {
            t.filter(key_equiv(k))
        }),
    decreases t.len(),
{
    reveal(Seq::filter);
    let f = key_equiv::<K, T>(k);
    if t.len() == 0 {
        assert(seq![x].drop_last() =~= t);
    } else if t.last().0.key_le(&x.0) {
        assert(t.push(x).drop_last() =~= t);
    } else {
        let t2 = t.drop_last();
        lemma_insert_sorted_filter(t2, x, k);
        let m = insert_sorted(t2, x);
        assert(m.push(t.last()).drop_last() =~= m);
        if f(x) && f(t.last()) {
            K::lemma_transitive(&t.last().0, &k, &x.0);
        }
    }
}

/// The stable sort keeps the elements of equivalent keys in the order they
/// came in.
pub proof fn lemma_stable_sorted_keeps_order<K: SortKey, T>(s: Seq<(K, T)>, k: K)
    ensures
        stable_sorted(s).filter(key_equiv(k)) == s.filter(key_equiv(k)),
    decreases s.len(),
{
    reveal(Seq::filter);
    if s.len() > 0 {
        lemma_stable_sorted_keeps_order(s.drop_last(), k);
        lemma_insert_sorted_filter(stable_sorted(s.drop_last()), s.last(), k);
    }
}


/// Mapping two sequences with the same elements gives sequences with the same
/// elements.
pub proof fn lemma_map_values_multiset<A, B>(a: Seq<A>, b: Seq<A>, f: spec_fn(A) -> B)
    requires
        a.to_multiset() == b.to_multiset(),
    ensures
        a.map_values(f).to_multiset() == b.map_values(f).to_multiset(),
    decreases a.len(),
{
    broadcast use vstd::seq_lib::group_to_multiset_ensures;

    if a.len() == 0 {
        assert(a.to_multiset().len() == a.len());
        assert(b.to_multiset().len() == b.len());
        assert(b.len() == 0);
        assert(a.map_values(f) =~= b.map_values(f));
    } else {
        let n = a.len() - 1;
        let x = a[n];
        assert(a.contains(x));
        assert(a.to_multiset().count(x) > 0);
        assert(b.contains(x));
        let j = choose|j: int| 0 <= j < b.len() && b[j] == x;
        let a2 = a.remove(n);
        let b2 = b.remove(j);
        assert(a2.to_multiset() == a.to_multiset().remove(x));
        assert(b2.to_multiset() == b.to_multiset().remove(x));
        lemma_map_values_multiset(a2, b2, f);
        assert(a.map_values(f) =~= a2.map_values(f).insert(n, f(x)));
        assert(b.map_values(f) =~= b2.map_values(f).insert(j, f(x)));
        assert(a2.map_values(f).insert(n, f(x)).to_multiset() == a2.map_values(f).to_multiset().insert(f(x)));
        assert(b2.map_values(f).insert(j, f(x)).to_multiset() == b2.map_values(f).to_multiset().insert(f(x)));
    }
}

/// Sorting elements by a key computed from each: the result, keys dropped,
/// is ordered by that key and holds the same elements as the input.
pub proof fn lemma_sorted_by_key<K: SortKey, T>(s: Seq<T>, key: spec_fn(T) -> K)
    ensures
        ({
            let r = stable_sorted(s.map_values(|x: T| (key(x), x))).map_values(|kt: (K, T)| kt.1);
            &&& r.len() == s.len()
            &&& forall|i: int, j: int| 0 <= i < j < r.len() ==> key(#[trigger] r[i]).key_le(&key(#[trigger] r[j]))
            &&& r.to_multiset() == s.to_multiset()
        }),
{
    broadcast use vstd::seq_lib::group_to_multiset_ensures;

    let ks = s.map_values(|x: T| (key(x), x));
    let ss = stable_sorted(ks);
    let second = |kt: (K, T)| kt.1;
    let r = ss.map_values(second);
    lemma_stable_sorted_is_sorted_permutation(ks);
    assert(ss.len() == ks.len()) by {
        assert(ss.to_multiset().len() == ss.len());
        assert(ks.to_multiset().len() == ks.len());
    }
    assert forall|i: int| 0 <= i < ss.len() implies (#[trigger] ss[i]).0 == key(ss[i].1) by {
        assert(ss.contains(ss[i]));
        assert(ss.to_multiset().count(ss[i]) > 0);
        assert(ks.contains(ss[i]));
    }
    assert forall|i: int, j: int| 0 <= i < j < r.len() implies key(#[trigger] r[i]).key_le(
        &key(#[trigger] r[j]),
    ) by {
        assert(ss[i].0.key_le(&ss[j].0));
    }
    lemma_map_values_multiset(ss, ks, second);
    assert(ks.map_values(second) =~= s);
}

} // verus!
