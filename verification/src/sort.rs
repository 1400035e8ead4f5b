//! Stable insertion sorting of strings, stated as a specification and
//! proved to yield an ordered permutation of its input.

use vstd::prelude::*;
use vstd::multiset::Multiset;

use crate::text::{chars_le, chars_of, lex_le, lowercase, texts, to_lowercase};

verus! {

/// Inserts `x` into `s` just after the last element that may stay before it,
/// shifting the elements that must come after it.
pub open spec fn insert_sorted(
    s: Seq<Seq<char>>,
    x: Seq<char>,
    le: spec_fn(Seq<char>, Seq<char>) -> bool,
) -> Seq<Seq<char>>
    decreases s.len(),
{
    if s.len() == 0 {
        seq![x]
    } else if le(s.last(), x) {
        s.push(x)
    } else {
        insert_sorted(s.drop_last(), x, le).push(s.last())
    }
}

/// The stable sort of `s` by the order `le`: each element is inserted in
/// turn after every earlier element that may stay before it.
pub open spec fn sort_stable(s: Seq<Seq<char>>, le: spec_fn(Seq<char>, Seq<char>) -> bool) -> Seq<Seq<char>>
    decreases s.len(),
{
    if s.len() == 0 {
        seq![]
    } else {
        insert_sorted(sort_stable(s.drop_last(), le), s.last(), le)
    }
}

/// Every element may stay before every later one.
pub open spec fn sorted_by(s: Seq<Seq<char>>, le: spec_fn(Seq<char>, Seq<char>) -> bool) -> bool {
    forall|i: int, j: int| 0 <= i < j < s.len() ==> le(#[trigger] s[i], #[trigger] s[j])
}

/// `le` is total and transitive.
pub open spec fn total_preorder(le: spec_fn(Seq<char>, Seq<char>) -> bool) -> bool {
    &&& forall|a: Seq<char>, b: Seq<char>| #[trigger] le(a, b) || le(b, a)
    &&& forall|a: Seq<char>, b: Seq<char>, c: Seq<char>|
        #[trigger] le(a, b) && #[trigger] le(b, c) ==> le(a, c)
}

proof fn lemma_insert_multiset(s: Seq<Seq<char>>, x: Seq<char>, le: spec_fn(Seq<char>, Seq<char>) -> bool)
    ensures
        insert_sorted(s, x, le).to_multiset() == s.to_multiset().insert(x),
        insert_sorted(s, x, le).len() == s.len() + 1,
    decreases s.len(),
{
    broadcast use vstd::seq_lib::group_seq_properties;
    broadcast use vstd::multiset::group_multiset_axioms;
    if s.len() == 0 {
        assert(s.to_multiset() =~= Multiset::empty());
        assert(seq![x].to_multiset() =~= Multiset::empty().insert(x)) by {
            assert(seq![x] =~= Seq::<Seq<char>>::empty().push(x));
        }
    } else if le(s.last(), x) {
    } else {
        lemma_insert_multiset(s.drop_last(), x, le);
        assert(s =~= s.drop_last().push(s.last()));
        assert(s.to_multiset() == s.drop_last().to_multiset().insert(s.last()));
        assert(insert_sorted(s, x, le).to_multiset() =~= s.to_multiset().insert(x));
    }
}

proof fn lemma_insert_sorted_sorted(s: Seq<Seq<char>>, x: Seq<char>, le: spec_fn(Seq<char>, Seq<char>) -> bool)
    requires
        total_preorder(le),
        sorted_by(s, le),
    ensures
        sorted_by(insert_sorted(s, x, le), le),
        forall|k: int| 0 <= k < insert_sorted(s, x, le).len() ==>
            (#[trigger] insert_sorted(s, x, le)[k] == x || s.contains(insert_sorted(s, x, le)[k])),
    decreases s.len(),
{
    let r = insert_sorted(s, x, le);
    if s.len() == 0 {
    } else if le(s.last(), x) {
        assert forall|i: int, j: int| 0 <= i < j < r.len() implies le(#[trigger] r[i], #[trigger] r[j]) by {
            if j == r.len() - 1 {
                if i < s.len() - 1 {
                    assert(le(s[i], s[s.len() - 1]));
                }
            }
        }
        assert forall|k: int| 0 <= k < r.len() implies (#[trigger] r[k] == x || s.contains(r[k])) by {
            if k < s.len() {
                assert(s[k] == r[k]);
            }
        }
    } else {
        let t = s.drop_last();
        assert(sorted_by(t, le));
        lemma_insert_sorted_sorted(t, x, le);
        let inner = insert_sorted(t, x, le);
        assert(le(x, s.last()));
        assert forall|k: int| 0 <= k < inner.len() implies le(#[trigger] inner[k], s.last()) by {
            if inner[k] != x {
                assert(t.contains(inner[k]));
                let m = choose|m: int| 0 <= m < t.len() && t[m] == inner[k];
                assert(le(s[m], s[s.len() - 1]));
            }
        }
        assert forall|i: int, j: int| 0 <= i < j < r.len() implies le(#[trigger] r[i], #[trigger] r[j]) by {
            if j == r.len() - 1 {
                assert(r[i] == inner[i]);
            } else {
                assert(r[i] == inner[i] && r[j] == inner[j]);
            }
        }
        assert forall|k: int| 0 <= k < r.len() implies (#[trigger] r[k] == x || s.contains(r[k])) by {
            if k == r.len() - 1 {
                assert(s[s.len() - 1] == r[k]);
            } else {
                assert(r[k] == inner[k]);
                if inner[k] != x {
                    let m = choose|m: int| 0 <= m < t.len() && t[m] == inner[k];
                    assert(s[m] == r[k]);
                }
            }
        }
    }
}

/// The stable sort orders its input under any total preorder.
pub proof fn lemma_sort_stable_sorted(s: Seq<Seq<char>>, le: spec_fn(Seq<char>, Seq<char>) -> bool)
    requires
        total_preorder(le),
    ensures
        sorted_by(sort_stable(s, le), le),
    decreases s.len(),
{
    if s.len() > 0 {
        lemma_sort_stable_sorted(s.drop_last(), le);
        lemma_insert_sorted_sorted(sort_stable(s.drop_last(), le), s.last(), le);
    }
}

/// The stable sort rearranges its input without adding or losing elements.
pub proof fn lemma_sort_stable_permutes(s: Seq<Seq<char>>, le: spec_fn(Seq<char>, Seq<char>) -> bool)
    ensures
        sort_stable(s, le).to_multiset() == s.to_multiset(),
        sort_stable(s, le).len() == s.len(),
    decreases s.len(),
{
    broadcast use vstd::seq_lib::group_seq_properties;
    if s.len() == 0 {
        assert(s.to_multiset() =~= Multiset::empty());
        assert(Seq::<Seq<char>>::empty().to_multiset() =~= Multiset::empty());
    } else {
        lemma_sort_stable_permutes(s.drop_last(), le);
        lemma_insert_multiset(sort_stable(s.drop_last(), le), s.last(), le);
        assert(s =~= s.drop_last().push(s.last()));
    }
}


/// `a` may stay before `b` when its lower-case form does not come after that
/// of `b`.
pub open spec fn by_lowercase() -> spec_fn(Seq<char>, Seq<char>) -> bool {
    |a: Seq<char>, b: Seq<char>| lex_le(lowercase(a), lowercase(b))
}

/// Sorts names by their lower-case forms, keeping the order of names whose
/// lower-case forms are equal.
pub fn sort_by_lowercase(items: Vec<String>) -> (r: Vec<String>)
    ensures
        texts(r@) == sort_stable(texts(items@), by_lowercase()),
{
    let ghost all = texts(items@);
    let ghost ord = by_lowercase();
    let mut results: Vec<String> = Vec::new();
    let mut keys: Vec<Vec<char>> = Vec::new();
    let n = items.len();
    for i in 0..n
        invariant
            n == items@.len(),
            all == texts(items@),
            ord == by_lowercase(),
            texts(results@) == sort_stable(all.take(i as int), ord),
            keys@.len() == results@.len(),
            forall|k: int| 0 <= k < keys@.len() ==> (#[trigger] keys@[k])@ == lowercase(results@[k]@),
    {
        let item = &items[i];
        let key = chars_of(to_lowercase(item.as_str()).as_str());
        let ghost cur = texts(results@);
        let ghost x = item@;
        assert(all.take(i + 1).drop_last() =~= all.take(i as int));
        assert(all.take(i + 1).last() == x);
        let mut j = results.len();
        assert(cur.take(j as int) =~= cur);
        assert(cur.skip(j as int) =~= Seq::<Seq<char>>::empty());
        assert(insert_sorted(cur, x, ord) + Seq::<Seq<char>>::empty() =~= insert_sorted(cur, x, ord));
        while j > 0 && !chars_le(&keys[j - 1], &key)
            invariant
                j <= results@.len(),
                cur == texts(results@),
                keys@.len() == results@.len(),
                forall|k: int| 0 <= k < keys@.len() ==> (#[trigger] keys@[k])@ == lowercase(results@[k]@),
                ord == by_lowercase(),
                key@ == lowercase(x),
                insert_sorted(cur, x, ord) == insert_sorted(cur.take(j as int), x, ord) + cur.skip(j as int),
            decreases j,
        {
            assert(keys@[j - 1]@ == lowercase(cur[j - 1]));
            assert(cur.take(j as int).drop_last() =~= cur.take(j - 1));
            assert(cur.take(j as int).last() == cur[j - 1]);
            assert(!ord(cur[j - 1], x));
            assert(cur.skip(j - 1) =~= seq![cur[j - 1]] + cur.skip(j as int));
            assert(insert_sorted(cur.take(j - 1), x, ord).push(cur[j - 1]) + cur.skip(j as int)
                =~= insert_sorted(cur.take(j - 1), x, ord) + cur.skip(j - 1));
            j = j - 1;
        }
        if j > 0 {
            assert(keys@[j - 1]@ == lowercase(cur[j - 1]));
            assert(cur.take(j as int).last() == cur[j - 1]);
            assert(ord(cur[j - 1], x));
        } else {
            assert(cur.take(0) =~= Seq::<Seq<char>>::empty());
        }
        let ghost before = results@;
        let ghost before_keys = keys@;
        results.insert(j, item.clone());
        keys.insert(j, key);
        assert(texts(results@) =~= cur.take(j as int) + seq![x] + cur.skip(j as int));
        assert(texts(results@) =~= insert_sorted(cur, x, ord));
        assert forall|k: int| 0 <= k < keys@.len() implies (#[trigger] keys@[k])@ == lowercase(results@[k]@) by {
            if k < j {
                assert(results@[k] == before[k] && keys@[k] == before_keys[k]);
            } else if k > j {
                assert(results@[k] == before[k - 1] && keys@[k] == before_keys[k - 1]);
            }
        }
    }
    assert(all.take(n as int) =~= all);
    results
}


proof fn lemma_lex_le_total(a: Seq<char>, b: Seq<char>)
    ensures
        lex_le(a, b) || lex_le(b, a),
    decreases a.len(),
{
    if a.len() > 0 && b.len() > 0 {
        if a[0] == b[0] {
            lemma_lex_le_total(a.drop_first(), b.drop_first());
        } else {
            assert(a[0] < b[0] || b[0] < a[0]);
        }
    }
}

proof fn lemma_lex_le_transitive(a: Seq<char>, b: Seq<char>, c: Seq<char>)
    requires
        lex_le(a, b),
        lex_le(b, c),
    ensures
        lex_le(a, c),
    decreases a.len(),
{
    if a.len() > 0 && b.len() > 0 && c.len() > 0 && a[0] == b[0] && b[0] == c[0] {
        lemma_lex_le_transitive(a.drop_first(), b.drop_first(), c.drop_first());
    }
}

/// Comparing lower-case forms is a total preorder, so sorting by it yields
/// the names in case-insensitive order, each name kept exactly once.
pub proof fn lemma_lowercase_sort(s: Seq<Seq<char>>)
    ensures
        total_preorder(by_lowercase()),
        sorted_by(sort_stable(s, by_lowercase()), by_lowercase()),
        sort_stable(s, by_lowercase()).to_multiset() == s.to_multiset(),
{
    let le = by_lowercase();
    assert forall|a: Seq<char>, b: Seq<char>| #[trigger] le(a, b) || le(b, a) by {
        lemma_lex_le_total(lowercase(a), lowercase(b));
    }
    assert forall|a: Seq<char>, b: Seq<char>, c: Seq<char>| #[trigger] le(a, b) && #[trigger] le(b, c) implies le(a, c) by {
        lemma_lex_le_transitive(lowercase(a), lowercase(b), lowercase(c));
    }
    lemma_sort_stable_sorted(s, le);
    lemma_sort_stable_permutes(s, le);
}

} // verus!
