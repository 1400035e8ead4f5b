//! Fuzzy filtering of suggestion lists: the items similar enough to the typed
//! query, most similar first.

use rust_fuzzy_search::fuzzy_compare;
use vstd::prelude::*;

use crate::sort::{
    insert_sorted, lemma_sort_stable_permutes, lemma_sort_stable_sorted, sort_stable, sorted_by, total_preorder,
};
use crate::text::texts;

verus! {

/// The bit pattern of the trigram similarity score that
/// `rust_fuzzy_search::fuzzy_compare` gives `item` against `query`.
pub uninterp spec fn fuzzy_score(query: Seq<char>, item: Seq<char>) -> u32;

/// Calls `rust_fuzzy_search::fuzzy_compare(query, item)` and returns the bit
/// pattern of the score (`to_bits`). The score depends on the two strings
/// alone, and the crate crops it into the range from zero to one, so its bit
/// pattern lies between those of `0.0` and `1.0`. Not stated: how the score is
/// computed from the trigrams of the two strings, and that on such scores,
/// comparing bit patterns orders them as comparing the scores does.
#[verifier::external_body]
fn fuzzy_score_bits(query: &str, item: &str) -> (r: u32)
    ensures
        r == fuzzy_score(query@, item@),
        r <= 0x3F80_0000,
{
    fuzzy_compare(query, item).to_bits()
}

/// Bit pattern of the score one half: items scoring at least this much are kept.
pub const MATCH_THRESHOLD_BITS: u32 = 0x3F00_0000;

/// The items that score at least the threshold against `query`, in their order.
pub open spec fn fuzzy_matches(query: Seq<char>, items: Seq<Seq<char>>) -> Seq<Seq<char>>
    decreases items.len(),
{
    if items.len() == 0 {
        seq![]
    } else {
        let m = fuzzy_matches(query, items.drop_last());
        if fuzzy_score(query, items.last()) >= MATCH_THRESHOLD_BITS {
            m.push(items.last())
        } else {
            m
        }
    }
}

/// `a` may stay before `b` when it scores at least as high against `query`.
pub open spec fn by_score(query: Seq<char>) -> spec_fn(Seq<char>, Seq<char>) -> bool {
    |a: Seq<char>, b: Seq<char>| fuzzy_score(query, a) >= fuzzy_score(query, b)
}

/// The matching items, highest score first, ties kept in the order they came in.
pub open spec fn fuzzy_ranked(query: Seq<char>, items: Seq<Seq<char>>) -> Seq<Seq<char>> {
    sort_stable(fuzzy_matches(query, items), by_score(query))
}

/// What filtering gives: the list itself for an empty query, else the
/// ranked matches.
pub open spec fn fuzzy_filtered(query: Seq<char>, items: Seq<Seq<char>>) -> Seq<Seq<char>> {
    if query.len() == 0 {
        items
    } else {
        fuzzy_ranked(query, items)
    }
}

/// Keeps the items that resemble `query` closely enough and orders them from
/// the closest match down; an empty query keeps the list as it is.
pub fn fuzzy_filter_sorted(query: &str, list_items: Vec<String>) -> (r: Vec<String>)
    ensures
        query@.len() == 0 ==> r == list_items,
        query@.len() > 0 ==> texts(r@) == fuzzy_ranked(query@, texts(list_items@)),
        texts(r@) == fuzzy_filtered(query@, texts(list_items@)),
{
    if query.is_empty() {
        return list_items;
    }
    let ghost q = query@;
    let ghost items = texts(list_items@);
    let ghost ord = by_score(q);
    let mut results: Vec<String> = Vec::new();
    let mut scores: Vec<u32> = Vec::new();
    let n = list_items.len();
    for i in 0..n
        invariant
            n == list_items@.len(),
            q == query@,
            items == texts(list_items@),
            ord == by_score(q),
            texts(results@) == sort_stable(fuzzy_matches(q, items.take(i as int)), ord),
            scores@.len() == results@.len(),
            forall|k: int| 0 <= k < scores@.len() ==> scores@[k] == fuzzy_score(q, #[trigger] results@[k]@),
    {
        let item = &list_items[i];
        let score = fuzzy_score_bits(query, item.as_str());
        assert(items.take(i + 1).drop_last() =~= items.take(i as int));
        assert(items.take(i + 1).last() == item@);
        if score < MATCH_THRESHOLD_BITS {
            assert(fuzzy_matches(q, items.take(i + 1)) == fuzzy_matches(q, items.take(i as int)));
        } else {
            let ghost cur = texts(results@);
            let ghost x = item@;
            let mut j = results.len();
            assert(cur.take(j as int) =~= cur);
            assert(cur.skip(j as int) =~= Seq::<Seq<char>>::empty());
            assert(insert_sorted(cur, x, ord) + Seq::<Seq<char>>::empty() =~= insert_sorted(cur, x, ord));
            while j > 0 && scores[j - 1] < score
                invariant
                    j <= results@.len(),
                    cur == texts(results@),
                    scores@.len() == results@.len(),
                    forall|k: int| 0 <= k < scores@.len() ==> scores@[k] == fuzzy_score(q, #[trigger] results@[k]@),
                    ord == by_score(q),
                    score == fuzzy_score(q, x),
                    insert_sorted(cur, x, ord) == insert_sorted(cur.take(j as int), x, ord) + cur.skip(j as int),
                decreases j,
            {
                assert(cur.take(j as int).drop_last() =~= cur.take(j - 1));
                assert(cur.take(j as int).last() == cur[j - 1]);
                assert(!ord(cur[j - 1], x));
                assert(cur.skip(j - 1) =~= seq![cur[j - 1]] + cur.skip(j as int));
                assert(insert_sorted(cur.take(j - 1), x, ord).push(cur[j - 1]) + cur.skip(j as int)
                    =~= insert_sorted(cur.take(j - 1), x, ord) + cur.skip(j - 1));
                j = j - 1;
            }
            if j > 0 {
                assert(cur.take(j as int).last() == cur[j - 1]);
                assert(ord(cur[j - 1], x));
            } else {
                assert(cur.take(0) =~= Seq::<Seq<char>>::empty());
            }
            let ghost before = results@;
            results.insert(j, item.clone());
            scores.insert(j, score);
            assert(texts(results@) =~= cur.take(j as int) + seq![x] + cur.skip(j as int));
            assert(texts(results@) =~= insert_sorted(cur, x, ord));
            let ghost m = fuzzy_matches(q, items.take(i as int));
            assert(fuzzy_matches(q, items.take(i + 1)) == m.push(x));
            assert(m.push(x).drop_last() =~= m);
            assert(sort_stable(m.push(x), ord) == insert_sorted(sort_stable(m, ord), x, ord));
            assert forall|k: int| 0 <= k < scores@.len() implies scores@[k] == fuzzy_score(q, #[trigger] results@[k]@) by {
                if k < j {
                    assert(results@[k] == before[k]);
                } else if k > j {
                    assert(results@[k] == before[k - 1]);
                }
            }
        }
    }
    assert(items.take(n as int) =~= items);
    results
}


proof fn lemma_matches_pass(query: Seq<char>, items: Seq<Seq<char>>)
    ensures
        forall|k: int| 0 <= k < fuzzy_matches(query, items).len() ==>
            fuzzy_score(query, #[trigger] fuzzy_matches(query, items)[k]) >= MATCH_THRESHOLD_BITS,
    decreases items.len(),
{
    if items.len() > 0 {
        lemma_matches_pass(query, items.drop_last());
        let m = fuzzy_matches(query, items.drop_last());
        if fuzzy_score(query, items.last()) >= MATCH_THRESHOLD_BITS {
            assert forall|k: int| 0 <= k < m.len() + 1 implies
                fuzzy_score(query, #[trigger] m.push(items.last())[k]) >= MATCH_THRESHOLD_BITS by {
                if k < m.len() {
                    assert(m.push(items.last())[k] == m[k]);
                }
            }
        }
    }
}

/// The filtered list holds exactly the items scoring at least the threshold
/// (with their multiplicities), ordered from the highest score down.
pub proof fn lemma_fuzzy_ranked(query: Seq<char>, items: Seq<Seq<char>>)
    ensures
        sorted_by(fuzzy_ranked(query, items), by_score(query)),
        fuzzy_ranked(query, items).to_multiset() == fuzzy_matches(query, items).to_multiset(),
        forall|k: int| 0 <= k < fuzzy_ranked(query, items).len() ==>
            fuzzy_score(query, #[trigger] fuzzy_ranked(query, items)[k]) >= MATCH_THRESHOLD_BITS,
{
    broadcast use vstd::seq_lib::to_multiset_contains;
    let le = by_score(query);
    assert(total_preorder(le));
    lemma_sort_stable_sorted(fuzzy_matches(query, items), le);
    lemma_sort_stable_permutes(fuzzy_matches(query, items), le);
    lemma_matches_pass(query, items);
    let r = fuzzy_ranked(query, items);
    let m = fuzzy_matches(query, items);
    assert forall|k: int| 0 <= k < r.len() implies fuzzy_score(query, #[trigger] r[k]) >= MATCH_THRESHOLD_BITS by {
        assert(r.contains(r[k]));
        assert(r.to_multiset().count(r[k]) > 0);
        assert(m.to_multiset().count(r[k]) > 0);
        assert(m.contains(r[k]));
        let j = choose|j: int| 0 <= j < m.len() && m[j] == r[k];
        assert(fuzzy_score(query, m[j]) >= MATCH_THRESHOLD_BITS);
    }
}

/// Items scoring at least the threshold are kept, the others dropped.
pub proof fn lemma_fuzzy_matches_membership(query: Seq<char>, items: Seq<Seq<char>>, x: Seq<char>)
    ensures
        fuzzy_matches(query, items).contains(x) <==> (items.contains(x) && fuzzy_score(query, x) >= MATCH_THRESHOLD_BITS),
    decreases items.len(),
{
    if items.len() > 0 {
        lemma_fuzzy_matches_membership(query, items.drop_last(), x);
        let t = items.drop_last();
        assert(items =~= t.push(items.last()));
        let m0 = fuzzy_matches(query, t);
        if fuzzy_score(query, items.last()) >= MATCH_THRESHOLD_BITS {
            assert(fuzzy_matches(query, items) == m0.push(items.last()));
            if m0.push(items.last()).contains(x) && x != items.last() {
                let j = choose|j: int| 0 <= j < m0.len() + 1 && m0.push(items.last())[j] == x;
                assert(m0[j] == x);
            }
            if items.contains(x) && x != items.last() {
                let j = choose|j: int| 0 <= j < items.len() && items[j] == x;
                assert(t[j] == x);
            }
            if m0.contains(x) {
                let j = choose|j: int| 0 <= j < m0.len() && m0[j] == x;
                assert(m0.push(items.last())[j] == x);
            }
            if t.contains(x) {
                let j = choose|j: int| 0 <= j < t.len() && t[j] == x;
                assert(items[j] == x);
            }
            assert(m0.push(items.last())[m0.len() as int] == items.last());
            assert(items[t.len() as int] == items.last());
        } else {
            if items.contains(x) && x != items.last() {
                let j = choose|j: int| 0 <= j < items.len() && items[j] == x;
                assert(t[j] == x);
            }
            if t.contains(x) {
                let j = choose|j: int| 0 <= j < t.len() && t[j] == x;
                assert(items[j] == x);
            }
        }
    }
}

} // verus!
