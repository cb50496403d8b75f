//! Sorting prices by value.

use crate::price::Price;
use vstd::prelude::*;

verus! {

/// No price is followed by one of a lower value.
pub open spec fn sorted_by_value(s: Seq<Price>) -> bool {
    forall|i: int, j: int| 0 <= i <= j < s.len() ==> s[i].units() <= s[j].units()
}

/// A sorted sequence with one more price: the price stands before the first
/// price of a higher value, so behind those of its own value.
pub open spec fn insert_sorted(s: Seq<Price>, item: Price) -> Seq<Price>
    decreases s.len(),
{
    if s.len() == 0 || s[0].units() > item.units() {
        seq![item] + s
    } else {
        seq![s[0]] + insert_sorted(s.skip(1), item)
    }
}

/// The prices in ascending order of value; prices of one value keep their
/// order.
pub open spec fn sorted_seq(s: Seq<Price>) -> Seq<Price>
    decreases s.len(),
{
    if s.len() == 0 {
        Seq::empty()
    } else {
        insert_sorted(sorted_seq(s.drop_last()), s.last())
    }
}

/// Where the first `at` prices are no higher than `item` and the next one,
/// if any, is higher, `insert_sorted` puts `item` at `at`.
pub proof fn lemma_insert_position(s: Seq<Price>, item: Price, at: int)
    requires
        0 <= at <= s.len(),
        forall|k: int| 0 <= k < at ==> s[k].units() <= item.units(),
        at < s.len() ==> s[at].units() > item.units(),
    ensures
        insert_sorted(s, item) == s.insert(at, item),
    decreases at,
{
    if at == 0 {
        assert(seq![item] + s == s.insert(0, item));
    } else {
        lemma_insert_position(s.skip(1), item, at - 1);
        assert(seq![s[0]] + s.skip(1).insert(at - 1, item) == s.insert(at, item));
    }
}

/// The number of prices at the front of `s` that are no higher than `item`.
pub open spec fn insert_position(s: Seq<Price>, item: Price) -> int
    decreases s.len(),
{
    if s.len() == 0 || s[0].units() > item.units() {
        0
    } else {
        1 + insert_position(s.skip(1), item)
    }
}

/// The prices before the insert position are no higher than `item`, and the
/// price at it, if any, is higher.
pub proof fn lemma_insert_position_bounds(s: Seq<Price>, item: Price)
    ensures
        0 <= insert_position(s, item) <= s.len(),
        forall|k: int| 0 <= k < insert_position(s, item) ==> s[k].units() <= item.units(),
        insert_position(s, item) < s.len() ==> s[insert_position(s, item)].units() > item.units(),
    decreases s.len(),
{
    if !(s.len() == 0 || s[0].units() > item.units()) {
        lemma_insert_position_bounds(s.skip(1), item);
        let p = insert_position(s.skip(1), item);
        assert forall|k: int| 0 <= k < p + 1 implies s[k].units() <= item.units() by {
            if k > 0 {
                assert(s[k] == s.skip(1)[k - 1]);
            }
        }
        if p + 1 < s.len() {
            assert(s[p + 1] == s.skip(1)[p]);
        }
    }
}

/// Putting one more item into a sequence adds it to what the sequence holds.
pub proof fn lemma_insert_to_multiset(s: Seq<Price>, i: int, a: Price)
    requires
        0 <= i <= s.len(),
    ensures
        s.insert(i, a).to_multiset() == s.to_multiset().insert(a),
{
    broadcast use vstd::seq_lib::group_to_multiset_ensures;
    broadcast use vstd::multiset::group_multiset_axioms;

    let t = s.insert(i, a);
    assert(t.remove(i) == s);
    assert(t[i] == a);
    assert(t.to_multiset().count(a) > 0) by {
        assert(t.contains(a));
    }
    assert(t.to_multiset() =~= s.to_multiset().insert(a));
}

/// A sorted sequence stays sorted, and grows by one, when a price is put in.
pub proof fn lemma_insert_sorted(s: Seq<Price>, item: Price)
    requires
        sorted_by_value(s),
    ensures
        sorted_by_value(insert_sorted(s, item)),
        insert_sorted(s, item).len() == s.len() + 1,
        insert_sorted(s, item).to_multiset() == s.to_multiset().insert(item),
{
    let at = insert_position(s, item);
    lemma_insert_position_bounds(s, item);
    lemma_insert_position(s, item, at);
    lemma_insert_to_multiset(s, at, item);
    let r = s.insert(at, item);
    assert forall|a: int, b: int| 0 <= a <= b < r.len() implies r[a].units() <= r[b].units() by {
        if a < at && b > at {
            assert(r[a] == s[a]);
            assert(r[b] == s[b - 1]);
        } else if a > at {
            assert(r[a] == s[a - 1]);
            assert(r[b] == s[b - 1]);
        } else if b < at {
            assert(r[a] == s[a]);
            assert(r[b] == s[b]);
        } else if a == at && b > at {
            assert(r[b] == s[b - 1]);
            assert(s[at].units() > item.units());
            assert(s[at].units() <= s[b - 1].units());
        }
    }
}

/// The sorted sequence is sorted and holds each price as often as the
/// original does.
pub proof fn lemma_sorted_seq(s: Seq<Price>)
    ensures
        sorted_by_value(sorted_seq(s)),
        sorted_seq(s).len() == s.len(),
        sorted_seq(s).to_multiset() == s.to_multiset(),
    decreases s.len(),
{
    broadcast use vstd::seq_lib::group_to_multiset_ensures;

    if s.len() > 0 {
        lemma_sorted_seq(s.drop_last());
        lemma_insert_sorted(sorted_seq(s.drop_last()), s.last());
        assert(s.drop_last().push(s.last()) == s);
    }
}

/// The prices in ascending order of value; prices of one value keep their
/// order.
pub fn sort_prices(items: &Vec<Price>) -> (r: Vec<Price>)
    ensures
        r@ == sorted_seq(items@),
        sorted_by_value(r@),
        r@.len() == items@.len(),
        r@.to_multiset() == items@.to_multiset(),
{
    let mut out: Vec<Price> = Vec::new();
    let mut i: usize = 0;
    proof {
        assert(items@.take(0) == Seq::<Price>::empty());
    }
    while i < items.len()
        invariant
            i <= items@.len(),
            out@ == sorted_seq(items@.take(i as int)),
        decreases items@.len() - i,
    {
        let item = items[i];
        let mut at: usize = 0;
        proof {
            lemma_sorted_seq(items@.take(i as int));
        }
        while at < out.len() && out[at].le(&item)
            invariant
                at <= out@.len(),
                forall|k: int| 0 <= k < at ==> out@[k].units() <= item.units(),
            decreases out@.len() - at,
        {
            at += 1;
        }
        proof {
            lemma_insert_position(out@, item, at as int);
            assert(items@.take(i + 1).drop_last() == items@.take(i as int));
        }
        out.insert(at, item);
        i += 1;
    }
    proof {
        assert(items@.take(items@.len() as int) == items@);
        lemma_sorted_seq(items@);
    }
    out
}

} // verus!
