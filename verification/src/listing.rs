//! Ordering a status listing by path.
//!
//! A listing is built by putting each record behind the last record whose path
//! is no later than its own. Records with the same path therefore keep the
//! order in which they came.

use crate::order::{
    lemma_path_le_antisym, lemma_path_le_total, lemma_path_le_trans, path_le, path_le_spec,
};
use crate::status::{item_views, StatusItem, StatusItemView};
use vstd::prelude::*;
use vstd::seq_lib::to_multiset_remove;

verus! {

/// No record is listed before one whose path comes earlier.
pub open spec fn ordered_by_path(s: Seq<StatusItemView>) -> bool {
    forall|i: int, j: int|
        0 <= i < j < s.len() ==> path_le_spec(#[trigger] s[i].path, #[trigger] s[j].path)
}

/// Where `x` goes in `s`: behind the last record whose path is no later.
pub open spec fn insert_position(s: Seq<StatusItemView>, x: StatusItemView) -> int
    decreases s.len(),
{
    if s.len() == 0 {
        0
    } else if path_le_spec(s.last().path, x.path) {
        s.len() as int
    } else {
        insert_position(s.drop_last(), x)
    }
}

/// The records of `s` ordered by path, those of one path in the order of `s`.
pub open spec fn sorted_by_path(s: Seq<StatusItemView>) -> Seq<StatusItemView>
    decreases s.len(),
{
    if s.len() == 0 {
        Seq::empty()
    } else {
        let rest = sorted_by_path(s.drop_last());
        rest.insert(insert_position(rest, s.last()), s.last())
    }
}

/// The insert position lies in the sequence, everything before it is no later
/// than `x` where the sequence is ordered, and everything from it on is later.
pub proof fn lemma_insert_position(s: Seq<StatusItemView>, x: StatusItemView)
    ensures
        0 <= insert_position(s, x) <= s.len(),
        forall|k: int|
            insert_position(s, x) <= k < s.len() ==> !path_le_spec(#[trigger] s[k].path, x.path),
        ordered_by_path(s) ==> forall|k: int|
            0 <= k < insert_position(s, x) ==> path_le_spec(#[trigger] s[k].path, x.path),
    decreases s.len(),
{
    if s.len() > 0 {
        let n = s.len() as int;
        if path_le_spec(s.last().path, x.path) {
            if ordered_by_path(s) {
                assert forall|k: int| 0 <= k < n implies path_le_spec(
                    #[trigger] s[k].path,
                    x.path,
                ) by {
                    if k < n - 1 {
                        lemma_path_le_trans(s[k].path, s[n - 1].path, x.path);
                    }
                }
            }
        } else {
            let t = s.drop_last();
            lemma_insert_position(t, x);
            assert forall|k: int| insert_position(s, x) <= k < n implies !path_le_spec(
                #[trigger] s[k].path,
                x.path,
            ) by {
                if k < n - 1 {
                    assert(t[k] == s[k]);
                }
            }
            if ordered_by_path(s) {
                assert(ordered_by_path(t));
                assert forall|k: int| 0 <= k < insert_position(s, x) implies path_le_spec(
                    #[trigger] s[k].path,
                    x.path,
                ) by {
                    assert(t[k] == s[k]);
                }
            }
        }
    }
}

/// Putting a record at its insert position keeps an ordered listing ordered.
pub proof fn lemma_insert_keeps_order(s: Seq<StatusItemView>, x: StatusItemView)
    requires
        ordered_by_path(s),
    ensures
        ordered_by_path(s.insert(insert_position(s, x), x)),
{
    let p = insert_position(s, x);
    let t = s.insert(p, x);
    lemma_insert_position(s, x);
    assert forall|i: int, j: int| 0 <= i < j < t.len() implies path_le_spec(
        #[trigger] t[i].path,
        #[trigger] t[j].path,
    ) by {
        if i == p {
            // What stands behind the position is later than `x`.
            lemma_path_le_total(s[j - 1].path, x.path);
        }
    }
}

/// An ordered listing: what [`sorted_by_path`] yields never lists a record
/// before one whose path comes earlier.
pub proof fn lemma_sorted_is_ordered(s: Seq<StatusItemView>)
    ensures
        ordered_by_path(sorted_by_path(s)),
    decreases s.len(),
{
    if s.len() > 0 {
        lemma_sorted_is_ordered(s.drop_last());
        lemma_insert_keeps_order(sorted_by_path(s.drop_last()), s.last());
    }
}

/// Ordering loses and invents nothing: the ordered listing holds each record
/// as often as the sequence it was made from.
pub proof fn lemma_sorted_is_permutation(s: Seq<StatusItemView>)
    ensures
        sorted_by_path(s).to_multiset() == s.to_multiset(),
        sorted_by_path(s).len() == s.len(),
    decreases s.len(),
{
    broadcast use vstd::seq_lib::group_to_multiset_ensures;

    if s.len() > 0 {
        let rest = sorted_by_path(s.drop_last());
        let x = s.last();
        let p = insert_position(rest, x);
        lemma_sorted_is_permutation(s.drop_last());
        lemma_insert_position(rest, x);
        // Taking `x` out again gives `rest`, and `s` is its own front with `x` behind.
        let t = rest.insert(p, x);
        to_multiset_remove(t, p);
        assert(t.to_multiset().count(x) > 0);
        assert(s =~= s.drop_last().push(x));
    }
}

/// Ordering an ordered listing changes nothing.
pub proof fn lemma_sorted_of_ordered(s: Seq<StatusItemView>)
    requires
        ordered_by_path(s),
    ensures
        sorted_by_path(s) == s,
    decreases s.len(),
{
    if s.len() > 0 {
        let t = s.drop_last();
        assert(ordered_by_path(t));
        lemma_sorted_of_ordered(t);
    }
}

/// In an ordered listing, two records with different paths stand in strictly
/// ascending order: the later one's path is not also no later than the
/// earlier one's.
pub proof fn lemma_ordered_strictly(s: Seq<StatusItemView>, i: int, j: int)
    requires
        ordered_by_path(s),
        0 <= i < j < s.len(),
        s[i].path != s[j].path,
    ensures
        path_le_spec(s[i].path, s[j].path),
        !path_le_spec(s[j].path, s[i].path),
{
    if path_le_spec(s[j].path, s[i].path) {
        lemma_path_le_antisym(s[i].path, s[j].path);
    }
}

/// No two records have the same path.
pub open spec fn distinct_paths(s: Seq<StatusItemView>) -> bool {
    forall|i: int, j: int| 0 <= i < j < s.len() ==> #[trigger] s[i].path != #[trigger] s[j].path
}

proof fn lemma_index_of<A>(s: Seq<A>, x: A) -> (k: int)
    requires
        s.to_multiset().count(x) > 0,
    ensures
        0 <= k < s.len(),
        s[k] == x,
{
    broadcast use vstd::seq_lib::group_to_multiset_ensures;

    choose|k: int| 0 <= k < s.len() && s[k] == x
}

proof fn lemma_member<A>(s: Seq<A>, k: int)
    requires
        0 <= k < s.len(),
    ensures
        s.to_multiset().count(s[k]) > 0,
{
    broadcast use vstd::seq_lib::group_to_multiset_ensures;
}

proof fn lemma_drop_last_multiset<A>(a: Seq<A>, b: Seq<A>)
    requires
        a.len() > 0,
        b.len() > 0,
        a.last() == b.last(),
        a.to_multiset() == b.to_multiset(),
    ensures
        a.drop_last().to_multiset() == b.drop_last().to_multiset(),
{
    broadcast use vstd::seq_lib::group_to_multiset_ensures;

    let x = a.last();
    assert(a =~= a.drop_last().push(x));
    assert(b =~= b.drop_last().push(x));
    let ma = a.drop_last().to_multiset();
    let mb = b.drop_last().to_multiset();
    assert forall|v: A| ma.count(v) == mb.count(v) by {
        assert(ma.insert(x).count(v) == mb.insert(x).count(v));
    }
}

proof fn lemma_permutation_keeps_paths_distinct(a: Seq<StatusItemView>, b: Seq<StatusItemView>)
    requires
        distinct_paths(a),
        a.to_multiset() == b.to_multiset(),
    ensures
        distinct_paths(b),
{
    // Records with different paths are different records, so no record
    // stands twice in `a`, nor in `b`, which holds the same records.
    assert(a.no_duplicates()) by {
        assert forall|i: int, j: int|
            0 <= i < a.len() && 0 <= j < a.len() && i != j implies a[i] != a[j] by {
            if i < j {
                assert(a[i].path != a[j].path);
            } else {
                assert(a[j].path != a[i].path);
            }
        }
    }
    a.lemma_multiset_has_no_duplicates();
    b.lemma_multiset_has_no_duplicates_conv();
    assert forall|i: int, j: int| 0 <= i < j < b.len() implies #[trigger] b[i].path
        != #[trigger] b[j].path by {
        // Both records stand in `a` too, at two different places.
        lemma_member(b, i);
        lemma_member(b, j);
        let p = lemma_index_of(a, b[i]);
        let q = lemma_index_of(a, b[j]);
    }
}

/// Each record's path is strictly earlier than that of every record behind
/// it: no later, and not the same. No path is listed twice then.
pub open spec fn strictly_ascending(s: Seq<StatusItemView>) -> bool {
    forall|i: int, j: int|
        0 <= i < j < s.len() ==> path_le_spec(#[trigger] s[i].path, #[trigger] s[j].path)
            && !path_le_spec(s[j].path, s[i].path)
}

/// Records of which no two have the same path come strictly ascending by
/// path when they are ordered.
pub proof fn lemma_sorted_strictly_ascends(s: Seq<StatusItemView>)
    requires
        distinct_paths(s),
    ensures
        strictly_ascending(sorted_by_path(s)),
{
    let sorted = sorted_by_path(s);
    lemma_sorted_is_ordered(s);
    lemma_sorted_is_permutation(s);
    lemma_permutation_keeps_paths_distinct(s, sorted);
    assert forall|i: int, j: int| 0 <= i < j < sorted.len() implies path_le_spec(
        #[trigger] sorted[i].path,
        #[trigger] sorted[j].path,
    ) && !path_le_spec(sorted[j].path, sorted[i].path) by {
        lemma_ordered_strictly(sorted, i, j);
    }
}

/// There is one way only to order records with different paths: two ordered
/// listings that hold the same records, no two of them with the same path,
/// are the same listing.
pub proof fn lemma_ordered_listing_is_unique(a: Seq<StatusItemView>, b: Seq<StatusItemView>)
    requires
        ordered_by_path(a),
        ordered_by_path(b),
        distinct_paths(a),
        a.to_multiset() == b.to_multiset(),
    ensures
        a == b,
    decreases a.len(),
{
    broadcast use vstd::seq_lib::group_to_multiset_ensures;

    assert(a.len() == b.len()) by {
        a.to_multiset_ensures();
        b.to_multiset_ensures();
    }
    if a.len() > 0 {
        let n = a.len() as int;
        let x = a.last();
        let y = b.last();
        // Each listing holds the last record of the other. Were the two not
        // the same record, each would stand before the other's last, and
        // their paths would be the same.
        lemma_member(a, n - 1);
        lemma_member(b, n - 1);
        let k = lemma_index_of(b, x);
        let j = lemma_index_of(a, y);
        if j < n - 1 && k < n - 1 {
            lemma_path_le_antisym(x.path, y.path);
        }
        assert(x == y);
        // Without that record the listings are the same by induction.
        lemma_drop_last_multiset(a, b);
        let a0 = a.drop_last();
        let b0 = b.drop_last();
        assert(ordered_by_path(a0));
        assert(ordered_by_path(b0));
        assert(distinct_paths(a0));
        lemma_ordered_listing_is_unique(a0, b0);
        assert(b =~= b0.push(y));
    }
}

/// The order in which records arrive does not show in the listing, as long
/// as no two of them have the same path: sequences that hold the same
/// records give the same listing.
pub proof fn lemma_sorted_ignores_arrival_order(a: Seq<StatusItemView>, b: Seq<StatusItemView>)
    requires
        distinct_paths(a),
        a.to_multiset() == b.to_multiset(),
    ensures
        sorted_by_path(a) == sorted_by_path(b),
{
    lemma_sorted_is_permutation(a);
    lemma_sorted_is_permutation(b);
    lemma_sorted_is_ordered(a);
    lemma_sorted_is_ordered(b);
    lemma_permutation_keeps_paths_distinct(a, sorted_by_path(a));
    lemma_ordered_listing_is_unique(sorted_by_path(a), sorted_by_path(b));
}

/// Puts `item` into the listing behind the last record whose path is no later.
pub fn insert_by_path(items: &mut Vec<StatusItem>, item: StatusItem)
    ensures
        item_views(final(items)@) == item_views(old(items)@).insert(
            insert_position(item_views(old(items)@), item@),
            item@,
        ),
{
    let ghost s = item_views(items@);
    let mut j: usize = items.len();
    assert(s.take(j as int) =~= s);
    while j > 0 && !path_le(items[j - 1].path.as_str(), item.path.as_str())
        invariant
            j <= items.len(),
            s == item_views(items@),
            insert_position(s, item@) == insert_position(s.take(j as int), item@),
        decreases j,
    {
        proof {
            assert(s.take(j as int).drop_last() =~= s.take(j - 1));
        }
        j -= 1;
    }
    items.insert(j, item);
    assert(item_views(items@) =~= s.insert(j as int, item@));
}

} // verus!
