//! What holds of sorting and of hit selection, whatever the hits are.
use vstd::prelude::*;
use crate::intersection::Intersection;
use crate::intersections::{
    ascending, first_kept, inserted, none_kept, numbers_only, sorted, HitPredicate, StandardHit,
};

verus! {

/// The test whether a hit lies at the same distance as `k`.
pub open spec fn same_distance<'a>(k: Intersection<'a>) -> spec_fn(Intersection<'a>) -> bool {
    |e: Intersection<'a>| e.time().equals(k.time())
}

/// The hits of `s` whose distance is the same number as that of `k`.
pub open spec fn at_distance<'a>(s: Seq<Intersection<'a>>, k: Intersection<'a>) -> Seq<Intersection<'a>> {
    s.filter(same_distance(k))
}

proof fn lemma_inserted_holds<'a>(s: Seq<Intersection<'a>>, x: Intersection<'a>)
    ensures
        inserted(s, x).len() == s.len() + 1,
        inserted(s, x).to_multiset() == s.to_multiset().insert(x),
    decreases s.len(),
{
    broadcast use vstd::seq_lib::group_to_multiset_ensures;

    if s.len() == 0 {
        assert(seq![x] =~= s.push(x));
    } else if x.before(s.last()) {
        lemma_inserted_holds(s.drop_last(), x);
        assert(s.drop_last().push(s.last()) =~= s);
        assert(s.drop_last().to_multiset().insert(x).insert(s.last()) =~= s.drop_last().to_multiset().insert(
            s.last(),
        ).insert(x));
    } else {
    }
}

/// Sorting neither adds a hit nor loses one: the sorted sequence holds each
/// hit as often as the given one does.
pub proof fn sort_keeps_every_hit<'a>(s: Seq<Intersection<'a>>)
    ensures
        sorted(s).len() == s.len(),
        sorted(s).to_multiset() == s.to_multiset(),
    decreases s.len(),
{
    broadcast use vstd::seq_lib::group_to_multiset_ensures;

    if s.len() > 0 {
        sort_keeps_every_hit(s.drop_last());
        lemma_inserted_holds(sorted(s.drop_last()), s.last());
        assert(s.drop_last().push(s.last()) =~= s);
    }
}

proof fn lemma_inserted_numbers<'a>(s: Seq<Intersection<'a>>, x: Intersection<'a>)
    requires
        numbers_only(s),
        !x.time().nan(),
    ensures
        numbers_only(inserted(s, x)),
    decreases s.len(),
{
    if s.len() > 0 && x.before(s.last()) {
        lemma_inserted_numbers(s.drop_last(), x);
    }
}

proof fn lemma_sorted_numbers<'a>(s: Seq<Intersection<'a>>)
    requires
        numbers_only(s),
    ensures
        numbers_only(sorted(s)),
    decreases s.len(),
{
    if s.len() > 0 {
        lemma_sorted_numbers(s.drop_last());
        lemma_inserted_numbers(sorted(s.drop_last()), s.last());
    }
}

/// Every hit of `inserted(s, x)` is `x` or a hit of `s`.
proof fn lemma_inserted_from<'a>(s: Seq<Intersection<'a>>, x: Intersection<'a>, i: int)
    requires
        0 <= i < inserted(s, x).len(),
    ensures
        inserted(s, x)[i] == x || exists|k: int| 0 <= k < s.len() && s[k] == inserted(s, x)[i],
    decreases s.len(),
{
    lemma_inserted_holds(s, x);
    if s.len() > 0 && x.before(s.last()) {
        lemma_inserted_holds(s.drop_last(), x);
        if i < s.len() {
            lemma_inserted_from(s.drop_last(), x, i);
            if inserted(s.drop_last(), x)[i] != x {
                let k = choose|k: int|
                    0 <= k < s.drop_last().len() && s.drop_last()[k] == inserted(s.drop_last(), x)[i];
                assert(s[k] == inserted(s, x)[i]);
            }
        } else {
            assert(s[s.len() - 1] == inserted(s, x)[i]);
        }
    } else if s.len() > 0 {
        if i < s.len() {
            assert(s[i] == inserted(s, x)[i]);
        }
    }
}

proof fn lemma_inserted_ascending<'a>(s: Seq<Intersection<'a>>, x: Intersection<'a>)
    requires
        numbers_only(s),
        !x.time().nan(),
        ascending(s),
    ensures
        ascending(inserted(s, x)),
    decreases s.len(),
{
    if s.len() > 0 && x.before(s.last()) {
        let head = s.drop_last();
        lemma_inserted_ascending(head, x);
        lemma_inserted_holds(head, x);
        let r = inserted(s, x);
        assert forall|i: int, j: int| 0 <= i < j < r.len() implies !(#[trigger] r[j]).before(
            #[trigger] r[i],
        ) by {
            if j == r.len() - 1 {
                lemma_inserted_from(head, x, i);
                if r[i] != x {
                    let k = choose|k: int| 0 <= k < head.len() && head[k] == inserted(head, x)[i];
                    assert(!s[s.len() - 1].before(s[k]));
                }
            } else {
                assert(r[i] == inserted(head, x)[i]);
                assert(r[j] == inserted(head, x)[j]);
            }
        }
    } else {
        let r = inserted(s, x);
        assert forall|i: int, j: int| 0 <= i < j < r.len() implies !(#[trigger] r[j]).before(
            #[trigger] r[i],
        ) by {
            if s.len() > 0 && j == r.len() - 1 {
                assert(!s[s.len() - 1].before(s[i]) || i == s.len() - 1);
            }
        }
    }
}

/// Where every distance is a number, the sorted sequence is in ascending
/// order: no hit is followed by a nearer one.
pub proof fn sort_is_ascending<'a>(s: Seq<Intersection<'a>>)
    requires
        numbers_only(s),
    ensures
        ascending(sorted(s)),
        numbers_only(sorted(s)),
    decreases s.len(),
{
    if s.len() > 0 {
        sort_is_ascending(s.drop_last());
        lemma_inserted_ascending(sorted(s.drop_last()), s.last());
        lemma_inserted_numbers(sorted(s.drop_last()), s.last());
    }
}

/// Sorting a sequence that is in ascending order already gives that very
/// sequence: no two hits change places, those at the same distance included.
pub proof fn sort_leaves_sorted_unchanged<'a>(s: Seq<Intersection<'a>>)
    requires
        ascending(s),
    ensures
        sorted(s) == s,
    decreases s.len(),
{
    if s.len() > 0 {
        let head = s.drop_last();
        assert forall|i: int, j: int| 0 <= i < j < head.len() implies !(#[trigger] head[j]).before(
            #[trigger] head[i],
        ) by {
            assert(!s[j].before(s[i]));
        }
        sort_leaves_sorted_unchanged(head);
        if head.len() > 0 {
            assert(!s[s.len() - 1].before(s[s.len() - 2]));
            assert(head.last() == s[s.len() - 2]);
        }
        assert(head.push(s.last()) =~= s);
    }
}

/// Sorting twice is sorting once.
pub proof fn sort_is_idempotent<'a>(s: Seq<Intersection<'a>>)
    requires
        numbers_only(s),
    ensures
        sorted(sorted(s)) == sorted(s),
{
    sort_is_ascending(s);
    sort_leaves_sorted_unchanged(sorted(s));
}

proof fn lemma_inserted_at_distance<'a>(s: Seq<Intersection<'a>>, x: Intersection<'a>, k: Intersection<'a>)
    ensures
        at_distance(inserted(s, x), k) == at_distance(s.push(x), k),
    decreases s.len(),
{
    let p = same_distance(k);
    if s.len() == 0 {
        assert(seq![x] =~= s.push(x));
    } else if x.before(s.last()) {
        let head = s.drop_last();
        lemma_inserted_at_distance(head, x, k);
        inserted(head, x).lemma_filter_push(s.last(), p);
        head.lemma_filter_push(x, p);
        head.lemma_filter_push(s.last(), p);
        s.lemma_filter_push(x, p);
        assert(head.push(s.last()) =~= s);
        assert(!(p(x) && p(s.last())));
    }
}

/// Sorting is stable: the hits at any one distance come out in the order in
/// which they went in.
pub proof fn sort_is_stable<'a>(s: Seq<Intersection<'a>>, k: Intersection<'a>)
    ensures
        at_distance(sorted(s), k) == at_distance(s, k),
    decreases s.len(),
{
    let p = same_distance(k);
    if s.len() > 0 {
        let head = s.drop_last();
        sort_is_stable(head, k);
        lemma_inserted_at_distance(sorted(head), s.last(), k);
        sorted(head).lemma_filter_push(s.last(), p);
        head.lemma_filter_push(s.last(), p);
        assert(head.push(s.last()) =~= s);
    }
}

/// In a sequence in ascending order, the hit that the standard strategy
/// selects is the nearest of those ahead: no hit that lies ahead is nearer.
pub proof fn selected_hit_is_nearest_ahead<'a>(s: Seq<Intersection<'a>>, at: int)
    requires
        ascending(s),
        first_kept(s, StandardHit {}, at),
    ensures
        s[at].ahead(),
        forall|j: int| 0 <= j < s.len() && (#[trigger] s[j]).ahead() ==> !s[j].before(s[at]),
{
    assert forall|j: int| 0 <= j < s.len() && (#[trigger] s[j]).ahead() implies !s[j].before(s[at]) by {
        if j < at {
            assert(!(StandardHit {}).keeps(s[j]));
        } else if j > at {
            assert(!s[j].before(s[at]));
        }
    }
}

/// The standard strategy selects nothing exactly when no hit lies ahead.
pub proof fn nothing_selected_means_nothing_ahead<'a>(s: Seq<Intersection<'a>>)
    ensures
        none_kept(s, StandardHit {}) <==> forall|j: int| 0 <= j < s.len() ==> !(#[trigger] s[j]).ahead(),
{
    if none_kept(s, StandardHit {}) {
        assert forall|j: int| 0 <= j < s.len() implies !(#[trigger] s[j]).ahead() by {
            assert(!(StandardHit {}).keeps(s[j]));
        }
    }
}

/// Whatever order the hits were gathered in, where every distance is a
/// number, the hit that the standard strategy selects after sorting is the
/// nearest of all the hits that lie ahead.
pub proof fn hit_after_sorting_is_nearest_of_all<'a>(s: Seq<Intersection<'a>>, at: int)
    requires
        numbers_only(s),
        first_kept(sorted(s), StandardHit {}, at),
    ensures
        sorted(s)[at].ahead(),
        exists|k: int| 0 <= k < s.len() && s[k] == sorted(s)[at],
        forall|j: int| 0 <= j < s.len() && (#[trigger] s[j]).ahead() ==> !s[j].before(sorted(s)[at]),
{
    broadcast use vstd::seq_lib::group_to_multiset_ensures;

    let t = sorted(s);
    sort_keeps_every_hit(s);
    sort_is_ascending(s);
    selected_hit_is_nearest_ahead(t, at);
    assert(t.contains(t[at]));
    assert(t.to_multiset().count(t[at]) > 0);
    assert(s.contains(t[at]));
    assert forall|j: int| 0 <= j < s.len() && (#[trigger] s[j]).ahead() implies !s[j].before(t[at]) by {
        assert(s.contains(s[j]));
        assert(s.to_multiset().count(s[j]) > 0);
        assert(t.contains(s[j]));
        let k = choose|k: int| 0 <= k < t.len() && t[k] == s[j];
        assert(t[k].ahead());
    }
}

/// After sorting, the standard strategy selects nothing exactly when none of
/// the hits lies ahead, whatever order they were gathered in.
pub proof fn nothing_selected_after_sorting<'a>(s: Seq<Intersection<'a>>)
    ensures
        none_kept(sorted(s), StandardHit {}) <==> forall|j: int|
            0 <= j < s.len() ==> !(#[trigger] s[j]).ahead(),
{
    broadcast use vstd::seq_lib::group_to_multiset_ensures;

    let t = sorted(s);
    sort_keeps_every_hit(s);
    nothing_selected_means_nothing_ahead(t);
    if none_kept(t, StandardHit {}) {
        assert forall|j: int| 0 <= j < s.len() implies !(#[trigger] s[j]).ahead() by {
            assert(s.contains(s[j]));
            assert(s.to_multiset().count(s[j]) > 0);
            assert(t.contains(s[j]));
            let k = choose|k: int| 0 <= k < t.len() && t[k] == s[j];
            assert(!t[k].ahead());
        }
    }
    if forall|j: int| 0 <= j < s.len() ==> !(#[trigger] s[j]).ahead() {
        assert forall|k: int| 0 <= k < t.len() implies !(#[trigger] t[k]).ahead() by {
            assert(t.contains(t[k]));
            assert(t.to_multiset().count(t[k]) > 0);
            assert(s.contains(t[k]));
            let j = choose|j: int| 0 <= j < s.len() && s[j] == t[k];
            assert(!s[j].ahead());
        }
    }
}

} // verus!
