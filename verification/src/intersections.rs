//! The candidate hits of one ray, kept in a sequence: gathered in any order,
//! sorted by distance, and searched for the hit that counts.
use vstd::prelude::*;
use crate::intersection::Intersection;
use crate::object::Object;
use crate::scalar::Scalar;

verus! {

/// The sequence `s`, in ascending order already, with `x` put in behind every
/// hit that is not farther than `x`.
pub open spec fn inserted<'a>(s: Seq<Intersection<'a>>, x: Intersection<'a>) -> Seq<Intersection<'a>>
    decreases s.len(),
{
    if s.len() == 0 {
        seq![x]
    } else if x.before(s.last()) {
        inserted(s.drop_last(), x).push(s.last())
    } else {
        s.push(x)
    }
}

/// The hits of `s` sorted by distance, nearest first, where hits at the same
/// distance keep the order they had: each hit in turn is inserted into the
/// sorted sequence of those before it.
pub open spec fn sorted<'a>(s: Seq<Intersection<'a>>) -> Seq<Intersection<'a>>
    decreases s.len(),
{
    if s.len() == 0 {
        s
    } else {
        inserted(sorted(s.drop_last()), s.last())
    }
}

/// No hit is followed by a nearer one.
pub open spec fn ascending<'a>(s: Seq<Intersection<'a>>) -> bool {
    forall|i: int, j: int| 0 <= i < j < s.len() ==> !(#[trigger] s[j]).before(#[trigger] s[i])
}

/// Every distance in the sequence is a number.
pub open spec fn numbers_only<'a>(s: Seq<Intersection<'a>>) -> bool {
    forall|i: int| 0 <= i < s.len() ==> !(#[trigger] s[i]).time().nan()
}

/// The hits of `s` all lie on `object`, at the given distances in their order.
pub open spec fn on_object<'a>(s: Seq<Intersection<'a>>, distances: Seq<Scalar>, object: Object) -> bool {
    &&& s.len() == distances.len()
    &&& forall|i: int|
        0 <= i < s.len() ==> (#[trigger] s[i]).time() == distances[i] && s[i].target() == object
}

/// Which hits count. A strategy answers for one hit at a time; the collection
/// asks it hit after hit, from the front.
pub trait HitPredicate {
    /// Whether the strategy lets the hit count.
    spec fn keeps(&self, i: Intersection<'_>) -> bool;

    /// The test that `hit` applies.
    fn hit_predicate(&self, i: &Intersection<'_>) -> (b: bool)
        ensures
            b == self.keeps(*i),
    ;

    /// The test that `hit_index` applies.
    fn hit_index_predicate(&self, i: &Intersection<'_>) -> (b: bool)
        ensures
            b == self.keeps(*i),
    ;
}

/// The strategy for what the eye sees: a hit counts when it lies ahead.
pub struct StandardHit {}

/// The strategy for what casts a shadow: as yet the same as `StandardHit`.
pub struct ShadowHit {}

impl HitPredicate for StandardHit {
    open spec fn keeps(&self, i: Intersection<'_>) -> bool {
        i.ahead()
    }

    fn hit_predicate(&self, i: &Intersection<'_>) -> (b: bool) {
        i.is_ahead()
    }

    fn hit_index_predicate(&self, i: &Intersection<'_>) -> (b: bool) {
        i.is_ahead()
    }
}

impl HitPredicate for ShadowHit {
    open spec fn keeps(&self, i: Intersection<'_>) -> bool {
        i.ahead()
    }

    fn hit_predicate(&self, i: &Intersection<'_>) -> (b: bool) {
        i.is_ahead()
    }

    fn hit_index_predicate(&self, i: &Intersection<'_>) -> (b: bool) {
        i.is_ahead()
    }
}

/// `at` is the place of the first hit of `s` that the strategy keeps.
pub open spec fn first_kept<'a, P: HitPredicate>(s: Seq<Intersection<'a>>, predicate: P, at: int) -> bool {
    &&& 0 <= at < s.len()
    &&& predicate.keeps(s[at])
    &&& forall|j: int| 0 <= j < at ==> !predicate.keeps(#[trigger] s[j])
}

/// The strategy keeps no hit of `s`.
pub open spec fn none_kept<'a, P: HitPredicate>(s: Seq<Intersection<'a>>, predicate: P) -> bool {
    forall|j: int| 0 <= j < s.len() ==> !predicate.keeps(#[trigger] s[j])
}

/// The signal that a place was asked for that a collection does not have.
#[derive(Debug, Clone, Copy, PartialEq, Eq, Structural)]
pub struct IndexOutOfRange {
    /// The place that was asked for.
    pub index: usize,
    /// The number of places that there are.
    pub count: usize,
}

pub struct Intersections<'a> {
    intersections: Vec<Intersection<'a>>,
}

impl<'a> View for Intersections<'a> {
    type V = Seq<Intersection<'a>>;

    closed spec fn view(&self) -> Seq<Intersection<'a>> {
        self.intersections@
    }
}

/// Where, from place `j` on, every hit of `s` is farther than `x`, and the hit
/// before place `j`, if there is one, is not, `x` is inserted at place `j`.
proof fn lemma_inserted_at<'a>(s: Seq<Intersection<'a>>, x: Intersection<'a>, j: int)
    requires
        0 <= j <= s.len(),
        forall|k: int| j <= k < s.len() ==> x.before(#[trigger] s[k]),
        j > 0 ==> !x.before(s[j - 1]),
    ensures
        inserted(s, x) == s.insert(j, x),
    decreases s.len(),
{
    if s.len() == 0 {
        assert(s.insert(j, x) =~= seq![x]);
    } else if j == s.len() {
        assert(s.insert(j, x) =~= s.push(x));
    } else {
        lemma_inserted_at(s.drop_last(), x, j);
        assert(s.drop_last().insert(j, x).push(s.last()) =~= s.insert(j, x));
    }
}

impl<'a> Intersections<'a> {
    /// The empty collection.
    pub fn new() -> (xs: Self)
        ensures
            xs@ == Seq::<Intersection<'a>>::empty(),
    {
        Intersections { intersections: Vec::new() }
    }

    /// The empty collection, with room for `size` hits.
    pub fn from_capacity(size: usize) -> (xs: Self)
        ensures
            xs@ == Seq::<Intersection<'a>>::empty(),
    {
        Intersections { intersections: Vec::with_capacity(size) }
    }

    /// The collection that holds exactly the given hits, in their order.
    pub fn with_intersections(self, intersections: Vec<Intersection<'a>>) -> (xs: Self)
        ensures
            xs@ == intersections@,
    {
        Intersections { intersections }
    }

    /// The hits on `object` at the given distances, in their order.
    pub fn from_distances(distances: &Vec<Scalar>, object: &'a Object) -> (xs: Self)
        ensures
            on_object(xs@, distances@, *object),
    {
        let mut out: Vec<Intersection<'a>> = Vec::new();
        let mut i: usize = 0;
        while i < distances.len()
            invariant
                i <= distances@.len(),
                on_object(out@, distances@.take(i as int), *object),
            decreases distances@.len() - i,
        {
            out.push(Intersection::new(distances[i], object));
            i = i + 1;
        }
        proof {
            assert(distances@.take(distances@.len() as int) =~= distances@);
        }
        Intersections { intersections: out }
    }

    /// Adds one hit at the end.
    pub fn push(&mut self, intersection: Intersection<'a>)
        ensures
            final(self)@ == old(self)@.push(intersection),
    {
        self.intersections.push(intersection);
    }

    /// Adds the hits of `other` at the end, in their order.
    pub fn append(&mut self, other: Intersections<'a>)
        ensures
            final(self)@ == old(self)@ + other@,
    {
        let mut rest = other.move_all();
        self.intersections.append(&mut rest);
    }

    /// The hits sorted by distance, nearest first; hits at the same distance
    /// keep their order.
    pub fn sort(self) -> (xs: Self)
        ensures
            xs@ == sorted(self@),
            xs@.to_multiset() == self@.to_multiset(),
            numbers_only(self@) ==> ascending(xs@),
    {
        proof {
            crate::order::sort_keeps_every_hit(self@);
            if numbers_only(self@) {
                crate::order::sort_is_ascending(self@);
            }
        }
        let mut out: Vec<Intersection<'a>> = Vec::new();
        let n: usize = self.intersections.len();
        let mut i: usize = 0;
        while i < n
            invariant
                n == self.intersections@.len(),
                i <= n,
                out@ == sorted(self.intersections@.take(i as int)),
                out@.len() == i,
            decreases n - i,
        {
            let x = self.intersections[i];
            let mut j: usize = out.len();
            while j > 0 && x.is_before(&out[j - 1])
                invariant
                    j <= out@.len(),
                    forall|k: int| j <= k < out@.len() ==> x.before(#[trigger] out@[k]),
                decreases j,
            {
                j = j - 1;
            }
            proof {
                lemma_inserted_at(out@, x, j as int);
                let prefix = self.intersections@.take(i as int + 1);
                assert(prefix.drop_last() =~= self.intersections@.take(i as int));
                assert(prefix.last() == x);
            }
            out.insert(j, x);
            i = i + 1;
        }
        proof {
            assert(self.intersections@.take(n as int) =~= self.intersections@);
        }
        Intersections { intersections: out }
    }

    /// The first hit that the strategy keeps, or `None` where it keeps none.
    pub fn hit<P: HitPredicate>(&self, predicate: P) -> (r: Option<&Intersection<'a>>)
        ensures
            match r {
                Some(i) => exists|at: int| first_kept(self@, predicate, at) && *i == self@[at],
                None => none_kept(self@, predicate),
            },
    {
        let mut k: usize = 0;
        while k < self.intersections.len()
            invariant
                k <= self.intersections@.len(),
                forall|j: int| 0 <= j < k ==> !predicate.keeps(#[trigger] self.intersections@[j]),
            decreases self.intersections@.len() - k,
        {
            if predicate.hit_predicate(&self.intersections[k]) {
                assert(first_kept(self@, predicate, k as int));
                return Some(&self.intersections[k]);
            }
            k = k + 1;
        }
        None
    }

    /// The place of the first hit that the strategy keeps, or `None` where it
    /// keeps none.
    pub fn hit_index<P: HitPredicate>(&self, predicate: P) -> (r: Option<usize>)
        ensures
            match r {
                Some(at) => first_kept(self@, predicate, at as int),
                None => none_kept(self@, predicate),
            },
    {
        let mut k: usize = 0;
        while k < self.intersections.len()
            invariant
                k <= self.intersections@.len(),
                forall|j: int| 0 <= j < k ==> !predicate.keeps(#[trigger] self.intersections@[j]),
            decreases self.intersections@.len() - k,
        {
            if predicate.hit_index_predicate(&self.intersections[k]) {
                return Some(k);
            }
            k = k + 1;
        }
        None
    }

    /// The number of hits.
    pub fn count(&self) -> (n: usize)
        ensures
            n == self@.len(),
    {
        self.intersections.len()
    }

    /// The hit at place `index`, or `None` where there is no such place.
    pub fn get(&self, index: usize) -> (r: Option<&Intersection<'a>>)
        ensures
            index < self@.len() ==> r == Some(&self@[index as int]),
            index >= self@.len() ==> r.is_none(),
    {
        if index < self.intersections.len() {
            Some(&self.intersections[index])
        } else {
            None
        }
    }

    /// The hit at place `index`, or the signal that there is no such place.
    pub fn at(&self, index: usize) -> (r: Result<&Intersection<'a>, IndexOutOfRange>)
        ensures
            index < self@.len() ==> r == Ok::<&Intersection<'a>, IndexOutOfRange>(
                &self@[index as int],
            ),
            index >= self@.len() ==> r == Err::<&Intersection<'a>, IndexOutOfRange>(
                IndexOutOfRange { index, count: self@.len() as usize },
            ),
    {
        if index < self.intersections.len() {
            Ok(&self.intersections[index])
        } else {
            Err(IndexOutOfRange { index, count: self.intersections.len() })
        }
    }

    /// The hits, handed over.
    pub fn move_all(self) -> (v: Vec<Intersection<'a>>)
        ensures
            v@ == self@,
    {
        self.intersections
    }

    /// The hits, to look at.
    pub fn get_all(&self) -> (v: &Vec<Intersection<'a>>)
        ensures
            v@ == self@,
    {
        &self.intersections
    }
}

} // verus!
