//! One candidate hit: how far along the ray it lies, and the object it is on.
use std::cmp::Ordering;
use vstd::prelude::*;
use crate::object::Object;
use crate::scalar::Scalar;

verus! {

/// A point where a ray meets an object, given by the ray's parameter `t` at
/// that point. The object is borrowed from the scene for as long as the
/// intersection lives.
#[derive(Debug, Clone, Copy, PartialEq)]
pub struct Intersection<'a> {
    t: Scalar,
    object: &'a Object,
}

impl<'a> Intersection<'a> {
    /// The ray's parameter at the hit.
    pub closed spec fn time(self) -> Scalar {
        self.t
    }

    /// The object that is hit.
    pub closed spec fn target(self) -> Object {
        *self.object
    }

    /// The hit on `object` at the distance `t`.
    pub closed spec fn made(t: Scalar, object: &'a Object) -> Intersection<'a> {
        Intersection { t, object }
    }

    /// A hit is made of its distance and its object, and of nothing else.
    pub broadcast proof fn made_of_its_parts(t: Scalar, object: &'a Object)
        ensures
            (#[trigger] Intersection::made(t, object)).time() == t,
            Intersection::made(t, object).target() == *object,
    {
    }

    /// Two hits at the same distance on the same object are the same hit.
    pub proof fn same_parts_same_hit(self, other: Intersection<'a>)
        requires
            self.time() == other.time(),
            self.target() == other.target(),
        ensures
            self == other,
    {
    }

    /// Whether the hit lies strictly nearer along the ray than `other`.
    pub open spec fn before(self, other: Intersection<'a>) -> bool {
        self.time().less(other.time())
    }

    /// Whether the hit lies at the ray's origin or ahead of it.
    pub open spec fn ahead(self) -> bool {
        self.time().non_negative()
    }

    pub fn new(t: Scalar, object: &'a Object) -> (i: Self)
        ensures
            i.time() == t,
            i.target() == *object,
    {
        Intersection { t, object }
    }

    pub fn t(&self) -> (t: Scalar)
        ensures
            t == self.time(),
    {
        self.t
    }

    pub fn object(&self) -> (o: &'a Object)
        ensures
            *o == self.target(),
    {
        self.object
    }

    /// Whether this hit lies strictly nearer along the ray than `other`.
    pub fn is_before(&self, other: &Intersection<'a>) -> (b: bool)
        ensures
            b == self.before(*other),
    {
        self.t.lt(&other.t)
    }

    /// Whether this hit lies at the ray's origin or ahead of it.
    pub fn is_ahead(&self) -> (b: bool)
        ensures
            b == self.ahead(),
    {
        self.t.is_non_negative()
    }

    /// Orders two hits by their distance alone: the nearer is the lesser, and
    /// two that neither is nearer than the other are equal, whatever they hit.
    pub fn cmp(&self, other: &Intersection<'a>) -> (o: Ordering)
        ensures
            (o == Ordering::Less) == self.before(*other),
            (o == Ordering::Greater) == (!self.before(*other) && other.before(*self)),
            (o == Ordering::Equal) == (!self.before(*other) && !other.before(*self)),
    {
        if self.t.lt(&other.t) {
            Ordering::Less
        } else if other.t.lt(&self.t) {
            Ordering::Greater
        } else {
            Ordering::Equal
        }
    }

    /// The same order as `cmp`; it is total, so the answer is never `None`.
    pub fn partial_cmp(&self, other: &Intersection<'a>) -> (o: Option<Ordering>)
        ensures
            o.is_some(),
            (o == Some(Ordering::Less)) == self.before(*other),
            (o == Some(Ordering::Greater)) == (!self.before(*other) && other.before(*self)),
            (o == Some(Ordering::Equal)) == (!self.before(*other) && !other.before(*self)),
    {
        Some(self.cmp(other))
    }
}

} // verus!
