//! One ray against a whole scene: the hits that the readings give are
//! gathered object by object and sorted by distance, and the hit that counts
//! is described.
use vstd::prelude::*;
use crate::algebra::{dot, dot_bits, flipped, negate, vector_bits};
use crate::hittable::Hittable;
use crate::intersection::Intersection;
use crate::intersections::{on_object, sorted, IndexOutOfRange, Intersections};
use crate::measure::{Reading, ReadingError, SurfaceReading};
use crate::object::Object;
use crate::ray::Ray;
use crate::scalar::Scalar;
use crate::scene::Scene;

verus! {

/// The hits on `object` at the given distances, in their order.
pub open spec fn hits_on<'a>(distances: Seq<Scalar>, object: &'a Object) -> Seq<Intersection<'a>> {
    Seq::new(distances.len(), |i: int| Intersection::made(distances[i], object))
}

/// There is one reading for every object, and each is of the object's kind.
pub open spec fn readings_fit(objects: Seq<Object>, readings: Seq<Reading>) -> bool {
    &&& objects.len() == readings.len()
    &&& forall|i: int| 0 <= i < objects.len() ==> (#[trigger] objects[i]).world_fits(readings[i])
}

/// What is wrong with readings that do not fit: `error` names the first
/// fault there is, the count before the kinds, and of the kinds the first
/// object whose reading is of another kind.
pub open spec fn is_fault(objects: Seq<Object>, readings: Seq<Reading>, error: ReadingError) -> bool {
    match error {
        ReadingError::WrongCount { objects: n, readings: given } => {
            &&& n == objects.len()
            &&& given == readings.len()
            &&& n != given
        },
        ReadingError::WrongKind { object } => {
            &&& objects.len() == readings.len()
            &&& object < readings.len()
            &&& !objects[object as int].world_fits(readings[object as int])
            &&& forall|j: int| 0 <= j < object ==> (#[trigger] objects[j]).world_fits(readings[j])
        },
    }
}

/// Readings that fit have no fault, and readings with a fault do not fit.
pub proof fn fault_means_misfit(objects: Seq<Object>, readings: Seq<Reading>, error: ReadingError)
    requires
        is_fault(objects, readings, error),
    ensures
        !readings_fit(objects, readings),
{
}

/// The hits of all the objects, each by its own reading: those of the first
/// object first, in the order in which that object gives them, then those of
/// the second, and so on. No object is left out and no hit is dropped.
pub open spec fn gathered_hits<'a>(objects: Seq<Object>, readings: Seq<Reading>) -> Seq<Intersection<'a>>
    decreases objects.len(),
{
    if objects.len() == 0 || readings.len() == 0 {
        Seq::empty()
    } else {
        gathered_hits(objects.drop_last(), readings.drop_last()) + hits_on(
            objects.last().world_distances(readings.last()),
            &objects.last(),
        )
    }
}

/// Hits on an object at given distances are the hits that `hits_on` makes.
pub proof fn hits_are_made<'a>(xs: Seq<Intersection<'a>>, distances: Seq<Scalar>, object: &'a Object)
    requires
        on_object(xs, distances, *object),
    ensures
        xs == hits_on(distances, object),
{
    broadcast use Intersection::made_of_its_parts;

    assert forall|i: int| 0 <= i < xs.len() implies xs[i] == hits_on(distances, object)[i] by {
        xs[i].same_parts_same_hit(Intersection::made(distances[i], object));
    }
    assert(xs =~= hits_on(distances, object));
}

/// Every gathered hit lies on one of the objects.
pub proof fn gathered_hits_lie_on_the_objects<'a>(objects: Seq<Object>, readings: Seq<Reading>, i: int)
    requires
        0 <= i < gathered_hits(objects, readings).len(),
    ensures
        exists|k: int|
            0 <= k < objects.len() && gathered_hits(objects, readings)[i].target() == objects[k],
    decreases objects.len(),
{
    broadcast use Intersection::made_of_its_parts;

    if objects.len() > 0 && readings.len() > 0 {
        let earlier = gathered_hits(objects.drop_last(), readings.drop_last());
        if i < earlier.len() {
            gathered_hits_lie_on_the_objects(objects.drop_last(), readings.drop_last(), i);
            let k = choose|k: int|
                0 <= k < objects.drop_last().len() && earlier[i].target() == objects.drop_last()[k];
            assert(gathered_hits(objects, readings)[i].target() == objects[k]);
        } else {
            assert(gathered_hits(objects, readings)[i].target() == objects[objects.len() - 1]);
        }
    }
}

/// The number of gathered hits is the sum of what the objects give: the hits
/// of the last object come on top of those of the objects before it.
pub proof fn gathered_hits_count<'a>(objects: Seq<Object>, readings: Seq<Reading>)
    requires
        objects.len() > 0,
        readings.len() > 0,
    ensures
        gathered_hits(objects, readings).len() == gathered_hits(
            objects.drop_last(),
            readings.drop_last(),
        ).len() + objects.last().world_distances(readings.last()).len(),
{
}

/// The hits of a ray on all the objects of a scene, sorted by distance, the
/// nearest first. `readings` holds, for each object in the scene's order, the
/// reading of the ray taken into that object's space. Every object is asked;
/// none is skipped, and no hit is culled, those behind the ray's origin
/// included.
pub fn intersect_scene<'a>(readings: &Vec<Reading>, scene: &'a Scene) -> (r: Result<
    Intersections<'a>,
    ReadingError,
>)
    ensures
        match r {
            Ok(xs) => {
                &&& readings_fit(scene.objects_view(), readings@)
                &&& xs@ == sorted(gathered_hits(scene.objects_view(), readings@))
            },
            Err(error) => is_fault(scene.objects_view(), readings@, error),
        },
{
    let objects = scene.objects();
    if objects.len() != readings.len() {
        return Err(ReadingError::WrongCount { objects: objects.len(), readings: readings.len() });
    }
    let mut all = Intersections::new();
    let mut i: usize = 0;
    while i < objects.len()
        invariant
            i <= objects@.len(),
            objects@.len() == readings@.len(),
            objects@ == scene.objects_view(),
            all@ == gathered_hits(objects@.take(i as int), readings@.take(i as int)),
            forall|j: int| 0 <= j < i ==> (#[trigger] objects@[j]).world_fits(readings@[j]),
        decreases objects@.len() - i,
    {
        match objects[i].intersect(&readings[i]) {
            None => {
                return Err(ReadingError::WrongKind { object: i });
            },
            Some(found) => {
                proof {
                    let next_objects = objects@.take(i as int + 1);
                    let next_readings = readings@.take(i as int + 1);
                    assert(next_objects.drop_last() =~= objects@.take(i as int));
                    assert(next_readings.drop_last() =~= readings@.take(i as int));
                    assert(next_objects.last() == objects@[i as int]);
                    assert(next_readings.last() == readings@[i as int]);
                    hits_are_made(
                        found@,
                        objects@[i as int].world_distances(readings@[i as int]),
                        &objects@[i as int],
                    );
                }
                all.append(found);
            },
        }
        i = i + 1;
    }
    proof {
        assert(objects@.take(objects@.len() as int) =~= objects@);
        assert(readings@.take(readings@.len() as int) =~= readings@);
    }
    Ok(all.sort())
}

/// The components of a normal turned to face the viewer: where the normal
/// points along the ray rather than against it, all three signs are flipped.
pub open spec fn facing_bits(normal: Seq<u64>, direction: Seq<u64>) -> Seq<u64> {
    if points_away(normal, direction) {
        seq![flipped(normal[0]), flipped(normal[1]), flipped(normal[2])]
    } else {
        normal
    }
}

/// Whether a normal points away from the viewer: its dot product with the
/// reversed direction of the ray is below zero.
pub open spec fn points_away(normal: Seq<u64>, direction: Seq<u64>) -> bool {
    (Scalar {
        bits: dot_bits(
            normal,
            seq![flipped(direction[0]), flipped(direction[1]), flipped(direction[2])],
        ),
    }).less(Scalar::zero())
}

/// Turns a normal to face the viewer who looks along `direction`, and says
/// whether it had to be turned: then the surface is seen from inside.
pub fn face_viewer(normal: glam::DVec3, direction: &glam::DVec3) -> (r: (glam::DVec3, bool))
    ensures
        r.1 == points_away(vector_bits(normal), vector_bits(*direction)),
        vector_bits(r.0) == facing_bits(vector_bits(normal), vector_bits(*direction)),
{
    let eye = negate(direction);
    if dot(&normal, &eye).canonicalized().lt(&Scalar { bits: 0 }) {
        (negate(&normal), true)
    } else {
        (normal, false)
    }
}

/// All that is known of one hit.
pub struct IntersectionInfos<'a> {
    /// The ray's parameter at the hit.
    pub t: Scalar,
    /// The object that is hit.
    pub object: &'a Object,
    /// The point of the hit, in the world's space.
    pub point: glam::DVec3,
    /// The normal of the surface there, turned to face the viewer.
    pub normal: glam::DVec3,
    /// Whether the surface is seen from inside.
    pub inside: bool,
}

impl<'a> IntersectionInfos<'a> {
    /// Describes a hit whose point and normal are known: the normal is turned
    /// to face the viewer who looks along the ray.
    pub fn facing(intersection: &Intersection<'a>, point: glam::DVec3, normal: glam::DVec3, ray: &Ray) -> (infos:
        Self)
        ensures
            infos.t == intersection.time(),
            *infos.object == intersection.target(),
            vector_bits(infos.point) == vector_bits(point),
            infos.inside == points_away(vector_bits(normal), vector_bits(ray.direction)),
            vector_bits(infos.normal) == facing_bits(vector_bits(normal), vector_bits(ray.direction)),
    {
        let (turned, inside) = face_viewer(normal, &ray.direction);
        IntersectionInfos {
            t: intersection.t(),
            object: intersection.object(),
            point,
            normal: turned,
            inside,
        }
    }

    /// Describes the hit at place `intersection_index` of `intersections`, for
    /// the ray that gave them. `point` is the point `origin + t * direction`
    /// of the ray at that hit's distance, and `surface` is measured of that
    /// point taken into the object's space. The normal is the object's normal
    /// at the point, turned to face the viewer. Where there is no such place,
    /// the answer is the signal that says so.
    pub fn new(
        intersections: &'a Intersections<'a>,
        intersection_index: usize,
        ray: &Ray,
        point: glam::DVec3,
        surface: &SurfaceReading,
    ) -> (r: Result<Self, IndexOutOfRange>)
        ensures
            intersection_index >= intersections@.len() ==> r == Err::<Self, IndexOutOfRange>(
                IndexOutOfRange { index: intersection_index, count: intersections@.len() as usize },
            ),
            intersection_index < intersections@.len() ==> r.is_ok() && {
                let infos = r.unwrap();
                let hit = intersections@[intersection_index as int];
                let raw = hit.target().world_normal_bits(vector_bits(point), *surface);
                &&& infos.t == hit.time()
                &&& *infos.object == hit.target()
                &&& vector_bits(infos.point) == vector_bits(point)
                &&& infos.inside == points_away(raw, vector_bits(ray.direction))
                &&& vector_bits(infos.normal) == facing_bits(raw, vector_bits(ray.direction))
            },
    {
        match intersections.get(intersection_index) {
            None => Err(IndexOutOfRange { index: intersection_index, count: intersections.count() }),
            Some(intersection) => {
                let raw = intersection.object().normal_at(point, surface);
                Ok(IntersectionInfos::facing(intersection, point, raw, ray))
            },
        }
    }
}

} // verus!
