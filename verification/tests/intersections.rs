use std::cmp::Ordering;

use rayflux::intersection::Intersection;
use rayflux::intersections::{HitPredicate, Intersections, ShadowHit, StandardHit};
use rayflux::object::Object;
use rayflux::scalar::Scalar;

fn s(x: f64) -> Scalar {
    Scalar::from_bits(x.to_bits())
}

fn f(x: Scalar) -> f64 {
    f64::from_bits(x.to_bits())
}

fn distances(xs: &Intersections) -> Vec<f64> {
    xs.get_all().iter().map(|i| f(i.t())).collect()
}

fn gathered<'a>(ts: &[f64], object: &'a Object) -> Intersections<'a> {
    let mut xs = Intersections::new();
    for t in ts {
        xs.push(Intersection::new(s(*t), object));
    }
    xs
}

// An intersection encapsulate t and object
#[test]
fn new_intersection() {
    let o = Object::new_sphere();
    let i = Intersection::new(s(3.5), &o);
    assert_eq!(f(i.t()), 3.5);
    assert_eq!(i.object(), &o);
}

#[test]
fn intersections_new_intersection() {
    let o = Object::new_sphere();
    let i = Intersection::new(s(3.5), &o);
    assert_eq!(i.t(), s(3.5));
    assert_eq!(i.object(), &o);
}

#[test]
fn intersections_is_empty_by_default() {
    let xs = Intersections::new();
    assert_eq!(xs.count(), 0);
}

#[test]
fn aggregating_intersections() {
    let o = Object::new_sphere();
    let i1 = Intersection::new(s(1.0), &o);
    let i2 = Intersection::new(s(2.0), &o);
    let xs = Intersections::new().with_intersections(vec![i1.clone(), i2.clone()]);
    assert_eq!(xs.count(), 2);
    assert_eq!(xs.get(0), Some(&i1));
    assert_eq!(xs.get(1), Some(&i2));
}

#[test]
fn intersections_aggregating_intersections() {
    let o = Object::new_sphere();
    let i1 = Intersection::new(s(1.0), &o);
    let i2 = Intersection::new(s(2.0), &o);
    let xs = Intersections::new().with_intersections(vec![i1.clone(), i2.clone()]);
    assert_eq!(xs.count(), 2);
    assert_eq!(xs.get(0), Some(&i1));
    assert_eq!(xs.get(1), Some(&i2));
}

#[test]
fn aggregating_intersections_with_pushes() {
    let o = Object::new_sphere();
    let i1 = Intersection::new(s(1.0), &o);
    let i2 = Intersection::new(s(2.0), &o);
    let mut xs = Intersections::new();
    xs.push(i1.clone());
    xs.push(i2.clone());
    assert_eq!(xs.count(), 2);
    assert_eq!(xs.get(0), Some(&i1));
    assert_eq!(xs.get(1), Some(&i2));
}

#[test]
fn a_place_beyond_the_end_holds_nothing() {
    let o = Object::new_sphere();
    let xs = gathered(&[1.0, 2.0], &o);
    assert_eq!(xs.get(2), None);
    assert_eq!(xs.get(usize::MAX), None);
    assert_eq!(Intersections::from_capacity(8).count(), 0);
    assert_eq!(Intersections::from_capacity(8).get(0), None);
}

#[test]
fn hits_are_ordered_by_distance_alone() {
    let sphere = Object::new_sphere();
    let cube = Object::new_cube();
    let near = Intersection::new(s(1.0), &sphere);
    let far = Intersection::new(s(2.0), &cube);
    let also_far = Intersection::new(s(2.0), &sphere);
    assert_eq!(near.cmp(&far), Ordering::Less);
    assert_eq!(far.cmp(&near), Ordering::Greater);
    assert_eq!(far.cmp(&also_far), Ordering::Equal);
    assert_eq!(near.partial_cmp(&far), Some(Ordering::Less));
    assert_eq!(far.partial_cmp(&near), Some(Ordering::Greater));
    assert_eq!(also_far.partial_cmp(&far), Some(Ordering::Equal));
    assert!(near.is_before(&far));
    assert!(!far.is_before(&also_far));
    let zero = Intersection::new(s(0.0), &sphere);
    let minus_zero = Intersection::new(s(-0.0), &sphere);
    assert_eq!(zero.cmp(&minus_zero), Ordering::Equal);
    assert!(zero.is_ahead() && minus_zero.is_ahead());
    assert!(!Intersection::new(s(-1.0e-300), &sphere).is_ahead());
}

#[test]
fn appending_joins_two_collections_in_order() {
    let o = Object::new_sphere();
    let mut xs = gathered(&[5.0, 1.0], &o);
    xs.append(gathered(&[3.0, -2.0], &o));
    assert_eq!(distances(&xs), vec![5.0, 1.0, 3.0, -2.0]);
    xs.append(Intersections::new());
    assert_eq!(xs.count(), 4);
    assert_eq!(distances(&Intersections::from_distances(&vec![s(7.0), s(-7.0)], &o)), vec![7.0, -7.0]);
    assert_eq!(xs.move_all().len(), 4);
}

#[test]
fn sorting_puts_the_nearest_first() {
    let o = Object::new_sphere();
    let xs = gathered(&[5.0, 7.0, -3.0, 2.0, f64::INFINITY, 0.0, f64::NEG_INFINITY], &o).sort();
    assert_eq!(
        distances(&xs),
        vec![f64::NEG_INFINITY, -3.0, 0.0, 2.0, 5.0, 7.0, f64::INFINITY]
    );
    assert_eq!(Intersections::new().sort().count(), 0);
}

#[test]
fn sorting_a_sorted_collection_changes_nothing() {
    let o = Object::new_sphere();
    let once = gathered(&[4.0, -1.0, 6.0, 4.0, 2.5], &o).sort();
    let first = once.get_all().clone();
    let twice = once.sort();
    assert_eq!(twice.get_all(), &first);
    assert_eq!(distances(&twice), vec![-1.0, 2.5, 4.0, 4.0, 6.0]);
}

#[test]
fn sorting_keeps_the_order_of_hits_at_one_distance() {
    let sphere = Object::new_sphere();
    let cube = Object::new_cube();
    let plane = Object::new_plane();
    let mut xs = Intersections::new();
    xs.push(Intersection::new(s(2.0), &cube));
    xs.push(Intersection::new(s(1.0), &plane));
    xs.push(Intersection::new(s(2.0), &sphere));
    xs.push(Intersection::new(s(1.0), &cube));
    xs.push(Intersection::new(s(2.0), &plane));
    let sorted = xs.sort();
    let order: Vec<(f64, &Object)> =
        sorted.get_all().iter().map(|i| (f(i.t()), i.object())).collect();
    assert_eq!(
        order,
        vec![(1.0, &plane), (1.0, &cube), (2.0, &cube), (2.0, &sphere), (2.0, &plane)]
    );
    let again = sorted.sort();
    let order: Vec<(f64, &Object)> =
        again.get_all().iter().map(|i| (f(i.t()), i.object())).collect();
    assert_eq!(
        order,
        vec![(1.0, &plane), (1.0, &cube), (2.0, &cube), (2.0, &sphere), (2.0, &plane)]
    );
}

#[test]
fn the_hit_is_the_nearest_that_lies_ahead() {
    let o = Object::new_sphere();
    let xs = gathered(&[5.0, 7.0, -3.0, 2.0], &o).sort();
    assert_eq!(xs.hit_index(StandardHit {}), Some(1));
    assert_eq!(xs.hit(StandardHit {}).map(|i| f(i.t())), Some(2.0));
    assert_eq!(xs.hit_index(ShadowHit {}), Some(1));
    assert_eq!(xs.hit(ShadowHit {}).map(|i| f(i.t())), Some(2.0));
    let xs = gathered(&[1.0, 2.0], &o).sort();
    assert_eq!(xs.hit_index(StandardHit {}), Some(0));
    let xs = gathered(&[-1.0, 1.0], &o).sort();
    assert_eq!(xs.hit(StandardHit {}).map(|i| f(i.t())), Some(1.0));
    let xs = gathered(&[-1.0, 0.0, 1.0], &o).sort();
    assert_eq!(xs.hit_index(StandardHit {}), Some(1));
}

#[test]
fn there_is_no_hit_where_every_distance_is_negative() {
    let o = Object::new_sphere();
    let xs = gathered(&[-2.0, -1.0], &o).sort();
    assert_eq!(xs.hit_index(StandardHit {}), None);
    assert_eq!(xs.hit(StandardHit {}), None);
    assert_eq!(xs.hit(ShadowHit {}), None);
    assert_eq!(Intersections::new().hit_index(StandardHit {}), None);
    let xs = gathered(&[f64::NAN, -1.0], &o);
    assert_eq!(xs.hit_index(StandardHit {}), None);
}

#[test]
fn the_first_hit_ahead_is_taken_as_the_hits_stand() {
    let o = Object::new_sphere();
    let xs = gathered(&[-1.0, 9.0, 3.0], &o);
    assert_eq!(xs.hit_index(StandardHit {}), Some(1));
    assert_eq!(xs.hit(StandardHit {}).map(|i| f(i.t())), Some(9.0));
}

#[test]
fn both_strategies_keep_what_lies_ahead() {
    let o = Object::new_sphere();
    for t in [-1.0, -0.0, 0.0, 1.0, f64::NAN, f64::INFINITY] {
        let i = Intersection::new(s(t), &o);
        assert_eq!(StandardHit {}.hit_predicate(&i), t >= 0.0);
        assert_eq!(StandardHit {}.hit_index_predicate(&i), t >= 0.0);
        assert_eq!(ShadowHit {}.hit_predicate(&i), t >= 0.0);
        assert_eq!(ShadowHit {}.hit_index_predicate(&i), t >= 0.0);
    }
}
