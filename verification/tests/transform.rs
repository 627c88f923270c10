use std::f64::consts::FRAC_PI_2;

use glam::{dvec3, DMat4, DQuat, DVec3, Vec3};
use rayflux::camera::{Camera, Single};
use rayflux::color::Color;
use rayflux::material::Material;
use rayflux::object::Object;
use rayflux::ray::Ray;
use rayflux::scalar::Scalar;
use rayflux::scene::Scene;
use rayflux::shapes::{Cube, Cylinder, Plane, Shape, Sphere};
use rayflux::transform::Transform;

const EPSILON: f64 = 0.00001;

#[test]
fn a_new_transform_changes_nothing() {
    let t = Transform::new();
    assert!(!t.is_dirty());
    assert_eq!(t.matrix(), DMat4::IDENTITY);
    assert_eq!(t.inverse_matrix(), DMat4::IDENTITY);
    assert_eq!(t.inverse_transpose_matrix(), DMat4::IDENTITY);
    assert_eq!(Transform::default(), t);
}

#[test]
fn a_changed_transform_is_stale_until_it_is_updated() {
    let mut t = Transform::from_translation(dvec3(1.0, 2.0, 3.0));
    assert!(t.is_dirty());
    assert_eq!(t.matrix(), DMat4::IDENTITY);
    t.update_matrix();
    assert!(!t.is_dirty());
    assert_eq!(t.matrix(), DMat4::from_translation(dvec3(1.0, 2.0, 3.0)));
    assert_eq!(t.inverse_matrix(), DMat4::from_translation(dvec3(-1.0, -2.0, -3.0)));
    assert_eq!(
        t.inverse_transpose_matrix(),
        DMat4::from_translation(dvec3(-1.0, -2.0, -3.0)).transpose()
    );
    t.translate(dvec3(1.0, 1.0, 1.0));
    assert!(t.is_dirty());
    assert_eq!(t.matrix(), DMat4::from_translation(dvec3(1.0, 2.0, 3.0)));
    t.update_matrix();
    assert_eq!(t.matrix(), DMat4::from_translation(dvec3(2.0, 3.0, 4.0)));
}

#[test]
fn the_matrix_is_translation_times_rotation_times_scale() {
    let translation = dvec3(1.0, -2.0, 0.5);
    let rotation = DQuat::from_rotation_y(0.7);
    let scale = dvec3(2.0, 4.0, 0.5);
    let mut t = Transform::new()
        .with_translation(translation)
        .with_rotation(rotation)
        .with_scale(scale);
    assert!(t.is_dirty());
    t.update_matrix();
    let expected =
        DMat4::from_translation(translation) * DMat4::from_quat(rotation) * DMat4::from_scale(scale);
    assert_eq!(t.matrix(), expected);
    assert_eq!(t.inverse_matrix(), expected.inverse());
    assert_eq!(t.inverse_transpose_matrix(), expected.inverse().transpose());
    let p = t.matrix().transform_point3(dvec3(1.0, 0.0, 0.0));
    assert!(p.abs_diff_eq(dvec3(1.0 + 2.0 * 0.7_f64.cos(), -2.0, 0.5 - 2.0 * 0.7_f64.sin()), EPSILON));
}

#[test]
fn each_builder_sets_its_own_part() {
    let mut scaled = Transform::from_scale(dvec3(2.0, 2.0, 2.0));
    scaled.update_matrix();
    assert_eq!(scaled.matrix(), DMat4::from_scale(dvec3(2.0, 2.0, 2.0)));
    assert_eq!(scaled.inverse_matrix(), DMat4::from_scale(dvec3(0.5, 0.5, 0.5)));
    let mut turned = Transform::from_rotation(DQuat::from_rotation_z(FRAC_PI_2));
    assert!(turned.is_dirty());
    turned.update_matrix();
    assert_eq!(turned.matrix(), DMat4::from_quat(DQuat::from_rotation_z(FRAC_PI_2)));
    let mut replaced = Transform::from_translation(dvec3(9.0, 9.0, 9.0))
        .with_translation(dvec3(1.0, 0.0, 0.0));
    replaced.update_matrix();
    assert_eq!(replaced.matrix(), DMat4::from_translation(dvec3(1.0, 0.0, 0.0)));
}

#[test]
fn a_new_rotation_is_applied_after_the_old_one() {
    let first = DQuat::from_rotation_x(FRAC_PI_2);
    let second = DQuat::from_rotation_y(FRAC_PI_2);
    let mut t = Transform::from_rotation(first);
    t.rotate(second);
    assert!(t.is_dirty());
    t.update_matrix();
    assert_eq!(t.matrix(), DMat4::from_quat(second * first));
    let image = t.matrix().transform_vector3(DVec3::Y);
    assert!(image.abs_diff_eq(dvec3(1.0, 0.0, 0.0), EPSILON));
}

#[test]
fn the_axes_are_turned_by_the_rotation() {
    let t = Transform::new();
    assert_eq!(t.left(), dvec3(1.0, 0.0, 0.0));
    assert_eq!(t.right(), dvec3(-1.0, 0.0, 0.0));
    assert_eq!(t.up(), dvec3(0.0, 1.0, 0.0));
    assert_eq!(t.down(), dvec3(0.0, -1.0, 0.0));
    assert_eq!(t.forward(), dvec3(0.0, 0.0, 1.0));
    assert_eq!(t.backward(), dvec3(0.0, 0.0, -1.0));
    let q = DQuat::from_rotation_y(FRAC_PI_2);
    let t = Transform::from_rotation(q);
    assert_eq!(t.left(), q * DVec3::X);
    assert_eq!(t.right(), q * DVec3::NEG_X);
    assert_eq!(t.up(), q * DVec3::Y);
    assert_eq!(t.down(), q * DVec3::NEG_Y);
    assert_eq!(t.forward(), q * DVec3::Z);
    assert_eq!(t.backward(), q * DVec3::NEG_Z);
    assert!(t.forward().abs_diff_eq(dvec3(1.0, 0.0, 0.0), EPSILON));
    assert!(t.left().abs_diff_eq(dvec3(0.0, 0.0, -1.0), EPSILON));
}

#[test]
fn a_ray_is_mapped_point_and_direction() {
    let r = Ray::new(dvec3(1.0, 2.0, 3.0), dvec3(0.0, 1.0, 0.0));
    assert_eq!(r.origin, dvec3(1.0, 2.0, 3.0));
    assert_eq!(r.direction, dvec3(0.0, 1.0, 0.0));
    let moved = r.transform(&DMat4::from_translation(dvec3(3.0, 4.0, 5.0)));
    assert_eq!(moved.origin, dvec3(4.0, 6.0, 8.0));
    assert_eq!(moved.direction, dvec3(0.0, 1.0, 0.0));
    let scaled = r.transform(&DMat4::from_scale(dvec3(2.0, 3.0, 4.0)));
    assert_eq!(scaled.origin, dvec3(2.0, 6.0, 12.0));
    assert_eq!(scaled.direction, dvec3(0.0, 3.0, 0.0));
}

#[test]
fn objects_start_unplaced() {
    assert_eq!(Object::new_sphere().shape(), &Shape::Sphere(Sphere::new()));
    assert_eq!(Object::new_plane().shape(), &Shape::Plane(Plane::new()));
    assert_eq!(Object::new_cube().shape(), &Shape::Cube(Cube::new()));
    assert_eq!(Object::new_cylinder().shape(), &Shape::Cylinder(Cylinder::new()));
    assert_eq!(Object::new(Shape::Cube(Cube::default())), Object::new_cube());
    let o = Object::new_sphere();
    assert_eq!(o.transform(), &Transform::new());
    assert_eq!(o.material(), &Material::default());
    let t = Transform::from_scale(dvec3(2.0, 2.0, 2.0));
    let mut o = o.with_transform(t);
    assert_eq!(o.transform(), &t);
    o.transform_mut().update_matrix();
    assert_eq!(o.transform().matrix(), DMat4::from_scale(dvec3(2.0, 2.0, 2.0)));
    assert_eq!(o.shape(), &Shape::Sphere(Sphere::default()));
}

#[test]
fn a_cylinder_starts_open_and_without_extent() {
    let c = Cylinder::new();
    assert_eq!(f64::from_bits(c.min.bits), 0.0);
    assert_eq!(f64::from_bits(c.max.bits), 0.0);
    assert!(!c.closed);
    assert_eq!(Cylinder::default(), c);
    assert_eq!(c.min, Scalar::from_bits(0));
}

#[test]
fn the_default_camera_looks_at_the_origin() {
    let c = Camera::default();
    assert_eq!(c.position(), Vec3::new(0.0, 0.0, 5.0));
    assert_eq!(c.target(), Vec3::ZERO);
    assert_eq!(c.up(), Vec3::Y);
    assert_eq!(f32::from_bits(c.field_of_view().bits), std::f32::consts::FRAC_PI_4);
    assert_eq!(f32::from_bits(c.aspect_ratio().bits), 1.0);
    assert_eq!(f32::from_bits(c.near().bits), 0.1);
    assert_eq!(f32::from_bits(c.far().bits), 100.0);
    assert_eq!(c.background(), Color::black());
    assert!(!c.is_dirty());
}

#[test]
fn every_change_marks_the_camera() {
    let mut c = Camera::default();
    c.set_position(Vec3::new(1.0, 2.0, 3.0));
    assert!(c.is_dirty());
    assert_eq!(c.position(), Vec3::new(1.0, 2.0, 3.0));
    c.set_clean();
    assert!(!c.is_dirty());
    c.set_target(Vec3::new(0.0, 1.0, 0.0));
    assert!(c.is_dirty());
    assert_eq!(c.target(), Vec3::new(0.0, 1.0, 0.0));
    c.set_clean();
    c.set_up(Vec3::Z);
    assert!(c.is_dirty());
    assert_eq!(c.up(), Vec3::Z);
    c.set_clean();
    c.set_field_of_view(Single { bits: 1.5_f32.to_bits() });
    assert!(c.is_dirty());
    assert_eq!(f32::from_bits(c.field_of_view().bits), 1.5);
    c.set_clean();
    c.set_near(Single { bits: 0.5_f32.to_bits() });
    assert!(c.is_dirty());
    assert_eq!(f32::from_bits(c.near().bits), 0.5);
    c.set_clean();
    c.set_far(Single { bits: 50.0_f32.to_bits() });
    assert!(c.is_dirty());
    assert_eq!(f32::from_bits(c.far().bits), 50.0);
    c.set_clean();
    c.update_aspect_ratio(Single { bits: 2.0_f32.to_bits() });
    assert!(c.is_dirty());
    assert_eq!(f32::from_bits(c.aspect_ratio().bits), 2.0);
    c.set_clean();
    *c.position_mut() += Vec3::X;
    assert!(c.is_dirty());
    assert_eq!(c.position(), Vec3::new(2.0, 2.0, 3.0));
    assert_eq!(c.target(), Vec3::new(0.0, 1.0, 0.0));
}

#[test]
fn a_scene_keeps_its_objects_in_order() {
    let mut scene = Scene::default();
    assert_eq!(scene.objects().len(), 0);
    assert!(!scene.camera().is_dirty());
    scene.add_object(Object::new_sphere());
    scene.add_object(Object::new_cube());
    assert_eq!(scene.objects().len(), 2);
    assert_eq!(scene.objects()[0], Object::new_sphere());
    assert_eq!(scene.objects()[1], Object::new_cube());
    scene.objects_mut().push(Object::new_plane());
    assert_eq!(scene.objects()[2], Object::new_plane());
    scene.camera_mut().set_position(Vec3::new(0.0, 0.0, 9.0));
    assert_eq!(scene.camera().position(), Vec3::new(0.0, 0.0, 9.0));
    assert!(scene.camera().is_dirty());
}
