use glam::UVec2;
use rayflux::canvas::Canvas;
use rayflux::color::Color;
use rayflux::raytracer::{CpuRaytracer, OutputMode, RaytracerType};
use rayflux::scalar::Scalar;
use rayflux::intersections::IndexOutOfRange;

#[test]
fn new_canvas() {
    let c = Canvas::new(10, 20);
    assert_eq!(c.size().x, 10);
    assert_eq!(c.size().y, 20);
    for row in 0..c.size().y - 1 {
        for col in 0..c.size().x - 1 {
            assert_eq!(c.row(row as usize).unwrap()[col as usize], Color::black());
        }
    }
}

#[test]
fn set_pixel() {
    let mut c = Canvas::new(10, 20);
    assert!(c.set_pixel(2, 3, Color::red()));
    assert_eq!(c.row(2).unwrap()[3], Color::red());
}

#[test]
fn a_canvas_is_stored_row_after_row() {
    let mut c = Canvas::new(3, 2);
    assert_eq!(c.pixels().len(), 6);
    assert!(c.set_pixel(1, 2, Color::red()));
    assert_eq!(c.pixels()[5], Color::red());
    assert_eq!(c.pixel(1, 2), Some(Color::red()));
    assert_eq!(c.pixel(0, 2), Some(Color::black()));
    assert_eq!(c.row(1).unwrap(), &[Color::black(), Color::black(), Color::red()]);
    assert_eq!(c.row(0).unwrap(), &[Color::black(); 3]);
}

#[test]
fn a_pixel_outside_the_canvas_is_refused() {
    let mut c = Canvas::new(3, 2);
    assert_eq!(c.pixel(2, 0), None);
    assert_eq!(c.pixel(0, 3), None);
    assert!(!c.set_pixel(2, 0, Color::red()));
    assert!(!c.set_pixel(0, 3, Color::red()));
    assert_eq!(c.pixels(), &vec![Color::black(); 6]);
    assert_eq!(c.row(2), Err(IndexOutOfRange { index: 2, count: 2 }));
    let empty = Canvas::new(0, 5);
    assert_eq!(empty.pixels().len(), 0);
    assert_eq!(empty.row(4).unwrap().len(), 0);
    assert_eq!(empty.pixel(0, 0), None);
}

#[test]
fn all_pixels_are_replaced_only_by_as_many() {
    let mut c = Canvas::new(2, 2);
    assert!(!c.set_pixels(vec![Color::red(); 3]));
    assert_eq!(c.pixels(), &vec![Color::black(); 4]);
    assert!(c.set_pixels(vec![Color::red(); 4]));
    assert_eq!(c.pixels(), &vec![Color::red(); 4]);
    assert_eq!((c.size().x, c.size().y), (2, 2));
}

#[test]
fn colours_are_made_of_three_parts() {
    let one = Scalar::from_bits(1.0_f64.to_bits());
    let zero = Scalar::from_bits(0.0_f64.to_bits());
    assert_eq!(Color::red(), Color::new(one, zero, zero));
    assert_eq!(Color::black(), Color::new(zero, zero, zero));
    assert_ne!(Color::red(), Color::black());
}

#[test]
fn places_map_to_columns_and_rows() {
    let size = UVec2::new(4, 3);
    assert_eq!(CpuRaytracer::pixel_position(0, size), Some((0, 0)));
    assert_eq!(CpuRaytracer::pixel_position(3, size), Some((3, 0)));
    assert_eq!(CpuRaytracer::pixel_position(4, size), Some((0, 1)));
    assert_eq!(CpuRaytracer::pixel_position(11, size), Some((3, 2)));
    assert_eq!(CpuRaytracer::pixel_position(12, size), None);
    assert_eq!(CpuRaytracer::pixel_position(0, UVec2::new(0, 7)), None);
    assert_eq!(CpuRaytracer::pixel_position(0, UVec2::new(7, 0)), None);
}

#[test]
fn a_new_raytracer_holds_a_black_canvas() {
    let raytracer = CpuRaytracer::new(UVec2::new(10, 20));
    assert_eq!(raytracer.canvas().size(), UVec2::new(10, 20));
    assert_eq!(raytracer.canvas().pixels(), &vec![Color::black(); 200]);
}

#[test]
fn the_renderers_have_names() {
    assert_eq!(RaytracerType::Cpu.name(), "CPU");
    assert_eq!(RaytracerType::Gpu.name(), "GPU");
    assert_eq!(RaytracerType::default(), RaytracerType::Gpu);
    assert_ne!(OutputMode::Window, OutputMode::File);
}
