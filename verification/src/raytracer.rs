//! The renderer: one ray for every pixel, and for every ray the colour of
//! what it hits first. The rays are measured against the objects outside the
//! engine; the renderer takes the readings, one for every object and pixel.
use vstd::prelude::*;
use crate::algebra::vector_bits;
use crate::camera::{widen, widened_bits, Camera};
use crate::canvas::Canvas;
use crate::color::Color;
use crate::intersection::Intersection;
use crate::intersections::{first_kept, none_kept, sorted, Intersections, StandardHit};
use crate::measure::{Reading, ReadingError};
use crate::object::Object;
use crate::ray::Ray;
use crate::scene::Scene;
use crate::trace::{gathered_hits, intersect_scene, is_fault, readings_fit};

verus! {

/// Which renderer draws the image.
#[derive(Debug, Clone, Copy, PartialEq, Eq, Structural)]
pub enum RaytracerType {
    /// This engine, on the processor.
    Cpu,
    /// The compute shader, on the graphics card.
    Gpu,
}

impl Default for RaytracerType {
    fn default() -> (t: Self)
        ensures
            t == RaytracerType::Gpu,
    {
        RaytracerType::Gpu
    }
}

impl RaytracerType {
    /// The name that is shown for the renderer: `CPU` or `GPU`.
    pub fn name(&self) -> (s: String)
        ensures
            s@ == (match *self {
                RaytracerType::Cpu => "CPU"@,
                RaytracerType::Gpu => "GPU"@,
            }),
    {
        match self {
            RaytracerType::Cpu => "CPU".to_string(),
            RaytracerType::Gpu => "GPU".to_string(),
        }
    }
}

/// Where the image goes.
#[derive(Debug, Clone, Copy, PartialEq, Eq, Structural)]
pub enum OutputMode {
    /// Onto a window.
    Window,
    /// Into an image file.
    File,
}

/// The column and the row of the pixel at place `index` of an image that is
/// stored row after row.
pub open spec fn position_of(index: int, width: int) -> (int, int) {
    (index % width, index / width)
}

/// The colour that one ray gives, from the sorted hits of the ray: red where
/// a hit lies ahead, and nothing where none does.
pub open spec fn hit_color<'a>(hits: Seq<Intersection<'a>>) -> Option<Color> {
    if none_kept(hits, StandardHit {}) {
        None
    } else {
        Some(Color::spec_red())
    }
}

/// The colour that the readings of one ray against the objects of a scene
/// give: red where a hit lies ahead of the ray, else the background.
pub open spec fn traced_color(objects: Seq<Object>, background: Color, readings: Seq<Reading>) -> Color {
    match hit_color(sorted(gathered_hits(objects, readings))) {
        Some(color) => color,
        None => background,
    }
}

/// A ray gets a colour exactly when a hit of one of the objects lies ahead of
/// it, whatever the order of the objects and of their hits; the colour is
/// then red, and the hit lies on an object of the scene.
pub proof fn coloured_exactly_when_a_hit_lies_ahead<'a>(objects: Seq<Object>, readings: Seq<Reading>)
    ensures
        ({
            let gathered = gathered_hits::<'a>(objects, readings);
            let color = hit_color(sorted(gathered));
            &&& color.is_some() <==> exists|j: int| 0 <= j < gathered.len() && (#[trigger] gathered[j]).ahead()
            &&& color.is_some() ==> color == Some(Color::spec_red())
            &&& traced_color(objects, Color::spec_black(), readings) == Color::spec_red() <==> color.is_some()
        }),
{
    let gathered = gathered_hits::<'a>(objects, readings);
    crate::order::nothing_selected_after_sorting(gathered);
}

/// What is wrong with the readings that were handed over for an image.
#[derive(Debug, Clone, Copy, PartialEq, Eq, Structural)]
pub enum RenderError {
    /// There is not one set of readings for every pixel.
    WrongCount {
        /// The number of pixels of the image.
        pixels: usize,
        /// The number of sets of readings that were handed over.
        readings: usize,
    },
    /// The readings of the pixel at this place do not fit the scene.
    Pixel {
        /// The place of the pixel, counted row after row.
        place: usize,
        /// What is wrong with its readings.
        error: ReadingError,
    },
}

pub struct CpuRaytracer {
    canvas: Canvas,
}

impl CpuRaytracer {
    /// The image that has been rendered.
    pub closed spec fn canvas_view(self) -> Canvas {
        self.canvas
    }

    /// A renderer with a black image of the given size.
    pub fn new(size: glam::UVec2) -> (r: Self)
        ensures
            r.canvas_view().width() == size.x,
            r.canvas_view().height() == size.y,
            r.canvas_view().well_formed(),
            forall|i: int|
                0 <= i < r.canvas_view().pixels_view().len() ==> r.canvas_view().pixels_view()[i]
                    == Color::spec_black(),
    {
        CpuRaytracer { canvas: Canvas::new(size.x, size.y) }
    }

    pub fn canvas(&self) -> (c: &Canvas)
        ensures
            *c == self.canvas_view(),
    {
        &self.canvas
    }

    /// The column and the row of the pixel at place `index` of an image of
    /// `size`, or `None` where the image has no such place.
    pub fn pixel_position(index: usize, size: glam::UVec2) -> (p: Option<(u32, u32)>)
        ensures
            p.is_some() <==> index < size.x * size.y,
            p.is_some() ==> {
                let (x, y) = p.unwrap();
                &&& (x as int, y as int) == position_of(index as int, size.x as int)
                &&& x < size.x
                &&& y < size.y
                &&& y * size.x + x == index
            },
    {
        if size.x == 0 {
            assert(size.x * size.y == 0) by (nonlinear_arith)
                requires
                    size.x == 0,
            ;
            return None;
        }
        let width: usize = size.x as usize;
        let y: usize = index / width;
        proof {
            vstd::arithmetic::div_mod::lemma_fundamental_div_mod(index as int, width as int);
            vstd::arithmetic::div_mod::lemma_mod_bound(index as int, width as int);
            vstd::arithmetic::div_mod::lemma_div_pos_is_pos(index as int, width as int);
            assert(width * (index as int / width as int) == (index as int / width as int) * width)
                by (nonlinear_arith);
            let q = index as int / width as int;
            let h = size.y as int;
            let w = width as int;
            let r = index as int % w;
            assert(q < h <==> index < w * h) by (nonlinear_arith)
                requires
                    index == w * q + r,
                    0 <= r < w,
                    0 <= q,
                    0 <= h,
            ;
        }
        if y >= size.y as usize {
            return None;
        }
        let x: usize = index - y * width;
        Some((x as u32, y as u32))
    }

    /// The ray through the middle of a pixel: it starts at the camera's eye,
    /// taken into double precision, and runs in `direction`, the direction
    /// from the eye through the middle of the pixel as it was measured.
    pub fn ray_for_pixel(camera: &Camera, direction: glam::DVec3) -> (ray: Ray)
        ensures
            vector_bits(ray.origin) == widened_bits(camera@.position),
            vector_bits(ray.direction) == vector_bits(direction),
    {
        let eye = camera.position();
        Ray::new(widen(&eye), direction)
    }

    /// The colour that the sorted hits of one ray give: red where a hit lies
    /// ahead of the ray, and nothing where none does.
    pub fn shade<'a>(intersections: &Intersections<'a>) -> (c: Option<Color>)
        ensures
            c == hit_color(intersections@),
    {
        match intersections.hit_index(StandardHit {}) {
            Some(index) => {
                assert(!none_kept(intersections@, StandardHit {})) by {
                    assert(first_kept(intersections@, StandardHit {}, index as int));
                }
                Some(Color::red())
            },
            None => None,
        }
    }

    /// Traces one ray through the scene, from its readings against the
    /// objects: red where it hits an object ahead of it, and nothing where it
    /// hits none, so that the caller puts the background there.
    pub fn raytrace(readings: &Vec<Reading>, scene: &Scene) -> (r: Result<Option<Color>, ReadingError>)
        ensures
            match r {
                Ok(color) => {
                    &&& readings_fit(scene.objects_view(), readings@)
                    &&& color == hit_color(sorted(gathered_hits(scene.objects_view(), readings@)))
                },
                Err(error) => is_fault(scene.objects_view(), readings@, error),
            },
    {
        match intersect_scene(readings, scene) {
            Ok(intersections) => Ok(CpuRaytracer::shade(&intersections)),
            Err(error) => Err(error),
        }
    }

    /// The colour of one pixel, from the readings of its ray against the
    /// objects: what the ray hits, or the camera's background.
    pub fn pixel_color(readings: &Vec<Reading>, scene: &Scene) -> (r: Result<Color, ReadingError>)
        ensures
            match r {
                Ok(color) => {
                    &&& readings_fit(scene.objects_view(), readings@)
                    &&& color == traced_color(
                        scene.objects_view(),
                        scene.camera_view().background,
                        readings@,
                    )
                },
                Err(error) => is_fault(scene.objects_view(), readings@, error),
            },
    {
        match CpuRaytracer::raytrace(readings, scene) {
            Ok(Some(color)) => Ok(color),
            Ok(None) => Ok(scene.camera().background()),
            Err(error) => Err(error),
        }
    }

    /// The colours of all the pixels, each from the readings of its own ray,
    /// or the place of the first pixel whose readings do not fit the scene,
    /// with what is wrong with them.
    pub fn pixel_colors(readings: &Vec<Vec<Reading>>, scene: &Scene) -> (r: Result<
        Vec<Color>,
        (usize, ReadingError),
    >)
        ensures
            match r {
                Ok(colors) => {
                    &&& colors@.len() == readings@.len()
                    &&& forall|i: int|
                        0 <= i < readings@.len() ==> {
                            &&& readings_fit(scene.objects_view(), (#[trigger] readings@[i])@)
                            &&& colors@[i] == traced_color(
                                scene.objects_view(),
                                scene.camera_view().background,
                                readings@[i]@,
                            )
                        }
                },
                Err((place, error)) => {
                    &&& place < readings@.len()
                    &&& is_fault(scene.objects_view(), readings@[place as int]@, error)
                    &&& forall|j: int|
                        0 <= j < place ==> readings_fit(scene.objects_view(), (#[trigger] readings@[j])@)
                },
            },
    {
        let count: usize = readings.len();
        let mut colors: Vec<Color> = Vec::new();
        let mut i: usize = 0;
        while i < count
            invariant
                i <= count,
                count == readings@.len(),
                colors@.len() == i,
                forall|k: int|
                    0 <= k < i ==> {
                        &&& readings_fit(scene.objects_view(), (#[trigger] readings@[k])@)
                        &&& colors@[k] == traced_color(
                            scene.objects_view(),
                            scene.camera_view().background,
                            readings@[k]@,
                        )
                    },
            decreases count - i,
        {
            match CpuRaytracer::pixel_color(&readings[i], scene) {
                Ok(color) => {
                    colors.push(color);
                },
                Err(error) => {
                    return Err((i, error));
                },
            }
            i = i + 1;
        }
        Ok(colors)
    }

    /// Renders the scene. `readings` holds, for every pixel row after row, the
    /// readings of that pixel's ray against the objects. Every pixel gets the
    /// colour of its own ray and of no other, so that the image is the same in
    /// whatever order the pixels are worked on. Where the readings do not
    /// fit, the image stays as it was.
    pub fn render(&mut self, scene: &Scene, readings: &Vec<Vec<Reading>>) -> (r: Result<(), RenderError>)
        ensures
            final(self).canvas_view().width() == old(self).canvas_view().width(),
            final(self).canvas_view().height() == old(self).canvas_view().height(),
            final(self).canvas_view().well_formed(),
            match r {
                Ok(_) => {
                    &&& readings@.len() == final(self).canvas_view().pixels_view().len()
                    &&& forall|i: int|
                        0 <= i < readings@.len() ==> {
                            &&& readings_fit(scene.objects_view(), (#[trigger] readings@[i])@)
                            &&& final(self).canvas_view().pixels_view()[i] == traced_color(
                                scene.objects_view(),
                                scene.camera_view().background,
                                readings@[i]@,
                            )
                        }
                },
                Err(RenderError::WrongCount { pixels, readings: given }) => {
                    &&& pixels == old(self).canvas_view().pixels_view().len()
                    &&& given == readings@.len()
                    &&& pixels != given
                    &&& final(self).canvas_view().pixels_view() == old(self).canvas_view().pixels_view()
                },
                Err(RenderError::Pixel { place, error }) => {
                    &&& readings@.len() == old(self).canvas_view().pixels_view().len()
                    &&& place < readings@.len()
                    &&& is_fault(scene.objects_view(), readings@[place as int]@, error)
                    &&& forall|j: int|
                        0 <= j < place ==> readings_fit(scene.objects_view(), (#[trigger] readings@[j])@)
                    &&& final(self).canvas_view().pixels_view() == old(self).canvas_view().pixels_view()
                },
            },
    {
        let count: usize = self.canvas.pixels().len();
        if readings.len() != count {
            return Err(RenderError::WrongCount { pixels: count, readings: readings.len() });
        }
        match CpuRaytracer::pixel_colors(readings, scene) {
            Ok(colors) => {
                let done = self.canvas.set_pixels(colors);
                assert(done);
                Ok(())
            },
            Err((place, error)) => Err(RenderError::Pixel { place, error }),
        }
    }
}

} // verus!
