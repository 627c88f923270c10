//! A verified engine for the intersections of rays with simple shapes.
//!
//! A scene holds a camera and objects; an object is a unit-sized shape placed
//! by a transform. For a ray the engine gathers the candidate hits of every
//! object, sorts them by distance along the ray and selects the nearest that
//! lies ahead. A renderer does so for one ray through every pixel.
//!
//! Numbers are IEEE-754 values held by their bit patterns (`scalar`), vectors
//! and matrices are those of `glam` (`algebra`). The engine compares and
//! decides; the arithmetic on single numbers is done by its caller, who
//! measures each ray against each object and hands the readings over
//! (`measure`). Every decision is proved to be what its contract says, for
//! all readings.
pub mod scalar;
pub mod value;
pub mod algebra;
pub mod measure;
pub mod transform;
pub mod material;
pub mod shapes;
pub mod object;
pub mod ray;
pub mod intersection;
pub mod intersections;
pub mod order;
pub mod hittable;
pub mod color;
pub mod camera;
pub mod scene;
pub mod trace;
pub mod canvas;
pub mod raytracer;
