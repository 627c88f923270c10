//! The camera: where the eye is, what it looks at, and how wide it sees.
//!
//! The positions are single-precision vectors of `glam` and the angles and
//! distances are single-precision numbers; the engine stores them and hands
//! them to whoever measures the rays.
use vstd::prelude::*;
use crate::algebra::vector_bits;
use crate::color::Color;

verus! {

/// `glam::Vec3`: a vector of three single-precision numbers.
#[verifier::external_type_specification]
#[verifier::external_body]
pub struct ExVec3(glam::Vec3);

/// `glam::UVec2`: a pair of whole numbers, `x` and `y`, both of 32 bits.
#[verifier::external_type_specification]
pub struct ExUVec2(glam::UVec2);

/// The patterns of the components of a single-precision vector, in the order
/// x, y, z, each in its one form: the bit pattern of a number, and one
/// pattern for whatever is no number.
pub uninterp spec fn single_vector_bits(v: glam::Vec3) -> Seq<u32>;

/// An IEEE-754 binary32 number, held by its bit pattern.
#[derive(Debug, Clone, Copy, PartialEq, Eq, Structural)]
pub struct Single {
    pub bits: u32,
}

/// The bit pattern of the single-precision 1.
pub const SINGLE_ONE_BITS: u32 = 0x3F80_0000;

/// The bit pattern of a quarter of pi, rounded to single precision.
pub const QUARTER_PI_BITS: u32 = 0x3F49_0FDB;

/// The bit pattern of 0.1, rounded to single precision.
pub const TENTH_BITS: u32 = 0x3DCC_CCCD;

/// The bit pattern of the single-precision 100.
pub const HUNDRED_BITS: u32 = 0x42C8_0000;

/// The bit pattern of the single-precision 5.
pub const SINGLE_FIVE_BITS: u32 = 0x40A0_0000;

/// The bit pattern of the single-precision number nearest to a whole number.
pub uninterp spec fn whole_as_single(n: u32) -> u32;

/// What is written out of the single-precision patterns of whole numbers:
/// those of 0, of 1 and of 5, which single precision holds exactly.
pub open spec fn small_whole_is(n: u32, bits: u32) -> bool {
    &&& n == 0 ==> bits == 0
    &&& n == 1 ==> bits == SINGLE_ONE_BITS
    &&& n == 5 ==> bits == SINGLE_FIVE_BITS
}

/// `UVec3::new` and `UVec3::as_vec3`: the vector of three whole numbers, each
/// turned into the single-precision number nearest to it.
#[verifier::external_body]
fn whole_vector(x: u32, y: u32, z: u32) -> (r: glam::Vec3)
    ensures
        single_vector_bits(r) == seq![whole_as_single(x), whole_as_single(y), whole_as_single(z)],
        small_whole_is(x, single_vector_bits(r)[0]),
        small_whole_is(y, single_vector_bits(r)[1]),
        small_whole_is(z, single_vector_bits(r)[2]),
{
    glam::UVec3::new(x, y, z).as_vec3()
}

/// The double-precision patterns of the same numbers as the given
/// single-precision patterns, component by component, each in its one form.
pub uninterp spec fn widened_bits(v: Seq<u32>) -> Seq<u64>;

/// `Vec3::as_dvec3`: the same three numbers in double precision.
#[verifier::external_body]
pub(crate) fn widen(v: &glam::Vec3) -> (r: glam::DVec3)
    ensures
        vector_bits(r) == widened_bits(single_vector_bits(*v)),
{
    v.as_dvec3()
}

/// `Vec3::ZERO`: all three components are the number 0.
#[verifier::external_body]
fn single_zero_vector() -> (r: glam::Vec3)
    ensures
        single_vector_bits(r) == seq![0u32, 0u32, 0u32],
{
    glam::Vec3::ZERO
}

/// `Vec3::Y`: the vector (0, 1, 0).
#[verifier::external_body]
fn single_unit_y() -> (r: glam::Vec3)
    ensures
        single_vector_bits(r) == seq![0u32, SINGLE_ONE_BITS, 0u32],
{
    glam::Vec3::Y
}

pub struct Camera {
    position: glam::Vec3,
    target: glam::Vec3,
    up: glam::Vec3,
    field_of_view: Single,
    aspect_ratio: Single,
    near: Single,
    far: Single,
    background: Color,
    dirty: bool,
}

/// What a camera holds, as plain values.
pub struct CameraView {
    pub position: Seq<u32>,
    pub target: Seq<u32>,
    pub up: Seq<u32>,
    pub field_of_view: Single,
    pub aspect_ratio: Single,
    pub near: Single,
    pub far: Single,
    pub background: Color,
    pub dirty: bool,
}

impl View for Camera {
    type V = CameraView;

    closed spec fn view(&self) -> CameraView {
        CameraView {
            position: single_vector_bits(self.position),
            target: single_vector_bits(self.target),
            up: single_vector_bits(self.up),
            field_of_view: self.field_of_view,
            aspect_ratio: self.aspect_ratio,
            near: self.near,
            far: self.far,
            background: self.background,
            dirty: self.dirty,
        }
    }
}

/// The camera that a scene starts with: at (0, 0, 5), looking at the origin,
/// with y upwards, seeing a quarter of pi wide on a square image, between the
/// distances 0.1 and 100, against black, and not marked as changed.
pub open spec fn default_camera() -> CameraView {
    CameraView {
        position: seq![0u32, 0u32, SINGLE_FIVE_BITS],
        target: seq![0u32, 0u32, 0u32],
        up: seq![0u32, SINGLE_ONE_BITS, 0u32],
        field_of_view: Single { bits: QUARTER_PI_BITS },
        aspect_ratio: Single { bits: SINGLE_ONE_BITS },
        near: Single { bits: TENTH_BITS },
        far: Single { bits: HUNDRED_BITS },
        background: Color::spec_black(),
        dirty: false,
    }
}

impl Default for Camera {
    fn default() -> (c: Self)
        ensures
            c@ == default_camera(),
    {
        let position = whole_vector(0, 0, 5);
        assert(single_vector_bits(position) =~= seq![0u32, 0u32, SINGLE_FIVE_BITS]);
        Camera {
            position,
            target: single_zero_vector(),
            up: single_unit_y(),
            field_of_view: Single { bits: QUARTER_PI_BITS },
            aspect_ratio: Single { bits: SINGLE_ONE_BITS },
            near: Single { bits: TENTH_BITS },
            far: Single { bits: HUNDRED_BITS },
            background: Color::black(),
            dirty: false,
        }
    }
}

impl Camera {
    /// Moves the eye and marks the camera as changed.
    pub fn set_position(&mut self, position: glam::Vec3)
        ensures
            final(self)@ == (CameraView {
                position: single_vector_bits(position),
                dirty: true,
                ..old(self)@
            }),
    {
        self.position = position;
        self.dirty = true;
    }

    pub fn position(&self) -> (v: glam::Vec3)
        ensures
            single_vector_bits(v) == self@.position,
    {
        self.position
    }

    /// The eye, to move it in place; the camera is marked as changed at once.
    pub fn position_mut(&mut self) -> (v: &mut glam::Vec3)
        ensures
            single_vector_bits(*v) == old(self)@.position,
            final(self)@ == (CameraView {
                position: single_vector_bits(*final(v)),
                dirty: true,
                ..old(self)@
            }),
    {
        self.dirty = true;
        &mut self.position
    }

    /// Turns the eye to another point and marks the camera as changed.
    pub fn set_target(&mut self, target: glam::Vec3)
        ensures
            final(self)@ == (CameraView {
                target: single_vector_bits(target),
                dirty: true,
                ..old(self)@
            }),
    {
        self.target = target;
        self.dirty = true;
    }

    pub fn target(&self) -> (v: glam::Vec3)
        ensures
            single_vector_bits(v) == self@.target,
    {
        self.target
    }

    /// Sets which way is up and marks the camera as changed.
    pub fn set_up(&mut self, up: glam::Vec3)
        ensures
            final(self)@ == (CameraView { up: single_vector_bits(up), dirty: true, ..old(self)@ }),
    {
        self.up = up;
        self.dirty = true;
    }

    pub fn up(&self) -> (v: glam::Vec3)
        ensures
            single_vector_bits(v) == self@.up,
    {
        self.up
    }

    pub fn aspect_ratio(&self) -> (r: Single)
        ensures
            r == self@.aspect_ratio,
    {
        self.aspect_ratio
    }

    /// Sets how wide the eye sees, top to bottom, in radians, and marks the
    /// camera as changed.
    pub fn set_field_of_view(&mut self, fov: Single)
        ensures
            final(self)@ == (CameraView { field_of_view: fov, dirty: true, ..old(self)@ }),
    {
        self.field_of_view = fov;
        self.dirty = true;
    }

    pub fn field_of_view(&self) -> (r: Single)
        ensures
            r == self@.field_of_view,
    {
        self.field_of_view
    }

    /// Sets the nearest distance that is seen and marks the camera as changed.
    pub fn set_near(&mut self, near: Single)
        ensures
            final(self)@ == (CameraView { near, dirty: true, ..old(self)@ }),
    {
        self.near = near;
        self.dirty = true;
    }

    pub fn near(&self) -> (r: Single)
        ensures
            r == self@.near,
    {
        self.near
    }

    /// Sets the farthest distance that is seen and marks the camera as changed.
    pub fn set_far(&mut self, far: Single)
        ensures
            final(self)@ == (CameraView { far, dirty: true, ..old(self)@ }),
    {
        self.far = far;
        self.dirty = true;
    }

    pub fn far(&self) -> (r: Single)
        ensures
            r == self@.far,
    {
        self.far
    }

    /// The colour of a pixel whose ray hits nothing.
    pub fn background(&self) -> (c: Color)
        ensures
            c == self@.background,
    {
        self.background
    }

    /// Whether the camera has changed since it was last marked clean.
    pub fn is_dirty(&self) -> (b: bool)
        ensures
            b == self@.dirty,
    {
        self.dirty
    }

    /// Marks the camera as unchanged.
    pub fn set_clean(&mut self)
        ensures
            final(self)@ == (CameraView { dirty: false, ..old(self)@ }),
    {
        self.dirty = false;
    }

    /// Sets the ratio of width to height, as it was measured of the image,
    /// and marks the camera as changed.
    pub fn update_aspect_ratio(&mut self, ratio: Single)
        ensures
            final(self)@ == (CameraView { aspect_ratio: ratio, dirty: true, ..old(self)@ }),
    {
        self.aspect_ratio = ratio;
        self.dirty = true;
    }
}

} // verus!
