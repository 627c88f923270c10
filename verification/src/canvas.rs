//! The image that is rendered: a grid of colours, row after row.
use vstd::prelude::*;
use vstd::slice::slice_subrange;
use crate::color::Color;
use crate::intersections::IndexOutOfRange;

verus! {

pub struct Canvas {
    size: glam::UVec2,
    pixels: Vec<Color>,
}

impl Canvas {
    /// The number of pixels in a row.
    pub closed spec fn width(self) -> nat {
        self.size.x as nat
    }

    /// The number of rows.
    pub closed spec fn height(self) -> nat {
        self.size.y as nat
    }

    /// The colours, row after row, each row from left to right.
    pub closed spec fn pixels_view(self) -> Seq<Color> {
        self.pixels@
    }

    /// The colour in row `row` and column `col`.
    pub open spec fn at(self, row: int, col: int) -> Color {
        self.pixels_view()[row * self.width() + col]
    }

    /// There is one colour for every pixel.
    pub open spec fn well_formed(self) -> bool {
        self.pixels_view().len() == self.width() * self.height()
    }

    #[verifier::type_invariant]
    spec fn inv(self) -> bool {
        self.well_formed()
    }

    /// The black image of the given size.
    pub fn new(width: u32, height: u32) -> (c: Self)
        ensures
            c.width() == width,
            c.height() == height,
            c.well_formed(),
            forall|i: int| 0 <= i < c.pixels_view().len() ==> c.pixels_view()[i] == Color::spec_black(),
    {
        assert(width * height <= u64::MAX) by (nonlinear_arith)
            requires
                width <= u32::MAX,
                height <= u32::MAX,
        ;
        let count: u64 = (width as u64) * (height as u64);
        let mut pixels: Vec<Color> = Vec::new();
        let mut i: u64 = 0;
        while i < count
            invariant
                i <= count,
                pixels@.len() == i,
                forall|k: int| 0 <= k < pixels@.len() ==> pixels@[k] == Color::spec_black(),
            decreases count - i,
        {
            pixels.push(Color::black());
            i = i + 1;
        }
        Canvas { size: glam::UVec2 { x: width, y: height }, pixels }
    }

    /// The size: `x` pixels in a row, `y` rows.
    pub fn size(&self) -> (s: glam::UVec2)
        ensures
            s.x == self.width(),
            s.y == self.height(),
            self.well_formed(),
    {
        proof {
            use_type_invariant(self);
        }
        self.size
    }

    /// The colours, row after row.
    pub fn pixels(&self) -> (p: &Vec<Color>)
        ensures
            p@ == self.pixels_view(),
            self.well_formed(),
    {
        proof {
            use_type_invariant(self);
        }
        &self.pixels
    }

    /// The colours of row `row`, or the signal that there is no such row.
    pub fn row(&self, row: usize) -> (r: Result<&[Color], IndexOutOfRange>)
        ensures
            row < self.height() ==> r.is_ok() && r.unwrap()@ == self.pixels_view().subrange(
                row * self.width(),
                row * self.width() + self.width(),
            ),
            row >= self.height() ==> r == Err::<&[Color], IndexOutOfRange>(
                IndexOutOfRange { index: row, count: self.height() as usize },
            ),
    {
        proof {
            use_type_invariant(self);
        }
        let width: usize = self.size.x as usize;
        let height: usize = self.size.y as usize;
        let count: usize = self.pixels.len();
        if row >= height {
            return Err(IndexOutOfRange { index: row, count: height });
        }
        proof {
            lemma_row_fits(row as int, self.size.x as int, self.size.y as int);
            assert(row * width + width <= count);
        }
        let start: usize = row * width;
        Ok(slice_subrange(self.pixels.as_slice(), start, start + width))
    }

    /// The colour in row `row` and column `col`, or `None` where there is no
    /// such pixel.
    pub fn pixel(&self, row: usize, col: usize) -> (r: Option<Color>)
        ensures
            r.is_some() <==> row < self.height() && col < self.width(),
            r.is_some() ==> r.unwrap() == self.at(row as int, col as int),
    {
        proof {
            use_type_invariant(self);
        }
        let width: usize = self.size.x as usize;
        let height: usize = self.size.y as usize;
        let count: usize = self.pixels.len();
        if row >= height || col >= width {
            return None;
        }
        proof {
            lemma_row_fits(row as int, self.size.x as int, self.size.y as int);
            assert(row * width + width <= count);
        }
        Some(self.pixels[row * width + col])
    }

    /// Gives the pixel in row `row` and column `col` the colour `color` and
    /// says so; where there is no such pixel, nothing changes.
    pub fn set_pixel(&mut self, row: usize, col: usize, color: Color) -> (done: bool)
        ensures
            done <==> row < old(self).height() && col < old(self).width(),
            final(self).width() == old(self).width(),
            final(self).height() == old(self).height(),
            final(self).well_formed(),
            done ==> final(self).pixels_view() == old(self).pixels_view().update(
                row * old(self).width() + col,
                color,
            ),
            !done ==> final(self).pixels_view() == old(self).pixels_view(),
    {
        proof {
            use_type_invariant(&*self);
        }
        let width: usize = self.size.x as usize;
        let height: usize = self.size.y as usize;
        let count: usize = self.pixels.len();
        if row >= height || col >= width {
            return false;
        }
        proof {
            lemma_row_fits(row as int, self.size.x as int, self.size.y as int);
            assert(row * width + width <= count);
        }
        let mut whole = Canvas { size: glam::UVec2 { x: 0, y: 0 }, pixels: Vec::new() };
        std::mem::swap(self, &mut whole);
        let size = whole.size;
        let mut pixels = whole.pixels;
        pixels.set(row * width + col, color);
        *self = Canvas { size, pixels };
        true
    }

    /// Replaces all the colours at once and says so; where `pixels` does not
    /// hold one colour for every pixel, nothing changes.
    pub fn set_pixels(&mut self, pixels: Vec<Color>) -> (done: bool)
        ensures
            done <==> pixels@.len() == old(self).width() * old(self).height(),
            final(self).width() == old(self).width(),
            final(self).height() == old(self).height(),
            final(self).well_formed(),
            done ==> final(self).pixels_view() == pixels@,
            !done ==> final(self).pixels_view() == old(self).pixels_view(),
    {
        proof {
            use_type_invariant(&*self);
        }
        if pixels.len() != self.pixels.len() {
            return false;
        }
        let size = self.size;
        *self = Canvas { size, pixels };
        true
    }
}

/// A whole row below the last row ends within the grid.
proof fn lemma_row_fits(row: int, width: int, height: int)
    requires
        0 <= row < height,
        0 <= width,
    ensures
        0 <= row * width,
        row * width + width <= width * height,
{
    assert(row * width + width == (row + 1) * width) by (nonlinear_arith);
    assert((row + 1) * width <= height * width) by (nonlinear_arith)
        requires
            row + 1 <= height,
            0 <= width,
    ;
    assert(height * width == width * height) by (nonlinear_arith);
    assert(0 <= row * width) by (nonlinear_arith)
        requires
            0 <= row,
            0 <= width,
    ;
}

} // verus!
