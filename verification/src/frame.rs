//! The framebuffer: a flat, row-major sequence of packed 32-bit
//! pixels, of length `width * height`, with pixel `(x, y)` at index
//! `y * width + x`. The frame driver owns it and overwrites it every
//! frame; the display surface only reads it.

use vstd::prelude::*;
use vstd::pervasive::VecAdditionalExecFns;
use vstd::arithmetic::div_mod::lemma_fundamental_div_mod_converse;

verus! {

/// Row-major index of pixel `(x, y)` in a `width`-wide buffer.
pub open spec fn index_spec(x: int, y: int, width: int) -> int {
    y * width + x
}

/// A pixel inside the viewport has its index inside the buffer.
pub proof fn lemma_index_in_bounds(x: int, y: int, width: int, height: int)
    by (nonlinear_arith)
    requires
        0 <= x < width,
        0 <= y < height,
    ensures
        0 <= index_spec(x, y, width) < width * height,
{
}

/// Row-major index of pixel `(x, y)`.
pub fn pixel_index(x: usize, y: usize, width: usize) -> (i: usize)
    requires
        x < width,
        y * width + x <= usize::MAX,
    ensures
        i == index_spec(x as int, y as int, width as int),
{
    y * width + x
}

/// The pixel column a row-major index falls in.
pub fn index_to_x(i: usize, width: usize) -> (x: usize)
    requires
        width > 0,
    ensures
        x == i as int % width as int,
{
    i % width
}

/// The pixel row a row-major index falls in.
pub fn index_to_y(i: usize, width: usize) -> (y: usize)
    requires
        width > 0,
    ensures
        y == i as int / width as int,
{
    i / width
}

/// Law: the row-major index mapping round-trips — decomposing
/// `y * width + x` gives back column `x` and row `y`, for every
/// in-range pixel.
pub proof fn lemma_index_round_trip(x: int, y: int, width: int)
    requires
        0 <= x < width,
        0 <= y,
    ensures
        index_spec(x, y, width) % width == x,
        index_spec(x, y, width) / width == y,
{
    lemma_fundamental_div_mod_converse(y * width + x, width, y, x);
}

/// The framebuffer.
pub struct Framebuffer {
    data: Vec<u32>,
    width: usize,
    height: usize,
}

impl Framebuffer {
    /// The viewport width the buffer was made for.
    pub closed spec fn width_spec(&self) -> int {
        self.width as int
    }

    /// The viewport height the buffer was made for.
    pub closed spec fn height_spec(&self) -> int {
        self.height as int
    }

    /// The packed pixels, row-major.
    pub closed spec fn contents(&self) -> Seq<u32> {
        self.data@
    }

    /// The buffer holds exactly one pixel per viewport position.
    pub open spec fn wf(&self) -> bool {
        self.contents().len() == self.width_spec() * self.height_spec()
    }

    /// A fresh all-black framebuffer for a `width` by `height`
    /// viewport.
    pub fn new(width: usize, height: usize) -> (fb: Framebuffer)
        requires
            width * height <= usize::MAX,
        ensures
            fb.wf(),
            fb.width_spec() == width,
            fb.height_spec() == height,
            fb.contents() == Seq::new((width * height) as nat, |i: int| 0u32),
    {
        let len: usize = width * height;
        let mut data: Vec<u32> = Vec::new();
        let mut i: usize = 0;
        while i < len
            invariant
                i <= len,
                data@.len() == i,
                forall|j: int| 0 <= j < i ==> data@[j] == 0u32,
            decreases len - i,
        {
            data.push(0);
            i += 1;
        }
        proof {
            assert(data@ =~= Seq::new(len as nat, |i: int| 0u32));
        }
        Framebuffer { data, width, height }
    }

    /// The viewport width.
    pub fn width(&self) -> (w: usize)
        ensures
            w == self.width_spec(),
    {
        self.width
    }

    /// The viewport height.
    pub fn height(&self) -> (h: usize)
        ensures
            h == self.height_spec(),
    {
        self.height
    }

    /// Writes the packed pixel `c` at `(x, y)`; every other pixel is
    /// unchanged.
    pub fn set_pixel(&mut self, x: usize, y: usize, c: u32)
        requires
            old(self).wf(),
            x < old(self).width_spec(),
            y < old(self).height_spec(),
        ensures
            final(self).wf(),
            final(self).width_spec() == old(self).width_spec(),
            final(self).height_spec() == old(self).height_spec(),
            final(self).contents() == old(self).contents().update(
                index_spec(x as int, y as int, old(self).width_spec()),
                c,
            ),
    {
        let _buffer_len: usize = self.data.len();
        proof {
            lemma_index_in_bounds(x as int, y as int, self.width as int, self.height as int);
        }
        let i: usize = y * self.width + x;
        self.data.set(i, c);
    }

    /// Reads the packed pixel at `(x, y)`.
    pub fn pixel(&self, x: usize, y: usize) -> (c: u32)
        requires
            self.wf(),
            x < self.width_spec(),
            y < self.height_spec(),
        ensures
            c == self.contents()[index_spec(x as int, y as int, self.width_spec())],
    {
        let _buffer_len: usize = self.data.len();
        proof {
            lemma_index_in_bounds(x as int, y as int, self.width as int, self.height as int);
        }
        let i: usize = y * self.width + x;
        self.data[i]
    }

    /// The whole buffer, for the display surface to present.
    pub fn data(&self) -> (d: &Vec<u32>)
        ensures
            d@ == self.contents(),
    {
        &self.data
    }
}

} // verus!
