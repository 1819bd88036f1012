//! The pixel buffer particles are drawn into: a rectangle of packed colors
//! at one eighth of the window resolution, with bounds-checked pixel writes.
//!
//! Positions arrive in thousandths of a pixel and are truncated to whole
//! pixels; every write outside the surface is a no-op, so the buffer index
//! is always valid whatever the simulation hands in.

use vstd::prelude::*;

use crate::color;
use crate::color::Color;
use crate::fx;
use crate::vec2::Vec2Milli;

verus! {

/// Window pixels per buffer pixel: the buffer is this many times smaller
/// than the window in each direction.
pub const SCALE_DIVISOR: usize = 8;

/// The buffer index a square's cell `(dx, dy)` lands on: the cell sits
/// `dx`, `dy` whole pixels right and down of the corner `pos` (in
/// thousandths), and the index is that of the pixel its position truncates
/// to — meaningful whenever that position is on the surface.
pub open spec fn cell_index(width: int, pos: Vec2Milli, dx: int, dy: int) -> int {
    ((pos.y + dy * 1000) / 1000) * width + (pos.x + dx * 1000) / 1000
}

/// The rectangular output surface.
pub struct Renderer {
    pub pixels: Vec<u32>,
    pub width: usize,
    pub height: usize,
}

impl Renderer {
    /// Well-formed: the buffer holds exactly `width * height` pixels and
    /// the dimensions are small enough that coordinates in thousandths fit
    /// a 64-bit integer.
    pub open spec fn wf(&self) -> bool {
        &&& self.pixels@.len() == self.width * self.height
        &&& self.width <= 0x1000000
        &&& self.height <= 0x1000000
    }

    /// Whether a position in thousandths falls on the surface.
    pub open spec fn on_surface(&self, x: int, y: int) -> bool {
        0 <= x && x < self.width * 1000 && 0 <= y && y < self.height * 1000
    }

    /// The buffer index of an on-surface position in thousandths.
    pub open spec fn pix_at(&self, x: int, y: int) -> int {
        (y / 1000) * self.width + x / 1000
    }

    /// Builds a black surface of a window's size, scaled down by
    /// `SCALE_DIVISOR` in each direction.
    pub fn new(width: usize, height: usize) -> (r: Renderer)
        requires
            width <= 0x8000000,
            height <= 0x8000000,
            (width as int / 8) * (height as int / 8) <= usize::MAX,
        ensures
            r.wf(),
            r.width == width as int / 8,
            r.height == height as int / 8,
            forall |i: int| 0 <= i < r.pixels@.len() ==> r.pixels@[i] == 0,
    {
        let w: usize = width / SCALE_DIVISOR;
        let h: usize = height / SCALE_DIVISOR;
        Renderer { pixels: zero_pixels(w * h), width: w, height: h }
    }

    /// The surface width in whole pixels.
    pub fn width(&self) -> (w: usize)
        ensures
            w == self.width,
    {
        self.width
    }

    /// The surface height in whole pixels.
    pub fn height(&self) -> (h: usize)
        ensures
            h == self.height,
    {
        self.height
    }

    /// Blackens the whole surface.
    pub fn clear(&mut self)
        ensures
            final(self).width == old(self).width,
            final(self).height == old(self).height,
            final(self).pixels@.len() == old(self).pixels@.len(),
            forall |i: int| 0 <= i < final(self).pixels@.len()
                ==> final(self).pixels@[i] == 0,
    {
        let n: usize = self.pixels.len();
        let mut i: usize = 0;
        while i < n
            invariant
                i <= n,
                self.width == old(self).width,
                self.height == old(self).height,
                self.pixels@.len() == n,
                n == old(self).pixels@.len(),
                forall |j: int| 0 <= j < i ==> self.pixels@[j] == 0,
            decreases n - i,
        {
            self.pixels.set(i, 0);
            i = i + 1;
        }
    }

    /// Replaces the surface with a black one of a new window size.
    pub fn resize(&mut self, width: usize, height: usize)
        requires
            width <= 0x8000000,
            height <= 0x8000000,
            (width as int / 8) * (height as int / 8) <= usize::MAX,
        ensures
            final(self).wf(),
            final(self).width == width as int / 8,
            final(self).height == height as int / 8,
            forall |i: int| 0 <= i < final(self).pixels@.len()
                ==> final(self).pixels@[i] == 0,
    {
        let w: usize = width / SCALE_DIVISOR;
        let h: usize = height / SCALE_DIVISOR;
        self.pixels = zero_pixels(w * h);
        self.width = w;
        self.height = h;
    }

    /// Writes one pixel at a position in thousandths; off-surface writes
    /// change nothing.
    pub fn set_pixel(&mut self, x: i64, y: i64, color: u32)
        requires
            old(self).wf(),
        ensures
            final(self).wf(),
            final(self).width == old(self).width,
            final(self).height == old(self).height,
            old(self).on_surface(x as int, y as int) ==> {
                &&& 0 <= old(self).pix_at(x as int, y as int) < old(self).pixels@.len()
                &&& final(self).pixels@ == old(self).pixels@.update(
                    old(self).pix_at(x as int, y as int), color)
            },
            !old(self).on_surface(x as int, y as int)
                ==> final(self).pixels@ == old(self).pixels@,
    {
        if x < 0 || y < 0 {
            return;
        }
        if x >= (self.width as i64) * 1000 || y >= (self.height as i64) * 1000 {
            return;
        }
        let idx: usize = self.index_of(x, y);
        self.pixels.set(idx, color);
    }

    /// Inverts one pixel at a position in thousandths; off-surface
    /// positions change nothing.
    pub fn negate_pixel(&mut self, x: i64, y: i64)
        requires
            old(self).wf(),
        ensures
            final(self).wf(),
            final(self).width == old(self).width,
            final(self).height == old(self).height,
            old(self).on_surface(x as int, y as int) ==> {
                &&& 0 <= old(self).pix_at(x as int, y as int) < old(self).pixels@.len()
                &&& final(self).pixels@ == old(self).pixels@.update(
                    old(self).pix_at(x as int, y as int),
                    color::negated(old(self).pixels@[old(self).pix_at(x as int, y as int)]) as u32)
            },
            !old(self).on_surface(x as int, y as int)
                ==> final(self).pixels@ == old(self).pixels@,
    {
        if x < 0 || y < 0 {
            return;
        }
        if x >= (self.width as i64) * 1000 || y >= (self.height as i64) * 1000 {
            return;
        }
        let idx: usize = self.index_of(x, y);
        let inverted: u32 = Color::negative(self.pixels[idx]);
        self.pixels.set(idx, inverted);
    }

    /// The buffer index of an on-surface position, with its range proof.
    fn index_of(&self, x: i64, y: i64) -> (idx: usize)
        requires
            self.wf(),
            self.on_surface(x as int, y as int),
        ensures
            idx == self.pix_at(x as int, y as int),
            0 <= idx < self.pixels@.len(),
    {
        let n: usize = self.pixels.len();
        let xi: usize = ((x as u64) / 1000) as usize;
        let yi: usize = ((y as u64) / 1000) as usize;
        proof {
            assert(self.width * self.height == n);
            vstd::arithmetic::div_mod::lemma_multiply_divide_lt(
                x as int, self.width as int, 1000);
            vstd::arithmetic::div_mod::lemma_multiply_divide_lt(
                y as int, self.height as int, 1000);
            vstd::arithmetic::mul::lemma_mul_inequality(
                yi as int, self.height as int - 1, self.width as int);
            vstd::arithmetic::mul::lemma_mul_is_distributive_sub_other_way(
                self.width as int, self.height as int, 1);
            vstd::arithmetic::mul::lemma_mul_basics(self.width as int);
            vstd::arithmetic::mul::lemma_mul_is_commutative(
                self.height as int, self.width as int);
        }
        yi * self.width + xi
    }

    /// Fills a `size` by `size` square of whole pixels whose corner sits at
    /// `pos` (in thousandths), wherever that corner lies: every covered
    /// on-surface cell becomes `color`, the corner pixel included, and
    /// every other pixel keeps its value.
    pub fn draw_square(&mut self, pos: Vec2Milli, size: u32, color: u32)
        requires
            old(self).wf(),
        ensures
            final(self).wf(),
            final(self).width == old(self).width,
            final(self).height == old(self).height,
            final(self).pixels@.len() == old(self).pixels@.len(),
            forall |i: int| 0 <= i < old(self).pixels@.len()
                ==> final(self).pixels@[i] == old(self).pixels@[i]
                    || final(self).pixels@[i] == color,
            old(self).on_surface(pos.x as int, pos.y as int)
                ==> final(self).pixels@[old(self).pix_at(pos.x as int, pos.y as int)] == color,
            forall |dx: int, dy: int|
                0 <= dx < size && 0 <= dy < size
                && 0 <= pos.x + dx * 1000 < old(self).width * 1000
                && 0 <= pos.y + dy * 1000 < old(self).height * 1000
                ==> final(self).pixels@[
                    #[trigger] cell_index(old(self).width as int, pos, dx, dy)] == color,
            forall |i: int|
                0 <= i < old(self).pixels@.len()
                && final(self).pixels@[i] != old(self).pixels@[i]
                ==> i == old(self).pix_at(pos.x as int, pos.y as int)
                    || exists |dx: int, dy: int|
                        0 <= dx < size && 0 <= dy < size
                        && i == #[trigger] cell_index(old(self).width as int, pos, dx, dy),
    {
        self.set_pixel(pos.x, pos.y, color);
        let mut dx: u32 = 0;
        while dx < size
            invariant
                dx <= size,
                self.wf(),
                self.width == old(self).width,
                self.height == old(self).height,
                self.pixels@.len() == old(self).pixels@.len(),
                forall |i: int| 0 <= i < old(self).pixels@.len()
                    ==> self.pixels@[i] == old(self).pixels@[i]
                        || self.pixels@[i] == color,
                old(self).on_surface(pos.x as int, pos.y as int) ==> {
                    &&& 0 <= old(self).pix_at(pos.x as int, pos.y as int)
                        < old(self).pixels@.len()
                    &&& self.pixels@[old(self).pix_at(pos.x as int, pos.y as int)] == color
                },
                forall |dx2: int, dy2: int|
                    0 <= dx2 < dx && 0 <= dy2 < size
                    && 0 <= pos.x + dx2 * 1000 < old(self).width * 1000
                    && 0 <= pos.y + dy2 * 1000 < old(self).height * 1000
                    ==> 0 <= #[trigger] cell_index(old(self).width as int, pos, dx2, dy2)
                        < old(self).pixels@.len()
                        && self.pixels@[cell_index(old(self).width as int, pos, dx2, dy2)]
                            == color,
                forall |i: int|
                    0 <= i < old(self).pixels@.len()
                    && self.pixels@[i] != old(self).pixels@[i]
                    ==> i == old(self).pix_at(pos.x as int, pos.y as int)
                        || exists |dx2: int, dy2: int|
                            0 <= dx2 < size && 0 <= dy2 < size
                            && i == #[trigger] cell_index(old(self).width as int, pos, dx2, dy2),
            decreases size - dx,
        {
            let mut dy: u32 = 0;
            while dy < size
                invariant
                    dy <= size,
                    dx < size,
                    self.wf(),
                    self.width == old(self).width,
                    self.height == old(self).height,
                    self.pixels@.len() == old(self).pixels@.len(),
                    forall |i: int| 0 <= i < old(self).pixels@.len()
                        ==> self.pixels@[i] == old(self).pixels@[i]
                            || self.pixels@[i] == color,
                    old(self).on_surface(pos.x as int, pos.y as int) ==> {
                        &&& 0 <= old(self).pix_at(pos.x as int, pos.y as int)
                            < old(self).pixels@.len()
                        &&& self.pixels@[old(self).pix_at(pos.x as int, pos.y as int)]
                            == color
                    },
                    forall |dx2: int, dy2: int|
                        (0 <= dx2 < dx && 0 <= dy2 < size || dx2 == dx && 0 <= dy2 < dy)
                        && 0 <= pos.x + dx2 * 1000 < old(self).width * 1000
                        && 0 <= pos.y + dy2 * 1000 < old(self).height * 1000
                        ==> 0 <= #[trigger] cell_index(old(self).width as int, pos, dx2, dy2)
                            < old(self).pixels@.len()
                            && self.pixels@[cell_index(old(self).width as int, pos, dx2, dy2)]
                                == color,
                    forall |i: int|
                        0 <= i < old(self).pixels@.len()
                        && self.pixels@[i] != old(self).pixels@[i]
                        ==> i == old(self).pix_at(pos.x as int, pos.y as int)
                            || exists |dx2: int, dy2: int|
                                0 <= dx2 < size && 0 <= dy2 < size
                                && i == #[trigger] cell_index(
                                    old(self).width as int, pos, dx2, dy2),
                decreases size - dy,
            {
                let px: i64 = fx::sat_add(pos.x, (dx as i64) * 1000);
                let py: i64 = fx::sat_add(pos.y, (dy as i64) * 1000);
                self.set_pixel(px, py, color);
                proof {
                    if 0 <= pos.x + dx * 1000 < old(self).width * 1000
                        && 0 <= pos.y + dy * 1000 < old(self).height * 1000 {
                        assert(px == pos.x + dx * 1000);
                        assert(py == pos.y + dy * 1000);
                        assert(cell_index(old(self).width as int, pos, dx as int, dy as int)
                            == (py as int / 1000) * old(self).width + px as int / 1000);
                    }
                }
                dy = dy + 1;
            }
            dx = dx + 1;
        }
    }
}

/// Builds a buffer of `n` black pixels.
fn zero_pixels(n: usize) -> (v: Vec<u32>)
    ensures
        v@.len() == n,
        forall |i: int| 0 <= i < n ==> v@[i] == 0,
{
    let mut v: Vec<u32> = Vec::new();
    while v.len() < n
        invariant
            v@.len() <= n,
            forall |i: int| 0 <= i < v@.len() ==> v@[i] == 0,
        decreases n - v@.len(),
    {
        v.push(0);
    }
    v
}

} // verus!
