//! The overlay texture: a growable, row-major RGBA pixel buffer that mirrors
//! the UI renderer's output and supports partial sub-rectangle updates.

use vstd::prelude::*;

verus! {

/// Flat index of channel `k` of the pixel at column `x`, row `y` in a
/// row-major buffer of width `w` pixels, 4 bytes per pixel.
pub open spec fn pixel_index(w: int, x: int, y: int, k: int) -> int {
    (y * w + x) * 4 + k
}

/// A flat pixel-channel index is within the buffer of a `w` by `h` texture.
pub(crate) proof fn lemma_flat_bounds(w: int, h: int, x: int, y: int, k: int)
    by (nonlinear_arith)
    requires
        0 <= x < w,
        0 <= y < h,
        0 <= k < 4,
    ensures
        0 <= y * w + x < w * h,
        0 <= (y * w + x) * 4 + k < w * h * 4,
{
}

/// Distinct pixel-channel coordinates have distinct flat indices.
pub(crate) proof fn lemma_flat_distinct(
    w: int,
    x1: int,
    y1: int,
    k1: int,
    x2: int,
    y2: int,
    k2: int,
)
    by (nonlinear_arith)
    requires
        0 <= x1 < w,
        0 <= x2 < w,
        0 <= k1 < 4,
        0 <= k2 < 4,
        0 <= y1,
        0 <= y2,
        !(x1 == x2 && y1 == y2 && k1 == k2),
    ensures
        (y1 * w + x1) * 4 + k1 != (y2 * w + x2) * 4 + k2,
{
}

/// The region of a texture already overwritten while copying a
/// `rw`-pixel-wide rectangle at `(left, top)` row by row: all of the first
/// `r` rows, and the first `c` columns of row `r`.
pub(crate) open spec fn in_copied(
    left: int,
    top: int,
    rw: int,
    r: int,
    c: int,
    x: int,
    y: int,
) -> bool {
    (left <= x < left + rw && top <= y < top + r) || (y == top + r && left <= x < left + c)
}

/// A 2D RGBA pixel buffer with at least one pixel on each axis; the overlay
/// texture the UI renderer's dirty rectangles are written into.
pub struct OverlayTexture {
    width: u32,
    height: u32,
    pixels: Vec<u8>,
}

impl OverlayTexture {
    /// Width in pixels.
    pub closed spec fn spec_width(self) -> int {
        self.width as int
    }

    /// Height in pixels.
    pub closed spec fn spec_height(self) -> int {
        self.height as int
    }

    /// The backing bytes, row-major from the top row, 4 bytes per pixel.
    pub closed spec fn spec_pixels(self) -> Seq<u8> {
        self.pixels@
    }

    /// Well-formedness: positive size, each axis addressable as an `i32`
    /// coordinate, and a backing buffer of exactly 4 bytes per pixel.
    pub open spec fn wf(self) -> bool {
        &&& 1 <= self.spec_width() <= 0x7fff_ffff
        &&& 1 <= self.spec_height() <= 0x7fff_ffff
        &&& self.spec_pixels().len() == self.spec_width() * self.spec_height() * 4
    }

    /// Every byte is zero: the texture reads as fully transparent black.
    pub open spec fn fully_transparent(self) -> bool {
        forall|i: int| 0 <= i < self.spec_pixels().len() ==> self.spec_pixels()[i] == 0u8
    }

    /// Allocate a texture of the given size, cleared to fully transparent.
    pub fn new(width: u32, height: u32) -> (t: Self)
        requires
            1 <= width <= 0x7fff_ffff,
            1 <= height <= 0x7fff_ffff,
            width as int * height as int * 4 <= usize::MAX,
        ensures
            t.wf(),
            t.spec_width() == width,
            t.spec_height() == height,
            t.fully_transparent(),
    {
        proof {
            lemma_flat_bounds(width as int, height as int, width as int - 1, height as int - 1, 3);
        }
        let n: usize = (width as usize) * (height as usize) * 4;
        let mut pixels: Vec<u8> = Vec::new();
        let mut i: usize = 0;
        while i < n
            invariant
                i <= n,
                pixels@.len() == i,
                forall|j: int| 0 <= j < i ==> pixels@[j] == 0u8,
            decreases n - i,
        {
            pixels.push(0u8);
            i = i + 1;
        }
        OverlayTexture { width, height, pixels }
    }

    /// Width in pixels.
    pub fn width(&self) -> (w: u32)
        ensures
            w as int == self.spec_width(),
    {
        self.width
    }

    /// Height in pixels.
    pub fn height(&self) -> (h: u32)
        ensures
            h as int == self.spec_height(),
    {
        self.height
    }

    /// Whether this texture's size differs from the given surface size.
    pub fn size_differs(&self, width: u32, height: u32) -> (r: bool)
        ensures
            r == !(self.spec_width() == width && self.spec_height() == height),
    {
        self.width != width || self.height != height
    }

    /// Read channel `k` of the pixel at `(x, y)`.
    pub fn channel(&self, x: u32, y: u32, k: u32) -> (b: u8)
        requires
            self.wf(),
            x < self.spec_width(),
            y < self.spec_height(),
            k < 4,
        ensures
            b == self.spec_pixels()[pixel_index(self.spec_width(), x as int, y as int, k as int)],
    {
        let total = self.pixels.len();
        proof {
            lemma_flat_bounds(
                self.spec_width(),
                self.spec_height(),
                x as int,
                y as int,
                k as int,
            );
            assert(self.spec_width() * self.spec_height() * 4 <= usize::MAX);
        }
        let idx: usize = ((y as usize) * (self.width as usize) + (x as usize)) * 4 + (k as usize);
        self.pixels[idx]
    }

    /// Overwrite the `rw` by `rh` rectangle at `(left, top)` with the given
    /// bytes (row-major, 4 bytes per pixel); every byte outside the
    /// rectangle keeps its value.
    pub fn write_rect(&mut self, left: u32, top: u32, rw: u32, rh: u32, data: &Vec<u8>)
        requires
            old(self).wf(),
            left + rw <= old(self).spec_width(),
            top + rh <= old(self).spec_height(),
            data@.len() == rw as int * rh as int * 4,
        ensures
            final(self).wf(),
            final(self).spec_width() == old(self).spec_width(),
            final(self).spec_height() == old(self).spec_height(),
            forall|x: int, y: int, k: int|
                #![trigger pixel_index(old(self).spec_width(), x, y, k)]
                left <= x < left + rw && top <= y < top + rh && 0 <= k < 4
                    ==> final(self).spec_pixels()[pixel_index(old(self).spec_width(), x, y, k)]
                    == data@[pixel_index(rw as int, x - left, y - top, k)],
            forall|x: int, y: int, k: int|
                #![trigger pixel_index(old(self).spec_width(), x, y, k)]
                0 <= x < old(self).spec_width() && 0 <= y < old(self).spec_height() && 0 <= k < 4
                    && !(left <= x < left + rw && top <= y < top + rh)
                    ==> final(self).spec_pixels()[pixel_index(old(self).spec_width(), x, y, k)]
                    == old(self).spec_pixels()[pixel_index(old(self).spec_width(), x, y, k)],
    {
        let ghost w = self.spec_width();
        let ghost h = self.spec_height();
        let ghost orig = self.spec_pixels();
        let total = self.pixels.len();
        let data_total = data.len();
        proof {
            assert(w * h * 4 <= usize::MAX);
            assert(rw as int * rh as int * 4 <= usize::MAX);
        }
        let width = self.width;
        let mut r: u32 = 0;
        while r < rh
            invariant
                self.wf(),
                self.spec_width() == w,
                self.spec_height() == h,
                width as int == w,
                left + rw <= w,
                top + rh <= h,
                r <= rh,
                data@.len() == rw as int * rh as int * 4,
                w * h * 4 <= usize::MAX,
                rw as int * rh as int * 4 <= usize::MAX,
                forall|x: int, y: int, k: int|
                    #![trigger pixel_index(w, x, y, k)]
                    0 <= x < w && 0 <= y < h && 0 <= k < 4
                        ==> self.spec_pixels()[pixel_index(w, x, y, k)] == if in_copied(
                        left as int,
                        top as int,
                        rw as int,
                        r as int,
                        0,
                        x,
                        y,
                    ) {
                        data@[pixel_index(rw as int, x - left, y - top, k)]
                    } else {
                        orig[pixel_index(w, x, y, k)]
                    },
            decreases rh - r,
        {
            let mut c: u32 = 0;
            while c < rw
                invariant
                    self.wf(),
                    self.spec_width() == w,
                    self.spec_height() == h,
                    width as int == w,
                    left + rw <= w,
                    top + rh <= h,
                    r < rh,
                    c <= rw,
                    data@.len() == rw as int * rh as int * 4,
                    w * h * 4 <= usize::MAX,
                    rw as int * rh as int * 4 <= usize::MAX,
                    forall|x: int, y: int, k: int|
                        #![trigger pixel_index(w, x, y, k)]
                        0 <= x < w && 0 <= y < h && 0 <= k < 4
                            ==> self.spec_pixels()[pixel_index(w, x, y, k)] == if in_copied(
                            left as int,
                            top as int,
                            rw as int,
                            r as int,
                            c as int,
                            x,
                            y,
                        ) {
                            data@[pixel_index(rw as int, x - left, y - top, k)]
                        } else {
                            orig[pixel_index(w, x, y, k)]
                        },
                decreases rw - c,
            {
                let ghost px = left as int + c as int;
                let ghost py = top as int + r as int;
                proof {
                    lemma_flat_bounds(w, h, px, py, 3);
                    lemma_flat_bounds(rw as int, rh as int, c as int, r as int, 3);
                    assert(py * w + px < w * h);
                    assert((py * w + px) * 4 + 3 < w * h * 4);
                    assert((r as int * rw as int + c as int) * 4 + 3 < rw as int * rh as int * 4);
                }
                let base: usize = (((top + r) as usize) * (width as usize) + ((left + c) as usize))
                    * 4;
                let src: usize = ((r as usize) * (rw as usize) + (c as usize)) * 4;
                let ghost before = self.spec_pixels();
                self.pixels[base] = data[src];
                self.pixels[base + 1] = data[src + 1];
                self.pixels[base + 2] = data[src + 2];
                self.pixels[base + 3] = data[src + 3];
                proof {
                    assert forall|x: int, y: int, k: int|
                        0 <= x < w && 0 <= y < h && 0 <= k < 4 implies #[trigger] self.spec_pixels()[pixel_index(
                        w,
                        x,
                        y,
                        k,
                    )] == if in_copied(
                        left as int,
                        top as int,
                        rw as int,
                        r as int,
                        c as int + 1,
                        x,
                        y,
                    ) {
                        data@[pixel_index(rw as int, x - left, y - top, k)]
                    } else {
                        orig[pixel_index(w, x, y, k)]
                    } by {
                        lemma_flat_bounds(w, h, x, y, k);
                        if x == px && y == py {
                            assert(pixel_index(w, x, y, k) == base + k);
                            assert(pixel_index(rw as int, x - left, y - top, k) == src + k);
                        } else {
                            lemma_flat_distinct(w, x, y, k, px, py, 0);
                            lemma_flat_distinct(w, x, y, k, px, py, 1);
                            lemma_flat_distinct(w, x, y, k, px, py, 2);
                            lemma_flat_distinct(w, x, y, k, px, py, 3);
                            assert(self.spec_pixels()[pixel_index(w, x, y, k)] == before[pixel_index(
                                w,
                                x,
                                y,
                                k,
                            )]);
                        }
                    }
                }
                c = c + 1;
            }
            r = r + 1;
        }
    }
}

} // verus!
