//! The RGBA frame buffer.
//!
//! Row-major, top-left origin, tightly packed RGBA bytes with alpha 255.
//! Each pixel owns exactly four bytes at an offset computed from its
//! coordinates; distinct pixels own disjoint bytes, and writes to distinct
//! pixels commute — which is why the parallel driver may hand pixels to
//! workers in any order and still produce one well-defined image.

use vstd::arithmetic::div_mod::lemma_fundamental_div_mod;
use vstd::prelude::*;

verus! {

/// Byte offset of pixel `(x, y)` in a row-major RGBA buffer of the given
/// width.
pub open spec fn spec_pixel_offset(width: int, x: int, y: int) -> int {
    (y * width + x) * 4
}

/// A pixel's four bytes lie inside the buffer.
pub proof fn lemma_pixel_offset_in_bounds(width: int, height: int, x: int, y: int)
    requires
        0 <= x < width,
        0 <= y < height,
    ensures
        0 <= spec_pixel_offset(width, x, y),
        spec_pixel_offset(width, x, y) + 4 <= width * height * 4,
{
    assert(y * width + x >= 0 && y * width + x <= width * height - 1) by (nonlinear_arith)
        requires
            0 <= x < width,
            0 <= y < height,
    ;
    assert((y * width + x) * 4 + 4 <= width * height * 4) by (nonlinear_arith)
        requires
            y * width + x <= width * height - 1,
    ;
}

/// Distinct pixels own disjoint byte ranges: their offsets differ by at
/// least one whole pixel.
pub proof fn lemma_pixel_offset_injective(width: int, x1: int, y1: int, x2: int, y2: int)
    requires
        0 <= x1 < width,
        0 <= x2 < width,
        0 <= y1,
        0 <= y2,
        !(x1 == x2 && y1 == y2),
    ensures
        spec_pixel_offset(width, x1, y1) + 4 <= spec_pixel_offset(width, x2, y2)
            || spec_pixel_offset(width, x2, y2) + 4 <= spec_pixel_offset(width, x1, y1),
{
    assert(y1 * width + x1 != y2 * width + x2) by (nonlinear_arith)
        requires
            0 <= x1 < width,
            0 <= x2 < width,
            0 <= y1,
            0 <= y2,
            !(x1 == x2 && y1 == y2),
    ;
}

/// The buffer after writing color `(r, g, b)` and alpha 255 into pixel
/// `(x, y)`.
pub open spec fn spec_write_pixel(
    data: Seq<u8>,
    width: int,
    x: int,
    y: int,
    r: u8,
    g: u8,
    b: u8,
) -> Seq<u8> {
    let off = spec_pixel_offset(width, x, y);
    data.update(off, r).update(off + 1, g).update(off + 2, b).update(off + 3, 255u8)
}

/// Writes to distinct pixels commute: the buffer's final contents do not
/// depend on the order in which two different pixels were filled in.
pub proof fn lemma_write_pixel_commutes(
    data: Seq<u8>,
    width: int,
    x1: int,
    y1: int,
    r1: u8,
    g1: u8,
    b1: u8,
    x2: int,
    y2: int,
    r2: u8,
    g2: u8,
    b2: u8,
)
    requires
        0 <= x1 < width,
        0 <= x2 < width,
        0 <= y1,
        0 <= y2,
        !(x1 == x2 && y1 == y2),
        spec_pixel_offset(width, x1, y1) + 4 <= data.len(),
        spec_pixel_offset(width, x2, y2) + 4 <= data.len(),
    ensures
        spec_write_pixel(spec_write_pixel(data, width, x1, y1, r1, g1, b1), width, x2, y2, r2, g2, b2)
            == spec_write_pixel(
            spec_write_pixel(data, width, x2, y2, r2, g2, b2),
            width,
            x1,
            y1,
            r1,
            g1,
            b1,
        ),
{
    lemma_pixel_offset_injective(width, x1, y1, x2, y2);
    let lhs = spec_write_pixel(
        spec_write_pixel(data, width, x1, y1, r1, g1, b1),
        width,
        x2,
        y2,
        r2,
        g2,
        b2,
    );
    let rhs = spec_write_pixel(
        spec_write_pixel(data, width, x2, y2, r2, g2, b2),
        width,
        x1,
        y1,
        r1,
        g1,
        b1,
    );
    assert forall|k: int| 0 <= k < data.len() implies lhs[k] == rhs[k] by {}
    assert(lhs =~= rhs);
}

/// The linear pixel index `i` of a row-major image denotes the coordinates
/// `(i % width, i / width)`, and that pixel's bytes start at `4 * i`: the
/// driver's flat pixel loop and the coordinate view agree.
pub fn pixel_coords(index: usize, width: usize) -> (r: (usize, usize))
    requires
        width >= 1,
    ensures
        r.0 == index as int % width as int,
        r.1 == index as int / width as int,
        r.0 < width,
        spec_pixel_offset(width as int, r.0 as int, r.1 as int) == 4 * index,
{
    proof {
        lemma_fundamental_div_mod(index as int, width as int);
        let q = index as int / width as int;
        let m = index as int % width as int;
        assert(index as int == width as int * q + m);
        assert((q * width as int + m) * 4 == 4 * index as int) by (nonlinear_arith)
            requires
                index as int == width as int * q + m,
        ;
    }
    (index % width, index / width)
}

/// A width x height RGBA byte buffer.
pub struct Framebuffer {
    width: usize,
    height: usize,
    data: Vec<u8>,
}

impl Framebuffer {
    /// The image width in pixels.
    pub closed spec fn spec_width(self) -> usize {
        self.width
    }

    /// The image height in pixels.
    pub closed spec fn spec_height(self) -> usize {
        self.height
    }

    /// The buffer contents.
    pub closed spec fn spec_data(self) -> Seq<u8> {
        self.data@
    }

    /// The buffer holds exactly four bytes per pixel.
    pub open spec fn wf(self) -> bool {
        self.spec_data().len() == self.spec_width() * self.spec_height() * 4
    }

    /// An all-zero buffer for a width x height image.
    pub fn new(width: usize, height: usize) -> (r: Framebuffer)
        requires
            width >= 1,
            height >= 1,
            width * height * 4 <= usize::MAX,
        ensures
            r.wf(),
            r.spec_width() == width,
            r.spec_height() == height,
            forall|i: int| 0 <= i < r.spec_data().len() ==> r.spec_data()[i] == 0u8,
    {
        let total: usize = width * height * 4;
        let mut data: Vec<u8> = Vec::new();
        while data.len() < total
            invariant
                data@.len() <= total,
                forall|i: int| 0 <= i < data@.len() ==> data@[i] == 0u8,
            decreases total - data@.len(),
        {
            data.push(0u8);
        }
        Framebuffer { width, height, data }
    }

    /// Returns the image width.
    pub fn width(&self) -> (r: usize)
        ensures
            r == self.spec_width(),
    {
        self.width
    }

    /// Returns the image height.
    pub fn height(&self) -> (r: usize)
        ensures
            r == self.spec_height(),
    {
        self.height
    }

    /// Writes one pixel's color and its alpha byte, touching nothing else.
    pub fn set_pixel(&mut self, x: usize, y: usize, r: u8, g: u8, b: u8)
        requires
            old(self).wf(),
            x < old(self).spec_width(),
            y < old(self).spec_height(),
        ensures
            final(self).wf(),
            final(self).spec_width() == old(self).spec_width(),
            final(self).spec_height() == old(self).spec_height(),
            final(self).spec_data() == spec_write_pixel(
                old(self).spec_data(),
                old(self).spec_width() as int,
                x as int,
                y as int,
                r,
                g,
                b,
            ),
    {
        proof {
            lemma_pixel_offset_in_bounds(
                self.width as int,
                self.height as int,
                x as int,
                y as int,
            );
        }
        // Binding the length gives the prover that the buffer, and with it
        // the pixel offset, fits in a usize.
        let _buffer_len: usize = self.data.len();
        let off: usize = (y * self.width + x) * 4;
        self.data[off] = r;
        self.data[off + 1] = g;
        self.data[off + 2] = b;
        self.data[off + 3] = 255;
    }

    /// Hands the finished byte buffer to the embedder.
    pub fn into_data(self) -> (r: Vec<u8>)
        ensures
            r@ == self.spec_data(),
    {
        self.data
    }
}

} // verus!
