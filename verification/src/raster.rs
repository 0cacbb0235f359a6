//! The mathematical model of an RGBA raster, and the index arithmetic that
//! every proof about pixel buffers rests on.

use vstd::arithmetic::div_mod::lemma_fundamental_div_mod;
use vstd::arithmetic::div_mod::lemma_fundamental_div_mod_converse;
use vstd::arithmetic::div_mod::lemma_mod_bound;
use vstd::prelude::*;

verus! {

/// A raster as a value: `width * height` pixels in row-major order, four bytes
/// per pixel in the order red, green, blue, alpha.
pub struct Raster {
    pub width: nat,
    pub height: nat,
    pub bytes: Seq<u8>,
}

/// The position in the byte buffer of channel `c` of the pixel at `(x, y)` in
/// a raster `width` pixels wide.
pub open spec fn byte_index(width: nat, x: int, y: int, c: int) -> int {
    (y * width + x) * 4 + c
}

/// The column of the pixel that byte `i` belongs to.
pub open spec fn column_of(width: nat, i: int) -> int {
    (i / 4) % (width as int)
}

/// The row of the pixel that byte `i` belongs to.
pub open spec fn row_of(width: nat, i: int) -> int {
    (i / 4) / (width as int)
}

/// The channel that byte `i` holds.
pub open spec fn channel_of(i: int) -> int {
    i % 4
}

impl Raster {
    /// The buffer holds exactly four bytes for each of the `width * height` pixels.
    pub open spec fn wf(self) -> bool {
        self.bytes.len() == self.width * self.height * 4
    }

    /// `(x, y)` is a pixel of this raster and `c` one of its four channels.
    pub open spec fn covers(self, x: int, y: int, c: int) -> bool {
        0 <= x < self.width && 0 <= y < self.height && 0 <= c < 4
    }

    /// Channel `c` of the pixel at `(x, y)`.
    pub open spec fn at(self, x: int, y: int, c: int) -> u8 {
        self.bytes[byte_index(self.width, x, y, c)]
    }

    /// The raster of the given size whose channel `c` at `(x, y)` is `f(x, y, c)`.
    pub open spec fn from_fn(width: nat, height: nat, f: spec_fn(int, int, int) -> u8) -> Raster {
        Raster {
            width,
            height,
            bytes: Seq::new(
                width * height * 4,
                |i: int| f(column_of(width, i), row_of(width, i), channel_of(i)),
            ),
        }
    }

    /// The fully transparent raster of the given size: every byte is zero.
    pub open spec fn blank(width: nat, height: nat) -> Raster {
        Raster::from_fn(width, height, |x: int, y: int, c: int| 0u8)
    }

    /// The rectangle that `top` occupies when its top-left corner is put at
    /// `(x0, y0)` contains the pixel `(x, y)`.
    pub open spec fn under(top: Raster, x0: nat, y0: nat, x: int, y: int) -> bool {
        x0 <= x < x0 + top.width && y0 <= y < y0 + top.height
    }

    /// `top` put at `(x0, y0)` lies wholly inside this raster.
    pub open spec fn holds(self, top: Raster, x0: nat, y0: nat) -> bool {
        x0 + top.width <= self.width && y0 + top.height <= self.height
    }

    /// This raster with `top` copied over it, the top-left corner of `top` at
    /// `(x0, y0)`. Pixels outside that rectangle keep their value.
    pub open spec fn overlay(self, top: Raster, x0: nat, y0: nat) -> Raster {
        Raster::from_fn(
            self.width,
            self.height,
            |x: int, y: int, c: int|
                if Raster::under(top, x0, y0, x, y) {
                    top.at(x - x0, y - y0, c)
                } else {
                    self.at(x, y, c)
                },
        )
    }
}

/// Every channel of every pixel has a place inside the buffer.
pub proof fn lemma_byte_index_bounds(width: nat, height: nat, x: int, y: int, c: int)
    requires
        0 <= x < width,
        0 <= y < height,
        0 <= c < 4,
    ensures
        0 <= byte_index(width, x, y, c) < width * height * 4,
        0 <= y * width + x < width * height,
{
    assert(y * width + x < width * height && 0 <= y * width) by (nonlinear_arith)
        requires
            0 <= x < width,
            0 <= y < height,
    ;
}

/// A place in the buffer determines its pixel and channel.
pub proof fn lemma_byte_index_inverse(width: nat, x: int, y: int, c: int)
    requires
        0 <= x < width,
        0 <= y,
        0 <= c < 4,
    ensures
        column_of(width, byte_index(width, x, y, c)) == x,
        row_of(width, byte_index(width, x, y, c)) == y,
        channel_of(byte_index(width, x, y, c)) == c,
{
    let p = y * width + x;
    let i = byte_index(width, x, y, c);
    assert(i / 4 == p && i % 4 == c);
    lemma_fundamental_div_mod_converse(p, width as int, y, x);
}

/// Every place in the buffer is the place of one channel of one pixel.
pub proof fn lemma_byte_index_onto(width: nat, height: nat, i: int)
    requires
        0 <= i < width * height * 4,
    ensures
        0 <= column_of(width, i) < width,
        0 <= row_of(width, i) < height,
        0 <= channel_of(i) < 4,
        byte_index(width, column_of(width, i), row_of(width, i), channel_of(i)) == i,
{
    let w = width as int;
    let p = i / 4;
    assert(width > 0) by (nonlinear_arith)
        requires
            0 <= i < width * height * 4,
    ;
    assert(0 <= p < width * height);
    lemma_fundamental_div_mod(p, w);
    lemma_mod_bound(p, w);
    let q = p / w;
    let r = p % w;
    assert(w * q == q * w) by (nonlinear_arith);
    assert(0 <= q < height) by (nonlinear_arith)
        requires
            p == w * q + r,
            0 <= r < w,
            0 <= p < w * height,
    ;
}

/// Reading a raster built by [`Raster::from_fn`] gives back the function.
pub proof fn lemma_from_fn_at(
    width: nat,
    height: nat,
    f: spec_fn(int, int, int) -> u8,
    x: int,
    y: int,
    c: int,
)
    requires
        0 <= x < width,
        0 <= y < height,
        0 <= c < 4,
    ensures
        Raster::from_fn(width, height, f).at(x, y, c) == f(x, y, c),
        Raster::from_fn(width, height, f).wf(),
{
    lemma_byte_index_bounds(width, height, x, y, c);
    lemma_byte_index_inverse(width, x, y, c);
}

/// Two well-formed rasters of one size that agree on every channel of every
/// pixel are the same raster.
pub proof fn lemma_raster_ext(a: Raster, b: Raster)
    requires
        a.wf(),
        b.wf(),
        a.width == b.width,
        a.height == b.height,
        forall|x: int, y: int, c: int| a.covers(x, y, c) ==> #[trigger] a.at(x, y, c) == b.at(x, y, c),
    ensures
        a == b,
{
    assert forall|i: int| 0 <= i < a.bytes.len() implies a.bytes[i] == b.bytes[i] by {
        lemma_byte_index_onto(a.width, a.height, i);
        let x = column_of(a.width, i);
        let y = row_of(a.width, i);
        let c = channel_of(i);
        assert(a.covers(x, y, c));
        assert(a.at(x, y, c) == b.at(x, y, c));
    }
    assert(a.bytes =~= b.bytes);
}

} // verus!
