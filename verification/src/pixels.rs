//! Decoded pixel data: an RGBA byte buffer together with its dimensions.

use crate::error::SpriteError;
use crate::raster::byte_index;
use crate::raster::channel_of;
use crate::raster::column_of;
use crate::raster::lemma_byte_index_bounds;
use crate::raster::lemma_byte_index_inverse;
use crate::raster::lemma_byte_index_onto;
use crate::raster::row_of;
use crate::raster::Raster;
use vstd::prelude::*;

verus! {

/// An RGBA raster in memory. A value of this type always holds exactly
/// `width * height * 4` bytes: no constructor builds anything else and no
/// method changes the size.
#[derive(Debug, PartialEq)]
pub struct Pixels {
    width: u32,
    height: u32,
    data: Vec<u8>,
}

impl Clone for Pixels {
    fn clone(&self) -> (copy: Pixels)
        ensures
            copy@ == self@,
    {
        proof {
            use_type_invariant(self);
        }
        let data = self.data.clone();
        assert(data@ =~= self.data@);
        Pixels { width: self.width, height: self.height, data }
    }
}

impl View for Pixels {
    type V = Raster;

    closed spec fn view(&self) -> Raster {
        Raster { width: self.width as nat, height: self.height as nat, bytes: self.data@ }
    }
}

/// Whether a raster of this size can be held in memory at all.
pub open spec fn size_fits(width: nat, height: nat) -> bool {
    width * height * 4 <= usize::MAX
}

/// While `top` is being copied to `(x0, y0)` of a raster `width` pixels wide,
/// row by row and byte by byte: byte `j` of the target has been written once
/// `rows` full rows and `k` bytes of the next row are done.
spec fn written(top: Raster, x0: nat, y0: nat, width: nat, rows: int, k: int, j: int) -> bool {
    let x = column_of(width, j);
    let y = row_of(width, j);
    let c = channel_of(j);
    Raster::under(top, x0, y0, x, y) && (y - y0 < rows || (y - y0 == rows && (x - x0) * 4 + c
        < k))
}

/// The byte of `top` that the copy puts at place `j` of the target.
spec fn source_byte(top: Raster, x0: nat, y0: nat, width: nat, j: int) -> u8 {
    top.at(column_of(width, j) - x0, row_of(width, j) - y0, channel_of(j))
}

/// The target buffer while the copy is under way.
spec fn partly_copied(
    now: Seq<u8>,
    before: Seq<u8>,
    top: Raster,
    x0: nat,
    y0: nat,
    width: nat,
    rows: int,
    k: int,
) -> bool {
    &&& now.len() == before.len()
    &&& forall|j: int|
        0 <= j < now.len() ==> #[trigger] now[j] == (if written(top, x0, y0, width, rows, k, j) {
            source_byte(top, x0, y0, width, j)
        } else {
            before[j]
        })
}

impl Pixels {
    #[verifier::type_invariant]
    spec fn inv(&self) -> bool {
        self.data@.len() == self.width * self.height * 4
    }

    /// Wraps a buffer of decoded pixels, provided that its length is that of a
    /// `width` by `height` raster.
    pub fn new(width: u32, height: u32, data: Vec<u8>) -> (r: Result<Pixels, SpriteError>)
        ensures
            data@.len() == width * height * 4 ==> (r matches Ok(p) && p@ == (Raster {
                width: width as nat,
                height: height as nat,
                bytes: data@,
            })),
            data@.len() != width * height * 4 ==> r == Err::<Pixels, SpriteError>(
                SpriteError::SizeMismatch,
            ),
    {
        assert(width * height <= 0xffff_ffff * 0xffff_ffff) by (nonlinear_arith)
            requires
                0 <= width <= 0xffff_ffff,
                0 <= height <= 0xffff_ffff,
        ;
        let expected: u128 = (width as u128) * (height as u128) * 4;
        if data.len() as u128 == expected {
            Ok(Pixels { width, height, data })
        } else {
            Err(SpriteError::SizeMismatch)
        }
    }

    /// A fully transparent raster: every byte is zero.
    pub fn blank(width: u32, height: u32) -> (p: Pixels)
        requires
            size_fits(width as nat, height as nat),
        ensures
            p@ == Raster::blank(width as nat, height as nat),
    {
        assert(width * height >= 0) by (nonlinear_arith)
            requires
                width >= 0,
                height >= 0,
        ;
        let len: usize = (width as usize) * (height as usize) * 4;
        let data: Vec<u8> = vec![0u8; len];
        let p = Pixels { width, height, data };
        assert(p@.bytes =~= Raster::blank(width as nat, height as nat).bytes);
        p
    }

    /// The number of pixels in a row.
    pub fn width(&self) -> (w: u32)
        ensures
            w == self@.width,
            self@.wf(),
    {
        proof {
            use_type_invariant(self);
        }
        self.width
    }

    /// The number of rows.
    pub fn height(&self) -> (h: u32)
        ensures
            h == self@.height,
            self@.wf(),
    {
        proof {
            use_type_invariant(self);
        }
        self.height
    }

    /// The raw bytes, row by row, four to a pixel.
    pub fn as_bytes(&self) -> (bytes: &Vec<u8>)
        ensures
            bytes@ == self@.bytes,
            self@.wf(),
    {
        proof {
            use_type_invariant(self);
        }
        &self.data
    }

    /// Gives up the raster for its raw bytes.
    pub fn into_bytes(self) -> (bytes: Vec<u8>)
        ensures
            bytes@ == self@.bytes,
            self@.wf(),
    {
        proof {
            use_type_invariant(&self);
        }
        self.data
    }

    /// Copies all of `src` into this raster, with the top-left corner of `src`
    /// at `(x0, y0)`. Nothing outside that rectangle changes.
    pub fn blit(&mut self, src: &Pixels, x0: u32, y0: u32)
        requires
            old(self)@.holds(src@, x0 as nat, y0 as nat),
        ensures
            final(self)@ == old(self)@.overlay(src@, x0 as nat, y0 as nat),
    {
        proof {
            use_type_invariant(&*self);
            use_type_invariant(src);
        }
        let ghost before = self.data@;
        let ghost top = src@;
        let ghost gx = x0 as nat;
        let ghost gy = y0 as nat;
        let ghost gw = self.width as nat;
        let ghost gh = self.height as nat;
        let sw: usize = src.width as usize;
        let sh: usize = src.height as usize;
        let dw: usize = self.width as usize;
        assert(self.data@.len() == self.data.len());
        assert(src.data@.len() == src.data.len());
        let mut r: usize = 0;
        while r < sh
            invariant
                r <= sh,
                sw == top.width,
                sh == top.height,
                dw == gw,
                gw == self.width,
                gh == self.height,
                gx == x0,
                gy == y0,
                top == src@,
                top.bytes == src.data@,
                top.bytes.len() == top.width * top.height * 4,
                before.len() == gw * gh * 4,
                before.len() <= usize::MAX,
                top.bytes.len() <= usize::MAX,
                gx + top.width <= gw,
                gy + top.height <= gh,
                partly_copied(self.data@, before, top, gx, gy, gw, r as int, 0),
            decreases sh - r,
        {
            assert(sw * 4 <= sw * sh * 4 && r * sw + sw <= sw * sh && 0 <= r * sw) by (nonlinear_arith)
                requires
                    0 <= r < sh,
                    0 <= sw,
            ;
            let row: usize = y0 as usize + r;
            assert((row * dw + x0 + sw) * 4 <= dw * gh * 4 && 0 <= row * dw) by (nonlinear_arith)
                requires
                    0 <= row < gh,
                    x0 + sw <= dw,
                    0 <= x0,
                    0 <= sw,
            ;
            let row_len: usize = sw * 4;
            let src_base: usize = r * sw * 4;
            let dst_base: usize = (row * dw + x0 as usize) * 4;
            let mut k: usize = 0;
            while k < row_len
                invariant
                    k <= row_len,
                    row_len == sw * 4,
                    r < sh,
                    row == gy + r,
                    src_base == r * sw * 4,
                    dst_base == (row * dw + gx) * 4,
                    src_base + row_len <= top.bytes.len(),
                    dst_base + row_len <= before.len(),
                    before.len() <= usize::MAX,
                    top.bytes.len() <= usize::MAX,
                    sw == top.width,
                    sh == top.height,
                    dw == gw,
                    gw == self.width,
                    gh == self.height,
                    top.bytes == src.data@,
                    top.bytes.len() == top.width * top.height * 4,
                    before.len() == gw * gh * 4,
                    gx + top.width <= gw,
                    gy + top.height <= gh,
                    partly_copied(self.data@, before, top, gx, gy, gw, r as int, k as int),
                decreases row_len - k,
            {
                let v = src.data[src_base + k];
                let ghost prev = self.data@;
                let ghost t = (dst_base + k) as int;
                self.data[dst_base + k] = v;
                proof {
                    let xx = (k / 4) as int;
                    let cc = (k % 4) as int;
                    assert(t == byte_index(gw, gx + xx, row as int, cc)) by (nonlinear_arith)
                        requires
                            t == (row * dw + gx) * 4 + k,
                            dw == gw,
                            xx == k / 4,
                            cc == k % 4,
                    ;
                    assert(src_base + k == byte_index(top.width, xx, r as int, cc))
                        by (nonlinear_arith)
                        requires
                            src_base == r * sw * 4,
                            sw == top.width,
                            xx == k / 4,
                            cc == k % 4,
                    ;
                    lemma_byte_index_inverse(gw, gx + xx, row as int, cc);
                    assert forall|j: int| 0 <= j < self.data@.len() implies #[trigger] self.data@[j]
                        == (if written(top, gx, gy, gw, r as int, k + 1, j) {
                        source_byte(top, gx, gy, gw, j)
                    } else {
                        before[j]
                    }) by {
                        lemma_byte_index_onto(gw, gh, j);
                        if j != t {
                            assert(self.data@[j] == prev[j]);
                        }
                    }
                }
                k = k + 1;
            }
            proof {
                assert forall|j: int| 0 <= j < self.data@.len() implies #[trigger] self.data@[j]
                    == (if written(top, gx, gy, gw, r + 1, 0, j) {
                    source_byte(top, gx, gy, gw, j)
                } else {
                    before[j]
                }) by {
                    assert(written(top, gx, gy, gw, r + 1, 0, j) == written(
                        top,
                        gx,
                        gy,
                        gw,
                        r as int,
                        row_len as int,
                        j,
                    ));
                }
            }
            r = r + 1;
        }
        proof {
            let goal = old(self)@.overlay(top, gx, gy);
            assert forall|j: int| 0 <= j < self.data@.len() implies self.data@[j] == goal.bytes[j] by {
                lemma_byte_index_onto(gw, gh, j);
            }
            assert(self.data@ =~= goal.bytes);
        }
    }

    /// Channel `c` of the pixel at `(x, y)`, or `None` where the raster has no
    /// such pixel or a pixel no such channel.
    pub fn get(&self, x: u32, y: u32, c: u8) -> (v: Option<u8>)
        ensures
            self@.covers(x as int, y as int, c as int) ==> v == Some(
                self@.at(x as int, y as int, c as int),
            ),
            !self@.covers(x as int, y as int, c as int) ==> v.is_none(),
    {
        proof {
            use_type_invariant(self);
        }
        if x < self.width && y < self.height && c < 4 {
            proof {
                lemma_byte_index_bounds(
                    self.width as nat,
                    self.height as nat,
                    x as int,
                    y as int,
                    c as int,
                );
            }
            assert(self.data@.len() == self.data.len());
            let pixel: usize = (y as usize) * (self.width as usize) + (x as usize);
            let i: usize = pixel * 4 + (c as usize);
            assert(i == byte_index(self.width as nat, x as int, y as int, c as int));
            Some(self.data[i])
        } else {
            None
        }
    }
}

} // verus!
