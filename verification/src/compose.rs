//! The spritesheet compositor: an ordered sequence of images becomes one
//! horizontal strip, the first image leftmost, every image against the top
//! edge, whatever it does not cover left transparent.

use crate::entity::fresh_image;
use crate::entity::Image;
use crate::entity::ImageView;
use crate::error::SpriteError;
use crate::ids::IdAllocator;
use crate::pixels::size_fits;
use crate::pixels::Pixels;
use crate::raster::lemma_from_fn_at;
use crate::raster::lemma_raster_ext;
use crate::raster::Raster;
use vstd::prelude::*;

verus! {

/// The width of the strip: the widths of all the rasters added up.
pub open spec fn sheet_width(rs: Seq<Raster>) -> nat
    decreases rs.len(),
{
    if rs.len() == 0 {
        0
    } else {
        sheet_width(rs.drop_last()) + rs.last().width
    }
}

/// The height of the strip: that of the tallest raster.
pub open spec fn sheet_height(rs: Seq<Raster>) -> nat
    decreases rs.len(),
{
    if rs.len() == 0 {
        0
    } else if sheet_height(rs.drop_last()) >= rs.last().height {
        sheet_height(rs.drop_last())
    } else {
        rs.last().height
    }
}

/// The column of the strip at which raster `k` begins.
pub open spec fn offset(rs: Seq<Raster>, k: int) -> nat {
    sheet_width(rs.take(k))
}

/// Channel `c` of the strip's pixel at `(x, y)`: that of the raster whose
/// columns include `x`, read at the same row, or zero where that raster has
/// no such row, or where no raster reaches.
pub open spec fn sheet_channel(rs: Seq<Raster>, x: int, y: int, c: int) -> u8
    decreases rs.len(),
{
    if rs.len() == 0 {
        0
    } else {
        let start = sheet_width(rs.drop_last());
        if x < start {
            sheet_channel(rs.drop_last(), x, y, c)
        } else if x < start + rs.last().width && y < rs.last().height {
            rs.last().at(x - start, y, c)
        } else {
            0
        }
    }
}

/// The rasters laid out left to right on a transparent canvas of the given size.
pub open spec fn strip(rs: Seq<Raster>, width: nat, height: nat) -> Raster {
    Raster::from_fn(width, height, |x: int, y: int, c: int| sheet_channel(rs, x, y, c))
}

/// The spritesheet of the rasters: the strip that is exactly as wide as all
/// of them together and as high as the tallest.
pub open spec fn sheet(rs: Seq<Raster>) -> Raster {
    strip(rs, sheet_width(rs), sheet_height(rs))
}

/// The spritesheet is within what the machine can hold: its width is a `u32`
/// and its buffer has a length.
pub open spec fn sheet_fits(rs: Seq<Raster>) -> bool {
    sheet_width(rs) <= u32::MAX && size_fits(sheet_width(rs), sheet_height(rs))
}

/// The pixels of each image, in order.
pub open spec fn rasters(images: Seq<Image>) -> Seq<Raster> {
    Seq::new(images.len(), |i: int| images[i]@.pixels)
}

/// The image that composing yields when it is stamped with `id`.
pub open spec fn composed(rs: Seq<Raster>, id: nat) -> ImageView {
    fresh_image(id, "Spritesheet"@, None, sheet(rs))
}

/// The width and the height of the spritesheet of `images`, or `None` where
/// the machine cannot hold it: the width is no `u32`, or the buffer would be
/// longer than any buffer can be.
pub fn sheet_dimensions(images: &[Image]) -> (r: Option<(u32, u32)>)
    ensures
        match r {
            Some((width, height)) => sheet_fits(rasters(images@)) && width == sheet_width(
                rasters(images@),
            ) && height == sheet_height(rasters(images@)),
            None => !sheet_fits(rasters(images@)),
        },
{
    let ghost rs = rasters(images@);
    let mut width: u32 = 0;
    let mut height: u32 = 0;
    let mut k: usize = 0;
    while k < images.len()
        invariant
            k <= images.len(),
            rs == rasters(images@),
            width == offset(rs, k as int),
            height == sheet_height(rs.take(k as int)),
        decreases images.len() - k,
    {
        let data = images[k].data();
        let w = data.width();
        let h = data.height();
        proof {
            lemma_width_step(rs, k as int);
            lemma_height_step(rs, k as int);
            lemma_offsets_within(rs, k + 1);
        }
        width =
        match width.checked_add(w) {
            Some(sum) => sum,
            None => {
                return None;
            },
        };
        if h > height {
            height = h;
        }
        k = k + 1;
    }
    assert(rs.take(k as int) =~= rs);
    assert(width * height <= 0xffff_ffff * 0xffff_ffff) by (nonlinear_arith)
        requires
            0 <= width <= 0xffff_ffff,
            0 <= height <= 0xffff_ffff,
    ;
    let bytes: u128 = (width as u128) * (height as u128) * 4;
    if bytes <= usize::MAX as u128 {
        Some((width, height))
    } else {
        None
    }
}

/// Composes the images, in order, into one spritesheet named "Spritesheet",
/// with no file behind it and no texture yet. Fails with `EmptyInput`, and
/// issues no id, where there is no image at all.
///
/// The sheet is as wide as the images together and as high as the tallest;
/// each image stands against the top edge, to the right of the one before
/// it; whatever no image covers is transparent.
pub fn compose(images: &[Image], ids: &mut IdAllocator) -> (r: Result<Image, SpriteError>)
    requires
        images@.len() > 0 ==> !old(ids).is_exhausted(),
        sheet_fits(rasters(images@)),
    ensures
        images@.len() == 0 ==> (r matches Err(e) && e == SpriteError::EmptyInput
            && final(ids).peek() == old(ids).peek()),
        images@.len() > 0 ==> (r matches Ok(img) && img@ == composed(
            rasters(images@),
            old(ids).peek(),
        ) && final(ids).peek() == old(ids).peek() + 1),
{
    if images.len() == 0 {
        return Err(SpriteError::EmptyInput);
    }
    let ghost rs = rasters(images@);
    let (width, height) = match sheet_dimensions(images) {
        Some(dimensions) => dimensions,
        None => vstd::pervasive::unreached(),
    };
    let mut canvas = Pixels::blank(width, height);
    let mut cursor: u32 = 0;
    let mut k: usize = 0;
    assert(rs.take(0) =~= Seq::<Raster>::empty());
    assert(canvas@ == strip(rs.take(0), width as nat, height as nat)) by {
        lemma_blank_strip(width as nat, height as nat);
    }
    while k < images.len()
        invariant
            k <= images.len(),
            rs == rasters(images@),
            width == sheet_width(rs),
            height == sheet_height(rs),
            cursor == offset(rs, k as int),
            canvas@ == strip(rs.take(k as int), width as nat, height as nat),
        decreases images.len() - k,
    {
        let data = images[k].data();
        let w = data.width();
        proof {
            lemma_width_step(rs, k as int);
            lemma_offsets_within(rs, k + 1);
            lemma_height_is_max(rs);
            lemma_strip_step(rs, k as int, width as nat, height as nat);
        }
        canvas.blit(data, cursor, 0);
        cursor = cursor + w;
        k = k + 1;
    }
    assert(rs.take(k as int) =~= rs);
    Ok(Image::from_dynamic(ids, "Spritesheet".to_owned(), canvas))
}

/// The spritesheet is exactly as wide as its rasters together, each counted
/// once however often it occurs, and exactly as high as the tallest of them:
/// no raster is taller, and, unless there is none, one is exactly that tall.
/// Its buffer has the length that goes with that size. The same holds of the
/// pixels of the image that composing yields, whatever id it is given.
pub proof fn lemma_sheet_dimensions(rs: Seq<Raster>, id: nat)
    ensures
        sheet(rs).width == sheet_width(rs),
        sheet(rs).height == sheet_height(rs),
        sheet(rs).wf(),
        forall|k: int| 0 <= k < rs.len() ==> (#[trigger] rs[k]).height <= sheet(rs).height,
        rs.len() > 0 ==> exists|k: int| 0 <= k < rs.len() && (#[trigger] rs[k]).height == sheet(rs).height,
        composed(rs, id).pixels == sheet(rs),
{
    lemma_height_is_max(rs);
}

/// Composition is deterministic: the pixels of the result depend on the
/// pixels of the images and their order, and on nothing else. Two runs on
/// sequences that agree in those, whatever ids they are given and whatever the
/// names, paths and textures of the images, end in sheets of one width and one
/// height with the same buffer, byte for byte. The two results differ in
/// their ids, where the ids given differ, and in nothing else.
pub proof fn lemma_compose_deterministic(first: Seq<Image>, second: Seq<Image>, id1: nat, id2: nat)
    requires
        rasters(first) == rasters(second),
    ensures
        composed(rasters(first), id1).pixels == composed(rasters(second), id2).pixels,
        composed(rasters(first), id1).pixels.width == composed(rasters(second), id2).pixels.width,
        composed(rasters(first), id1).pixels.height == composed(rasters(second), id2).pixels.height,
        composed(rasters(first), id1).pixels.bytes == composed(rasters(second), id2).pixels.bytes,
        composed(rasters(first), id1).name == composed(rasters(second), id2).name,
        composed(rasters(first), id1).path == composed(rasters(second), id2).path,
        composed(rasters(first), id1).texture == composed(rasters(second), id2).texture,
        id1 != id2 && id1 <= usize::MAX && id2 <= usize::MAX ==> composed(rasters(first), id1).id
            != composed(rasters(second), id2).id,
{
}

/// Adding a raster to the sequence adds its width.
pub proof fn lemma_width_step(rs: Seq<Raster>, k: int)
    requires
        0 <= k < rs.len(),
    ensures
        offset(rs, k + 1) == offset(rs, k) + rs[k].width,
{
    assert(rs.take(k + 1).drop_last() =~= rs.take(k));
}

/// Each raster begins where the one before it ends, and none reaches past the
/// right edge of the strip.
pub proof fn lemma_offsets_within(rs: Seq<Raster>, k: int)
    requires
        0 <= k <= rs.len(),
    ensures
        offset(rs, k) <= sheet_width(rs),
    decreases rs.len() - k,
{
    if k == rs.len() {
        assert(rs.take(k) =~= rs);
    } else {
        lemma_width_step(rs, k);
        lemma_offsets_within(rs, k + 1);
    }
}

/// The height of the strip is the greatest of the heights: no raster is
/// taller, and, unless there is none, one raster is exactly that tall.
pub proof fn lemma_height_is_max(rs: Seq<Raster>)
    ensures
        forall|k: int| 0 <= k < rs.len() ==> (#[trigger] rs[k]).height <= sheet_height(rs),
        rs.len() > 0 ==> exists|k: int| 0 <= k < rs.len() && (#[trigger] rs[k]).height == sheet_height(rs),
    decreases rs.len(),
{
    if rs.len() > 0 {
        let rest = rs.drop_last();
        lemma_height_is_max(rest);
        assert forall|k: int| 0 <= k < rs.len() implies (#[trigger] rs[k]).height <= sheet_height(
            rs,
        ) by {
            if k < rest.len() {
                assert(rest[k] == rs[k]);
            }
        }
        if sheet_height(rest) >= rs.last().height && rest.len() > 0 {
            let k = choose|k: int| 0 <= k < rest.len() && (#[trigger] rest[k]).height == sheet_height(rest);
            assert(rs[k].height == sheet_height(rs));
        } else {
            assert(rs[rs.len() - 1].height == sheet_height(rs));
        }
    }
}

/// Taking more rasters never lowers the strip.
pub proof fn lemma_height_step(rs: Seq<Raster>, k: int)
    requires
        0 <= k < rs.len(),
    ensures
        sheet_height(rs.take(k + 1)) == if sheet_height(rs.take(k)) >= rs[k].height {
            sheet_height(rs.take(k))
        } else {
            rs[k].height
        },
{
    assert(rs.take(k + 1).drop_last() =~= rs.take(k));
}

/// Where each pixel of the spritesheet comes from: raster `k` appears
/// unchanged with its left edge at `offset(rs, k)` and its top edge at row 0,
/// and the columns of a raster below its last row are transparent.
pub proof fn lemma_sheet_pixels(rs: Seq<Raster>, k: int, x: int, y: int, c: int)
    requires
        0 <= k < rs.len(),
        0 <= x < rs[k].width,
        0 <= y < sheet_height(rs),
        0 <= c < 4,
    ensures
        sheet(rs).covers(offset(rs, k) + x, y, c),
        sheet(rs).at(offset(rs, k) + x, y, c) == if y < rs[k].height {
            rs[k].at(x, y, c)
        } else {
            0u8
        },
{
    lemma_width_step(rs, k);
    lemma_offsets_within(rs, k + 1);
    lemma_channel_of_raster(rs, k, x, y, c);
    lemma_from_fn_at(
        sheet_width(rs),
        sheet_height(rs),
        |x: int, y: int, c: int| sheet_channel(rs, x, y, c),
        offset(rs, k) + x,
        y,
        c,
    );
}

/// [`sheet_channel`] at a column of raster `k` reads raster `k`.
proof fn lemma_channel_of_raster(rs: Seq<Raster>, k: int, x: int, y: int, c: int)
    requires
        0 <= k < rs.len(),
        0 <= x < rs[k].width,
    ensures
        sheet_channel(rs, offset(rs, k) + x, y, c) == if y < rs[k].height {
            rs[k].at(x, y, c)
        } else {
            0u8
        },
    decreases rs.len(),
{
    let rest = rs.drop_last();
    if k == rs.len() - 1 {
        assert(rs.take(k) =~= rest);
    } else {
        assert(rest.take(k) =~= rs.take(k));
        assert(rest.take(k + 1) =~= rs.take(k + 1));
        assert(rest[k] == rs[k]);
        lemma_width_step(rest, k);
        lemma_offsets_within(rest, k + 1);
        lemma_channel_of_raster(rest, k, x, y, c);
    }
}

/// One step of the composition: copying raster `k` to its place turns the
/// strip of the first `k` rasters into the strip of the first `k + 1`.
proof fn lemma_strip_step(rs: Seq<Raster>, k: int, width: nat, height: nat)
    requires
        0 <= k < rs.len(),
        offset(rs, k) + rs[k].width <= width,
        rs[k].height <= height,
    ensures
        strip(rs.take(k), width, height).overlay(rs[k], offset(rs, k), 0) == strip(
            rs.take(k + 1),
            width,
            height,
        ),
{
    let before = strip(rs.take(k), width, height);
    let after = strip(rs.take(k + 1), width, height);
    let done = before.overlay(rs[k], offset(rs, k), 0);
    let start = offset(rs, k);
    assert(rs.take(k + 1).drop_last() =~= rs.take(k));
    assert(rs.take(k + 1).last() == rs[k]);
    assert forall|x: int, y: int, c: int| done.covers(x, y, c) implies #[trigger] done.at(x, y, c)
        == after.at(x, y, c) by {
        lemma_from_fn_at(
            width,
            height,
            |x: int, y: int, c: int| sheet_channel(rs.take(k), x, y, c),
            x,
            y,
            c,
        );
        lemma_from_fn_at(
            width,
            height,
            |x: int, y: int, c: int| sheet_channel(rs.take(k + 1), x, y, c),
            x,
            y,
            c,
        );
        lemma_from_fn_at(
            width,
            height,
            |x: int, y: int, c: int|
                if Raster::under(rs[k], start, 0, x, y) {
                    rs[k].at(x - start, y - 0, c)
                } else {
                    before.at(x, y, c)
                },
            x,
            y,
            c,
        );
        if x >= start {
            lemma_channel_beyond(rs.take(k), x, y, c);
        }
    }
    if width > 0 && height > 0 {
        lemma_from_fn_at(
            width,
            height,
            |x: int, y: int, c: int| sheet_channel(rs.take(k + 1), x, y, c),
            0,
            0,
            0,
        );
        lemma_from_fn_at(
            width,
            height,
            |x: int, y: int, c: int|
                if Raster::under(rs[k], start, 0, x, y) {
                    rs[k].at(x - start, y - 0, c)
                } else {
                    before.at(x, y, c)
                },
            0,
            0,
            0,
        );
    } else {
        assert(width * height * 4 == 0) by (nonlinear_arith)
            requires
                width == 0 || height == 0,
        ;
    }
    lemma_raster_ext(done, after);
}

/// The strip of no rasters is the blank canvas.
proof fn lemma_blank_strip(width: nat, height: nat)
    ensures
        strip(Seq::<Raster>::empty(), width, height) == Raster::blank(width, height),
{
    assert(strip(Seq::<Raster>::empty(), width, height).bytes =~= Raster::blank(
        width,
        height,
    ).bytes);
}

/// To the right of all the rasters the strip is transparent.
proof fn lemma_channel_beyond(rs: Seq<Raster>, x: int, y: int, c: int)
    requires
        x >= sheet_width(rs),
    ensures
        sheet_channel(rs, x, y, c) == 0,
{
}

} // verus!
