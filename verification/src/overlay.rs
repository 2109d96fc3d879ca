//! Painting one image over another, alpha respected and whatever falls
//! outside the canvas clipped.

use crate::raster::{PixelBuffer, Raster, Rgba};
use vstd::prelude::*;

verus! {

/// What `image::Pixel::blend` makes of a pixel of four 8-bit channels when a
/// partly transparent pixel `top` is laid over `bottom`.
pub uninterp spec fn blended(bottom: Rgba, top: Rgba) -> Rgba;

/// One pixel laid over another: a fully transparent pixel leaves what is
/// below as it is, a fully opaque one replaces it, and anything between is
/// blended.
pub open spec fn composite_pixel(bottom: Rgba, top: Rgba) -> Rgba {
    if top.a == 0 {
        bottom
    } else if top.a == 255 {
        top
    } else {
        blended(bottom, top)
    }
}

/// `top` laid over `bottom` with its top-left corner at `(x, y)` of `bottom`.
/// The dimensions are those of `bottom`; the part of `top` that falls outside
/// is dropped.
pub open spec fn overlaid(bottom: Raster, top: Raster, x: int, y: int) -> Raster {
    Raster {
        width: bottom.width,
        height: bottom.height,
        rows: Seq::new(
            bottom.height,
            |by: int|
                Seq::new(
                    bottom.width,
                    |bx: int|
                        if top.contains(bx - x, by - y) {
                            composite_pixel(bottom.pixel(bx, by), top.pixel(bx - x, by - y))
                        } else {
                            bottom.pixel(bx, by)
                        },
                ),
        ),
    }
}

/// `image::imageops::overlay` on two images of four 8-bit channels.
///
/// Trusted: the canvas keeps its dimensions; each of its pixels that lies
/// under a pixel of `top` becomes what `image::Pixel::blend` makes of the two,
/// which is the lower pixel for an upper alpha of 0 and the upper pixel for
/// an upper alpha of 255; every other pixel stays as it was.
#[verifier::external_body]
fn overlay_onto(bottom: &mut PixelBuffer, top: &PixelBuffer, x: i64, y: i64)
    ensures
        final(bottom)@.width == old(bottom)@.width,
        final(bottom)@.height == old(bottom)@.height,
        final(bottom)@.wf(),
        forall|bx: int, by: int|
            old(bottom)@.contains(bx, by) ==> #[trigger] final(bottom)@.pixel(bx, by) == (
            if !top@.contains(bx - x, by - y) || top@.pixel(bx - x, by - y).a == 0 {
                old(bottom)@.pixel(bx, by)
            } else if top@.pixel(bx - x, by - y).a == 255 {
                top@.pixel(bx - x, by - y)
            } else {
                blended(old(bottom)@.pixel(bx, by), top@.pixel(bx - x, by - y))
            }),
{
    let below = std::mem::take(&mut bottom.data);
    let mut canvas = image::RgbaImage::from_raw(bottom.width, bottom.height, below).unwrap();
    let above = top.data.as_slice();
    let patch = image::ImageBuffer::<image::Rgba<u8>, &[u8]>::from_raw(top.width, top.height, above);
    image::imageops::overlay(&mut canvas, &patch.unwrap(), x, y);
    bottom.data = canvas.into_raw();
}

/// Paints `top` onto `canvas` with its top-left corner at `(x, y)`, which may
/// lie outside the canvas. Clipping is silent: it is no error.
pub fn overlay(canvas: &mut PixelBuffer, top: &PixelBuffer, x: i64, y: i64)
    ensures
        final(canvas)@ == overlaid(old(canvas)@, top@, x as int, y as int),
        final(canvas)@.width == old(canvas)@.width,
        final(canvas)@.height == old(canvas)@.height,
{
    overlay_onto(canvas, top, x, y);
    proof {
        let goal = overlaid(old(canvas)@, top@, x as int, y as int);
        assert forall|by: int| 0 <= by < goal.height implies #[trigger] canvas@.rows[by]
            =~= goal.rows[by] by {
            assert forall|bx: int| 0 <= bx < goal.width implies canvas@.rows[by][bx]
                == goal.rows[by][bx] by {
                assert(canvas@.pixel(bx, by) == goal.rows[by][bx]);
            }
        }
        assert(canvas@ =~= goal);
    }
}

/// An image without any opaque or partly opaque pixel changes nothing.
pub proof fn lemma_transparent_overlay_is_identity(bottom: Raster, top: Raster, x: int, y: int)
    requires
        bottom.wf(),
        forall|tx: int, ty: int| top.contains(tx, ty) ==> (#[trigger] top.pixel(tx, ty)).a == 0,
    ensures
        overlaid(bottom, top, x, y) == bottom,
{
    let result = overlaid(bottom, top, x, y);
    assert forall|by: int| 0 <= by < bottom.height implies #[trigger] result.rows[by]
        =~= bottom.rows[by] by {
        assert forall|bx: int| 0 <= bx < bottom.width implies result.rows[by][bx]
            == bottom.rows[by][bx] by {
            if top.contains(bx - x, by - y) {
                assert(top.pixel(bx - x, by - y).a == 0);
            }
        }
    }
    assert(result =~= bottom);
}

/// Paint order is input order: of two fully opaque images of the same size
/// laid at the same place, only the second one shows.
pub proof fn lemma_later_opaque_overlay_wins(
    bottom: Raster,
    first: Raster,
    second: Raster,
    x: int,
    y: int,
)
    requires
        bottom.wf(),
        first.width == second.width,
        first.height == second.height,
        forall|tx: int, ty: int|
            second.contains(tx, ty) ==> (#[trigger] second.pixel(tx, ty)).a == 255,
    ensures
        overlaid(overlaid(bottom, first, x, y), second, x, y) == overlaid(bottom, second, x, y),
{
    let once = overlaid(bottom, second, x, y);
    let twice = overlaid(overlaid(bottom, first, x, y), second, x, y);
    assert forall|by: int| 0 <= by < bottom.height implies #[trigger] twice.rows[by]
        =~= once.rows[by] by {
        assert forall|bx: int| 0 <= bx < bottom.width implies twice.rows[by][bx]
            == once.rows[by][bx] by {
            if second.contains(bx - x, by - y) {
                assert(second.pixel(bx - x, by - y).a == 255);
            }
        }
    }
    assert(twice =~= once);
}

} // verus!
