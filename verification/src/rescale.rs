//! Fitting an image into a box: resize it with its aspect ratio kept, then
//! centre it on a transparent background of exactly the box's size.

use crate::raster::{transparent, PixelBuffer, Raster};
use vstd::prelude::*;

verus! {

/// The dimensions of what `image::DynamicImage::resize` returns for a source
/// of `width` by `height` and the bounds `nwidth` by `nheight`.
pub uninterp spec fn resized_dimensions(width: nat, height: nat, nwidth: nat, nheight: nat) -> (
    nat,
    nat,
);

/// `block` is what `image::DynamicImage::resize`, with the Lanczos filter of
/// window 3, returned for `source` and the bounds `nwidth` by `nheight`.
///
/// A relation and no function: the filter's kernel takes a sine, whose last
/// bit the platform decides, so the resampled pixels of one source need not
/// be the same on every machine.
pub uninterp spec fn resampling(source: Raster, nwidth: nat, nheight: nat, block: Raster) -> bool;

/// `block` is a resizing of `source` to fit the bounds `width` by `height`:
/// resampled from it, of the dimensions that the resizing fixes, within the
/// bounds and at least one pixel each way, reaching the bound on one axis
/// when the source is not empty, and the source itself when the source
/// already has the bounds as its dimensions.
pub open spec fn resized(source: Raster, width: nat, height: nat, block: Raster) -> bool {
    &&& resampling(source, width, height, block)
    &&& block.wf()
    &&& (block.width, block.height) == resized_dimensions(
        source.width,
        source.height,
        width,
        height,
    )
    &&& 1 <= block.width <= width
    &&& 1 <= block.height <= height
    &&& source.width >= 1 && source.height >= 1 ==> block.width == width || block.height
        == height
    &&& source.width == width && source.height == height ==> block == source
}

/// `image::DynamicImage::resize` with the Lanczos filter of window 3, on an
/// image of four 8-bit channels.
///
/// Trusted: the result is resampled from the source for these bounds; it is
/// at least one pixel and at most the bound on each axis, and it reaches the
/// bound on one axis when the source has pixels; its dimensions depend on the
/// dimensions and the bounds alone; and a source that already has the bounds
/// as its dimensions comes back unchanged.
#[verifier::external_body]
fn resize_to_fit(source: &PixelBuffer, nwidth: u32, nheight: u32) -> (block: PixelBuffer)
    requires
        nwidth >= 1,
        nheight >= 1,
    ensures
        block.well_formed(),
        resampling(source@, nwidth as nat, nheight as nat, block@),
        (block@.width, block@.height) == resized_dimensions(
            source@.width,
            source@.height,
            nwidth as nat,
            nheight as nat,
        ),
        1 <= block@.width <= nwidth,
        1 <= block@.height <= nheight,
        source@.width >= 1 && source@.height >= 1 ==> block@.width == nwidth || block@.height
            == nheight,
        source@.width == nwidth && source@.height == nheight ==> block@ == source@,
{
    let pixels = image::RgbaImage::from_raw(source.width, source.height, source.data.clone());
    let source_image = image::DynamicImage::ImageRgba8(pixels.unwrap());
    let resized = source_image.resize(nwidth, nheight, image::imageops::FilterType::Lanczos3);
    let resized = resized.into_rgba8();
    PixelBuffer { width: resized.width(), height: resized.height(), data: resized.into_raw() }
}

/// How far a block of length `inner` is pushed in to sit in the middle of
/// `outer`, the extra pixel of an odd difference going after the block.
pub open spec fn centering_offset(outer: nat, inner: nat) -> int {
    (outer - inner) / 2
}

/// Whether `(x, y)` of a `width` by `height` canvas lies under a centred block
/// of `block_width` by `block_height`.
pub open spec fn under_block(
    width: nat,
    height: nat,
    block_width: nat,
    block_height: nat,
    x: int,
    y: int,
) -> bool {
    let dx = centering_offset(width, block_width);
    let dy = centering_offset(height, block_height);
    dx <= x < dx + block_width && dy <= y < dy + block_height
}

/// `block` centred on a transparent canvas of `width` by `height`.
pub open spec fn letterboxed(block: Raster, width: nat, height: nat) -> Raster {
    let dx = centering_offset(width, block.width);
    let dy = centering_offset(height, block.height);
    Raster {
        width,
        height,
        rows: Seq::new(
            height,
            |y: int|
                Seq::new(
                    width,
                    |x: int|
                        if under_block(width, height, block.width, block.height, x, y) {
                            block.pixel(x - dx, y - dy)
                        } else {
                            transparent()
                        },
                ),
        ),
    }
}

/// Centres `block` on a fully transparent canvas of `width` by `height`.
/// Every pixel of the block is copied with its alpha; nothing is blended and
/// nothing is cropped.
pub fn letterbox(block: &PixelBuffer, width: u32, height: u32) -> (canvas: PixelBuffer)
    requires
        block@.width <= width,
        block@.height <= height,
        4 * (width * height) <= usize::MAX,
    ensures
        canvas@ == letterboxed(block@, width as nat, height as nat),
{
    let block_width = block.width();
    let block_height = block.height();
    let dx = (width - block_width) / 2;
    let dy = (height - block_height) / 2;
    let mut canvas = PixelBuffer::transparent(width, height).unwrap();
    let ghost goal = letterboxed(block@, width as nat, height as nat);
    proof {
        use_type_invariant(block);
        block.lemma_view();
    }
    let mut y: u32 = 0;
    while y < block_height
        invariant
            y <= block_height,
            block_width == block@.width,
            block_height == block@.height,
            block@.wf(),
            dx == centering_offset(width as nat, block@.width),
            dy == centering_offset(height as nat, block@.height),
            dx + block_width <= width,
            dy + block_height <= height,
            goal == letterboxed(block@, width as nat, height as nat),
            canvas@.width == width,
            canvas@.height == height,
            canvas@.wf(),
            forall|px: int, py: int|
                0 <= px < width && 0 <= py < height ==> #[trigger] canvas@.rows[py][px] == (if py
                    < dy + y {
                    goal.rows[py][px]
                } else {
                    transparent()
                }),
        decreases block_height - y,
    {
        let mut x: u32 = 0;
        while x < block_width
            invariant
                y < block_height,
                x <= block_width,
                block_width == block@.width,
                block_height == block@.height,
                block@.wf(),
                dx == centering_offset(width as nat, block@.width),
                dy == centering_offset(height as nat, block@.height),
                dx + block_width <= width,
                dy + block_height <= height,
                goal == letterboxed(block@, width as nat, height as nat),
                canvas@.width == width,
                canvas@.height == height,
                canvas@.wf(),
                forall|px: int, py: int|
                    0 <= px < width && 0 <= py < height ==> #[trigger] canvas@.rows[py][px] == (
                    if py < dy + y || (py == dy + y && px < dx + x) {
                        goal.rows[py][px]
                    } else {
                        transparent()
                    }),
            decreases block_width - x,
        {
            let pixel = block.get_pixel(x, y);
            canvas.put_pixel(x + dx, y + dy, pixel);
            x = x + 1;
        }
        y = y + 1;
    }
    proof {
        assert forall|py: int| 0 <= py < height implies #[trigger] canvas@.rows[py]
            =~= goal.rows[py] by {
            assert forall|px: int| 0 <= px < width implies canvas@.rows[py][px]
                == goal.rows[py][px] by {}
        }
        assert(canvas@ =~= goal);
    }
    canvas
}

/// `canvas` is a resizing of `source` to fit a box of `width` by `height`,
/// centred on a transparent canvas of exactly the box's size.
pub open spec fn fitted(source: Raster, width: nat, height: nat, canvas: Raster) -> bool {
    exists|block: Raster|
        {
            &&& #[trigger] resized(source, width, height, block)
            &&& canvas == letterboxed(block, width, height)
        }
}

/// Fits `source` into a box of `target_width` by `target_height`: resizes it,
/// aspect ratio kept, to the largest size within the box, and centres the
/// result on a transparent canvas of exactly the box's size. A source larger
/// than the box shrinks and a smaller one grows; nothing is cropped.
///
/// The box must hold a pixel, and its pixels must be addressable on this
/// machine.
pub fn rescale_and_letterbox(source: &PixelBuffer, target_width: u32, target_height: u32) -> (canvas:
    PixelBuffer)
    requires
        target_width >= 1,
        target_height >= 1,
        4 * (target_width * target_height) <= usize::MAX,
    ensures
        fitted(source@, target_width as nat, target_height as nat, canvas@),
        canvas@.width == target_width,
        canvas@.height == target_height,
        canvas@.wf(),
        source@.width == target_width && source@.height == target_height ==> canvas@ == source@,
{
    let block = resize_to_fit(source, target_width, target_height);
    let canvas = letterbox(&block, target_width, target_height);
    proof {
        use_type_invariant(source);
        source.lemma_view();
        block.lemma_view();
        assert(resized(source@, target_width as nat, target_height as nat, block@));
        lemma_fitted_has_box_size(
            source@,
            target_width as nat,
            target_height as nat,
            canvas@,
        );
        if source@.width == target_width && source@.height == target_height {
            lemma_fitted_same_size(source@, canvas@);
        }
    }
    canvas
}

/// A block that is as large as the canvas covers it entirely.
pub proof fn lemma_letterbox_same_size(block: Raster)
    requires
        block.wf(),
    ensures
        letterboxed(block, block.width, block.height) == block,
{
    let boxed = letterboxed(block, block.width, block.height);
    assert forall|y: int| 0 <= y < block.height implies #[trigger] boxed.rows[y]
        =~= block.rows[y] by {}
    assert(boxed =~= block);
}

/// Whatever the source and its aspect ratio, what is fitted into a box has
/// exactly the box's size.
pub proof fn lemma_fitted_has_box_size(source: Raster, width: nat, height: nat, canvas: Raster)
    requires
        fitted(source, width, height, canvas),
    ensures
        canvas.width == width,
        canvas.height == height,
        canvas.wf(),
{
}

/// Fitting a source that already has the box's size gives the source itself.
pub proof fn lemma_fitted_same_size(source: Raster, canvas: Raster)
    requires
        source.wf(),
        fitted(source, source.width, source.height, canvas),
    ensures
        canvas == source,
{
    lemma_letterbox_same_size(source);
}

/// Fitting is idempotent: what was fitted into a box and is fitted into the
/// same box again comes back pixel for pixel, alpha included.
pub proof fn lemma_fitting_again_changes_nothing(
    source: Raster,
    width: nat,
    height: nat,
    first: Raster,
    second: Raster,
)
    requires
        fitted(source, width, height, first),
        fitted(first, width, height, second),
    ensures
        second == first,
{
    lemma_fitted_has_box_size(source, width, height, first);
    lemma_fitted_same_size(first, second);
}

} // verus!
