//! The compositor: image overlays first, then text, each list in its own
//! order, all on one canvas whose dimensions never change.

use crate::overlay::{overlaid, overlay};
use crate::raster::{PixelBuffer, Raster};
use crate::request::ImageComponent;
use crate::rescale::{fitted, lemma_fitted_same_size, rescale_and_letterbox};
use vstd::prelude::*;

verus! {

/// `after` is `before` with `source`, fitted into the component's box, painted
/// at the component's offset.
pub open spec fn placed(
    before: Raster,
    source: Raster,
    component: ImageComponent,
    after: Raster,
) -> bool {
    exists|patch: Raster|
        {
            &&& #[trigger] fitted(
                source,
                component.size.width as nat,
                component.size.height as nat,
                patch,
            )
            &&& after == overlaid(
                before,
                patch,
                component.offset.x as int,
                component.offset.y as int,
            )
        }
}

/// A source that already has the size of its box is painted as it is:
/// nothing of it is resampled.
pub proof fn lemma_same_size_placement(
    before: Raster,
    source: Raster,
    component: ImageComponent,
    after: Raster,
)
    requires
        source.wf(),
        source.width == component.size.width,
        source.height == component.size.height,
        placed(before, source, component, after),
    ensures
        after == overlaid(
            before,
            source,
            component.offset.x as int,
            component.offset.y as int,
        ),
{
    let patch = choose|patch: Raster|
        {
            &&& #[trigger] fitted(
                source,
                component.size.width as nat,
                component.size.height as nat,
                patch,
            )
            &&& after == overlaid(
                before,
                patch,
                component.offset.x as int,
                component.offset.y as int,
            )
        };
    lemma_fitted_same_size(source, patch);
}

/// Fits `source` into the component's box and paints it on the canvas at the
/// component's offset. What falls outside the canvas is clipped.
pub fn overlay_image(canvas: &mut PixelBuffer, source: &PixelBuffer, component: &ImageComponent)
    requires
        component.size.paintable(),
    ensures
        placed(old(canvas)@, source@, *component, final(canvas)@),
        final(canvas)@.width == old(canvas)@.width,
        final(canvas)@.height == old(canvas)@.height,
        source@.width == component.size.width && source@.height == component.size.height
            ==> final(canvas)@ == overlaid(
            old(canvas)@,
            source@,
            component.offset.x as int,
            component.offset.y as int,
        ),
{
    let patch = rescale_and_letterbox(
        source,
        component.size.width as u32,
        component.size.height as u32,
    );
    overlay(canvas, &patch, component.offset.x as i64, component.offset.y as i64);
    proof {
        assert(fitted(
            source@,
            component.size.width as nat,
            component.size.height as nat,
            patch@,
        ));
    }
}

/// The rasters that a list of buffers holds.
pub open spec fn rasters(buffers: Seq<PixelBuffer>) -> Seq<Raster> {
    Seq::new(buffers.len(), |i: int| buffers[i]@)
}

/// Step `i` of a pass: state `i + 1` is state `i` with source `i` painted as
/// component `i` says.
pub open spec fn pass_step(
    states: Seq<Raster>,
    sources: Seq<Raster>,
    components: Seq<ImageComponent>,
    i: int,
) -> bool {
    placed(states[i], sources[i], components[i], states[i + 1])
}

/// `states` are the canvases of a pass over `sources`: one before the first
/// image, and one more after each image.
pub open spec fn pass_states(
    states: Seq<Raster>,
    sources: Seq<Raster>,
    components: Seq<ImageComponent>,
) -> bool {
    &&& states.len() == sources.len() + 1
    &&& forall|i: int|
        0 <= i < sources.len() ==> #[trigger] pass_step(states, sources, components, i)
}

/// `after` is `before` with every source painted as its component says, the
/// first one first: a later image lies over an earlier one.
pub open spec fn images_placed(
    before: Raster,
    sources: Seq<Raster>,
    components: Seq<ImageComponent>,
    after: Raster,
) -> bool {
    exists|states: Seq<Raster>|
        {
            &&& #[trigger] pass_states(states, sources, components)
            &&& states[0] == before
            &&& states.last() == after
        }
}

/// The image pass: paints `sources[i]` as `components[i]` says, for every `i`
/// in rising order.
pub fn image_pass(
    canvas: &mut PixelBuffer,
    sources: &Vec<PixelBuffer>,
    components: &Vec<ImageComponent>,
)
    requires
        sources.len() == components.len(),
        forall|i: int| 0 <= i < components.len() ==> (#[trigger] components[i]).size.paintable(),
    ensures
        images_placed(old(canvas)@, rasters(sources@), components@, final(canvas)@),
        final(canvas)@.width == old(canvas)@.width,
        final(canvas)@.height == old(canvas)@.height,
{
    let ghost all = rasters(sources@);
    let ghost mut states: Seq<Raster> = seq![canvas@];
    let mut i: usize = 0;
    while i < sources.len()
        invariant
            i <= sources.len(),
            sources.len() == components.len(),
            all == rasters(sources@),
            forall|k: int|
                0 <= k < components.len() ==> (#[trigger] components[k]).size.paintable(),
            states.len() == i + 1,
            states[0] == old(canvas)@,
            states.last() == canvas@,
            forall|k: int| 0 <= k < i ==> #[trigger] pass_step(states, all, components@, k),
            canvas@.width == old(canvas)@.width,
            canvas@.height == old(canvas)@.height,
        decreases sources.len() - i,
    {
        overlay_image(canvas, &sources[i], &components[i]);
        proof {
            let longer = states.push(canvas@);
            assert forall|k: int| 0 <= k <= i implies #[trigger] pass_step(
                longer,
                all,
                components@,
                k,
            ) by {
                if k < i {
                    assert(pass_step(states, all, components@, k));
                }
            }
            states = longer;
        }
        i = i + 1;
    }
    proof {
        assert(pass_states(states, all, components@));
    }
}

} // verus!
