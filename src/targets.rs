use vstd::prelude::*;

use crate::surface::Extent;

verus! {

/// The viewport that rendering uses. Its origin is always (0, 0) and its
/// depth range always [0, 1]; only the size changes, and only when the
/// render targets are rebuilt.
#[derive(Clone, Copy, Debug, PartialEq, Eq, Structural)]
pub struct Viewport {
    pub width: u32,
    pub height: u32,
}

impl Viewport {
    /// A viewport of size zero, before any render target exists.
    pub fn empty() -> (r: Viewport)
        ensures
            r.width == 0,
            r.height == 0,
    {
        Viewport { width: 0, height: 0 }
    }

    pub open spec fn size(self) -> Extent {
        Extent { width: self.width, height: self.height }
    }
}

/// One render target: a view over the swap image at `image_index`, bound to
/// the fixed single-pass render pass.
#[derive(Clone, Copy, Debug, PartialEq, Eq, Structural)]
pub struct RenderTarget {
    pub image_index: usize,
    pub extent: Extent,
}

/// The render targets that belong to a chain with the given images: one per
/// image, in image order.
pub open spec fn targets_for(images: Seq<Extent>) -> Seq<RenderTarget> {
    Seq::new(images.len(), |i: int| RenderTarget { image_index: i as usize, extent: images[i] })
}

/// Builds one render target per swap image and sets the viewport to the size
/// of the first image.
pub fn build_render_targets(images: &Vec<Extent>, viewport: &mut Viewport) -> (r: Vec<RenderTarget>)
    requires
        images@.len() > 0,
    ensures
        r@ == targets_for(images@),
        final(viewport).size() == images@[0],
{
    let first = images[0];
    viewport.width = first.width;
    viewport.height = first.height;
    let mut targets: Vec<RenderTarget> = Vec::new();
    let mut i: usize = 0;
    while i < images.len()
        invariant
            i <= images@.len(),
            targets@ == targets_for(images@).take(i as int),
        decreases images@.len() - i,
    {
        targets.push(RenderTarget { image_index: i, extent: images[i] });
        i = i + 1;
        assert(targets@ =~= targets_for(images@).take(i as int));
    }
    assert(targets@ =~= targets_for(images@));
    targets
}

/// After a rebuild whose images all have one size, the viewport has that
/// size and so does every render target.
pub proof fn lemma_viewport_matches_images(images: Seq<Extent>, size: Extent)
    requires
        images.len() > 0,
        forall|i: int| 0 <= i < images.len() ==> images[i] == size,
    ensures
        images[0] == size,
        targets_for(images).len() == images.len(),
        forall|i: int|
            0 <= i < targets_for(images).len() ==> (#[trigger] targets_for(images)[i]).extent
                == size,
{
}

} // verus!
