//! Framebuffers: one per swapchain image, each joining that image's color
//! view with the one depth view.

use vstd::prelude::*;
use crate::vk::Extent2D;

verus! {

/// Everything that the creation of a framebuffer is told. The color view is
/// attachment 0 and the depth view attachment 1.
#[derive(Clone, Copy, Debug, PartialEq, Eq, Structural)]
pub struct Framebuffer {
    pub render_pass: u64,
    pub color_view: u64,
    pub depth_view: u64,
    pub width: u32,
    pub height: u32,
    pub layers: u32,
}

/// The framebuffer of one layer that covers `extent`.
pub open spec fn spec_framebuffer(
    render_pass: u64,
    image_view: u64,
    depth_image_view: u64,
    extent: Extent2D,
) -> Framebuffer {
    Framebuffer {
        render_pass,
        color_view: image_view,
        depth_view: depth_image_view,
        width: extent.width,
        height: extent.height,
        layers: 1,
    }
}

impl Framebuffer {
    /// Describes the framebuffer that joins `image_view` and
    /// `depth_image_view` for `render_pass`.
    pub fn new(
        render_pass: u64,
        image_view: u64,
        depth_image_view: u64,
        swapchain_extent: Extent2D,
    ) -> (framebuffer: Framebuffer)
        ensures
            framebuffer == spec_framebuffer(
                render_pass,
                image_view,
                depth_image_view,
                swapchain_extent,
            ),
    {
        Framebuffer {
            render_pass,
            color_view: image_view,
            depth_view: depth_image_view,
            width: swapchain_extent.width,
            height: swapchain_extent.height,
            layers: 1,
        }
    }
}

/// The framebuffers for the color views in `views`, in their order.
pub open spec fn spec_framebuffers(
    render_pass: u64,
    views: Seq<u64>,
    depth_image_view: u64,
    extent: Extent2D,
) -> Seq<Framebuffer> {
    Seq::new(
        views.len(),
        |i: int| spec_framebuffer(render_pass, views[i], depth_image_view, extent),
    )
}

/// Describes the framebuffers of a swapchain: exactly one per color view, in
/// the order of the views, all with the same depth view and extent.
pub fn create_framebuffers(
    render_pass: u64,
    swapchain_image_views: &[u64],
    depth_image_view: u64,
    swapchain_extent: Extent2D,
) -> (framebuffers: Vec<Framebuffer>)
    ensures
        framebuffers@ == spec_framebuffers(
            render_pass,
            swapchain_image_views@,
            depth_image_view,
            swapchain_extent,
        ),
        framebuffers@.len() == swapchain_image_views@.len(),
{
    let mut framebuffers: Vec<Framebuffer> = Vec::new();
    let mut i: usize = 0;
    while i < swapchain_image_views.len()
        invariant
            0 <= i <= swapchain_image_views@.len(),
            framebuffers@.len() == i,
            forall|j: int|
                0 <= j < i ==> #[trigger] framebuffers@[j] == spec_framebuffer(
                    render_pass,
                    swapchain_image_views@[j],
                    depth_image_view,
                    swapchain_extent,
                ),
        decreases swapchain_image_views@.len() - i,
    {
        framebuffers.push(
            Framebuffer::new(
                render_pass,
                swapchain_image_views[i],
                depth_image_view,
                swapchain_extent,
            ),
        );
        i = i + 1;
    }
    assert(framebuffers@ =~= spec_framebuffers(
        render_pass,
        swapchain_image_views@,
        depth_image_view,
        swapchain_extent,
    ));
    framebuffers
}

/// A set of framebuffers holds exactly one framebuffer per swapchain image,
/// each on the color view of its image, and one depth view that all of them
/// share; all of them cover the extent.
pub proof fn lemma_one_framebuffer_per_image(
    render_pass: u64,
    views: Seq<u64>,
    depth_image_view: u64,
    extent: Extent2D,
)
    ensures
        ({
            let framebuffers = spec_framebuffers(render_pass, views, depth_image_view, extent);
            &&& framebuffers.len() == views.len()
            &&& forall|i: int|
                0 <= i < framebuffers.len() ==> {
                    &&& (#[trigger] framebuffers[i]).color_view == views[i]
                    &&& framebuffers[i].depth_view == depth_image_view
                    &&& framebuffers[i].render_pass == render_pass
                    &&& framebuffers[i].width == extent.width
                    &&& framebuffers[i].height == extent.height
                }
        }),
{
}

} // verus!
