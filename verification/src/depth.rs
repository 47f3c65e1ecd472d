//! The depth image of a swapchain generation and its view.

use vstd::prelude::*;
use crate::error::{Error, VkcResult};
use crate::image::{DepthFormatSupport, ImageCreateInfo, LayoutTransition, find_depth_format,
    spec_find_depth_format, spec_image_create_info, spec_layout_transition,
    transition_image_layout};
use crate::image_view::{ImageView, spec_image_view};
use crate::vk::{Extent2D, Extent3D, IMAGE_ASPECT_DEPTH_BIT,
    IMAGE_LAYOUT_DEPTH_STENCIL_ATTACHMENT_OPTIMAL, IMAGE_LAYOUT_UNDEFINED,
    IMAGE_TILING_OPTIMAL, IMAGE_USAGE_DEPTH_STENCIL_ATTACHMENT_BIT,
    MEMORY_PROPERTY_DEVICE_LOCAL_BIT};

verus! {

/// The depth image to make: what its creation is told and the properties of
/// the memory behind it.
#[derive(Clone, Copy, Debug, PartialEq, Eq, Structural)]
pub struct DepthImage {
    pub info: ImageCreateInfo,
    pub memory_properties: u32,
}

/// What follows the creation of the depth image: its view, and the
/// transition that makes it a depth attachment.
#[derive(Clone, Copy, Debug, PartialEq, Eq, Structural)]
pub struct DepthResources {
    pub view: ImageView,
    pub transition: LayoutTransition,
}

/// The depth image for color images of `extent`, in `format`: as large as
/// they are, optimally tiled, in memory of the device.
pub open spec fn spec_depth_image(format: u32, extent: Extent2D) -> DepthImage {
    DepthImage {
        info: spec_image_create_info(
            Extent3D { width: extent.width, height: extent.height, depth: 1 },
            format,
            IMAGE_TILING_OPTIMAL,
            IMAGE_USAGE_DEPTH_STENCIL_ATTACHMENT_BIT,
        ),
        memory_properties: MEMORY_PROPERTY_DEVICE_LOCAL_BIT,
    }
}

/// Plans the depth image in `format` for color images of `extent`.
pub fn depth_image(format: u32, extent: Extent2D) -> (image: DepthImage)
    ensures
        image == spec_depth_image(format, extent),
{
    DepthImage {
        info: ImageCreateInfo::new(
            Extent3D { width: extent.width, height: extent.height, depth: 1 },
            format,
            IMAGE_TILING_OPTIMAL,
            IMAGE_USAGE_DEPTH_STENCIL_ATTACHMENT_BIT,
        ),
        memory_properties: MEMORY_PROPERTY_DEVICE_LOCAL_BIT,
    }
}

/// Plans the depth image for a swapchain of `swapchain_extent`, in the depth
/// format that the device serves best. Fails where it serves none.
pub fn create_depth_image(
    support: &DepthFormatSupport,
    swapchain_extent: Extent2D,
) -> (result: VkcResult<DepthImage>)
    ensures
        match spec_find_depth_format(*support) {
            Ok(format) => result == Ok::<DepthImage, Error>(
                spec_depth_image(format, swapchain_extent),
            ),
            Err(e) => result == Err::<DepthImage, Error>(e),
        },
{
    let depth_format: u32 = match find_depth_format(support) {
        Ok(format) => format,
        Err(e) => {
            return Err(e);
        },
    };
    Ok(depth_image(depth_format, swapchain_extent))
}

/// Plans the view of the depth image `depth_image` and its transition from
/// its fresh state to a depth attachment.
pub fn create_depth_resources(depth_image: u64, depth_format: u32) -> (resources: DepthResources)
    ensures
        resources.view == spec_image_view(depth_image, depth_format, IMAGE_ASPECT_DEPTH_BIT),
        resources.transition == spec_layout_transition(
            depth_image,
            depth_format,
            IMAGE_LAYOUT_UNDEFINED,
            IMAGE_LAYOUT_DEPTH_STENCIL_ATTACHMENT_OPTIMAL,
        ),
{
    let view = ImageView::new(depth_image, depth_format, IMAGE_ASPECT_DEPTH_BIT);
    let planned = transition_image_layout(
        depth_image,
        depth_format,
        IMAGE_LAYOUT_UNDEFINED,
        IMAGE_LAYOUT_DEPTH_STENCIL_ATTACHMENT_OPTIMAL,
    );
    match planned {
        Ok(transition) => DepthResources { view, transition },
        Err(_) => {
            proof {
                assert(false);
            }
            vstd::pervasive::unreached()
        },
    }
}

} // verus!
