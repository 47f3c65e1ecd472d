//! Image views: one per swapchain image, and one each for the depth image
//! and the texture.

use vstd::prelude::*;
use crate::image::ImageSubresourceRange;
use crate::swapchain::Swapchain;
use crate::vk::{COMPONENT_SWIZZLE_IDENTITY, IMAGE_ASPECT_COLOR_BIT, IMAGE_VIEW_TYPE_2D};

verus! {

/// From which channel of the image each channel of the view is read.
#[derive(Clone, Copy, Debug, PartialEq, Eq, Structural)]
pub struct ComponentMapping {
    pub r: u32,
    pub g: u32,
    pub b: u32,
    pub a: u32,
}

/// Everything that the creation of an image view is told.
#[derive(Clone, Copy, Debug, PartialEq, Eq, Structural)]
pub struct ImageView {
    pub image: u64,
    pub view_type: u32,
    pub format: u32,
    pub components: ComponentMapping,
    pub subresource_range: ImageSubresourceRange,
}

/// A 2D view of the first level and layer of `image`, with every channel
/// read from itself.
pub open spec fn spec_image_view(image: u64, format: u32, aspect_mask: u32) -> ImageView {
    ImageView {
        image,
        view_type: IMAGE_VIEW_TYPE_2D,
        format,
        components: ComponentMapping {
            r: COMPONENT_SWIZZLE_IDENTITY,
            g: COMPONENT_SWIZZLE_IDENTITY,
            b: COMPONENT_SWIZZLE_IDENTITY,
            a: COMPONENT_SWIZZLE_IDENTITY,
        },
        subresource_range: ImageSubresourceRange {
            aspect_mask,
            base_mip_level: 0,
            level_count: 1,
            base_array_layer: 0,
            layer_count: 1,
        },
    }
}

impl ImageView {
    /// Describes a 2D view of `image` in `format` that shows the aspects in
    /// `aspect_mask`.
    pub fn new(image: u64, format: u32, aspect_mask: u32) -> (view: ImageView)
        ensures
            view == spec_image_view(image, format, aspect_mask),
    {
        ImageView {
            image,
            view_type: IMAGE_VIEW_TYPE_2D,
            format,
            components: ComponentMapping {
                r: COMPONENT_SWIZZLE_IDENTITY,
                g: COMPONENT_SWIZZLE_IDENTITY,
                b: COMPONENT_SWIZZLE_IDENTITY,
                a: COMPONENT_SWIZZLE_IDENTITY,
            },
            subresource_range: ImageSubresourceRange {
                aspect_mask,
                base_mip_level: 0,
                level_count: 1,
                base_array_layer: 0,
                layer_count: 1,
            },
        }
    }
}

/// Describes the color views of a swapchain: one per image, in the order of
/// the images, each in the swapchain's format.
pub fn create_image_views(swapchain: &Swapchain) -> (views: Vec<ImageView>)
    ensures
        views@.len() == swapchain.images_view().len(),
        forall|i: int|
            0 <= i < views@.len() ==> #[trigger] views@[i] == spec_image_view(
                swapchain.images_view()[i],
                swapchain.image_format,
                IMAGE_ASPECT_COLOR_BIT,
            ),
{
    let images = swapchain.images();
    let format: u32 = swapchain.image_format();
    let mut views: Vec<ImageView> = Vec::new();
    let mut i: usize = 0;
    while i < images.len()
        invariant
            0 <= i <= images@.len(),
            images@ == swapchain.images_view(),
            format == swapchain.image_format,
            views@.len() == i,
            forall|j: int|
                0 <= j < i ==> #[trigger] views@[j] == spec_image_view(
                    swapchain.images_view()[j],
                    swapchain.image_format,
                    IMAGE_ASPECT_COLOR_BIT,
                ),
        decreases images@.len() - i,
    {
        views.push(ImageView::new(images[i], format, IMAGE_ASPECT_COLOR_BIT));
        i = i + 1;
    }
    views
}

} // verus!
