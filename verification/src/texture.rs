//! The texture: decoded pixels that reach the device by a staged upload
//! into an image.

use vstd::prelude::*;
use crate::buffer::BufferCreateInfo;
use crate::image::{BufferImageCopy, ImageCreateInfo, LayoutTransition, copy_buffer_to_image,
    spec_image_create_info, spec_layout_transition, transition_image_layout};
use crate::image_view::{ImageView, spec_image_view};
use crate::vk::{Extent3D, BUFFER_USAGE_TRANSFER_SRC_BIT, FORMAT_R8G8B8A8_UNORM,
    IMAGE_ASPECT_COLOR_BIT, IMAGE_LAYOUT_SHADER_READ_ONLY_OPTIMAL,
    IMAGE_LAYOUT_TRANSFER_DST_OPTIMAL, IMAGE_LAYOUT_UNDEFINED, IMAGE_TILING_OPTIMAL,
    IMAGE_USAGE_SAMPLED_BIT, IMAGE_USAGE_TRANSFER_DST_BIT, MEMORY_PROPERTY_DEVICE_LOCAL_BIT,
    MEMORY_PROPERTY_HOST_COHERENT_BIT, MEMORY_PROPERTY_HOST_VISIBLE_BIT,
    SHARING_MODE_EXCLUSIVE};

verus! {

/// The bytes of one pixel: four channels of eight bits.
pub const PIXEL_BYTES: u64 = 4;

/// The staging buffer and the image of a texture upload.
#[derive(Clone, Copy, Debug, PartialEq, Eq, Structural)]
pub struct TextureUpload {
    pub staging: BufferCreateInfo,
    pub staging_properties: u32,
    pub image: ImageCreateInfo,
    pub image_properties: u32,
}

/// What is recorded to fill the texture: the image becomes the destination
/// of a transfer, takes the pixels, and becomes readable by shaders.
#[derive(Clone, Copy, Debug, PartialEq, Eq, Structural)]
pub struct TextureCommands {
    pub to_transfer_dst: LayoutTransition,
    pub copy: BufferImageCopy,
    pub to_shader_read: LayoutTransition,
}

/// The upload of `width` by `height` pixels.
pub open spec fn spec_texture_upload(width: u32, height: u32) -> TextureUpload {
    TextureUpload {
        staging: BufferCreateInfo {
            size: (width * height * PIXEL_BYTES) as u64,
            usage: BUFFER_USAGE_TRANSFER_SRC_BIT,
            sharing_mode: SHARING_MODE_EXCLUSIVE,
        },
        staging_properties: MEMORY_PROPERTY_HOST_VISIBLE_BIT | MEMORY_PROPERTY_HOST_COHERENT_BIT,
        image: spec_image_create_info(
            Extent3D { width, height, depth: 1 },
            FORMAT_R8G8B8A8_UNORM,
            IMAGE_TILING_OPTIMAL,
            IMAGE_USAGE_TRANSFER_DST_BIT | IMAGE_USAGE_SAMPLED_BIT,
        ),
        image_properties: MEMORY_PROPERTY_DEVICE_LOCAL_BIT,
    }
}

/// Plans the upload of a texture of `width` by `height` pixels: a staging
/// buffer that holds every pixel, and an image of the same size on the
/// device.
pub fn create_texture_image(width: u32, height: u32) -> (upload: TextureUpload)
    requires
        width * height * PIXEL_BYTES <= u64::MAX,
    ensures
        upload == spec_texture_upload(width, height),
{
    assert(width * height <= width * height * PIXEL_BYTES) by (nonlinear_arith)
        requires
            PIXEL_BYTES == 4,
    ;
    let pixels: u64 = width as u64 * height as u64;
    let image_bytes: u64 = pixels * PIXEL_BYTES;
    TextureUpload {
        staging: BufferCreateInfo {
            size: image_bytes,
            usage: BUFFER_USAGE_TRANSFER_SRC_BIT,
            sharing_mode: SHARING_MODE_EXCLUSIVE,
        },
        staging_properties: MEMORY_PROPERTY_HOST_VISIBLE_BIT | MEMORY_PROPERTY_HOST_COHERENT_BIT,
        image: ImageCreateInfo::new(
            Extent3D { width, height, depth: 1 },
            FORMAT_R8G8B8A8_UNORM,
            IMAGE_TILING_OPTIMAL,
            IMAGE_USAGE_TRANSFER_DST_BIT | IMAGE_USAGE_SAMPLED_BIT,
        ),
        image_properties: MEMORY_PROPERTY_DEVICE_LOCAL_BIT,
    }
}

/// Plans what is recorded to fill the texture image `image`.
pub fn texture_commands(image: u64, width: u32, height: u32) -> (commands: TextureCommands)
    ensures
        commands.to_transfer_dst == spec_layout_transition(
            image,
            FORMAT_R8G8B8A8_UNORM,
            IMAGE_LAYOUT_UNDEFINED,
            IMAGE_LAYOUT_TRANSFER_DST_OPTIMAL,
        ),
        commands.copy == (BufferImageCopy {
            buffer_offset: 0,
            buffer_row_length: 0,
            buffer_image_height: 0,
            aspect_mask: IMAGE_ASPECT_COLOR_BIT,
            mip_level: 0,
            base_array_layer: 0,
            layer_count: 1,
            image_extent: Extent3D { width, height, depth: 1 },
        }),
        commands.to_shader_read == spec_layout_transition(
            image,
            FORMAT_R8G8B8A8_UNORM,
            IMAGE_LAYOUT_TRANSFER_DST_OPTIMAL,
            IMAGE_LAYOUT_SHADER_READ_ONLY_OPTIMAL,
        ),
{
    let first = transition_image_layout(
        image,
        FORMAT_R8G8B8A8_UNORM,
        IMAGE_LAYOUT_UNDEFINED,
        IMAGE_LAYOUT_TRANSFER_DST_OPTIMAL,
    );
    let second = transition_image_layout(
        image,
        FORMAT_R8G8B8A8_UNORM,
        IMAGE_LAYOUT_TRANSFER_DST_OPTIMAL,
        IMAGE_LAYOUT_SHADER_READ_ONLY_OPTIMAL,
    );
    match (first, second) {
        (Ok(to_transfer_dst), Ok(to_shader_read)) => TextureCommands {
            to_transfer_dst,
            copy: copy_buffer_to_image(width, height),
            to_shader_read,
        },
        _ => {
            proof {
                assert(false);
            }
            vstd::pervasive::unreached()
        },
    }
}

/// Describes the view of the texture image `image`.
pub fn create_texture_image_view(image: u64) -> (view: ImageView)
    ensures
        view == spec_image_view(image, FORMAT_R8G8B8A8_UNORM, IMAGE_ASPECT_COLOR_BIT),
{
    ImageView::new(image, FORMAT_R8G8B8A8_UNORM, IMAGE_ASPECT_COLOR_BIT)
}

} // verus!
