//! Images: what their creation is told, which formats serve, and the
//! barriers that take an image from one layout to the next.

use vstd::prelude::*;
use crate::device_memory::DeviceMemory;
use crate::error::{Error, VkcResult};
use crate::memory_type_suits;
use crate::vk::{Extent3D, FormatProperties, MemoryRequirements, MemoryType,
    ACCESS_DEPTH_STENCIL_ATTACHMENT_READ_BIT, ACCESS_DEPTH_STENCIL_ATTACHMENT_WRITE_BIT,
    ACCESS_SHADER_READ_BIT, ACCESS_TRANSFER_WRITE_BIT, FORMAT_D24_UNORM_S8_UINT,
    FORMAT_D32_SFLOAT, FORMAT_D32_SFLOAT_S8_UINT, FORMAT_FEATURE_DEPTH_STENCIL_ATTACHMENT_BIT,
    IMAGE_ASPECT_COLOR_BIT, IMAGE_ASPECT_DEPTH_BIT, IMAGE_ASPECT_STENCIL_BIT,
    IMAGE_LAYOUT_DEPTH_STENCIL_ATTACHMENT_OPTIMAL, IMAGE_LAYOUT_SHADER_READ_ONLY_OPTIMAL,
    IMAGE_LAYOUT_TRANSFER_DST_OPTIMAL, IMAGE_LAYOUT_UNDEFINED, IMAGE_TILING_LINEAR,
    IMAGE_TILING_OPTIMAL, IMAGE_TYPE_2D, PIPELINE_STAGE_EARLY_FRAGMENT_TESTS_BIT,
    PIPELINE_STAGE_FRAGMENT_SHADER_BIT, PIPELINE_STAGE_TOP_OF_PIPE_BIT,
    PIPELINE_STAGE_TRANSFER_BIT, QUEUE_FAMILY_IGNORED, SAMPLE_COUNT_1_BIT,
    SHARING_MODE_EXCLUSIVE};

verus! {

/// Everything that the creation of a 2D image is told.
#[derive(Clone, Copy, Debug, PartialEq, Eq, Structural)]
pub struct ImageCreateInfo {
    pub image_type: u32,
    pub format: u32,
    pub extent: Extent3D,
    pub mip_levels: u32,
    pub array_layers: u32,
    pub samples: u32,
    pub tiling: u32,
    pub usage: u32,
    pub sharing_mode: u32,
    pub initial_layout: u32,
}

/// A 2D image of one level and one layer, one sample per pixel, used by one
/// queue family, whose contents are undefined at first.
pub open spec fn spec_image_create_info(extent: Extent3D, format: u32, tiling: u32, usage: u32) -> ImageCreateInfo {
    ImageCreateInfo {
        image_type: IMAGE_TYPE_2D,
        format,
        extent,
        mip_levels: 1,
        array_layers: 1,
        samples: SAMPLE_COUNT_1_BIT,
        tiling,
        usage,
        sharing_mode: SHARING_MODE_EXCLUSIVE,
        initial_layout: IMAGE_LAYOUT_UNDEFINED,
    }
}

impl ImageCreateInfo {
    /// Describes a 2D image of `extent` and `format`.
    pub fn new(extent: Extent3D, format: u32, tiling: u32, usage: u32) -> (info: ImageCreateInfo)
        ensures
            info == spec_image_create_info(extent, format, tiling, usage),
    {
        ImageCreateInfo {
            image_type: IMAGE_TYPE_2D,
            format,
            extent,
            mip_levels: 1,
            array_layers: 1,
            samples: SAMPLE_COUNT_1_BIT,
            tiling,
            usage,
            sharing_mode: SHARING_MODE_EXCLUSIVE,
            initial_layout: IMAGE_LAYOUT_UNDEFINED,
        }
    }
}

/// An image with the memory that backs it, bound at offset zero.
#[derive(Clone, Copy, Debug, PartialEq, Eq, Structural)]
pub struct Image {
    pub info: ImageCreateInfo,
    pub device_memory: DeviceMemory,
    /// Where in the memory the image starts.
    pub memory_offset: u64,
}

impl Image {
    /// Plans an image of `extent` and `format` and the memory that backs it:
    /// as large as `requirements` say, of the first memory type that they
    /// admit and that has all of `memory_properties`. The image starts where
    /// the memory starts, which suits every alignment.
    pub fn new(
        extent: Extent3D,
        format: u32,
        tiling: u32,
        usage: u32,
        memory_properties: u32,
        requirements: &MemoryRequirements,
        memory_types: &[MemoryType],
    ) -> (result: VkcResult<Image>)
        ensures
            match result {
                Ok(image) => {
                    &&& image.info == spec_image_create_info(extent, format, tiling, usage)
                    &&& image.memory_offset == 0
                    &&& requirements.alignment > 0 ==> image.memory_offset
                        % requirements.alignment == 0
                    &&& image.device_memory.allocation_size == requirements.size
                    &&& memory_type_suits(
                        memory_types@,
                        image.device_memory.memory_type_index as int,
                        requirements.memory_type_bits,
                        memory_properties,
                    )
                    &&& forall|j: int|
                        0 <= j < image.device_memory.memory_type_index ==> !memory_type_suits(
                            memory_types@,
                            j,
                            requirements.memory_type_bits,
                            memory_properties,
                        )
                },
                Err(e) => {
                    &&& e == Error::NoSuitableMemoryType
                    &&& forall|j: int|
                        !memory_type_suits(
                            memory_types@,
                            j,
                            requirements.memory_type_bits,
                            memory_properties,
                        )
                },
            },
    {
        let info = ImageCreateInfo::new(extent, format, tiling, usage);
        match DeviceMemory::for_requirements(requirements, memory_properties, memory_types) {
            Ok(device_memory) => Ok(Image { info, device_memory, memory_offset: 0 }),
            Err(e) => Err(e),
        }
    }

    /// What the creation of the image is told.
    pub fn info(&self) -> (info: ImageCreateInfo)
        ensures
            info == self.info,
    {
        self.info
    }

    /// The memory that backs the image.
    pub fn device_memory(&self) -> (memory: &DeviceMemory)
        ensures
            *memory == self.device_memory,
    {
        &self.device_memory
    }
}

/// Whether a depth format carries a stencil component too.
pub open spec fn spec_has_stencil_component(format: u32) -> bool {
    format == FORMAT_D32_SFLOAT_S8_UINT || format == FORMAT_D24_UNORM_S8_UINT
}

/// Whether a depth format carries a stencil component too.
pub fn has_stencil_component(format: u32) -> (has: bool)
    ensures
        has == spec_has_stencil_component(format),
{
    format == FORMAT_D32_SFLOAT_S8_UINT || format == FORMAT_D24_UNORM_S8_UINT
}

/// The part of an image that a barrier or a view covers.
#[derive(Clone, Copy, Debug, PartialEq, Eq, Structural)]
pub struct ImageSubresourceRange {
    pub aspect_mask: u32,
    pub base_mip_level: u32,
    pub level_count: u32,
    pub base_array_layer: u32,
    pub layer_count: u32,
}

/// A barrier on an image: which accesses it separates, and the layouts
/// before and after.
#[derive(Clone, Copy, Debug, PartialEq, Eq, Structural)]
pub struct ImageMemoryBarrier {
    pub src_access_mask: u32,
    pub dst_access_mask: u32,
    pub old_layout: u32,
    pub new_layout: u32,
    pub src_queue_family_index: u32,
    pub dst_queue_family_index: u32,
    pub image: u64,
    pub subresource_range: ImageSubresourceRange,
}

/// A layout transition as it is recorded: the barrier and the two pipeline
/// stages it stands between.
#[derive(Clone, Copy, Debug, PartialEq, Eq, Structural)]
pub struct LayoutTransition {
    pub barrier: ImageMemoryBarrier,
    pub source_stage: u32,
    pub destination_stage: u32,
}

/// The transitions that barriers are defined for: a fresh image becomes the
/// destination of a transfer or a depth attachment, and the destination of a
/// transfer becomes readable by shaders.
pub open spec fn transition_is_supported(old_layout: u32, new_layout: u32) -> bool {
    ||| old_layout == IMAGE_LAYOUT_UNDEFINED && new_layout == IMAGE_LAYOUT_TRANSFER_DST_OPTIMAL
    ||| old_layout == IMAGE_LAYOUT_TRANSFER_DST_OPTIMAL && new_layout
        == IMAGE_LAYOUT_SHADER_READ_ONLY_OPTIMAL
    ||| old_layout == IMAGE_LAYOUT_UNDEFINED && new_layout
        == IMAGE_LAYOUT_DEPTH_STENCIL_ATTACHMENT_OPTIMAL
}

/// The aspects that a transition to `new_layout` touches: depth, with
/// stencil where the format has it, for a depth attachment; else color.
pub open spec fn spec_transition_aspect(format: u32, new_layout: u32) -> u32 {
    if new_layout == IMAGE_LAYOUT_DEPTH_STENCIL_ATTACHMENT_OPTIMAL {
        if spec_has_stencil_component(format) {
            IMAGE_ASPECT_DEPTH_BIT | IMAGE_ASPECT_STENCIL_BIT
        } else {
            IMAGE_ASPECT_DEPTH_BIT
        }
    } else {
        IMAGE_ASPECT_COLOR_BIT
    }
}

/// The accesses that must be over before the transition.
pub open spec fn spec_src_access(old_layout: u32) -> u32 {
    if old_layout == IMAGE_LAYOUT_TRANSFER_DST_OPTIMAL {
        ACCESS_TRANSFER_WRITE_BIT
    } else {
        0
    }
}

/// The accesses that wait for the transition.
pub open spec fn spec_dst_access(new_layout: u32) -> u32 {
    if new_layout == IMAGE_LAYOUT_TRANSFER_DST_OPTIMAL {
        ACCESS_TRANSFER_WRITE_BIT
    } else if new_layout == IMAGE_LAYOUT_SHADER_READ_ONLY_OPTIMAL {
        ACCESS_SHADER_READ_BIT
    } else {
        ACCESS_DEPTH_STENCIL_ATTACHMENT_READ_BIT | ACCESS_DEPTH_STENCIL_ATTACHMENT_WRITE_BIT
    }
}

/// The stage that must be over before the transition.
pub open spec fn spec_source_stage(old_layout: u32) -> u32 {
    if old_layout == IMAGE_LAYOUT_TRANSFER_DST_OPTIMAL {
        PIPELINE_STAGE_TRANSFER_BIT
    } else {
        PIPELINE_STAGE_TOP_OF_PIPE_BIT
    }
}

/// The stage that waits for the transition.
pub open spec fn spec_destination_stage(new_layout: u32) -> u32 {
    if new_layout == IMAGE_LAYOUT_TRANSFER_DST_OPTIMAL {
        PIPELINE_STAGE_TRANSFER_BIT
    } else if new_layout == IMAGE_LAYOUT_SHADER_READ_ONLY_OPTIMAL {
        PIPELINE_STAGE_FRAGMENT_SHADER_BIT
    } else {
        PIPELINE_STAGE_EARLY_FRAGMENT_TESTS_BIT
    }
}

/// The recorded form of a supported transition of `image`.
pub open spec fn spec_layout_transition(
    image: u64,
    format: u32,
    old_layout: u32,
    new_layout: u32,
) -> LayoutTransition
    recommends
        transition_is_supported(old_layout, new_layout),
{
    LayoutTransition {
        barrier: ImageMemoryBarrier {
            src_access_mask: spec_src_access(old_layout),
            dst_access_mask: spec_dst_access(new_layout),
            old_layout,
            new_layout,
            src_queue_family_index: QUEUE_FAMILY_IGNORED,
            dst_queue_family_index: QUEUE_FAMILY_IGNORED,
            image,
            subresource_range: ImageSubresourceRange {
                aspect_mask: spec_transition_aspect(format, new_layout),
                base_mip_level: 0,
                level_count: 1,
                base_array_layer: 0,
                layer_count: 1,
            },
        },
        source_stage: spec_source_stage(old_layout),
        destination_stage: spec_destination_stage(new_layout),
    }
}

/// Plans the barrier that takes `image` from `old_layout` to `new_layout`.
/// A pair of layouts outside the supported transitions is an error.
pub fn transition_image_layout(
    image: u64,
    format: u32,
    old_layout: u32,
    new_layout: u32,
) -> (result: VkcResult<LayoutTransition>)
    ensures
        transition_is_supported(old_layout, new_layout) ==> result == Ok::<
            LayoutTransition,
            Error,
        >(spec_layout_transition(image, format, old_layout, new_layout)),
        !transition_is_supported(old_layout, new_layout) ==> result == Err::<
            LayoutTransition,
            Error,
        >(Error::UnsupportedLayoutTransition),
{
    let aspect_mask: u32 = if new_layout == IMAGE_LAYOUT_DEPTH_STENCIL_ATTACHMENT_OPTIMAL {
        if has_stencil_component(format) {
            IMAGE_ASPECT_DEPTH_BIT | IMAGE_ASPECT_STENCIL_BIT
        } else {
            IMAGE_ASPECT_DEPTH_BIT
        }
    } else {
        IMAGE_ASPECT_COLOR_BIT
    };
    let src_access_mask: u32;
    let dst_access_mask: u32;
    let source_stage: u32;
    let destination_stage: u32;
    if old_layout == IMAGE_LAYOUT_UNDEFINED && new_layout == IMAGE_LAYOUT_TRANSFER_DST_OPTIMAL {
        src_access_mask = 0;
        dst_access_mask = ACCESS_TRANSFER_WRITE_BIT;
        source_stage = PIPELINE_STAGE_TOP_OF_PIPE_BIT;
        destination_stage = PIPELINE_STAGE_TRANSFER_BIT;
    } else if old_layout == IMAGE_LAYOUT_TRANSFER_DST_OPTIMAL && new_layout
        == IMAGE_LAYOUT_SHADER_READ_ONLY_OPTIMAL {
        src_access_mask = ACCESS_TRANSFER_WRITE_BIT;
        dst_access_mask = ACCESS_SHADER_READ_BIT;
        source_stage = PIPELINE_STAGE_TRANSFER_BIT;
        destination_stage = PIPELINE_STAGE_FRAGMENT_SHADER_BIT;
    } else if old_layout == IMAGE_LAYOUT_UNDEFINED && new_layout
        == IMAGE_LAYOUT_DEPTH_STENCIL_ATTACHMENT_OPTIMAL {
        src_access_mask = 0;
        dst_access_mask = ACCESS_DEPTH_STENCIL_ATTACHMENT_READ_BIT
            | ACCESS_DEPTH_STENCIL_ATTACHMENT_WRITE_BIT;
        source_stage = PIPELINE_STAGE_TOP_OF_PIPE_BIT;
        destination_stage = PIPELINE_STAGE_EARLY_FRAGMENT_TESTS_BIT;
    } else {
        return Err(Error::UnsupportedLayoutTransition);
    }
    Ok(
        LayoutTransition {
            barrier: ImageMemoryBarrier {
                src_access_mask,
                dst_access_mask,
                old_layout,
                new_layout,
                src_queue_family_index: QUEUE_FAMILY_IGNORED,
                dst_queue_family_index: QUEUE_FAMILY_IGNORED,
                image,
                subresource_range: ImageSubresourceRange {
                    aspect_mask,
                    base_mip_level: 0,
                    level_count: 1,
                    base_array_layer: 0,
                    layer_count: 1,
                },
            },
            source_stage,
            destination_stage,
        },
    )
}

/// A format together with the features that the device gives it.
#[derive(Clone, Copy, Debug, PartialEq, Eq, Structural)]
pub struct FormatCandidate {
    pub format: u32,
    pub properties: FormatProperties,
}

/// The format has all of `features` under `tiling`.
pub open spec fn format_supports(properties: FormatProperties, tiling: u32, features: u32) -> bool {
    ||| tiling == IMAGE_TILING_LINEAR && properties.linear_tiling_features & features == features
    ||| tiling == IMAGE_TILING_OPTIMAL && properties.optimal_tiling_features & features
        == features
}

/// Finds the first candidate that has all of `features` under `tiling`.
/// That there is none is an error.
pub fn find_supported_format(
    candidates: &[FormatCandidate],
    tiling: u32,
    features: u32,
) -> (result: VkcResult<u32>)
    ensures
        match result {
            Ok(format) => exists|i: int|
                {
                    &&& 0 <= i < candidates@.len()
                    &&& format == candidates@[i].format
                    &&& format_supports(candidates@[i].properties, tiling, features)
                    &&& forall|j: int|
                        0 <= j < i ==> !format_supports(
                            (#[trigger] candidates@[j]).properties,
                            tiling,
                            features,
                        )
                },
            Err(e) => {
                &&& e == Error::NoSupportedFormat
                &&& forall|j: int|
                    0 <= j < candidates@.len() ==> !format_supports(
                        (#[trigger] candidates@[j]).properties,
                        tiling,
                        features,
                    )
            },
        },
{
    let mut i: usize = 0;
    while i < candidates.len()
        invariant
            0 <= i <= candidates@.len(),
            forall|j: int|
                0 <= j < i ==> !format_supports(
                    (#[trigger] candidates@[j]).properties,
                    tiling,
                    features,
                ),
        decreases candidates@.len() - i,
    {
        let props = candidates[i].properties;
        if tiling == IMAGE_TILING_LINEAR && (props.linear_tiling_features & features) == features {
            return Ok(candidates[i].format);
        } else if tiling == IMAGE_TILING_OPTIMAL && (props.optimal_tiling_features & features)
            == features {
            return Ok(candidates[i].format);
        }
        i = i + 1;
    }
    Err(Error::NoSupportedFormat)
}

/// What the device offers for each of the three depth formats.
#[derive(Clone, Copy, Debug, PartialEq, Eq, Structural)]
pub struct DepthFormatSupport {
    pub d32_sfloat_s8_uint: FormatProperties,
    pub d24_unorm_s8_uint: FormatProperties,
    pub d32_sfloat: FormatProperties,
}

/// The format can be a depth attachment of an optimally tiled image.
pub open spec fn serves_as_depth(properties: FormatProperties) -> bool {
    format_supports(
        properties,
        IMAGE_TILING_OPTIMAL,
        FORMAT_FEATURE_DEPTH_STENCIL_ATTACHMENT_BIT,
    )
}

/// The depth format: the deepest format with stencil that serves, then the
/// shallower one with stencil, then depth alone.
pub open spec fn spec_find_depth_format(support: DepthFormatSupport) -> VkcResult<u32> {
    if serves_as_depth(support.d32_sfloat_s8_uint) {
        Ok(FORMAT_D32_SFLOAT_S8_UINT)
    } else if serves_as_depth(support.d24_unorm_s8_uint) {
        Ok(FORMAT_D24_UNORM_S8_UINT)
    } else if serves_as_depth(support.d32_sfloat) {
        Ok(FORMAT_D32_SFLOAT)
    } else {
        Err(Error::NoSupportedFormat)
    }
}

/// Chooses the format of the depth image.
pub fn find_depth_format(support: &DepthFormatSupport) -> (result: VkcResult<u32>)
    ensures
        result == spec_find_depth_format(*support),
{
    let candidates = [
        FormatCandidate {
            format: FORMAT_D32_SFLOAT_S8_UINT,
            properties: support.d32_sfloat_s8_uint,
        },
        FormatCandidate { format: FORMAT_D24_UNORM_S8_UINT, properties: support.d24_unorm_s8_uint },
        FormatCandidate { format: FORMAT_D32_SFLOAT, properties: support.d32_sfloat },
    ];
    let result = find_supported_format(
        candidates.as_slice(),
        IMAGE_TILING_OPTIMAL,
        FORMAT_FEATURE_DEPTH_STENCIL_ATTACHMENT_BIT,
    );
    proof {
        let s = candidates@;
        assert(s[0].properties == support.d32_sfloat_s8_uint);
        assert(s[1].properties == support.d24_unorm_s8_uint);
        assert(s[2].properties == support.d32_sfloat);
    }
    result
}

/// Which part of a buffer goes to which part of an image.
#[derive(Clone, Copy, Debug, PartialEq, Eq, Structural)]
pub struct BufferImageCopy {
    pub buffer_offset: u64,
    /// Zero where the rows lie tightly packed.
    pub buffer_row_length: u32,
    /// Zero where the rows lie tightly packed.
    pub buffer_image_height: u32,
    pub aspect_mask: u32,
    pub mip_level: u32,
    pub base_array_layer: u32,
    pub layer_count: u32,
    pub image_extent: Extent3D,
}

/// Copies a tightly packed buffer onto the whole color image of `width`
/// by `height`, which must be the destination of a transfer then.
pub fn copy_buffer_to_image(width: u32, height: u32) -> (region: BufferImageCopy)
    ensures
        region == (BufferImageCopy {
            buffer_offset: 0,
            buffer_row_length: 0,
            buffer_image_height: 0,
            aspect_mask: IMAGE_ASPECT_COLOR_BIT,
            mip_level: 0,
            base_array_layer: 0,
            layer_count: 1,
            image_extent: Extent3D { width, height, depth: 1 },
        }),
{
    BufferImageCopy {
        buffer_offset: 0,
        buffer_row_length: 0,
        buffer_image_height: 0,
        aspect_mask: IMAGE_ASPECT_COLOR_BIT,
        mip_level: 0,
        base_array_layer: 0,
        layer_count: 1,
        image_extent: Extent3D { width, height, depth: 1 },
    }
}

} // verus!
