//! Numeric values and plain records of the graphics API, as the rest of the
//! crate reads and produces them.
//!
//! Enumerants are `u32`, result codes `i32`, flag sets `u32` masks, and object
//! handles `u64`, with `NULL_HANDLE` standing for "no object".

use vstd::prelude::*;

verus! {

/// The handle that names no object.
pub const NULL_HANDLE: u64 = 0;

// Result codes.
pub const SUCCESS: i32 = 0;
pub const SUBOPTIMAL_KHR: i32 = 1000001003;
pub const ERROR_OUT_OF_DATE_KHR: i32 = -1000001004;

// Booleans as the API passes them.
pub const FALSE: u32 = 0;
pub const TRUE: u32 = 1;

// Formats.
pub const FORMAT_UNDEFINED: u32 = 0;
pub const FORMAT_R8G8B8A8_UNORM: u32 = 37;
pub const FORMAT_B8G8R8A8_UNORM: u32 = 44;
pub const FORMAT_R32G32_SFLOAT: u32 = 103;
pub const FORMAT_R32G32B32_SFLOAT: u32 = 106;
pub const FORMAT_D32_SFLOAT: u32 = 126;
pub const FORMAT_D24_UNORM_S8_UINT: u32 = 129;
pub const FORMAT_D32_SFLOAT_S8_UINT: u32 = 130;

// Color spaces.
pub const COLOR_SPACE_SRGB_NONLINEAR_KHR: u32 = 0;

// Present modes.
pub const PRESENT_MODE_IMMEDIATE_KHR: u32 = 0;
pub const PRESENT_MODE_MAILBOX_KHR: u32 = 1;
pub const PRESENT_MODE_FIFO_KHR: u32 = 2;

// Sharing modes.
pub const SHARING_MODE_EXCLUSIVE: u32 = 0;
pub const SHARING_MODE_CONCURRENT: u32 = 1;

// Image layouts.
pub const IMAGE_LAYOUT_UNDEFINED: u32 = 0;
pub const IMAGE_LAYOUT_COLOR_ATTACHMENT_OPTIMAL: u32 = 2;
pub const IMAGE_LAYOUT_DEPTH_STENCIL_ATTACHMENT_OPTIMAL: u32 = 3;
pub const IMAGE_LAYOUT_SHADER_READ_ONLY_OPTIMAL: u32 = 5;
pub const IMAGE_LAYOUT_TRANSFER_DST_OPTIMAL: u32 = 7;
pub const IMAGE_LAYOUT_PRESENT_SRC_KHR: u32 = 1000001002;

// Access masks.
pub const ACCESS_SHADER_READ_BIT: u32 = 0x20;
pub const ACCESS_COLOR_ATTACHMENT_READ_BIT: u32 = 0x80;
pub const ACCESS_COLOR_ATTACHMENT_WRITE_BIT: u32 = 0x100;
pub const ACCESS_DEPTH_STENCIL_ATTACHMENT_READ_BIT: u32 = 0x200;
pub const ACCESS_DEPTH_STENCIL_ATTACHMENT_WRITE_BIT: u32 = 0x400;
pub const ACCESS_TRANSFER_WRITE_BIT: u32 = 0x1000;

// Pipeline stages.
pub const PIPELINE_STAGE_TOP_OF_PIPE_BIT: u32 = 0x1;
pub const PIPELINE_STAGE_FRAGMENT_SHADER_BIT: u32 = 0x80;
pub const PIPELINE_STAGE_EARLY_FRAGMENT_TESTS_BIT: u32 = 0x100;
pub const PIPELINE_STAGE_COLOR_ATTACHMENT_OUTPUT_BIT: u32 = 0x400;
pub const PIPELINE_STAGE_TRANSFER_BIT: u32 = 0x1000;

// Image aspects.
pub const IMAGE_ASPECT_COLOR_BIT: u32 = 0x1;
pub const IMAGE_ASPECT_DEPTH_BIT: u32 = 0x2;
pub const IMAGE_ASPECT_STENCIL_BIT: u32 = 0x4;

// Memory properties.
pub const MEMORY_PROPERTY_DEVICE_LOCAL_BIT: u32 = 0x1;
pub const MEMORY_PROPERTY_HOST_VISIBLE_BIT: u32 = 0x2;
pub const MEMORY_PROPERTY_HOST_COHERENT_BIT: u32 = 0x4;

/// The most memory types a device reports.
pub const MAX_MEMORY_TYPES: usize = 32;

// Buffer usage.
pub const BUFFER_USAGE_TRANSFER_SRC_BIT: u32 = 0x1;
pub const BUFFER_USAGE_TRANSFER_DST_BIT: u32 = 0x2;
pub const BUFFER_USAGE_UNIFORM_BUFFER_BIT: u32 = 0x10;
pub const BUFFER_USAGE_INDEX_BUFFER_BIT: u32 = 0x40;
pub const BUFFER_USAGE_VERTEX_BUFFER_BIT: u32 = 0x80;

// Image usage, type, tiling.
pub const IMAGE_USAGE_TRANSFER_DST_BIT: u32 = 0x2;
pub const IMAGE_USAGE_SAMPLED_BIT: u32 = 0x4;
pub const IMAGE_USAGE_COLOR_ATTACHMENT_BIT: u32 = 0x10;
pub const IMAGE_USAGE_DEPTH_STENCIL_ATTACHMENT_BIT: u32 = 0x20;
pub const IMAGE_TYPE_2D: u32 = 1;
pub const IMAGE_VIEW_TYPE_2D: u32 = 1;
pub const IMAGE_TILING_OPTIMAL: u32 = 0;
pub const IMAGE_TILING_LINEAR: u32 = 1;
pub const COMPONENT_SWIZZLE_IDENTITY: u32 = 0;

// Format features.
pub const FORMAT_FEATURE_DEPTH_STENCIL_ATTACHMENT_BIT: u32 = 0x200;

// Queues.
pub const QUEUE_GRAPHICS_BIT: u32 = 0x1;
pub const QUEUE_FAMILY_IGNORED: u32 = 0xffff_ffff;

// Render pass.
pub const ATTACHMENT_LOAD_OP_CLEAR: u32 = 1;
pub const ATTACHMENT_LOAD_OP_DONT_CARE: u32 = 2;
pub const ATTACHMENT_STORE_OP_STORE: u32 = 0;
pub const ATTACHMENT_STORE_OP_DONT_CARE: u32 = 1;
pub const SAMPLE_COUNT_1_BIT: u32 = 0x1;
pub const PIPELINE_BIND_POINT_GRAPHICS: u32 = 0;
pub const SUBPASS_EXTERNAL: u32 = 0xffff_ffff;
pub const SUBPASS_CONTENTS_INLINE: u32 = 0;

// Fixed-function pipeline state.
pub const SHADER_STAGE_VERTEX_BIT: u32 = 0x1;
pub const SHADER_STAGE_FRAGMENT_BIT: u32 = 0x10;
pub const VERTEX_INPUT_RATE_VERTEX: u32 = 0;
pub const PRIMITIVE_TOPOLOGY_TRIANGLE_LIST: u32 = 3;
pub const POLYGON_MODE_FILL: u32 = 0;
pub const CULL_MODE_BACK_BIT: u32 = 0x2;
pub const FRONT_FACE_COUNTER_CLOCKWISE: u32 = 0;
pub const COMPARE_OP_LESS: u32 = 1;
pub const COMPARE_OP_ALWAYS: u32 = 7;
pub const BLEND_FACTOR_ZERO: u32 = 0;
pub const BLEND_FACTOR_ONE: u32 = 1;
pub const BLEND_OP_ADD: u32 = 0;
pub const LOGIC_OP_COPY: u32 = 3;
pub const COLOR_COMPONENT_R_BIT: u32 = 0x1;
pub const COLOR_COMPONENT_G_BIT: u32 = 0x2;
pub const COLOR_COMPONENT_B_BIT: u32 = 0x4;
pub const COLOR_COMPONENT_A_BIT: u32 = 0x8;

// Descriptors.
pub const DESCRIPTOR_TYPE_COMBINED_IMAGE_SAMPLER: u32 = 1;
pub const DESCRIPTOR_TYPE_UNIFORM_BUFFER: u32 = 6;

// Samplers.
pub const FILTER_LINEAR: u32 = 1;
pub const SAMPLER_MIPMAP_MODE_LINEAR: u32 = 1;
pub const SAMPLER_ADDRESS_MODE_REPEAT: u32 = 0;
pub const BORDER_COLOR_INT_OPAQUE_BLACK: u32 = 3;

// Command buffers.
pub const COMMAND_BUFFER_LEVEL_PRIMARY: u32 = 0;
pub const COMMAND_BUFFER_USAGE_ONE_TIME_SUBMIT_BIT: u32 = 0x1;
pub const COMMAND_BUFFER_USAGE_SIMULTANEOUS_USE_BIT: u32 = 0x4;
pub const INDEX_TYPE_UINT16: u32 = 0;

// Surfaces.
pub const COMPOSITE_ALPHA_OPAQUE_BIT_KHR: u32 = 0x1;

// Debug reports.
pub const DEBUG_REPORT_WARNING_BIT_EXT: u32 = 0x2;
pub const DEBUG_REPORT_ERROR_BIT_EXT: u32 = 0x8;

/// A width and a height, in pixels.
#[derive(Clone, Copy, Debug, PartialEq, Eq, Structural)]
pub struct Extent2D {
    pub width: u32,
    pub height: u32,
}

/// A width, a height and a depth, in pixels.
#[derive(Clone, Copy, Debug, PartialEq, Eq, Structural)]
pub struct Extent3D {
    pub width: u32,
    pub height: u32,
    pub depth: u32,
}

/// A signed position in two dimensions.
#[derive(Clone, Copy, Debug, PartialEq, Eq, Structural)]
pub struct Offset2D {
    pub x: i32,
    pub y: i32,
}

/// A rectangle: where it starts and how far it reaches.
#[derive(Clone, Copy, Debug, PartialEq, Eq, Structural)]
pub struct Rect2D {
    pub offset: Offset2D,
    pub extent: Extent2D,
}

/// A pixel format together with the color space it is shown in.
#[derive(Clone, Copy, Debug, PartialEq, Eq, Structural)]
pub struct SurfaceFormatKHR {
    pub format: u32,
    pub color_space: u32,
}

/// What a surface can do, as the device reports it.
#[derive(Clone, Copy, Debug, PartialEq, Eq, Structural)]
pub struct SurfaceCapabilitiesKHR {
    pub min_image_count: u32,
    /// The most images a swapchain on the surface may be asked for.
    pub max_image_count: u32,
    /// A width of `u32::MAX` where the surface leaves the size to the swapchain.
    pub current_extent: Extent2D,
    pub min_image_extent: Extent2D,
    pub max_image_extent: Extent2D,
    pub max_image_array_layers: u32,
    pub supported_transforms: u32,
    pub current_transform: u32,
    pub supported_composite_alpha: u32,
    pub supported_usage_flags: u32,
}

/// Size, alignment and admissible memory types of a resource.
#[derive(Clone, Copy, Debug, PartialEq, Eq, Structural)]
pub struct MemoryRequirements {
    pub size: u64,
    pub alignment: u64,
    /// Bit `i` is set where memory type `i` may back the resource.
    pub memory_type_bits: u32,
}

/// One memory type of a device.
#[derive(Clone, Copy, Debug, PartialEq, Eq, Structural)]
pub struct MemoryType {
    pub property_flags: u32,
    pub heap_index: u32,
}

/// The features a format offers under each tiling.
#[derive(Clone, Copy, Debug, PartialEq, Eq, Structural)]
pub struct FormatProperties {
    pub linear_tiling_features: u32,
    pub optimal_tiling_features: u32,
    pub buffer_features: u32,
}

/// One queue family of a device, with whether it can present to the surface.
#[derive(Clone, Copy, Debug, PartialEq, Eq, Structural)]
pub struct QueueFamilyProperties {
    pub queue_flags: u32,
    pub queue_count: u32,
    pub presentation_support: bool,
}

} // verus!
