//! The render pass: a color attachment that ends up presentable, a depth
//! attachment, and one subpass that waits for the image before writing color.

use vstd::prelude::*;
use crate::vk::{ACCESS_COLOR_ATTACHMENT_READ_BIT, ACCESS_COLOR_ATTACHMENT_WRITE_BIT,
    ATTACHMENT_LOAD_OP_CLEAR, ATTACHMENT_LOAD_OP_DONT_CARE, ATTACHMENT_STORE_OP_DONT_CARE,
    ATTACHMENT_STORE_OP_STORE, IMAGE_LAYOUT_COLOR_ATTACHMENT_OPTIMAL,
    IMAGE_LAYOUT_DEPTH_STENCIL_ATTACHMENT_OPTIMAL, IMAGE_LAYOUT_PRESENT_SRC_KHR,
    IMAGE_LAYOUT_UNDEFINED, PIPELINE_BIND_POINT_GRAPHICS,
    PIPELINE_STAGE_COLOR_ATTACHMENT_OUTPUT_BIT, SAMPLE_COUNT_1_BIT, SUBPASS_EXTERNAL};

verus! {

/// One attachment of a render pass: its format, what happens to its contents
/// at the start and the end, and the layouts it comes in and leaves with.
#[derive(Clone, Copy, Debug, PartialEq, Eq, Structural)]
pub struct AttachmentDescription {
    pub format: u32,
    pub samples: u32,
    pub load_op: u32,
    pub store_op: u32,
    pub stencil_load_op: u32,
    pub stencil_store_op: u32,
    pub initial_layout: u32,
    pub final_layout: u32,
}

/// An attachment as a subpass uses it: its index and the layout it has then.
#[derive(Clone, Copy, Debug, PartialEq, Eq, Structural)]
pub struct AttachmentReference {
    pub attachment: u32,
    pub layout: u32,
}

/// The one subpass: a color attachment and a depth attachment.
#[derive(Clone, Copy, Debug, PartialEq, Eq, Structural)]
pub struct SubpassDescription {
    pub pipeline_bind_point: u32,
    pub color_attachment: AttachmentReference,
    pub depth_stencil_attachment: AttachmentReference,
}

/// What the destination subpass waits for in the source subpass.
#[derive(Clone, Copy, Debug, PartialEq, Eq, Structural)]
pub struct SubpassDependency {
    pub src_subpass: u32,
    pub dst_subpass: u32,
    pub src_stage_mask: u32,
    pub dst_stage_mask: u32,
    pub src_access_mask: u32,
    pub dst_access_mask: u32,
}

/// Everything that the creation of the render pass is told.
#[derive(Clone, Copy, Debug, PartialEq, Eq, Structural)]
pub struct RenderPass {
    /// Attachment 0.
    pub color_attachment: AttachmentDescription,
    /// Attachment 1.
    pub depth_attachment: AttachmentDescription,
    pub subpass: SubpassDescription,
    pub dependency: SubpassDependency,
}

/// The color attachment: cleared at the start, kept at the end, and left in
/// the layout that presentation takes.
pub open spec fn spec_color_attachment(format: u32) -> AttachmentDescription {
    AttachmentDescription {
        format,
        samples: SAMPLE_COUNT_1_BIT,
        load_op: ATTACHMENT_LOAD_OP_CLEAR,
        store_op: ATTACHMENT_STORE_OP_STORE,
        stencil_load_op: ATTACHMENT_LOAD_OP_DONT_CARE,
        stencil_store_op: ATTACHMENT_STORE_OP_DONT_CARE,
        initial_layout: IMAGE_LAYOUT_UNDEFINED,
        final_layout: IMAGE_LAYOUT_PRESENT_SRC_KHR,
    }
}

/// The depth attachment: cleared at the start, not kept at the end, and left
/// in the layout of a depth attachment.
pub open spec fn spec_depth_attachment(format: u32) -> AttachmentDescription {
    AttachmentDescription {
        format,
        samples: SAMPLE_COUNT_1_BIT,
        load_op: ATTACHMENT_LOAD_OP_CLEAR,
        store_op: ATTACHMENT_STORE_OP_DONT_CARE,
        stencil_load_op: ATTACHMENT_LOAD_OP_DONT_CARE,
        stencil_store_op: ATTACHMENT_STORE_OP_DONT_CARE,
        initial_layout: IMAGE_LAYOUT_UNDEFINED,
        final_layout: IMAGE_LAYOUT_DEPTH_STENCIL_ATTACHMENT_OPTIMAL,
    }
}

/// The dependency of the subpass on what came before the render pass: color
/// is read and written only once the color-attachment-output stage of the
/// earlier work is over.
pub open spec fn spec_subpass_dependency() -> SubpassDependency {
    SubpassDependency {
        src_subpass: SUBPASS_EXTERNAL,
        dst_subpass: 0,
        src_stage_mask: PIPELINE_STAGE_COLOR_ATTACHMENT_OUTPUT_BIT,
        dst_stage_mask: PIPELINE_STAGE_COLOR_ATTACHMENT_OUTPUT_BIT,
        src_access_mask: 0,
        dst_access_mask: ACCESS_COLOR_ATTACHMENT_READ_BIT | ACCESS_COLOR_ATTACHMENT_WRITE_BIT,
    }
}

/// The render pass for color images of `swapchain_image_format` and a depth
/// image of `depth_image_format`.
pub open spec fn spec_render_pass(swapchain_image_format: u32, depth_image_format: u32) -> RenderPass {
    RenderPass {
        color_attachment: spec_color_attachment(swapchain_image_format),
        depth_attachment: spec_depth_attachment(depth_image_format),
        subpass: SubpassDescription {
            pipeline_bind_point: PIPELINE_BIND_POINT_GRAPHICS,
            color_attachment: AttachmentReference {
                attachment: 0,
                layout: IMAGE_LAYOUT_COLOR_ATTACHMENT_OPTIMAL,
            },
            depth_stencil_attachment: AttachmentReference {
                attachment: 1,
                layout: IMAGE_LAYOUT_DEPTH_STENCIL_ATTACHMENT_OPTIMAL,
            },
        },
        dependency: spec_subpass_dependency(),
    }
}

impl RenderPass {
    /// Describes the render pass for the two formats.
    pub fn new(swapchain_image_format: u32, depth_image_format: u32) -> (render_pass: RenderPass)
        ensures
            render_pass == spec_render_pass(swapchain_image_format, depth_image_format),
    {
        let color_attachment = AttachmentDescription {
            format: swapchain_image_format,
            samples: SAMPLE_COUNT_1_BIT,
            load_op: ATTACHMENT_LOAD_OP_CLEAR,
            store_op: ATTACHMENT_STORE_OP_STORE,
            stencil_load_op: ATTACHMENT_LOAD_OP_DONT_CARE,
            stencil_store_op: ATTACHMENT_STORE_OP_DONT_CARE,
            initial_layout: IMAGE_LAYOUT_UNDEFINED,
            final_layout: IMAGE_LAYOUT_PRESENT_SRC_KHR,
        };
        let depth_attachment = AttachmentDescription {
            format: depth_image_format,
            samples: SAMPLE_COUNT_1_BIT,
            load_op: ATTACHMENT_LOAD_OP_CLEAR,
            store_op: ATTACHMENT_STORE_OP_DONT_CARE,
            stencil_load_op: ATTACHMENT_LOAD_OP_DONT_CARE,
            stencil_store_op: ATTACHMENT_STORE_OP_DONT_CARE,
            initial_layout: IMAGE_LAYOUT_UNDEFINED,
            final_layout: IMAGE_LAYOUT_DEPTH_STENCIL_ATTACHMENT_OPTIMAL,
        };
        let color_attachment_ref = AttachmentReference {
            attachment: 0,
            layout: IMAGE_LAYOUT_COLOR_ATTACHMENT_OPTIMAL,
        };
        let depth_attachment_ref = AttachmentReference {
            attachment: 1,
            layout: IMAGE_LAYOUT_DEPTH_STENCIL_ATTACHMENT_OPTIMAL,
        };
        let subpass = SubpassDescription {
            pipeline_bind_point: PIPELINE_BIND_POINT_GRAPHICS,
            color_attachment: color_attachment_ref,
            depth_stencil_attachment: depth_attachment_ref,
        };
        let dependency = SubpassDependency {
            src_subpass: SUBPASS_EXTERNAL,
            dst_subpass: 0,
            src_stage_mask: PIPELINE_STAGE_COLOR_ATTACHMENT_OUTPUT_BIT,
            dst_stage_mask: PIPELINE_STAGE_COLOR_ATTACHMENT_OUTPUT_BIT,
            src_access_mask: 0,
            dst_access_mask: ACCESS_COLOR_ATTACHMENT_READ_BIT | ACCESS_COLOR_ATTACHMENT_WRITE_BIT,
        };
        RenderPass { color_attachment, depth_attachment, subpass, dependency }
    }
}

} // verus!
