//! The fixed-function state of the one graphics pipeline.

use vstd::prelude::*;
use crate::vertex::{VertexAttributes, VertexInputBindingDescription, binding_description,
    spec_binding_description, spec_vertex_attributes, vertex_attributes};
use crate::vk::{Extent2D, Offset2D, Rect2D, BLEND_FACTOR_ONE, BLEND_FACTOR_ZERO, BLEND_OP_ADD,
    COLOR_COMPONENT_A_BIT, COLOR_COMPONENT_B_BIT, COLOR_COMPONENT_G_BIT, COLOR_COMPONENT_R_BIT,
    COMPARE_OP_LESS, CULL_MODE_BACK_BIT, FRONT_FACE_COUNTER_CLOCKWISE, LOGIC_OP_COPY,
    NULL_HANDLE, POLYGON_MODE_FILL, PRIMITIVE_TOPOLOGY_TRIANGLE_LIST, SAMPLE_COUNT_1_BIT,
    SHADER_STAGE_FRAGMENT_BIT, SHADER_STAGE_VERTEX_BIT};

verus! {

/// One programmable stage: which stage it is and the module that holds its
/// entry point.
#[derive(Clone, Copy, Debug, PartialEq, Eq, Structural)]
pub struct ShaderStage {
    pub stage: u32,
    pub module: u64,
}

/// How vertices are put together into primitives.
#[derive(Clone, Copy, Debug, PartialEq, Eq, Structural)]
pub struct InputAssemblyState {
    pub topology: u32,
    pub primitive_restart_enable: bool,
}

/// The part of the framebuffer that is drawn to, in whole pixels.
#[derive(Clone, Copy, Debug, PartialEq, Eq, Structural)]
pub struct Viewport {
    pub x: u32,
    pub y: u32,
    pub width: u32,
    pub height: u32,
}

/// How primitives become fragments.
#[derive(Clone, Copy, Debug, PartialEq, Eq, Structural)]
pub struct RasterizationState {
    pub depth_clamp_enable: bool,
    pub rasterizer_discard_enable: bool,
    pub polygon_mode: u32,
    pub cull_mode: u32,
    pub front_face: u32,
    pub depth_bias_enable: bool,
}

/// How many samples a pixel has.
#[derive(Clone, Copy, Debug, PartialEq, Eq, Structural)]
pub struct MultisampleState {
    pub rasterization_samples: u32,
    pub sample_shading_enable: bool,
    pub alpha_to_coverage_enable: bool,
    pub alpha_to_one_enable: bool,
}

/// What the stencil test does on one face.
#[derive(Clone, Copy, Debug, PartialEq, Eq, Structural)]
pub struct StencilOpState {
    pub fail_op: u32,
    pub pass_op: u32,
    pub depth_fail_op: u32,
    pub compare_op: u32,
    pub compare_mask: u32,
    pub write_mask: u32,
    pub reference: u32,
}

/// The depth and stencil tests.
#[derive(Clone, Copy, Debug, PartialEq, Eq, Structural)]
pub struct DepthStencilState {
    pub depth_test_enable: bool,
    pub depth_write_enable: bool,
    pub depth_compare_op: u32,
    pub depth_bounds_test_enable: bool,
    pub stencil_test_enable: bool,
    pub front: StencilOpState,
    pub back: StencilOpState,
}

/// How a fragment's color meets the color already in the attachment.
#[derive(Clone, Copy, Debug, PartialEq, Eq, Structural)]
pub struct ColorBlendAttachmentState {
    pub blend_enable: bool,
    pub src_color_blend_factor: u32,
    pub dst_color_blend_factor: u32,
    pub color_blend_op: u32,
    pub src_alpha_blend_factor: u32,
    pub dst_alpha_blend_factor: u32,
    pub alpha_blend_op: u32,
    pub color_write_mask: u32,
}

/// Blending for the one color attachment.
#[derive(Clone, Copy, Debug, PartialEq, Eq, Structural)]
pub struct ColorBlendState {
    pub logic_op_enable: bool,
    pub logic_op: u32,
    pub attachment_count: u32,
    pub attachment: ColorBlendAttachmentState,
}

/// Everything that the creation of the graphics pipeline is told.
#[derive(Clone, Copy, Debug, PartialEq, Eq, Structural)]
pub struct GraphicsPipeline {
    pub vertex_stage: ShaderStage,
    pub fragment_stage: ShaderStage,
    pub vertex_binding: VertexInputBindingDescription,
    pub vertex_attributes: VertexAttributes,
    pub input_assembly: InputAssemblyState,
    pub viewport: Viewport,
    pub scissor: Rect2D,
    pub rasterizer: RasterizationState,
    pub multisampling: MultisampleState,
    pub depth_stencil: DepthStencilState,
    pub color_blending: ColorBlendState,
    pub layout: u64,
    pub render_pass: u64,
    pub subpass: u32,
    pub base_pipeline_handle: u64,
    pub base_pipeline_index: i32,
}

/// A stencil face on which nothing is set.
pub open spec fn spec_stencil_unused() -> StencilOpState {
    StencilOpState {
        fail_op: 0,
        pass_op: 0,
        depth_fail_op: 0,
        compare_op: 0,
        compare_mask: 0,
        write_mask: 0,
        reference: 0,
    }
}

/// Filled triangles, back faces culled, front faces counter-clockwise.
pub open spec fn spec_rasterizer() -> RasterizationState {
    RasterizationState {
        depth_clamp_enable: false,
        rasterizer_discard_enable: false,
        polygon_mode: POLYGON_MODE_FILL,
        cull_mode: CULL_MODE_BACK_BIT,
        front_face: FRONT_FACE_COUNTER_CLOCKWISE,
        depth_bias_enable: false,
    }
}

/// One sample per pixel.
pub open spec fn spec_multisampling() -> MultisampleState {
    MultisampleState {
        rasterization_samples: SAMPLE_COUNT_1_BIT,
        sample_shading_enable: false,
        alpha_to_coverage_enable: false,
        alpha_to_one_enable: false,
    }
}

/// Depth is tested and written, nearer fragments win; no stencil test.
pub open spec fn spec_depth_stencil() -> DepthStencilState {
    DepthStencilState {
        depth_test_enable: true,
        depth_write_enable: true,
        depth_compare_op: COMPARE_OP_LESS,
        depth_bounds_test_enable: false,
        stencil_test_enable: false,
        front: spec_stencil_unused(),
        back: spec_stencil_unused(),
    }
}

/// One color attachment, written in all four channels and not blended.
pub open spec fn spec_color_blending() -> ColorBlendState {
    ColorBlendState {
        logic_op_enable: false,
        logic_op: LOGIC_OP_COPY,
        attachment_count: 1,
        attachment: ColorBlendAttachmentState {
            blend_enable: false,
            src_color_blend_factor: BLEND_FACTOR_ONE,
            dst_color_blend_factor: BLEND_FACTOR_ZERO,
            color_blend_op: BLEND_OP_ADD,
            src_alpha_blend_factor: BLEND_FACTOR_ONE,
            dst_alpha_blend_factor: BLEND_FACTOR_ZERO,
            alpha_blend_op: BLEND_OP_ADD,
            color_write_mask: COLOR_COMPONENT_R_BIT | COLOR_COMPONENT_G_BIT
                | COLOR_COMPONENT_B_BIT | COLOR_COMPONENT_A_BIT,
        },
    }
}

/// The pipeline that draws the mesh into images of `extent`: viewport and
/// scissor cover the whole extent, and the rest is fixed.
pub open spec fn spec_graphics_pipeline(
    pipeline_layout: u64,
    render_pass: u64,
    extent: Extent2D,
    vert_shader_module: u64,
    frag_shader_module: u64,
) -> GraphicsPipeline {
    GraphicsPipeline {
        vertex_stage: ShaderStage { stage: SHADER_STAGE_VERTEX_BIT, module: vert_shader_module },
        fragment_stage: ShaderStage {
            stage: SHADER_STAGE_FRAGMENT_BIT,
            module: frag_shader_module,
        },
        vertex_binding: spec_binding_description(),
        vertex_attributes: spec_vertex_attributes(),
        input_assembly: InputAssemblyState {
            topology: PRIMITIVE_TOPOLOGY_TRIANGLE_LIST,
            primitive_restart_enable: false,
        },
        viewport: Viewport { x: 0, y: 0, width: extent.width, height: extent.height },
        scissor: Rect2D { offset: Offset2D { x: 0, y: 0 }, extent },
        rasterizer: spec_rasterizer(),
        multisampling: spec_multisampling(),
        depth_stencil: spec_depth_stencil(),
        color_blending: spec_color_blending(),
        layout: pipeline_layout,
        render_pass,
        subpass: 0,
        base_pipeline_handle: NULL_HANDLE,
        base_pipeline_index: -1i32,
    }
}

impl GraphicsPipeline {
    /// Describes the pipeline for images of `swap_chain_extent`, with the two
    /// shader modules, under `pipeline_layout` and for `render_pass`.
    pub fn new(
        pipeline_layout: u64,
        render_pass: u64,
        swap_chain_extent: Extent2D,
        vert_shader_module: u64,
        frag_shader_module: u64,
    ) -> (pipeline: GraphicsPipeline)
        ensures
            pipeline == spec_graphics_pipeline(
                pipeline_layout,
                render_pass,
                swap_chain_extent,
                vert_shader_module,
                frag_shader_module,
            ),
    {
        let vertex_stage = ShaderStage {
            stage: SHADER_STAGE_VERTEX_BIT,
            module: vert_shader_module,
        };
        let fragment_stage = ShaderStage {
            stage: SHADER_STAGE_FRAGMENT_BIT,
            module: frag_shader_module,
        };
        let input_assembly = InputAssemblyState {
            topology: PRIMITIVE_TOPOLOGY_TRIANGLE_LIST,
            primitive_restart_enable: false,
        };
        let viewport = Viewport {
            x: 0,
            y: 0,
            width: swap_chain_extent.width,
            height: swap_chain_extent.height,
        };
        let scissor = Rect2D { offset: Offset2D { x: 0, y: 0 }, extent: swap_chain_extent };
        let rasterizer = RasterizationState {
            depth_clamp_enable: false,
            rasterizer_discard_enable: false,
            polygon_mode: POLYGON_MODE_FILL,
            cull_mode: CULL_MODE_BACK_BIT,
            front_face: FRONT_FACE_COUNTER_CLOCKWISE,
            depth_bias_enable: false,
        };
        let multisampling = MultisampleState {
            rasterization_samples: SAMPLE_COUNT_1_BIT,
            sample_shading_enable: false,
            alpha_to_coverage_enable: false,
            alpha_to_one_enable: false,
        };
        let stencil_op_state = StencilOpState {
            fail_op: 0,
            pass_op: 0,
            depth_fail_op: 0,
            compare_op: 0,
            compare_mask: 0,
            write_mask: 0,
            reference: 0,
        };
        let depth_stencil = DepthStencilState {
            depth_test_enable: true,
            depth_write_enable: true,
            depth_compare_op: COMPARE_OP_LESS,
            depth_bounds_test_enable: false,
            stencil_test_enable: false,
            front: stencil_op_state,
            back: stencil_op_state,
        };
        let color_blend_attachment = ColorBlendAttachmentState {
            blend_enable: false,
            src_color_blend_factor: BLEND_FACTOR_ONE,
            dst_color_blend_factor: BLEND_FACTOR_ZERO,
            color_blend_op: BLEND_OP_ADD,
            src_alpha_blend_factor: BLEND_FACTOR_ONE,
            dst_alpha_blend_factor: BLEND_FACTOR_ZERO,
            alpha_blend_op: BLEND_OP_ADD,
            color_write_mask: COLOR_COMPONENT_R_BIT | COLOR_COMPONENT_G_BIT
                | COLOR_COMPONENT_B_BIT | COLOR_COMPONENT_A_BIT,
        };
        let color_blending = ColorBlendState {
            logic_op_enable: false,
            logic_op: LOGIC_OP_COPY,
            attachment_count: 1,
            attachment: color_blend_attachment,
        };
        GraphicsPipeline {
            vertex_stage,
            fragment_stage,
            vertex_binding: binding_description(),
            vertex_attributes: vertex_attributes(),
            input_assembly,
            viewport,
            scissor,
            rasterizer,
            multisampling,
            depth_stencil,
            color_blending,
            layout: pipeline_layout,
            render_pass,
            subpass: 0,
            base_pipeline_handle: NULL_HANDLE,
            base_pipeline_index: -1,
        }
    }
}

} // verus!
