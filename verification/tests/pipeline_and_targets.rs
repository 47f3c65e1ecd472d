use vkc::command_buffers::{
    begin_single_time_commands, command_buffer_allocation, create_command_buffers,
    end_single_time_commands, record_commands, Command, DrawResources,
};
use vkc::descriptor_pool::DescriptorPool;
use vkc::descriptor_set::{create_descriptor_set, DescriptorResource, Texture};
use vkc::descriptor_set_layout::DescriptorSetLayout;
use vkc::framebuffer::{create_framebuffers, Framebuffer};
use vkc::graphics_pipeline::GraphicsPipeline;
use vkc::image_view::{create_image_views, ImageView};
use vkc::pipeline_layout::PipelineLayout;
use vkc::render_pass::RenderPass;
use vkc::sampler::Sampler;
use vkc::shader_module::ShaderModule;
use vkc::swapchain::{Swapchain, SwapchainCreateInfo};
use vkc::vertex::{attribute_descriptions, binding_description, vertex_attributes};
use vkc::vk::{Extent2D, Offset2D, Rect2D};

fn swapchain(images: Vec<u64>, extent: Extent2D) -> Swapchain {
    let info = SwapchainCreateInfo {
        surface: 1,
        min_image_count: images.len() as u32,
        image_format: 44,
        image_color_space: 0,
        image_extent: extent,
        image_array_layers: 1,
        image_usage: 0x10,
        image_sharing_mode: 0,
        queue_family_index_count: 0,
        graphics_queue_family: 0,
        present_queue_family: 0,
        pre_transform: 1,
        composite_alpha: 1,
        present_mode: 2,
        clipped: true,
        old_swapchain: 0,
    };
    Swapchain::new(2, &images, &info)
}

#[test]
fn vertex_layout_is_position_color_texture() {
    let binding = binding_description();
    assert_eq!(binding.binding, 0);
    assert_eq!(binding.stride, 32);
    assert_eq!(binding.input_rate, 0);
    let attributes = attribute_descriptions();
    assert_eq!(attributes.len(), 3);
    assert_eq!(
        (attributes[0].location, attributes[0].binding, attributes[0].format, attributes[0].offset),
        (0, 0, 106, 0)
    );
    assert_eq!(
        (attributes[1].location, attributes[1].binding, attributes[1].format, attributes[1].offset),
        (1, 0, 106, 12)
    );
    assert_eq!(
        (attributes[2].location, attributes[2].binding, attributes[2].format, attributes[2].offset),
        (2, 0, 103, 24)
    );
    let named = vertex_attributes();
    assert_eq!(named.position, attributes[0]);
    assert_eq!(named.color, attributes[1]);
    assert_eq!(named.tex_coord, attributes[2]);
}

#[test]
fn pipeline_state_is_fixed_but_for_the_extent() {
    let extent = Extent2D { width: 1280, height: 720 };
    let p = GraphicsPipeline::new(3, 4, extent, 5, 6);
    assert_eq!((p.vertex_stage.stage, p.vertex_stage.module), (0x1, 5));
    assert_eq!((p.fragment_stage.stage, p.fragment_stage.module), (0x10, 6));
    assert_eq!(p.vertex_binding, binding_description());
    assert_eq!(p.vertex_attributes, vertex_attributes());
    assert_eq!(p.input_assembly.topology, 3);
    assert!(!p.input_assembly.primitive_restart_enable);
    assert_eq!((p.viewport.x, p.viewport.y, p.viewport.width, p.viewport.height), (0, 0, 1280, 720));
    assert_eq!(p.scissor, Rect2D { offset: Offset2D { x: 0, y: 0 }, extent });
    assert_eq!(p.rasterizer.polygon_mode, 0);
    assert_eq!(p.rasterizer.cull_mode, 2);
    assert_eq!(p.rasterizer.front_face, 0);
    assert!(!p.rasterizer.depth_clamp_enable);
    assert!(!p.rasterizer.rasterizer_discard_enable);
    assert!(!p.rasterizer.depth_bias_enable);
    assert_eq!(p.multisampling.rasterization_samples, 1);
    assert!(!p.multisampling.sample_shading_enable);
    assert!(p.depth_stencil.depth_test_enable);
    assert!(p.depth_stencil.depth_write_enable);
    assert_eq!(p.depth_stencil.depth_compare_op, 1);
    assert!(!p.depth_stencil.depth_bounds_test_enable);
    assert!(!p.depth_stencil.stencil_test_enable);
    assert_eq!(p.depth_stencil.front, p.depth_stencil.back);
    assert_eq!(p.depth_stencil.front.compare_mask, 0);
    assert!(!p.color_blending.logic_op_enable);
    assert_eq!(p.color_blending.logic_op, 3);
    assert_eq!(p.color_blending.attachment_count, 1);
    assert!(!p.color_blending.attachment.blend_enable);
    assert_eq!(p.color_blending.attachment.color_write_mask, 0xf);
    assert_eq!(p.color_blending.attachment.src_color_blend_factor, 1);
    assert_eq!(p.color_blending.attachment.dst_color_blend_factor, 0);
    assert_eq!((p.layout, p.render_pass, p.subpass), (3, 4, 0));
    assert_eq!((p.base_pipeline_handle, p.base_pipeline_index), (0, -1));
}

#[test]
fn pipelines_for_two_extents_differ_in_viewport_and_scissor_only() {
    let a = GraphicsPipeline::new(3, 4, Extent2D { width: 1, height: 2 }, 5, 6);
    let mut b = GraphicsPipeline::new(3, 4, Extent2D { width: 7, height: 9 }, 5, 6);
    assert_ne!(a, b);
    b.viewport = a.viewport;
    b.scissor = a.scissor;
    assert_eq!(a, b);
}

#[test]
fn render_pass_has_a_color_and_a_depth_attachment() {
    let pass = RenderPass::new(44, 126);
    let color = pass.color_attachment;
    assert_eq!((color.format, color.samples), (44, 1));
    assert_eq!((color.load_op, color.store_op), (1, 0));
    assert_eq!((color.stencil_load_op, color.stencil_store_op), (2, 1));
    assert_eq!((color.initial_layout, color.final_layout), (0, 1000001002));
    let depth = pass.depth_attachment;
    assert_eq!((depth.format, depth.samples), (126, 1));
    assert_eq!((depth.load_op, depth.store_op), (1, 1));
    assert_eq!((depth.initial_layout, depth.final_layout), (0, 3));
    assert_eq!(pass.subpass.pipeline_bind_point, 0);
    assert_eq!((pass.subpass.color_attachment.attachment, pass.subpass.color_attachment.layout), (0, 2));
    assert_eq!(
        (pass.subpass.depth_stencil_attachment.attachment, pass.subpass.depth_stencil_attachment.layout),
        (1, 3)
    );
    let dependency = pass.dependency;
    assert_eq!((dependency.src_subpass, dependency.dst_subpass), (u32::MAX, 0));
    assert_eq!((dependency.src_stage_mask, dependency.dst_stage_mask), (0x400, 0x400));
    assert_eq!((dependency.src_access_mask, dependency.dst_access_mask), (0, 0x180));
}

#[test]
fn one_view_per_swapchain_image() {
    let chain = swapchain(vec![21, 22, 23], Extent2D { width: 800, height: 600 });
    let views = create_image_views(&chain);
    assert_eq!(views.len(), 3);
    assert_eq!(views[0], ImageView::new(21, 44, 1));
    assert_eq!(views[1], ImageView::new(22, 44, 1));
    assert_eq!(views[2], ImageView::new(23, 44, 1));
    assert!(create_image_views(&swapchain(vec![], Extent2D { width: 1, height: 1 })).is_empty());
}

#[test]
fn one_framebuffer_per_view_sharing_the_depth_view() {
    let extent = Extent2D { width: 800, height: 600 };
    let framebuffers = create_framebuffers(9, &[31, 32, 33], 40, extent);
    assert_eq!(framebuffers.len(), 3);
    for (i, framebuffer) in framebuffers.iter().enumerate() {
        assert_eq!(framebuffer.render_pass, 9);
        assert_eq!(framebuffer.color_view, 31 + i as u64);
        assert_eq!(framebuffer.depth_view, 40);
        assert_eq!((framebuffer.width, framebuffer.height, framebuffer.layers), (800, 600, 1));
    }
    assert_eq!(framebuffers[1], Framebuffer::new(9, 32, 40, extent));
    assert!(create_framebuffers(9, &[], 40, extent).is_empty());
}

#[test]
fn rebuilding_for_the_same_extent_gives_the_same_framebuffers() {
    let extent = Extent2D { width: 640, height: 480 };
    let first = create_framebuffers(9, &[31, 32], 40, extent);
    let second = create_framebuffers(9, &[51, 52], 60, extent);
    assert_eq!(first.len(), second.len());
    for (a, b) in first.iter().zip(second.iter()) {
        assert_eq!((a.width, a.height, a.layers), (b.width, b.height, b.layers));
    }
}

fn draw_resources() -> DrawResources {
    DrawResources {
        render_pass: 1,
        graphics_pipeline: 2,
        pipeline_layout: 3,
        vertex_buffer: 4,
        index_buffer: 5,
        descriptor_set: 6,
        vertex_count: 8,
        index_count: 12,
    }
}

#[test]
fn commands_draw_the_mesh_in_one_render_pass() {
    let extent = Extent2D { width: 800, height: 600 };
    let commands = record_commands(&draw_resources(), 70, &extent);
    assert_eq!(
        commands,
        vec![
            Command::Begin { flags: 0x4 },
            Command::BeginRenderPass {
                render_pass: 1,
                framebuffer: 70,
                render_area: Rect2D { offset: Offset2D { x: 0, y: 0 }, extent },
                clear_value_count: 1,
                contents: 0,
            },
            Command::BindPipeline { bind_point: 0, pipeline: 2 },
            Command::BindVertexBuffer { first_binding: 0, buffer: 4, offset: 0 },
            Command::BindIndexBuffer { buffer: 5, offset: 0, index_type: 0 },
            Command::BindDescriptorSet { bind_point: 0, layout: 3, first_set: 0, descriptor_set: 6 },
            Command::DrawIndexed {
                index_count: 12,
                instance_count: 1,
                first_index: 0,
                vertex_offset: 0,
                first_instance: 0,
            },
            Command::EndRenderPass,
            Command::End,
        ]
    );
}

#[test]
fn one_command_buffer_per_framebuffer() {
    let extent = Extent2D { width: 800, height: 600 };
    let buffers = create_command_buffers(&draw_resources(), &[70, 71, 72], &extent);
    assert_eq!(buffers.len(), 3);
    for (i, commands) in buffers.iter().enumerate() {
        assert_eq!(*commands, record_commands(&draw_resources(), 70 + i as u64, &extent));
    }
    assert!(create_command_buffers(&draw_resources(), &[], &extent).is_empty());
}

#[test]
fn single_time_commands_run_once_without_signals() {
    let commands = begin_single_time_commands(17);
    assert_eq!(commands.allocate.command_pool, 17);
    assert_eq!(commands.allocate.level, 0);
    assert_eq!(commands.allocate.command_buffer_count, 1);
    assert_eq!(commands.begin_flags, 0x1);
    let submit = end_single_time_commands(18);
    assert_eq!(submit.command_buffer, 18);
    assert_eq!(submit.command_buffer_count, 1);
    assert_eq!(submit.wait_semaphore_count, 0);
    assert_eq!(submit.signal_semaphore_count, 0);
}

#[test]
fn descriptor_layout_has_the_uniform_block_and_maybe_a_texture() {
    let plain = DescriptorSetLayout::new(false);
    assert_eq!(plain.binding_count(), 1);
    assert_eq!(plain.sampler_binding, None);
    let u = plain.uniform_binding;
    assert_eq!((u.binding, u.descriptor_type, u.descriptor_count, u.stage_flags), (0, 6, 1, 0x1));
    let textured = DescriptorSetLayout::new(true);
    assert_eq!(textured.binding_count(), 2);
    assert_eq!(textured.uniform_binding, plain.uniform_binding);
    let s = textured.sampler_binding.unwrap();
    assert_eq!((s.binding, s.descriptor_type, s.descriptor_count, s.stage_flags), (1, 1, 1, 0x10));
}

#[test]
fn descriptor_pool_serves_one_set() {
    let pool = DescriptorPool::new();
    assert_eq!(pool.max_sets, 1);
    assert_eq!(pool.pool_size.descriptor_type, 6);
    assert_eq!(pool.pool_size.descriptor_count, 1);
}

#[test]
fn descriptor_set_points_at_uniform_block_and_texture() {
    let writes = create_descriptor_set(5, 6, Some(Texture { image_view: 7, sampler: 8 }));
    assert_eq!(writes.len(), 2);
    assert_eq!((writes[0].dst_set, writes[0].dst_binding, writes[0].descriptor_type), (5, 0, 6));
    assert_eq!((writes[0].dst_array_element, writes[0].descriptor_count), (0, 1));
    assert_eq!(writes[0].resource, DescriptorResource::Buffer { buffer: 6, offset: 0, range: 192 });
    assert_eq!((writes[1].dst_set, writes[1].dst_binding, writes[1].descriptor_type), (5, 1, 1));
    assert_eq!(
        writes[1].resource,
        DescriptorResource::Image { sampler: 8, image_view: 7, image_layout: 5 }
    );
    let plain = create_descriptor_set(5, 6, None);
    assert_eq!(plain.len(), 1);
    assert_eq!(plain[0], writes[0]);
}

#[test]
fn pipeline_layout_takes_one_set_layout_or_none() {
    let with = PipelineLayout::new(Some(12));
    assert_eq!(with.set_layout_count, 1);
    assert_eq!(with.set_layouts(), &[12]);
    assert_eq!(with.push_constant_range_count, 0);
    let without = PipelineLayout::new(None);
    assert_eq!(without.set_layout_count, 0);
    assert!(without.set_layouts().is_empty());
    assert_eq!(without.push_constant_range_count, 0);
}

#[test]
fn command_buffers_are_allocated_one_per_framebuffer() {
    let info = command_buffer_allocation(17, &[70, 71, 72]);
    assert_eq!(info.command_pool, 17);
    assert_eq!(info.level, 0);
    assert_eq!(info.command_buffer_count, 3);
    assert_eq!(command_buffer_allocation(17, &[]).command_buffer_count, 0);
}

#[test]
fn swapchain_images_outgrow_their_inline_capacity() {
    let images: Vec<u64> = (100..120).collect();
    let chain = swapchain(images.clone(), Extent2D { width: 8, height: 8 });
    assert_eq!(chain.images(), images.as_slice());
    assert_eq!(create_image_views(&chain).len(), 20);
}

#[test]
fn sampler_filters_linearly_and_repeats() {
    let s = Sampler::new();
    assert_eq!((s.mag_filter, s.min_filter, s.mipmap_mode), (1, 1, 1));
    assert_eq!((s.address_mode_u, s.address_mode_v, s.address_mode_w), (0, 0, 0));
    assert!(s.anisotropy_enable);
    assert_eq!(s.max_anisotropy, 16);
    assert!(!s.compare_enable);
    assert_eq!(s.compare_op, 7);
    assert_eq!(s.border_color, 3);
    assert!(!s.unnormalized_coordinates);
}

#[test]
fn shader_module_takes_all_of_the_code() {
    assert_eq!(ShaderModule::new(&[3, 2, 35, 7, 0, 0, 1, 0]).code_size, 8);
    assert_eq!(ShaderModule::new(&[]).code_size, 0);
}
