//! What is recorded into the command buffers: one buffer per framebuffer,
//! each drawing the indexed mesh in one render pass.

use vstd::prelude::*;
use crate::vk::{Extent2D, Offset2D, Rect2D, COMMAND_BUFFER_LEVEL_PRIMARY,
    COMMAND_BUFFER_USAGE_ONE_TIME_SUBMIT_BIT, COMMAND_BUFFER_USAGE_SIMULTANEOUS_USE_BIT,
    INDEX_TYPE_UINT16, PIPELINE_BIND_POINT_GRAPHICS, SUBPASS_CONTENTS_INLINE};

verus! {

/// One recorded command.
#[derive(Clone, Copy, Debug, PartialEq, Eq, Structural)]
pub enum Command {
    Begin { flags: u32 },
    BeginRenderPass {
        render_pass: u64,
        framebuffer: u64,
        render_area: Rect2D,
        clear_value_count: u32,
        contents: u32,
    },
    BindPipeline { bind_point: u32, pipeline: u64 },
    BindVertexBuffer { first_binding: u32, buffer: u64, offset: u64 },
    BindIndexBuffer { buffer: u64, offset: u64, index_type: u32 },
    BindDescriptorSet { bind_point: u32, layout: u64, first_set: u32, descriptor_set: u64 },
    DrawIndexed {
        index_count: u32,
        instance_count: u32,
        first_index: u32,
        vertex_offset: i32,
        first_instance: u32,
    },
    EndRenderPass,
    End,
}

/// The handles and counts that every command buffer of a generation shares.
#[derive(Clone, Copy, Debug, PartialEq, Eq, Structural)]
pub struct DrawResources {
    pub render_pass: u64,
    pub graphics_pipeline: u64,
    pub pipeline_layout: u64,
    pub vertex_buffer: u64,
    pub index_buffer: u64,
    pub descriptor_set: u64,
    pub vertex_count: u32,
    pub index_count: u32,
}

/// The commands that draw into `framebuffer`: begin, enter the render pass
/// over the whole extent, bind pipeline, vertices, indices and descriptor
/// set, draw every index once, leave the render pass, end.
pub open spec fn spec_commands(
    resources: DrawResources,
    framebuffer: u64,
    extent: Extent2D,
) -> Seq<Command> {
    seq![
        Command::Begin { flags: COMMAND_BUFFER_USAGE_SIMULTANEOUS_USE_BIT },
        Command::BeginRenderPass {
            render_pass: resources.render_pass,
            framebuffer,
            render_area: Rect2D { offset: Offset2D { x: 0, y: 0 }, extent },
            clear_value_count: 1,
            contents: SUBPASS_CONTENTS_INLINE,
        },
        Command::BindPipeline {
            bind_point: PIPELINE_BIND_POINT_GRAPHICS,
            pipeline: resources.graphics_pipeline,
        },
        Command::BindVertexBuffer { first_binding: 0, buffer: resources.vertex_buffer, offset: 0 },
        Command::BindIndexBuffer {
            buffer: resources.index_buffer,
            offset: 0,
            index_type: INDEX_TYPE_UINT16,
        },
        Command::BindDescriptorSet {
            bind_point: PIPELINE_BIND_POINT_GRAPHICS,
            layout: resources.pipeline_layout,
            first_set: 0,
            descriptor_set: resources.descriptor_set,
        },
        Command::DrawIndexed {
            index_count: resources.index_count,
            instance_count: 1,
            first_index: 0,
            vertex_offset: 0,
            first_instance: 0,
        },
        Command::EndRenderPass,
        Command::End,
    ]
}

/// Records the commands that draw into `framebuffer`.
pub fn record_commands(
    resources: &DrawResources,
    framebuffer: u64,
    extent: &Extent2D,
) -> (commands: Vec<Command>)
    ensures
        commands@ == spec_commands(*resources, framebuffer, *extent),
{
    let mut commands: Vec<Command> = Vec::new();
    commands.push(Command::Begin { flags: COMMAND_BUFFER_USAGE_SIMULTANEOUS_USE_BIT });
    commands.push(
        Command::BeginRenderPass {
            render_pass: resources.render_pass,
            framebuffer,
            render_area: Rect2D { offset: Offset2D { x: 0, y: 0 }, extent: *extent },
            clear_value_count: 1,
            contents: SUBPASS_CONTENTS_INLINE,
        },
    );
    commands.push(
        Command::BindPipeline {
            bind_point: PIPELINE_BIND_POINT_GRAPHICS,
            pipeline: resources.graphics_pipeline,
        },
    );
    commands.push(
        Command::BindVertexBuffer { first_binding: 0, buffer: resources.vertex_buffer, offset: 0 },
    );
    commands.push(
        Command::BindIndexBuffer {
            buffer: resources.index_buffer,
            offset: 0,
            index_type: INDEX_TYPE_UINT16,
        },
    );
    commands.push(
        Command::BindDescriptorSet {
            bind_point: PIPELINE_BIND_POINT_GRAPHICS,
            layout: resources.pipeline_layout,
            first_set: 0,
            descriptor_set: resources.descriptor_set,
        },
    );
    commands.push(
        Command::DrawIndexed {
            index_count: resources.index_count,
            instance_count: 1,
            first_index: 0,
            vertex_offset: 0,
            first_instance: 0,
        },
    );
    commands.push(Command::EndRenderPass);
    commands.push(Command::End);
    assert(commands@ =~= spec_commands(*resources, framebuffer, *extent));
    commands
}

/// Records one command buffer per framebuffer, in the order of the
/// framebuffers.
pub fn create_command_buffers(
    resources: &DrawResources,
    swapchain_framebuffers: &[u64],
    swapchain_extent: &Extent2D,
) -> (command_buffers: Vec<Vec<Command>>)
    ensures
        command_buffers@.len() == swapchain_framebuffers@.len(),
        forall|i: int|
            0 <= i < command_buffers@.len() ==> (#[trigger] command_buffers@[i])@
                == spec_commands(*resources, swapchain_framebuffers@[i], *swapchain_extent),
{
    let mut command_buffers: Vec<Vec<Command>> = Vec::new();
    let mut i: usize = 0;
    while i < swapchain_framebuffers.len()
        invariant
            0 <= i <= swapchain_framebuffers@.len(),
            command_buffers@.len() == i,
            forall|j: int|
                0 <= j < i ==> (#[trigger] command_buffers@[j])@ == spec_commands(
                    *resources,
                    swapchain_framebuffers@[j],
                    *swapchain_extent,
                ),
        decreases swapchain_framebuffers@.len() - i,
    {
        let commands = record_commands(resources, swapchain_framebuffers[i], swapchain_extent);
        command_buffers.push(commands);
        i = i + 1;
    }
    command_buffers
}

/// How many command buffers are taken from which pool.
#[derive(Clone, Copy, Debug, PartialEq, Eq, Structural)]
pub struct CommandBufferAllocateInfo {
    pub command_pool: u64,
    pub level: u32,
    pub command_buffer_count: u32,
}

/// The most command buffers that one allocation can ask for.
pub const MAX_COMMAND_BUFFERS: usize = 0xffff_ffff;

/// Plans the allocation of the command buffers that draw into
/// `framebuffers`: primary ones, from `command_pool`, one per framebuffer.
pub fn command_buffer_allocation(
    command_pool: u64,
    framebuffers: &[u64],
) -> (info: CommandBufferAllocateInfo)
    requires
        framebuffers@.len() <= MAX_COMMAND_BUFFERS,
    ensures
        info == (CommandBufferAllocateInfo {
            command_pool,
            level: COMMAND_BUFFER_LEVEL_PRIMARY,
            command_buffer_count: framebuffers@.len() as u32,
        }),
{
    CommandBufferAllocateInfo {
        command_pool,
        level: COMMAND_BUFFER_LEVEL_PRIMARY,
        command_buffer_count: framebuffers.len() as u32,
    }
}

/// A command buffer that is recorded, run once and waited for: how it is
/// allocated and how its recording begins.
#[derive(Clone, Copy, Debug, PartialEq, Eq, Structural)]
pub struct SingleTimeCommands {
    pub allocate: CommandBufferAllocateInfo,
    pub begin_flags: u32,
}

/// A submission that waits for no signal and raises none. The caller waits
/// for the queue to go idle after it, and frees the command buffer then.
#[derive(Clone, Copy, Debug, PartialEq, Eq, Structural)]
pub struct SingleTimeSubmit {
    pub command_buffer: u64,
    pub command_buffer_count: u32,
    pub wait_semaphore_count: u32,
    pub signal_semaphore_count: u32,
}

/// Plans one primary command buffer from `command_pool` that is run once.
pub fn begin_single_time_commands(command_pool: u64) -> (commands: SingleTimeCommands)
    ensures
        commands == (SingleTimeCommands {
            allocate: CommandBufferAllocateInfo {
                command_pool,
                level: COMMAND_BUFFER_LEVEL_PRIMARY,
                command_buffer_count: 1,
            },
            begin_flags: COMMAND_BUFFER_USAGE_ONE_TIME_SUBMIT_BIT,
        }),
{
    SingleTimeCommands {
        allocate: CommandBufferAllocateInfo {
            command_pool,
            level: COMMAND_BUFFER_LEVEL_PRIMARY,
            command_buffer_count: 1,
        },
        begin_flags: COMMAND_BUFFER_USAGE_ONE_TIME_SUBMIT_BIT,
    }
}

/// Plans the submission of `command_buffer`, which is then waited for.
pub fn end_single_time_commands(command_buffer: u64) -> (submit: SingleTimeSubmit)
    ensures
        submit == (SingleTimeSubmit {
            command_buffer,
            command_buffer_count: 1,
            wait_semaphore_count: 0,
            signal_semaphore_count: 0,
        }),
{
    SingleTimeSubmit {
        command_buffer,
        command_buffer_count: 1,
        wait_semaphore_count: 0,
        signal_semaphore_count: 0,
    }
}

} // verus!
