//! The order in which the resources of a session are made, which of them
//! belong to the swapchain generation, and the order in which a stale
//! generation is torn down and rebuilt.

use vstd::prelude::*;
use crate::error::{Error, VkcResult};

verus! {

/// The resources of a session.
#[derive(Clone, Copy, Debug, PartialEq, Eq, Structural)]
pub enum Resource {
    /// The connection to the API.
    Instance,
    /// The window as the device sees it.
    Surface,
    /// The adapter that was chosen.
    PhysicalDevice,
    /// The logical device and its queue.
    Device,
    /// The chain of presentable images.
    Swapchain,
    /// One color view per swapchain image.
    ImageViews,
    /// The render pass.
    RenderPass,
    /// The layout of the descriptor set.
    DescriptorSetLayout,
    /// The layout of the pipeline.
    PipelineLayout,
    /// The graphics pipeline.
    GraphicsPipeline,
    /// The pool that command buffers come from.
    CommandPool,
    /// The depth image and its view.
    DepthResources,
    /// One framebuffer per swapchain image.
    Framebuffers,
    /// The texture.
    TextureImage,
    /// The view of the texture.
    TextureImageView,
    /// The sampler of the texture.
    TextureSampler,
    /// The vertices, on the device.
    VertexBuffer,
    /// The indices, on the device.
    IndexBuffer,
    /// The uniform block.
    UniformBuffer,
    /// The pool that the descriptor set comes from.
    DescriptorPool,
    /// The descriptor set.
    DescriptorSet,
    /// One command buffer per swapchain image.
    CommandBuffers,
    /// The two signals of a frame.
    Semaphores,
}

/// The place of a resource in the order of setup.
pub open spec fn spec_rank(resource: Resource) -> nat {
    match resource {
        Resource::Instance => 0,
        Resource::Surface => 1,
        Resource::PhysicalDevice => 2,
        Resource::Device => 3,
        Resource::Swapchain => 4,
        Resource::ImageViews => 5,
        Resource::RenderPass => 6,
        Resource::DescriptorSetLayout => 7,
        Resource::PipelineLayout => 8,
        Resource::GraphicsPipeline => 9,
        Resource::CommandPool => 10,
        Resource::DepthResources => 11,
        Resource::Framebuffers => 12,
        Resource::TextureImage => 13,
        Resource::TextureImageView => 14,
        Resource::TextureSampler => 15,
        Resource::VertexBuffer => 16,
        Resource::IndexBuffer => 17,
        Resource::UniformBuffer => 18,
        Resource::DescriptorPool => 19,
        Resource::DescriptorSet => 20,
        Resource::CommandBuffers => 21,
        Resource::Semaphores => 22,
    }
}

/// `resource` is made from `on`: `on` must exist before and must outlive it.
pub open spec fn spec_depends_on(resource: Resource, on: Resource) -> bool {
    match resource {
        Resource::Instance => false,
        Resource::Surface => on == Resource::Instance,
        Resource::PhysicalDevice => on == Resource::Instance || on == Resource::Surface,
        Resource::Device => on == Resource::Instance || on == Resource::Surface || on == Resource::PhysicalDevice,
        Resource::Swapchain => on == Resource::Surface || on == Resource::Device,
        Resource::ImageViews => on == Resource::Swapchain,
        Resource::RenderPass => on == Resource::Device || on == Resource::Swapchain,
        Resource::DescriptorSetLayout => on == Resource::Device,
        Resource::PipelineLayout => on == Resource::Device || on == Resource::DescriptorSetLayout,
        Resource::GraphicsPipeline => on == Resource::Device || on == Resource::PipelineLayout || on == Resource::RenderPass || on == Resource::Swapchain,
        Resource::CommandPool => on == Resource::Device || on == Resource::Surface,
        Resource::DepthResources => on == Resource::Device || on == Resource::CommandPool || on == Resource::Swapchain,
        Resource::Framebuffers => on == Resource::Device || on == Resource::RenderPass || on == Resource::ImageViews || on == Resource::DepthResources || on == Resource::Swapchain,
        Resource::TextureImage => on == Resource::Device || on == Resource::CommandPool,
        Resource::TextureImageView => on == Resource::Device || on == Resource::TextureImage,
        Resource::TextureSampler => on == Resource::Device,
        Resource::VertexBuffer => on == Resource::Device || on == Resource::CommandPool,
        Resource::IndexBuffer => on == Resource::Device || on == Resource::CommandPool,
        Resource::UniformBuffer => on == Resource::Device || on == Resource::CommandPool,
        Resource::DescriptorPool => on == Resource::Device,
        Resource::DescriptorSet => on == Resource::Device || on == Resource::DescriptorSetLayout || on == Resource::DescriptorPool || on == Resource::UniformBuffer || on == Resource::TextureImageView || on == Resource::TextureSampler,
        Resource::CommandBuffers => on == Resource::Device || on == Resource::CommandPool || on == Resource::RenderPass || on == Resource::GraphicsPipeline || on == Resource::Framebuffers || on == Resource::Swapchain || on == Resource::VertexBuffer || on == Resource::IndexBuffer || on == Resource::PipelineLayout || on == Resource::DescriptorSet,
        Resource::Semaphores => on == Resource::Device,
    }
}

/// `resource` belongs to the swapchain generation: it is made for one
/// extent and format of the swapchain.
pub open spec fn spec_in_generation(resource: Resource) -> bool {
    resource == Resource::Swapchain || resource == Resource::ImageViews || resource == Resource::RenderPass || resource == Resource::GraphicsPipeline || resource == Resource::DepthResources || resource == Resource::Framebuffers || resource == Resource::CommandBuffers
}

/// The order in which a session makes its resources.
pub open spec fn spec_setup_order() -> Seq<Resource> {
    seq![
        Resource::Instance,
        Resource::Surface,
        Resource::PhysicalDevice,
        Resource::Device,
        Resource::Swapchain,
        Resource::ImageViews,
        Resource::RenderPass,
        Resource::DescriptorSetLayout,
        Resource::PipelineLayout,
        Resource::GraphicsPipeline,
        Resource::CommandPool,
        Resource::DepthResources,
        Resource::Framebuffers,
        Resource::TextureImage,
        Resource::TextureImageView,
        Resource::TextureSampler,
        Resource::VertexBuffer,
        Resource::IndexBuffer,
        Resource::UniformBuffer,
        Resource::DescriptorPool,
        Resource::DescriptorSet,
        Resource::CommandBuffers,
        Resource::Semaphores,
    ]
}

/// The order in which a generation is rebuilt.
pub open spec fn spec_rebuild_order() -> Seq<Resource> {
    seq![
        Resource::Swapchain,
        Resource::ImageViews,
        Resource::RenderPass,
        Resource::GraphicsPipeline,
        Resource::DepthResources,
        Resource::Framebuffers,
        Resource::CommandBuffers,
    ]
}

/// The place of a resource in the order of setup.
pub fn rank(resource: Resource) -> (place: usize)
    ensures
        place == spec_rank(resource),
        place < spec_setup_order().len(),
        spec_setup_order()[place as int] == resource,
{
    match resource {
        Resource::Instance => 0,
        Resource::Surface => 1,
        Resource::PhysicalDevice => 2,
        Resource::Device => 3,
        Resource::Swapchain => 4,
        Resource::ImageViews => 5,
        Resource::RenderPass => 6,
        Resource::DescriptorSetLayout => 7,
        Resource::PipelineLayout => 8,
        Resource::GraphicsPipeline => 9,
        Resource::CommandPool => 10,
        Resource::DepthResources => 11,
        Resource::Framebuffers => 12,
        Resource::TextureImage => 13,
        Resource::TextureImageView => 14,
        Resource::TextureSampler => 15,
        Resource::VertexBuffer => 16,
        Resource::IndexBuffer => 17,
        Resource::UniformBuffer => 18,
        Resource::DescriptorPool => 19,
        Resource::DescriptorSet => 20,
        Resource::CommandBuffers => 21,
        Resource::Semaphores => 22,
    }
}

/// Whether `resource` is made from `on`.
pub fn depends_on(resource: Resource, on: Resource) -> (depends: bool)
    ensures
        depends == spec_depends_on(resource, on),
{
    match resource {
        Resource::Instance => false,
        Resource::Surface => match on {
            Resource::Instance => true,
            _ => false,
        },
        Resource::PhysicalDevice => match on {
            Resource::Instance | Resource::Surface => true,
            _ => false,
        },
        Resource::Device => match on {
            Resource::Instance | Resource::Surface | Resource::PhysicalDevice => true,
            _ => false,
        },
        Resource::Swapchain => match on {
            Resource::Surface | Resource::Device => true,
            _ => false,
        },
        Resource::ImageViews => match on {
            Resource::Swapchain => true,
            _ => false,
        },
        Resource::RenderPass => match on {
            Resource::Device | Resource::Swapchain => true,
            _ => false,
        },
        Resource::DescriptorSetLayout => match on {
            Resource::Device => true,
            _ => false,
        },
        Resource::PipelineLayout => match on {
            Resource::Device | Resource::DescriptorSetLayout => true,
            _ => false,
        },
        Resource::GraphicsPipeline => match on {
            Resource::Device | Resource::PipelineLayout | Resource::RenderPass | Resource::Swapchain => true,
            _ => false,
        },
        Resource::CommandPool => match on {
            Resource::Device | Resource::Surface => true,
            _ => false,
        },
        Resource::DepthResources => match on {
            Resource::Device | Resource::CommandPool | Resource::Swapchain => true,
            _ => false,
        },
        Resource::Framebuffers => match on {
            Resource::Device | Resource::RenderPass | Resource::ImageViews | Resource::DepthResources | Resource::Swapchain => true,
            _ => false,
        },
        Resource::TextureImage => match on {
            Resource::Device | Resource::CommandPool => true,
            _ => false,
        },
        Resource::TextureImageView => match on {
            Resource::Device | Resource::TextureImage => true,
            _ => false,
        },
        Resource::TextureSampler => match on {
            Resource::Device => true,
            _ => false,
        },
        Resource::VertexBuffer => match on {
            Resource::Device | Resource::CommandPool => true,
            _ => false,
        },
        Resource::IndexBuffer => match on {
            Resource::Device | Resource::CommandPool => true,
            _ => false,
        },
        Resource::UniformBuffer => match on {
            Resource::Device | Resource::CommandPool => true,
            _ => false,
        },
        Resource::DescriptorPool => match on {
            Resource::Device => true,
            _ => false,
        },
        Resource::DescriptorSet => match on {
            Resource::Device | Resource::DescriptorSetLayout | Resource::DescriptorPool | Resource::UniformBuffer | Resource::TextureImageView | Resource::TextureSampler => true,
            _ => false,
        },
        Resource::CommandBuffers => match on {
            Resource::Device | Resource::CommandPool | Resource::RenderPass | Resource::GraphicsPipeline | Resource::Framebuffers | Resource::Swapchain | Resource::VertexBuffer | Resource::IndexBuffer | Resource::PipelineLayout | Resource::DescriptorSet => true,
            _ => false,
        },
        Resource::Semaphores => match on {
            Resource::Device => true,
            _ => false,
        },
    }
}

/// Whether `resource` belongs to the swapchain generation.
pub fn in_generation(resource: Resource) -> (belongs: bool)
    ensures
        belongs == spec_in_generation(resource),
{
    match resource {
        Resource::Swapchain | Resource::ImageViews | Resource::RenderPass | Resource::GraphicsPipeline | Resource::DepthResources | Resource::Framebuffers | Resource::CommandBuffers => true,
        _ => false,
    }
}

/// The order in which a session makes its resources.
pub fn setup_order() -> (order: Vec<Resource>)
    ensures
        order@ == spec_setup_order(),
{
    let mut order: Vec<Resource> = Vec::new();
    order.push(Resource::Instance);
    order.push(Resource::Surface);
    order.push(Resource::PhysicalDevice);
    order.push(Resource::Device);
    order.push(Resource::Swapchain);
    order.push(Resource::ImageViews);
    order.push(Resource::RenderPass);
    order.push(Resource::DescriptorSetLayout);
    order.push(Resource::PipelineLayout);
    order.push(Resource::GraphicsPipeline);
    order.push(Resource::CommandPool);
    order.push(Resource::DepthResources);
    order.push(Resource::Framebuffers);
    order.push(Resource::TextureImage);
    order.push(Resource::TextureImageView);
    order.push(Resource::TextureSampler);
    order.push(Resource::VertexBuffer);
    order.push(Resource::IndexBuffer);
    order.push(Resource::UniformBuffer);
    order.push(Resource::DescriptorPool);
    order.push(Resource::DescriptorSet);
    order.push(Resource::CommandBuffers);
    order.push(Resource::Semaphores);
    assert(order@ =~= spec_setup_order());
    order
}

/// The order in which a stale generation is rebuilt, once the device is
/// idle and the old generation is torn down.
pub fn rebuild_order() -> (order: Vec<Resource>)
    ensures
        order@ == spec_rebuild_order(),
{
    let mut order: Vec<Resource> = Vec::new();
    order.push(Resource::Swapchain);
    order.push(Resource::ImageViews);
    order.push(Resource::RenderPass);
    order.push(Resource::GraphicsPipeline);
    order.push(Resource::DepthResources);
    order.push(Resource::Framebuffers);
    order.push(Resource::CommandBuffers);
    assert(order@ =~= spec_rebuild_order());
    order
}

/// Setup makes every resource after all that it is made from.
pub proof fn lemma_setup_follows_dependencies(resource: Resource, on: Resource)
    requires
        spec_depends_on(resource, on),
    ensures
        spec_rank(on) < spec_rank(resource),
{
}

/// Whatever is made from a resource of the generation belongs to the
/// generation too: once the whole generation is torn down, nothing that is
/// left refers to it.
pub proof fn lemma_generation_is_closed(resource: Resource, on: Resource)
    requires
        spec_depends_on(resource, on),
        spec_in_generation(on),
    ensures
        spec_in_generation(resource),
{
}

/// A rebuild makes exactly the resources of the generation, each once, in
/// the order of setup.
pub proof fn lemma_rebuild_order_is_the_generation()
    ensures
        forall|resource: Resource|
            spec_in_generation(resource) <==> spec_rebuild_order().contains(resource),
        forall|i: int, j: int|
            0 <= i < j < spec_rebuild_order().len() ==> spec_rank(spec_rebuild_order()[i])
                < spec_rank(spec_rebuild_order()[j]),
{
    let order = spec_rebuild_order();
    assert forall|resource: Resource| spec_in_generation(resource) implies order.contains(
        resource,
    ) by {
        match resource {
            Resource::Swapchain => { assert(order[0] == resource); },
            Resource::ImageViews => { assert(order[1] == resource); },
            Resource::RenderPass => { assert(order[2] == resource); },
            Resource::GraphicsPipeline => { assert(order[3] == resource); },
            Resource::DepthResources => { assert(order[4] == resource); },
            Resource::Framebuffers => { assert(order[5] == resource); },
            Resource::CommandBuffers => { assert(order[6] == resource); },
            _ => {},
        }
    }
}

/// The order in which a stale generation is torn down.
pub open spec fn spec_teardown_order() -> Seq<Resource> {
    seq![
        Resource::CommandBuffers,
        Resource::Framebuffers,
        Resource::DepthResources,
        Resource::GraphicsPipeline,
        Resource::RenderPass,
        Resource::ImageViews,
        Resource::Swapchain,
    ]
}

/// The order in which a stale generation is torn down, once the device is
/// idle: the order of its setup, backwards.
pub fn teardown_order() -> (order: Vec<Resource>)
    ensures
        order@ == spec_teardown_order(),
        order@ == spec_rebuild_order().reverse(),
{
    let mut order: Vec<Resource> = Vec::new();
    order.push(Resource::CommandBuffers);
    order.push(Resource::Framebuffers);
    order.push(Resource::DepthResources);
    order.push(Resource::GraphicsPipeline);
    order.push(Resource::RenderPass);
    order.push(Resource::ImageViews);
    order.push(Resource::Swapchain);
    assert(order@ =~= spec_teardown_order());
    assert(spec_teardown_order() =~= spec_rebuild_order().reverse());
    order
}

/// Teardown removes every resource of the generation before any that it is
/// made from.
pub proof fn lemma_teardown_precedes_dependencies(i: int, j: int)
    requires
        0 <= i < spec_teardown_order().len(),
        0 <= j < spec_teardown_order().len(),
        spec_depends_on(spec_teardown_order()[i], spec_teardown_order()[j]),
    ensures
        i < j,
{
}

/// One step of a rebuild.
#[derive(Clone, Copy, Debug, PartialEq, Eq, Structural)]
pub enum RebuildStep {
    /// Make this resource of the new generation.
    Make(Resource),
    /// Destroy this resource of the old generation.
    Retire(Resource),
}

/// The steps of a rebuild, in their order.
pub open spec fn spec_rebuild_plan() -> Seq<RebuildStep> {
    seq![
        RebuildStep::Make(Resource::Swapchain),
        RebuildStep::Retire(Resource::CommandBuffers),
        RebuildStep::Retire(Resource::Framebuffers),
        RebuildStep::Retire(Resource::DepthResources),
        RebuildStep::Retire(Resource::GraphicsPipeline),
        RebuildStep::Retire(Resource::RenderPass),
        RebuildStep::Retire(Resource::ImageViews),
        RebuildStep::Retire(Resource::Swapchain),
        RebuildStep::Make(Resource::ImageViews),
        RebuildStep::Make(Resource::RenderPass),
        RebuildStep::Make(Resource::GraphicsPipeline),
        RebuildStep::Make(Resource::DepthResources),
        RebuildStep::Make(Resource::Framebuffers),
        RebuildStep::Make(Resource::CommandBuffers),
    ]
}

/// The steps of a rebuild, once the device is idle. The new swapchain is
/// made first, so that the old one can be handed to it; then the old
/// generation is torn down, whole; then the rest of the new one is made.
pub fn rebuild_plan() -> (plan: Vec<RebuildStep>)
    ensures
        plan@ == spec_rebuild_plan(),
{
    let mut plan: Vec<RebuildStep> = Vec::new();
    plan.push(RebuildStep::Make(Resource::Swapchain));
    plan.push(RebuildStep::Retire(Resource::CommandBuffers));
    plan.push(RebuildStep::Retire(Resource::Framebuffers));
    plan.push(RebuildStep::Retire(Resource::DepthResources));
    plan.push(RebuildStep::Retire(Resource::GraphicsPipeline));
    plan.push(RebuildStep::Retire(Resource::RenderPass));
    plan.push(RebuildStep::Retire(Resource::ImageViews));
    plan.push(RebuildStep::Retire(Resource::Swapchain));
    plan.push(RebuildStep::Make(Resource::ImageViews));
    plan.push(RebuildStep::Make(Resource::RenderPass));
    plan.push(RebuildStep::Make(Resource::GraphicsPipeline));
    plan.push(RebuildStep::Make(Resource::DepthResources));
    plan.push(RebuildStep::Make(Resource::Framebuffers));
    plan.push(RebuildStep::Make(Resource::CommandBuffers));
    assert(plan@ =~= spec_rebuild_plan());
    plan
}

/// A rebuild retires the old generation in the order of teardown and makes
/// the new one in the order of rebuilding, and but for the swapchain it has
/// retired all of the old generation before it makes any of the new.
pub proof fn lemma_rebuild_plan_is_whole()
    ensures
        spec_rebuild_plan().len() == spec_teardown_order().len() + spec_rebuild_order().len(),
        spec_rebuild_plan()[0] == RebuildStep::Make(spec_rebuild_order()[0]),
        forall|i: int|
            0 <= i < spec_teardown_order().len() ==> spec_rebuild_plan()[1 + i]
                == RebuildStep::Retire(#[trigger] spec_teardown_order()[i]),
        forall|i: int|
            1 <= i < spec_rebuild_order().len() ==> spec_rebuild_plan()[spec_teardown_order().len()
                + i] == RebuildStep::Make(#[trigger] spec_rebuild_order()[i]),
{
}

/// Carries out `steps` in their order, each by `perform`, and stops at the
/// first that fails. The result is `Ok` where every step succeeded, and else
/// the error of the first step that failed.
pub fn carry_out<S: Copy, F: Fn(S) -> VkcResult<()>>(
    steps: &[S],
    perform: F,
) -> (result: VkcResult<()>)
    requires
        forall|step: S| call_requires(perform, (step,)),
    ensures
        match result {
            Ok(_) => forall|i: int|
                0 <= i < steps@.len() ==> call_ensures(
                    perform,
                    (#[trigger] steps@[i],),
                    Ok::<(), Error>(()),
                ),
            Err(e) => exists|failed: int|
                {
                    &&& 0 <= failed < steps@.len()
                    &&& call_ensures(perform, (#[trigger] steps@[failed],), Err::<(), Error>(e))
                    &&& forall|i: int|
                        0 <= i < failed ==> call_ensures(
                            perform,
                            (#[trigger] steps@[i],),
                            Ok::<(), Error>(()),
                        )
                },
        },
{
    let mut i: usize = 0;
    while i < steps.len()
        invariant
            0 <= i <= steps@.len(),
            forall|step: S| call_requires(perform, (step,)),
            forall|j: int|
                0 <= j < i ==> call_ensures(perform, (#[trigger] steps@[j],), Ok::<(), Error>(())),
        decreases steps@.len() - i,
    {
        let step = steps[i];
        let outcome = perform(step);
        match outcome {
            Ok(done) => {
                assert(done == ());
                assert(outcome == Ok::<(), Error>(()));
            },
            Err(e) => {
                return Err(e);
            },
        }
        i = i + 1;
    }
    Ok(())
}

} // verus!
