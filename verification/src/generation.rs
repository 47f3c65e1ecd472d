//! One swapchain generation: the handles that were made for one swapchain
//! and that become invalid with it, all at once.

use vstd::prelude::*;
use crate::command_buffers::{Command, CommandBufferAllocateInfo, DrawResources,
    MAX_COMMAND_BUFFERS, command_buffer_allocation, create_command_buffers, spec_commands};
use crate::depth::{DepthImage, depth_image, spec_depth_image};
use crate::error::{Error, VkcResult};
use crate::frame::{FrameEvent, FrameState, Session};
use crate::framebuffer::{Framebuffer, create_framebuffers, spec_framebuffers};
use crate::graphics_pipeline::{GraphicsPipeline, spec_graphics_pipeline};
use crate::image_view::{ImageView, create_image_views, spec_image_view};
use crate::lifecycle::{Resource, spec_in_generation};
use crate::render_pass::{RenderPass, spec_render_pass};
use crate::swapchain::{Swapchain, spec_swapchain_create_info};
use crate::vk::{Extent2D, SurfaceCapabilitiesKHR, SurfaceFormatKHR, COMMAND_BUFFER_LEVEL_PRIMARY,
    IMAGE_ASPECT_COLOR_BIT};

verus! {

/// The handles of one swapchain generation, as the device made them.
pub struct SwapchainComponents {
    pub generation: u64,
    pub extent: Extent2D,
    pub image_views: Vec<u64>,
    pub render_pass: u64,
    pub graphics_pipeline: u64,
    pub depth_image: u64,
    pub depth_image_view: u64,
    pub framebuffers: Vec<u64>,
    pub command_buffers: Vec<u64>,
}

/// A reference to the part of a generation that belongs to one image: the
/// generation it was taken in, and the index of the image.
#[derive(Clone, Copy, Debug, PartialEq, Eq, Structural)]
pub struct GenerationRef {
    pub generation: u64,
    pub index: u32,
}

/// The handles that are gathered while a generation is built.
pub struct GenerationHandles {
    pub image_views: Vec<u64>,
    pub render_pass: u64,
    pub graphics_pipeline: u64,
    pub depth_image: u64,
    pub depth_image_view: u64,
    pub framebuffers: Vec<u64>,
    pub command_buffers: Vec<u64>,
}

impl SwapchainComponents {
    /// The generation is whole: it has one color view, one framebuffer and
    /// one command buffer per image, and `image_count` of each.
    pub open spec fn is_complete(&self, image_count: nat) -> bool {
        &&& self.image_views@.len() == image_count
        &&& self.framebuffers@.len() == image_count
        &&& self.command_buffers@.len() == image_count
    }

    /// Takes the handles of a generation built for `swapchain`. A generation
    /// that lacks a view, a framebuffer or a command buffer for some image,
    /// or has one too many, is not taken.
    pub fn new(
        generation: u64,
        swapchain: &Swapchain,
        handles: GenerationHandles,
    ) -> (result: VkcResult<SwapchainComponents>)
        ensures
            match result {
                Ok(components) => {
                    &&& components.is_complete(swapchain.images_view().len())
                    &&& components.generation == generation
                    &&& components.extent == swapchain.extent
                    &&& components.image_views == handles.image_views
                    &&& components.render_pass == handles.render_pass
                    &&& components.graphics_pipeline == handles.graphics_pipeline
                    &&& components.depth_image == handles.depth_image
                    &&& components.depth_image_view == handles.depth_image_view
                    &&& components.framebuffers == handles.framebuffers
                    &&& components.command_buffers == handles.command_buffers
                },
                Err(e) => {
                    &&& e == Error::IncompleteGeneration
                    &&& !(handles.image_views@.len() == swapchain.images_view().len()
                        && handles.framebuffers@.len() == swapchain.images_view().len()
                        && handles.command_buffers@.len() == swapchain.images_view().len())
                },
            },
    {
        let image_count = swapchain.images().len();
        if handles.image_views.len() != image_count || handles.framebuffers.len() != image_count
            || handles.command_buffers.len() != image_count {
            return Err(Error::IncompleteGeneration);
        }
        Ok(
            SwapchainComponents {
                generation,
                extent: swapchain.extent(),
                image_views: handles.image_views,
                render_pass: handles.render_pass,
                graphics_pipeline: handles.graphics_pipeline,
                depth_image: handles.depth_image,
                depth_image_view: handles.depth_image_view,
                framebuffers: handles.framebuffers,
                command_buffers: handles.command_buffers,
            },
        )
    }

    /// The reference was taken in this generation and names one of its
    /// images.
    pub open spec fn admits(&self, reference: GenerationRef) -> bool {
        reference.generation == self.generation && reference.index < self.framebuffers@.len()
    }

    /// The framebuffer that `reference` names. A reference into another
    /// generation, or past the last image, names none.
    pub fn framebuffer(&self, reference: GenerationRef) -> (handle: Option<u64>)
        ensures
            self.admits(reference) ==> handle == Some(self.framebuffers@[reference.index as int]),
            !self.admits(reference) ==> handle is None,
    {
        if reference.generation == self.generation && (reference.index as usize)
            < self.framebuffers.len() {
            Some(self.framebuffers[reference.index as usize])
        } else {
            None
        }
    }

    /// The command buffer that `reference` names. A reference into another
    /// generation, or past the last command buffer, names none.
    pub fn command_buffer(&self, reference: GenerationRef) -> (handle: Option<u64>)
        ensures
            reference.generation == self.generation && reference.index
                < self.command_buffers@.len() ==> handle == Some(
                self.command_buffers@[reference.index as int],
            ),
            !(reference.generation == self.generation && reference.index
                < self.command_buffers@.len()) ==> handle is None,
    {
        if reference.generation == self.generation && (reference.index as usize)
            < self.command_buffers.len() {
            Some(self.command_buffers[reference.index as usize])
        } else {
            None
        }
    }

    /// The number of images that the generation serves.
    pub fn image_count(&self) -> (count: usize)
        ensures
            count == self.framebuffers@.len(),
    {
        self.framebuffers.len()
    }
}

/// The session that starts on a generation: between frames, in that
/// generation, with its extent and as many images as it has framebuffers.
pub open spec fn spec_session_on(components: SwapchainComponents) -> Session {
    Session {
        state: FrameState::Idle,
        generation: components.generation,
        extent: components.extent,
        image_count: components.framebuffers@.len() as u32,
        wanted_extent: components.extent,
        resize_pending: false,
        close_pending: false,
    }
}

/// How setup ends: with the session on the first generation where both the
/// resources that outlive every generation and the first generation were
/// made, and else with the error that stopped the one or the other, setup
/// first. A generation of more images than can be counted is not whole.
pub fn initialize(
    setup: VkcResult<()>,
    generation: &VkcResult<SwapchainComponents>,
) -> (result: VkcResult<Session>)
    ensures
        match (setup, *generation) {
            (Err(e), _) => result == Err::<Session, Error>(e),
            (Ok(_), Err(e)) => result == Err::<Session, Error>(e),
            (Ok(_), Ok(components)) => if components.framebuffers@.len() <= MAX_COMMAND_BUFFERS {
                result == Ok::<Session, Error>(spec_session_on(components))
            } else {
                result == Err::<Session, Error>(Error::IncompleteGeneration)
            },
        },
        result is Ok ==> result->Ok_0.wf(),
{
    match setup {
        Err(e) => {
            return Err(e);
        },
        Ok(_) => {},
    }
    match generation {
        Err(e) => Err(*e),
        Ok(components) => {
            if components.framebuffers.len() > MAX_COMMAND_BUFFERS {
                Err(Error::IncompleteGeneration)
            } else {
                Ok(
                    Session {
                        state: FrameState::Idle,
                        generation: components.generation,
                        extent: components.extent,
                        image_count: components.framebuffers.len() as u32,
                        wanted_extent: components.extent,
                        resize_pending: false,
                        close_pending: false,
                    },
                )
            }
        },
    }
}

/// What a session is told after a rebuild: that the generation was rebuilt,
/// with its extent and its number of images, where the rebuild gave a whole
/// generation, and else that it failed, and why.
pub fn rebuild_outcome(rebuilt: &VkcResult<SwapchainComponents>) -> (event: FrameEvent)
    ensures
        match *rebuilt {
            Ok(components) => if components.framebuffers@.len() <= MAX_COMMAND_BUFFERS {
                event == (FrameEvent::Rebuilt {
                    extent: components.extent,
                    image_count: components.framebuffers@.len() as u32,
                })
            } else {
                event == (FrameEvent::RebuildFailed { error: Error::IncompleteGeneration })
            },
            Err(e) => event == (FrameEvent::RebuildFailed { error: e }),
        },
{
    match rebuilt {
        Ok(components) => {
            if components.framebuffers.len() > MAX_COMMAND_BUFFERS {
                FrameEvent::RebuildFailed { error: Error::IncompleteGeneration }
            } else {
                FrameEvent::Rebuilt {
                    extent: components.extent,
                    image_count: components.framebuffers.len() as u32,
                }
            }
        },
        Err(e) => FrameEvent::RebuildFailed { error: *e },
    }
}

/// The handles that every generation is made with, and that outlive it.
#[derive(Clone, Copy, Debug, PartialEq, Eq, Structural)]
pub struct Fixtures {
    pub pipeline_layout: u64,
    pub command_pool: u64,
    pub vertex_buffer: u64,
    pub index_buffer: u64,
    pub descriptor_set: u64,
    pub vertex_count: u32,
    pub index_count: u32,
}

/// What the device is told to make one resource of a generation.
pub enum GenerationStep {
    ImageViews(Vec<ImageView>),
    RenderPass(RenderPass),
    GraphicsPipeline(GraphicsPipeline),
    /// The depth image. Its view and its transition follow once it is made.
    DepthImage(DepthImage),
    Framebuffers(Vec<Framebuffer>),
    CommandBuffers { allocate: CommandBufferAllocateInfo, commands: Vec<Vec<Command>> },
}

/// What the command buffers of a generation draw with: the render pass and
/// the pipeline of the generation, and the fixtures.
pub open spec fn spec_draw_resources(fixtures: Fixtures, made: GenerationHandles) -> DrawResources {
    DrawResources {
        render_pass: made.render_pass,
        graphics_pipeline: made.graphics_pipeline,
        pipeline_layout: fixtures.pipeline_layout,
        vertex_buffer: fixtures.vertex_buffer,
        index_buffer: fixtures.index_buffer,
        descriptor_set: fixtures.descriptor_set,
        vertex_count: fixtures.vertex_count,
        index_count: fixtures.index_count,
    }
}

/// Describes one resource of the generation of `swapchain`, from the
/// handles of the generation that are made already. Every description is
/// made for the extent and the format of this swapchain and for no other.
/// The swapchain itself comes before all of them and is not described here;
/// nor is anything that outlives the generation.
pub fn describe_generation_step(
    resource: Resource,
    swapchain: &Swapchain,
    depth_format: u32,
    made: &GenerationHandles,
    fixtures: &Fixtures,
    vert_shader_module: u64,
    frag_shader_module: u64,
) -> (result: VkcResult<GenerationStep>)
    ensures
        resource == Resource::Swapchain || !spec_in_generation(resource) ==> result is Err
            && result->Err_0 == Error::OutOfTurn,
        resource == Resource::ImageViews ==> {
            &&& result matches Ok(GenerationStep::ImageViews(views))
            &&& views@.len() == swapchain.images_view().len()
            &&& forall|i: int|
                0 <= i < views@.len() ==> #[trigger] views@[i] == spec_image_view(
                    swapchain.images_view()[i],
                    swapchain.image_format,
                    IMAGE_ASPECT_COLOR_BIT,
                )
        },
        resource == Resource::RenderPass ==> {
            &&& result matches Ok(GenerationStep::RenderPass(pass))
            &&& pass == spec_render_pass(swapchain.image_format, depth_format)
        },
        resource == Resource::GraphicsPipeline ==> {
            &&& result matches Ok(GenerationStep::GraphicsPipeline(pipeline))
            &&& pipeline == spec_graphics_pipeline(
                fixtures.pipeline_layout,
                made.render_pass,
                swapchain.extent,
                vert_shader_module,
                frag_shader_module,
            )
        },
        resource == Resource::DepthResources ==> {
            &&& result matches Ok(GenerationStep::DepthImage(image))
            &&& image == spec_depth_image(depth_format, swapchain.extent)
        },
        resource == Resource::Framebuffers ==> {
            &&& result matches Ok(GenerationStep::Framebuffers(framebuffers))
            &&& framebuffers@ == spec_framebuffers(
                made.render_pass,
                made.image_views@,
                made.depth_image_view,
                swapchain.extent,
            )
        },
        resource == Resource::CommandBuffers && made.framebuffers@.len() > MAX_COMMAND_BUFFERS
            ==> result is Err && result->Err_0 == Error::IncompleteGeneration,
        resource == Resource::CommandBuffers && made.framebuffers@.len() <= MAX_COMMAND_BUFFERS
            ==> {
            &&& result matches Ok(GenerationStep::CommandBuffers { allocate, commands })
            &&& allocate == (CommandBufferAllocateInfo {
                command_pool: fixtures.command_pool,
                level: COMMAND_BUFFER_LEVEL_PRIMARY,
                command_buffer_count: made.framebuffers@.len() as u32,
            })
            &&& commands@.len() == made.framebuffers@.len()
            &&& forall|i: int|
                0 <= i < commands@.len() ==> (#[trigger] commands@[i])@ == spec_commands(
                    spec_draw_resources(*fixtures, *made),
                    made.framebuffers@[i],
                    swapchain.extent,
                )
        },
{
    match resource {
        Resource::ImageViews => Ok(GenerationStep::ImageViews(create_image_views(swapchain))),
        Resource::RenderPass => Ok(
            GenerationStep::RenderPass(RenderPass::new(swapchain.image_format(), depth_format)),
        ),
        Resource::GraphicsPipeline => Ok(
            GenerationStep::GraphicsPipeline(
                GraphicsPipeline::new(
                    fixtures.pipeline_layout,
                    made.render_pass,
                    swapchain.extent(),
                    vert_shader_module,
                    frag_shader_module,
                ),
            ),
        ),
        Resource::DepthResources => Ok(
            GenerationStep::DepthImage(depth_image(depth_format, swapchain.extent())),
        ),
        Resource::Framebuffers => Ok(
            GenerationStep::Framebuffers(
                create_framebuffers(
                    made.render_pass,
                    made.image_views.as_slice(),
                    made.depth_image_view,
                    swapchain.extent(),
                ),
            ),
        ),
        Resource::CommandBuffers => {
            if made.framebuffers.len() > MAX_COMMAND_BUFFERS {
                return Err(Error::IncompleteGeneration);
            }
            let resources = DrawResources {
                render_pass: made.render_pass,
                graphics_pipeline: made.graphics_pipeline,
                pipeline_layout: fixtures.pipeline_layout,
                vertex_buffer: fixtures.vertex_buffer,
                index_buffer: fixtures.index_buffer,
                descriptor_set: fixtures.descriptor_set,
                vertex_count: fixtures.vertex_count,
                index_count: fixtures.index_count,
            };
            let extent = swapchain.extent();
            let allocate = command_buffer_allocation(
                fixtures.command_pool,
                made.framebuffers.as_slice(),
            );
            let commands = create_command_buffers(
                &resources,
                made.framebuffers.as_slice(),
                &extent,
            );
            Ok(GenerationStep::CommandBuffers { allocate, commands })
        },
        _ => Err(Error::OutOfTurn),
    }
}

/// Two generations that were taken whole for swapchains of as many images
/// have as many views, framebuffers and command buffers as each other. How
/// many images the device lends is the device's own answer.
pub proof fn lemma_whole_generations_agree(
    first: SwapchainComponents,
    first_images: nat,
    second: SwapchainComponents,
    second_images: nat,
)
    requires
        first.is_complete(first_images),
        second.is_complete(second_images),
        first_images == second_images,
    ensures
        second.image_views@.len() == first.image_views@.len(),
        second.framebuffers@.len() == first.framebuffers@.len(),
        second.command_buffers@.len() == first.command_buffers@.len(),
{
}

/// A reference that was taken before a rebuild names nothing after it:
/// whatever the next generation holds, it does not admit the reference.
pub proof fn lemma_rebuild_invalidates_references(
    before: SwapchainComponents,
    after: SwapchainComponents,
    reference: GenerationRef,
)
    requires
        before.admits(reference),
        after.generation != before.generation,
    ensures
        !after.admits(reference),
{
}

/// Rebuilding twice for the same extent changes nothing. On a surface whose
/// support has not changed, two negotiations for the same request agree on
/// extent, image count and format, whichever swapchain each replaces;
/// negotiating again for the extent that came out gives that extent again;
/// and framebuffers made for as many images have the same size and number.
pub proof fn lemma_rebuild_is_idempotent(
    surface: u64,
    capabilities: SurfaceCapabilitiesKHR,
    formats: Seq<SurfaceFormatKHR>,
    present_modes: Seq<u32>,
    graphics_family: i32,
    present_family: i32,
    requested: Extent2D,
    first_replaces: Option<u64>,
    second_replaces: Option<u64>,
    first_views: Seq<u64>,
    second_views: Seq<u64>,
    first_depth_view: u64,
    second_depth_view: u64,
    render_pass: u64,
)
    requires
        first_views.len() == second_views.len(),
    ensures
        ({
            let first = spec_swapchain_create_info(
                surface,
                capabilities,
                formats,
                present_modes,
                graphics_family,
                present_family,
                Some(requested),
                first_replaces,
            );
            let second = spec_swapchain_create_info(
                surface,
                capabilities,
                formats,
                present_modes,
                graphics_family,
                present_family,
                Some(requested),
                second_replaces,
            );
            let again = spec_swapchain_create_info(
                surface,
                capabilities,
                formats,
                present_modes,
                graphics_family,
                present_family,
                Some(first.image_extent),
                second_replaces,
            );
            let first_framebuffers = spec_framebuffers(
                render_pass,
                first_views,
                first_depth_view,
                first.image_extent,
            );
            let second_framebuffers = spec_framebuffers(
                render_pass,
                second_views,
                second_depth_view,
                second.image_extent,
            );
            &&& second.image_extent == first.image_extent
            &&& second.min_image_count == first.min_image_count
            &&& second.image_format == first.image_format
            &&& again.image_extent == first.image_extent
            &&& again.min_image_count == first.min_image_count
            &&& second_framebuffers.len() == first_framebuffers.len()
            &&& forall|i: int|
                0 <= i < first_framebuffers.len() ==> {
                    &&& (#[trigger] second_framebuffers[i]).width == first_framebuffers[i].width
                    &&& second_framebuffers[i].height == first_framebuffers[i].height
                }
        }),
{
}

} // verus!
