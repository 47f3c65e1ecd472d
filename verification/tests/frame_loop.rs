use vkc::error::Error;
use vkc::frame::{
    run_frame as run_with, FrameAction, FrameEvent, FrameOutcome, FrameState, Session, Signal,
    WindowEvent,
};
use vkc::command_buffers::{record_commands, DrawResources};
use vkc::depth::depth_image;
use vkc::framebuffer::create_framebuffers;
use vkc::generation::{
    describe_generation_step, initialize, rebuild_outcome, Fixtures, GenerationHandles,
    GenerationRef, GenerationStep, SwapchainComponents,
};
use vkc::graphics_pipeline::GraphicsPipeline;
use vkc::image_view::ImageView;
use vkc::render_pass::RenderPass;
use vkc::lifecycle::{
    carry_out, depends_on, in_generation, rank, rebuild_order, rebuild_plan, setup_order,
    teardown_order, RebuildStep, Resource,
};
use std::cell::RefCell;
use vkc::swapchain::{Swapchain, SwapchainCreateInfo};
use vkc::vk::{Extent2D, ERROR_OUT_OF_DATE_KHR, SUBOPTIMAL_KHR, SUCCESS};

const SMALL: Extent2D = Extent2D { width: 800, height: 600 };
const LARGE: Extent2D = Extent2D { width: 1024, height: 768 };

fn acquire() -> FrameAction {
    FrameAction::Acquire { signal: Signal::ImageAvailable, timeout: u64::MAX }
}

fn run_frame(session: &mut Session, acquired: i32, presented: i32, image_index: u32) -> FrameOutcome {
    let mut action = session.begin_frame(false);
    loop {
        let event = match action {
            FrameAction::Acquire { .. } => FrameEvent::Acquired { code: acquired, image_index },
            FrameAction::Record { .. } => FrameEvent::Recorded,
            FrameAction::Submit { .. } => FrameEvent::Submitted { code: SUCCESS },
            FrameAction::Present { .. } => FrameEvent::Presented { code: presented },
            FrameAction::WaitIdle => FrameEvent::DeviceIdle { code: SUCCESS },
            FrameAction::Rebuild { extent, .. } => FrameEvent::Rebuilt { extent, image_count: 3 },
            FrameAction::Finish(outcome) => return outcome,
        };
        action = session.step(event);
    }
}

#[test]
fn new_session_is_between_frames() {
    let session = Session::new(SMALL, 3);
    assert_eq!(session.state, FrameState::Idle);
    assert_eq!(session.generation, 0);
    assert_eq!(session.extent, SMALL);
    assert_eq!(session.wanted_extent, SMALL);
    assert_eq!(session.image_count, 3);
    assert!(!session.resize_pending);
    assert!(!session.close_pending);
}

#[test]
fn a_frame_acquires_records_submits_presents_and_drains() {
    let mut session = Session::new(SMALL, 3);
    assert_eq!(session.begin_frame(false), acquire());
    assert_eq!(session.state, FrameState::Acquiring);
    assert_eq!(
        session.step(FrameEvent::Acquired { code: SUCCESS, image_index: 2 }),
        FrameAction::Record { image_index: 2, generation: 0 }
    );
    assert_eq!(session.state, FrameState::Recording { image_index: 2 });
    assert_eq!(
        session.step(FrameEvent::Recorded),
        FrameAction::Submit {
            image_index: 2,
            generation: 0,
            wait: Signal::ImageAvailable,
            wait_stage: 0x400,
            signal: Signal::RenderFinished,
        }
    );
    assert_eq!(session.state, FrameState::Submitted { image_index: 2 });
    assert_eq!(
        session.step(FrameEvent::Submitted { code: SUCCESS }),
        FrameAction::Present { image_index: 2, wait: Signal::RenderFinished }
    );
    assert_eq!(session.state, FrameState::Presenting { image_index: 2 });
    assert_eq!(session.step(FrameEvent::Presented { code: SUCCESS }), FrameAction::WaitIdle);
    assert_eq!(session.state, FrameState::Draining);
    assert_eq!(
        session.step(FrameEvent::DeviceIdle { code: SUCCESS }),
        FrameAction::Finish(FrameOutcome::Continue)
    );
    assert_eq!(session, Session::new(SMALL, 3));
}

#[test]
fn out_of_date_acquire_recreates_and_the_next_frame_succeeds() {
    let mut session = Session::new(SMALL, 2);
    session.wanted_extent = LARGE;
    assert_eq!(session.begin_frame(false), acquire());
    assert_eq!(
        session.step(FrameEvent::Acquired { code: ERROR_OUT_OF_DATE_KHR, image_index: 0 }),
        FrameAction::WaitIdle
    );
    assert_eq!(session.state, FrameState::AwaitingIdle);
    assert_eq!(
        session.step(FrameEvent::DeviceIdle { code: SUCCESS }),
        FrameAction::Rebuild { extent: LARGE, generation: 1 }
    );
    assert_eq!(session.state, FrameState::Rebuilding);
    assert_eq!(
        session.step(FrameEvent::Rebuilt { extent: LARGE, image_count: 3 }),
        FrameAction::Finish(FrameOutcome::Recreated)
    );
    assert_eq!(session.state, FrameState::Idle);
    assert_eq!(session.generation, 1);
    assert_eq!(session.extent, LARGE);
    assert_eq!(session.image_count, 3);
    assert_eq!(run_frame(&mut session, SUCCESS, SUCCESS, 2), FrameOutcome::Continue);
    assert_eq!(session.extent, LARGE);
    assert_eq!(session.generation, 1);
}

#[test]
fn out_of_date_present_recreates() {
    let mut session = Session::new(SMALL, 3);
    assert_eq!(run_frame(&mut session, SUCCESS, ERROR_OUT_OF_DATE_KHR, 0), FrameOutcome::Recreated);
    assert_eq!(session.generation, 1);
    assert_eq!(session.state, FrameState::Idle);
}

#[test]
fn suboptimal_results_are_tolerated() {
    let mut session = Session::new(SMALL, 3);
    assert_eq!(run_frame(&mut session, SUBOPTIMAL_KHR, SUBOPTIMAL_KHR, 1), FrameOutcome::Continue);
    assert_eq!(session.generation, 0);
}

#[test]
fn other_results_are_fatal() {
    let mut session = Session::new(SMALL, 3);
    assert_eq!(run_frame(&mut session, -4, SUCCESS, 0), FrameOutcome::Fatal(Error::Api(-4)));
    assert_eq!(session.state, FrameState::Failed);
    let mut session = Session::new(SMALL, 3);
    assert_eq!(run_frame(&mut session, SUCCESS, -2, 0), FrameOutcome::Fatal(Error::Api(-2)));
    let mut session = Session::new(SMALL, 3);
    session.begin_frame(false);
    session.step(FrameEvent::Acquired { code: SUCCESS, image_index: 0 });
    session.step(FrameEvent::Recorded);
    assert_eq!(
        session.step(FrameEvent::Submitted { code: ERROR_OUT_OF_DATE_KHR }),
        FrameAction::Finish(FrameOutcome::Fatal(Error::Api(ERROR_OUT_OF_DATE_KHR)))
    );
    let mut session = Session::new(SMALL, 3);
    session.begin_frame(true);
    assert_eq!(
        session.step(FrameEvent::DeviceIdle { code: -4 }),
        FrameAction::Finish(FrameOutcome::Fatal(Error::Api(-4)))
    );
}

#[test]
fn an_image_that_the_swapchain_lacks_is_fatal() {
    let mut session = Session::new(SMALL, 3);
    assert_eq!(
        run_frame(&mut session, SUCCESS, SUCCESS, 3),
        FrameOutcome::Fatal(Error::InvalidImageIndex)
    );
}

#[test]
fn an_event_out_of_turn_is_fatal() {
    let mut session = Session::new(SMALL, 3);
    assert_eq!(
        session.step(FrameEvent::Recorded),
        FrameAction::Finish(FrameOutcome::Fatal(Error::OutOfTurn))
    );
    assert_eq!(session.state, FrameState::Failed);
    assert_eq!(
        session.begin_frame(false),
        FrameAction::Finish(FrameOutcome::Fatal(Error::OutOfTurn))
    );
    let mut session = Session::new(SMALL, 3);
    session.begin_frame(false);
    assert_eq!(
        session.begin_frame(false),
        FrameAction::Finish(FrameOutcome::Fatal(Error::OutOfTurn))
    );
}

#[test]
fn a_failed_rebuild_is_fatal() {
    let mut session = Session::new(SMALL, 3);
    session.notify_resized(LARGE);
    session.begin_frame(false);
    session.step(FrameEvent::DeviceIdle { code: SUCCESS });
    assert_eq!(
        session.step(FrameEvent::RebuildFailed { error: Error::NoSupportedFormat }),
        FrameAction::Finish(FrameOutcome::Fatal(Error::NoSupportedFormat))
    );
    assert_eq!(session.generation, 0);
}

#[test]
fn closing_after_a_frame_waits_for_the_device() {
    let mut session = Session::new(SMALL, 3);
    assert_eq!(run_frame(&mut session, SUCCESS, SUCCESS, 0), FrameOutcome::Continue);
    assert_eq!(session.begin_frame(true), FrameAction::WaitIdle);
    assert_eq!(session.state, FrameState::Closing);
    assert_eq!(
        session.step(FrameEvent::DeviceIdle { code: SUCCESS }),
        FrameAction::Finish(FrameOutcome::Closed)
    );
    assert_eq!(session.state, FrameState::Closed);
    assert_eq!(session.begin_frame(false), FrameAction::Finish(FrameOutcome::Closed));
    assert_eq!(session.step(FrameEvent::Recorded), FrameAction::Finish(FrameOutcome::Closed));
    assert_eq!(session.state, FrameState::Closed);
}

#[test]
fn resizes_before_a_frame_lead_to_one_recreation_for_the_last() {
    let mut session = Session::new(SMALL, 3);
    session.notify_resized(Extent2D { width: 900, height: 700 });
    session.notify_resized(Extent2D { width: 950, height: 750 });
    session.notify_resized(LARGE);
    assert!(session.resize_pending);
    assert_eq!(session.wanted_extent, LARGE);
    assert_eq!(session.extent, SMALL);
    assert_eq!(session.begin_frame(false), FrameAction::WaitIdle);
    assert!(!session.resize_pending);
    assert_eq!(
        session.step(FrameEvent::DeviceIdle { code: SUCCESS }),
        FrameAction::Rebuild { extent: LARGE, generation: 1 }
    );
    assert_eq!(
        session.step(FrameEvent::Rebuilt { extent: LARGE, image_count: 3 }),
        FrameAction::Finish(FrameOutcome::Recreated)
    );
    assert_eq!(session.begin_frame(false), acquire());
}

#[test]
fn a_resize_comes_before_a_close_request() {
    let mut session = Session::new(SMALL, 3);
    session.notify_resized(LARGE);
    assert_eq!(session.begin_frame(true), FrameAction::WaitIdle);
    assert_eq!(session.state, FrameState::AwaitingIdle);
}

#[test]
fn the_generation_wraps_around() {
    let mut session = Session::new(SMALL, 3);
    session.generation = u64::MAX;
    assert_eq!(run_frame(&mut session, ERROR_OUT_OF_DATE_KHR, SUCCESS, 0), FrameOutcome::Recreated);
    assert_eq!(session.generation, 0);
}

#[test]
fn polling_notes_the_last_size_and_the_close_request() {
    let mut session = Session::new(SMALL, 3);
    let events = [
        WindowEvent::Other,
        WindowEvent::Resized { width: 900, height: 700 },
        WindowEvent::CloseRequested,
        WindowEvent::Resized { width: 1024, height: 768 },
        WindowEvent::Other,
    ];
    assert!(session.poll_events(&events));
    assert!(session.resize_pending);
    assert_eq!(session.wanted_extent, LARGE);
    let mut session = Session::new(SMALL, 3);
    assert!(!session.poll_events(&[WindowEvent::Other]));
    assert!(!session.resize_pending);
    assert_eq!(session.wanted_extent, SMALL);
    assert!(!session.poll_events(&[]));
    assert_eq!(session, Session::new(SMALL, 3));
    assert!(session.poll_events(&[WindowEvent::CloseRequested]));
    assert!(session.close_pending);
    assert_eq!(session.wanted_extent, SMALL);
    assert!(!session.resize_pending);
}

#[test]
fn setup_makes_every_resource_after_what_it_is_made_from() {
    let order = setup_order();
    assert_eq!(order.len(), 23);
    assert_eq!(order[0], Resource::Instance);
    assert_eq!(order[4], Resource::Swapchain);
    assert_eq!(order[22], Resource::Semaphores);
    for (place, &resource) in order.iter().enumerate() {
        assert_eq!(rank(resource), place);
        for &on in order.iter() {
            if depends_on(resource, on) {
                assert!(rank(on) < rank(resource));
            }
        }
    }
    assert!(depends_on(Resource::Framebuffers, Resource::DepthResources));
    assert!(depends_on(Resource::GraphicsPipeline, Resource::RenderPass));
    assert!(!depends_on(Resource::RenderPass, Resource::GraphicsPipeline));
    assert!(!depends_on(Resource::Instance, Resource::Instance));
    assert!(!depends_on(Resource::UniformBuffer, Resource::Swapchain));
}

#[test]
fn the_generation_is_rebuilt_as_one() {
    let rebuilt = rebuild_order();
    assert_eq!(
        rebuilt,
        vec![
            Resource::Swapchain,
            Resource::ImageViews,
            Resource::RenderPass,
            Resource::GraphicsPipeline,
            Resource::DepthResources,
            Resource::Framebuffers,
            Resource::CommandBuffers,
        ]
    );
    let mut backwards = rebuilt.clone();
    backwards.reverse();
    assert_eq!(teardown_order(), backwards);
    for &resource in setup_order().iter() {
        assert_eq!(in_generation(resource), rebuilt.contains(&resource));
        for &on in setup_order().iter() {
            if depends_on(resource, on) && in_generation(on) {
                assert!(in_generation(resource));
            }
        }
    }
}

fn swapchain(images: Vec<u64>) -> Swapchain {
    let info = SwapchainCreateInfo {
        surface: 1,
        min_image_count: 2,
        image_format: 44,
        image_color_space: 0,
        image_extent: SMALL,
        image_array_layers: 1,
        image_usage: 0x10,
        image_sharing_mode: 0,
        queue_family_index_count: 0,
        graphics_queue_family: 0,
        present_queue_family: 0,
        pre_transform: 1,
        composite_alpha: 1,
        present_mode: 2,
        clipped: true,
        old_swapchain: 0,
    };
    Swapchain::new(2, &images, &info)
}

fn handles(views: usize, framebuffers: usize, command_buffers: usize) -> GenerationHandles {
    GenerationHandles {
        image_views: vec![1; views],
        render_pass: 2,
        graphics_pipeline: 3,
        depth_image: 4,
        depth_image_view: 5,
        framebuffers: vec![6; framebuffers],
        command_buffers: vec![7; command_buffers],
    }
}

#[test]
fn a_whole_generation_is_taken() {
    let chain = swapchain(vec![11, 12, 13]);
    let components = SwapchainComponents::new(4, &chain, handles(3, 3, 3)).unwrap();
    assert_eq!(components.generation, 4);
    assert_eq!(components.extent, SMALL);
    assert_eq!(components.image_count(), 3);
    assert_eq!(components.framebuffers, vec![6, 6, 6]);
    assert_eq!(components.image_views.len(), 3);
    assert_eq!(components.command_buffers.len(), 3);
    assert_eq!(components.depth_image_view, 5);
}

#[test]
fn a_partial_generation_is_refused() {
    let chain = swapchain(vec![11, 12, 13]);
    for (v, f, c) in [(2, 3, 3), (3, 2, 3), (3, 3, 2), (4, 3, 3), (3, 3, 4), (0, 0, 0)] {
        assert!(matches!(
            SwapchainComponents::new(4, &chain, handles(v, f, c)),
            Err(Error::IncompleteGeneration)
        ));
    }
}

#[test]
fn references_into_an_older_generation_name_nothing() {
    let chain = swapchain(vec![11, 12, 13]);
    let mut parts = handles(3, 3, 3);
    parts.framebuffers = vec![61, 62, 63];
    parts.command_buffers = vec![71, 72, 73];
    let components = SwapchainComponents::new(4, &chain, parts).unwrap();
    let current = GenerationRef { generation: 4, index: 2 };
    assert_eq!(components.framebuffer(current), Some(63));
    assert_eq!(components.command_buffer(current), Some(73));
    let stale = GenerationRef { generation: 3, index: 2 };
    assert_eq!(components.framebuffer(stale), None);
    assert_eq!(components.command_buffer(stale), None);
    let beyond = GenerationRef { generation: 4, index: 3 };
    assert_eq!(components.framebuffer(beyond), None);
    assert_eq!(components.command_buffer(beyond), None);
}

#[test]
fn the_upcoming_generation_is_the_one_a_rebuild_brings() {
    let mut session = Session::new(SMALL, 3);
    assert_eq!(session.upcoming_generation(), 1);
    let upcoming = session.upcoming_generation();
    assert_eq!(run_frame(&mut session, ERROR_OUT_OF_DATE_KHR, SUCCESS, 0), FrameOutcome::Recreated);
    assert_eq!(session.generation, upcoming);
    session.generation = u64::MAX;
    assert_eq!(session.upcoming_generation(), 0);
}

fn answer(acquired: i32, presented: i32, image_index: u32) -> impl Fn(FrameAction) -> FrameEvent {
    move |action| match action {
        FrameAction::Acquire { .. } => FrameEvent::Acquired { code: acquired, image_index },
        FrameAction::Record { .. } => FrameEvent::Recorded,
        FrameAction::Submit { .. } => FrameEvent::Submitted { code: SUCCESS },
        FrameAction::Present { .. } => FrameEvent::Presented { code: presented },
        FrameAction::WaitIdle => FrameEvent::DeviceIdle { code: SUCCESS },
        FrameAction::Rebuild { extent, .. } => FrameEvent::Rebuilt { extent, image_count: 2 },
        FrameAction::Finish(_) => unreachable!(),
    }
}

#[test]
fn a_run_frame_presents_one_frame() {
    let mut session = Session::new(SMALL, 3);
    assert_eq!(run_with(&mut session, false, answer(SUCCESS, SUCCESS, 1)), FrameOutcome::Continue);
    assert_eq!(session, Session::new(SMALL, 3));
}

#[test]
fn a_run_frame_recreates_on_a_stale_swapchain_and_goes_on() {
    let mut session = Session::new(SMALL, 3);
    session.wanted_extent = LARGE;
    assert_eq!(
        run_with(&mut session, false, answer(ERROR_OUT_OF_DATE_KHR, SUCCESS, 0)),
        FrameOutcome::Recreated
    );
    assert_eq!((session.extent, session.image_count, session.generation), (LARGE, 2, 1));
    assert_eq!(run_with(&mut session, false, answer(SUCCESS, SUCCESS, 1)), FrameOutcome::Continue);
    assert_eq!(
        run_with(&mut session, false, answer(SUCCESS, ERROR_OUT_OF_DATE_KHR, 1)),
        FrameOutcome::Recreated
    );
    assert_eq!(session.generation, 2);
}

#[test]
fn a_run_frame_ends_the_session_on_request() {
    let mut session = Session::new(SMALL, 3);
    assert_eq!(run_with(&mut session, true, answer(SUCCESS, SUCCESS, 0)), FrameOutcome::Closed);
    assert_eq!(session.state, FrameState::Closed);
    assert_eq!(run_with(&mut session, false, answer(SUCCESS, SUCCESS, 0)), FrameOutcome::Closed);
}

#[test]
fn a_run_frame_aborts_on_other_results() {
    let mut session = Session::new(SMALL, 3);
    assert_eq!(
        run_with(&mut session, false, answer(-5, SUCCESS, 0)),
        FrameOutcome::Fatal(Error::Api(-5))
    );
    assert_eq!(
        run_with(&mut session, false, answer(SUCCESS, SUCCESS, 0)),
        FrameOutcome::Fatal(Error::OutOfTurn)
    );
    let mut session = Session::new(SMALL, 3);
    assert_eq!(
        run_with(&mut session, false, |_| FrameEvent::Recorded),
        FrameOutcome::Fatal(Error::OutOfTurn)
    );
}

#[test]
fn a_rebuild_makes_the_swapchain_retires_the_old_and_makes_the_rest() {
    let plan = rebuild_plan();
    assert_eq!(plan.len(), 14);
    assert_eq!(plan[0], RebuildStep::Make(Resource::Swapchain));
    let retired: Vec<RebuildStep> =
        teardown_order().into_iter().map(RebuildStep::Retire).collect();
    assert_eq!(&plan[1..8], retired.as_slice());
    let made: Vec<RebuildStep> =
        rebuild_order().into_iter().skip(1).map(RebuildStep::Make).collect();
    assert_eq!(&plan[8..], made.as_slice());
    assert_eq!(plan[1], RebuildStep::Retire(Resource::CommandBuffers));
    assert_eq!(plan[7], RebuildStep::Retire(Resource::Swapchain));
    assert_eq!(plan[13], RebuildStep::Make(Resource::CommandBuffers));
}

#[test]
fn steps_are_carried_out_in_order() {
    let seen = RefCell::new(Vec::new());
    let result = carry_out(&setup_order(), |resource| {
        seen.borrow_mut().push(resource);
        Ok(())
    });
    assert_eq!(result, Ok(()));
    assert_eq!(seen.into_inner(), setup_order());
    assert_eq!(carry_out(&[] as &[Resource], |_| Err(Error::OutOfTurn)), Ok(()));
}

#[test]
fn carrying_out_stops_at_the_first_failure() {
    let seen = RefCell::new(Vec::new());
    let result = carry_out(&setup_order(), |resource| {
        seen.borrow_mut().push(resource);
        match resource {
            Resource::Device => Err(Error::NoQueueFamily),
            Resource::Swapchain => Err(Error::NoSurfaceFormat),
            _ => Ok(()),
        }
    });
    assert_eq!(result, Err(Error::NoQueueFamily));
    assert_eq!(
        seen.into_inner(),
        vec![Resource::Instance, Resource::Surface, Resource::PhysicalDevice, Resource::Device]
    );
}

#[test]
fn a_close_request_outlives_a_recreation() {
    let mut session = Session::new(SMALL, 3);
    let events = [WindowEvent::Resized { width: 1024, height: 768 }, WindowEvent::CloseRequested];
    let close_requested = session.poll_events(&events);
    assert!(close_requested);
    assert_eq!(
        run_with(&mut session, close_requested, answer(SUCCESS, SUCCESS, 0)),
        FrameOutcome::Recreated
    );
    assert!(session.close_pending);
    let close_requested = session.poll_events(&[]);
    assert!(!close_requested);
    assert_eq!(
        run_with(&mut session, close_requested, answer(SUCCESS, SUCCESS, 0)),
        FrameOutcome::Closed
    );
}

#[test]
fn a_close_request_given_at_the_start_of_a_recreation_is_kept() {
    let mut session = Session::new(SMALL, 3);
    session.notify_resized(LARGE);
    assert_eq!(run_with(&mut session, true, answer(SUCCESS, SUCCESS, 0)), FrameOutcome::Recreated);
    assert_eq!(run_with(&mut session, false, answer(SUCCESS, SUCCESS, 0)), FrameOutcome::Closed);
}

fn fixtures() -> Fixtures {
    Fixtures {
        pipeline_layout: 3,
        command_pool: 9,
        vertex_buffer: 4,
        index_buffer: 5,
        descriptor_set: 6,
        vertex_count: 8,
        index_count: 12,
    }
}

fn made() -> GenerationHandles {
    GenerationHandles {
        image_views: vec![31, 32],
        render_pass: 1,
        graphics_pipeline: 2,
        depth_image: 40,
        depth_image_view: 41,
        framebuffers: vec![70, 71],
        command_buffers: vec![],
    }
}

#[test]
fn every_step_of_a_generation_is_described_for_its_swapchain() {
    let chain = swapchain(vec![11, 12]);
    let step = |resource| describe_generation_step(resource, &chain, 126, &made(), &fixtures(), 51, 52);
    match step(Resource::ImageViews) {
        Ok(GenerationStep::ImageViews(views)) => {
            assert_eq!(views, vec![ImageView::new(11, 44, 1), ImageView::new(12, 44, 1)]);
        }
        _ => panic!("the image views are described"),
    }
    match step(Resource::RenderPass) {
        Ok(GenerationStep::RenderPass(pass)) => assert_eq!(pass, RenderPass::new(44, 126)),
        _ => panic!("the render pass is described"),
    }
    match step(Resource::GraphicsPipeline) {
        Ok(GenerationStep::GraphicsPipeline(pipeline)) => {
            assert_eq!(pipeline, GraphicsPipeline::new(3, 1, SMALL, 51, 52));
        }
        _ => panic!("the pipeline is described"),
    }
    match step(Resource::DepthResources) {
        Ok(GenerationStep::DepthImage(image)) => assert_eq!(image, depth_image(126, SMALL)),
        _ => panic!("the depth image is described"),
    }
    match step(Resource::Framebuffers) {
        Ok(GenerationStep::Framebuffers(framebuffers)) => {
            assert_eq!(framebuffers, create_framebuffers(1, &[31, 32], 41, SMALL));
        }
        _ => panic!("the framebuffers are described"),
    }
    match step(Resource::CommandBuffers) {
        Ok(GenerationStep::CommandBuffers { allocate, commands }) => {
            assert_eq!((allocate.command_pool, allocate.level), (9, 0));
            assert_eq!(allocate.command_buffer_count, 2);
            let resources = DrawResources {
                render_pass: 1,
                graphics_pipeline: 2,
                pipeline_layout: 3,
                vertex_buffer: 4,
                index_buffer: 5,
                descriptor_set: 6,
                vertex_count: 8,
                index_count: 12,
            };
            assert_eq!(
                commands,
                vec![
                    record_commands(&resources, 70, &SMALL),
                    record_commands(&resources, 71, &SMALL)
                ]
            );
        }
        _ => panic!("the command buffers are described"),
    }
}

#[test]
fn what_is_no_step_of_a_generation_is_out_of_turn() {
    let chain = swapchain(vec![11, 12]);
    for resource in setup_order() {
        let result =
            describe_generation_step(resource, &chain, 126, &made(), &fixtures(), 51, 52);
        if resource == Resource::Swapchain || !in_generation(resource) {
            assert!(matches!(result, Err(Error::OutOfTurn)));
        } else {
            assert!(result.is_ok());
        }
    }
}

#[test]
fn setup_ends_with_a_session_on_the_first_generation() {
    let chain = swapchain(vec![11, 12, 13]);
    let components = SwapchainComponents::new(0, &chain, handles(3, 3, 3));
    assert_eq!(initialize(Ok(()), &components), Ok(Session::new(SMALL, 3)));
    assert_eq!(initialize(Err(Error::NoSuitableDevice), &components), Err(Error::NoSuitableDevice));
    let partial = SwapchainComponents::new(0, &chain, handles(3, 2, 3));
    assert_eq!(initialize(Ok(()), &partial), Err(Error::IncompleteGeneration));
    assert_eq!(initialize(Err(Error::Api(-3)), &partial), Err(Error::Api(-3)));
    let later = SwapchainComponents::new(7, &chain, handles(3, 3, 3));
    let session = initialize(Ok(()), &later).unwrap();
    assert_eq!(session.generation, 7);
    assert_eq!(session.image_count, 3);
}

#[test]
fn a_rebuild_reports_what_it_made_or_why_it_failed() {
    let chain = swapchain(vec![11, 12, 13]);
    let components = SwapchainComponents::new(1, &chain, handles(3, 3, 3));
    assert_eq!(rebuild_outcome(&components), FrameEvent::Rebuilt { extent: SMALL, image_count: 3 });
    let partial = SwapchainComponents::new(1, &chain, handles(3, 3, 2));
    assert_eq!(
        rebuild_outcome(&partial),
        FrameEvent::RebuildFailed { error: Error::IncompleteGeneration }
    );
    assert_eq!(
        rebuild_outcome(&Err(Error::Api(-1))),
        FrameEvent::RebuildFailed { error: Error::Api(-1) }
    );
}
