use vkc::error::Error;
use vkc::queue::queue_families;
use vkc::swapchain::{
    choose_image_count, choose_swap_extent, choose_swap_present_mode,
    choose_swap_surface_format, Swapchain, SwapchainSupportDetails,
};
use vkc::vk::{
    Extent2D, QueueFamilyProperties, SurfaceCapabilitiesKHR, SurfaceFormatKHR,
    COLOR_SPACE_SRGB_NONLINEAR_KHR, COMPOSITE_ALPHA_OPAQUE_BIT_KHR, FORMAT_B8G8R8A8_UNORM,
    FORMAT_R8G8B8A8_UNORM, FORMAT_UNDEFINED, IMAGE_USAGE_COLOR_ATTACHMENT_BIT,
    PRESENT_MODE_FIFO_KHR, PRESENT_MODE_IMMEDIATE_KHR, PRESENT_MODE_MAILBOX_KHR,
    QUEUE_GRAPHICS_BIT, SHARING_MODE_CONCURRENT, SHARING_MODE_EXCLUSIVE,
};

fn capabilities(
    min_count: u32,
    max_count: u32,
    current: (u32, u32),
    min: (u32, u32),
    max: (u32, u32),
) -> SurfaceCapabilitiesKHR {
    SurfaceCapabilitiesKHR {
        min_image_count: min_count,
        max_image_count: max_count,
        current_extent: Extent2D { width: current.0, height: current.1 },
        min_image_extent: Extent2D { width: min.0, height: min.1 },
        max_image_extent: Extent2D { width: max.0, height: max.1 },
        max_image_array_layers: 1,
        supported_transforms: 1,
        current_transform: 1,
        supported_composite_alpha: 1,
        supported_usage_flags: 0x10,
    }
}

fn undefined(min: (u32, u32), max: (u32, u32)) -> SurfaceCapabilitiesKHR {
    capabilities(2, 3, (u32::MAX, u32::MAX), min, max)
}

fn family(flags: u32, count: u32, presents: bool) -> QueueFamilyProperties {
    QueueFamilyProperties { queue_flags: flags, queue_count: count, presentation_support: presents }
}

#[test]
fn it_works() {}

#[test]
fn image_count_is_min_plus_one_capped_at_max() {
    let caps = capabilities(2, 3, (800, 600), (1, 1), (4096, 4096));
    assert_eq!(choose_image_count(&caps), 3);
    let caps = capabilities(2, 2, (800, 600), (1, 1), (4096, 4096));
    assert_eq!(choose_image_count(&caps), 2);
    let caps = capabilities(1, 8, (800, 600), (1, 1), (4096, 4096));
    assert_eq!(choose_image_count(&caps), 2);
}

#[test]
fn image_count_never_passes_the_maximum() {
    let caps = capabilities(4, 0, (800, 600), (1, 1), (4096, 4096));
    assert_eq!(choose_image_count(&caps), 0);
    let caps = capabilities(0, 0, (800, 600), (1, 1), (4096, 4096));
    assert_eq!(choose_image_count(&caps), 0);
    let caps = capabilities(4, 1, (800, 600), (1, 1), (4096, 4096));
    assert_eq!(choose_image_count(&caps), 1);
    let caps = capabilities(0, 9, (800, 600), (1, 1), (4096, 4096));
    assert_eq!(choose_image_count(&caps), 1);
}

#[test]
fn image_count_at_the_top_of_the_range() {
    let caps = capabilities(u32::MAX, u32::MAX, (800, 600), (1, 1), (4096, 4096));
    assert_eq!(choose_image_count(&caps), u32::MAX);
    let caps = capabilities(u32::MAX - 1, u32::MAX, (800, 600), (1, 1), (4096, 4096));
    assert_eq!(choose_image_count(&caps), u32::MAX);
    let caps = capabilities(u32::MAX, 0, (800, 600), (1, 1), (4096, 4096));
    assert_eq!(choose_image_count(&caps), 0);
    let caps = capabilities(u32::MAX, 7, (800, 600), (1, 1), (4096, 4096));
    assert_eq!(choose_image_count(&caps), 7);
}

#[test]
fn undefined_current_extent_takes_the_request() {
    let caps = undefined((1, 1), (4096, 4096));
    let chosen = choose_swap_extent(&caps, Some(Extent2D { width: 1024, height: 768 }));
    assert_eq!(chosen, Extent2D { width: 1024, height: 768 });
}

#[test]
fn defined_current_extent_wins_over_the_request() {
    let caps = capabilities(2, 3, (640, 480), (1, 1), (4096, 4096));
    let chosen = choose_swap_extent(&caps, Some(Extent2D { width: 1024, height: 768 }));
    assert_eq!(chosen, Extent2D { width: 640, height: 480 });
}

#[test]
fn request_outside_the_bounds_is_clamped() {
    let caps = undefined((200, 100), (1000, 500));
    let chosen = choose_swap_extent(&caps, Some(Extent2D { width: 50, height: 700 }));
    assert_eq!(chosen, Extent2D { width: 200, height: 500 });
    let chosen = choose_swap_extent(&caps, Some(Extent2D { width: 5000, height: 10 }));
    assert_eq!(chosen, Extent2D { width: 1000, height: 100 });
    let chosen = choose_swap_extent(&caps, Some(Extent2D { width: 200, height: 500 }));
    assert_eq!(chosen, Extent2D { width: 200, height: 500 });
}

#[test]
fn missing_request_falls_back_to_the_default_extent() {
    let caps = undefined((1, 1), (4096, 4096));
    assert_eq!(choose_swap_extent(&caps, None), Extent2D { width: 800, height: 600 });
    let caps = undefined((1, 1), (640, 480));
    assert_eq!(choose_swap_extent(&caps, None), Extent2D { width: 640, height: 480 });
}

#[test]
fn choosing_again_for_the_chosen_extent_changes_nothing() {
    let caps = undefined((200, 100), (1000, 500));
    let first = choose_swap_extent(&caps, Some(Extent2D { width: 5000, height: 10 }));
    let second = choose_swap_extent(&caps, Some(first));
    assert_eq!(first, second);
}

#[test]
fn surface_without_preference_gets_the_preferred_format() {
    let formats = [SurfaceFormatKHR { format: FORMAT_UNDEFINED, color_space: 7 }];
    assert_eq!(
        choose_swap_surface_format(&formats),
        SurfaceFormatKHR {
            format: FORMAT_B8G8R8A8_UNORM,
            color_space: COLOR_SPACE_SRGB_NONLINEAR_KHR
        }
    );
}

#[test]
fn preferred_format_is_taken_where_listed() {
    let formats = [
        SurfaceFormatKHR { format: FORMAT_R8G8B8A8_UNORM, color_space: 0 },
        SurfaceFormatKHR { format: FORMAT_B8G8R8A8_UNORM, color_space: 0 },
    ];
    assert_eq!(
        choose_swap_surface_format(&formats),
        SurfaceFormatKHR { format: FORMAT_B8G8R8A8_UNORM, color_space: 0 }
    );
}

#[test]
fn first_format_is_taken_where_the_preferred_is_missing() {
    let formats = [
        SurfaceFormatKHR { format: FORMAT_R8G8B8A8_UNORM, color_space: 3 },
        SurfaceFormatKHR { format: FORMAT_B8G8R8A8_UNORM, color_space: 5 },
    ];
    assert_eq!(
        choose_swap_surface_format(&formats),
        SurfaceFormatKHR { format: FORMAT_R8G8B8A8_UNORM, color_space: 3 }
    );
}

#[test]
fn present_mode_prefers_mailbox_then_immediate_then_fifo() {
    assert_eq!(
        choose_swap_present_mode(&[
            PRESENT_MODE_FIFO_KHR,
            PRESENT_MODE_IMMEDIATE_KHR,
            PRESENT_MODE_MAILBOX_KHR
        ]),
        PRESENT_MODE_MAILBOX_KHR
    );
    assert_eq!(
        choose_swap_present_mode(&[PRESENT_MODE_IMMEDIATE_KHR, PRESENT_MODE_FIFO_KHR]),
        PRESENT_MODE_IMMEDIATE_KHR
    );
    assert_eq!(choose_swap_present_mode(&[PRESENT_MODE_FIFO_KHR]), PRESENT_MODE_FIFO_KHR);
    assert_eq!(choose_swap_present_mode(&[3]), PRESENT_MODE_FIFO_KHR);
    assert_eq!(choose_swap_present_mode(&[]), PRESENT_MODE_FIFO_KHR);
}

#[test]
fn support_is_adequate_with_a_format_and_a_mode() {
    let caps = undefined((1, 1), (4096, 4096));
    let format = SurfaceFormatKHR { format: FORMAT_B8G8R8A8_UNORM, color_space: 0 };
    assert!(SwapchainSupportDetails::new(caps, vec![format], vec![2]).is_adequate());
    assert!(!SwapchainSupportDetails::new(caps, vec![], vec![2]).is_adequate());
    assert!(!SwapchainSupportDetails::new(caps, vec![format], vec![]).is_adequate());
}

#[test]
fn create_info_for_one_family_is_exclusive() {
    let caps = undefined((1, 1), (4096, 4096));
    let format = SurfaceFormatKHR { format: FORMAT_R8G8B8A8_UNORM, color_space: 0 };
    let details = SwapchainSupportDetails::new(caps, vec![format], vec![PRESENT_MODE_FIFO_KHR]);
    let families = vec![family(QUEUE_GRAPHICS_BIT, 1, true)];
    let indices = queue_families(&families, 9, QUEUE_GRAPHICS_BIT);
    let info = Swapchain::create_info(
        77,
        &details,
        &indices,
        Some(Extent2D { width: 1024, height: 768 }),
        None,
    )
    .unwrap();
    assert_eq!(info.surface, 77);
    assert_eq!(info.min_image_count, 3);
    assert_eq!(info.image_format, FORMAT_R8G8B8A8_UNORM);
    assert_eq!(info.image_color_space, 0);
    assert_eq!(info.image_extent, Extent2D { width: 1024, height: 768 });
    assert_eq!(info.image_array_layers, 1);
    assert_eq!(info.image_usage, IMAGE_USAGE_COLOR_ATTACHMENT_BIT);
    assert_eq!(info.image_sharing_mode, SHARING_MODE_EXCLUSIVE);
    assert_eq!(info.queue_family_index_count, 0);
    assert_eq!(info.pre_transform, 1);
    assert_eq!(info.composite_alpha, COMPOSITE_ALPHA_OPAQUE_BIT_KHR);
    assert_eq!(info.present_mode, PRESENT_MODE_FIFO_KHR);
    assert!(info.clipped);
    assert_eq!(info.old_swapchain, 0);
}

#[test]
fn create_info_for_two_families_is_concurrent() {
    let caps = undefined((1, 1), (4096, 4096));
    let format = SurfaceFormatKHR { format: FORMAT_R8G8B8A8_UNORM, color_space: 0 };
    let details = SwapchainSupportDetails::new(caps, vec![format], vec![PRESENT_MODE_FIFO_KHR]);
    let families = vec![family(0, 1, true), family(QUEUE_GRAPHICS_BIT, 1, false)];
    let indices = queue_families(&families, 9, QUEUE_GRAPHICS_BIT);
    let info = Swapchain::create_info(77, &details, &indices, None, Some(55)).unwrap();
    assert_eq!(info.image_sharing_mode, SHARING_MODE_CONCURRENT);
    assert_eq!(info.queue_family_index_count, 2);
    assert_eq!(info.graphics_queue_family, 1);
    assert_eq!(info.present_queue_family, 0);
    assert_eq!(info.old_swapchain, 55);
    assert_eq!(info.image_extent, Extent2D { width: 800, height: 600 });
}

#[test]
fn create_info_fails_without_a_format() {
    let caps = undefined((1, 1), (4096, 4096));
    let details = SwapchainSupportDetails::new(caps, vec![], vec![PRESENT_MODE_FIFO_KHR]);
    let families = vec![family(QUEUE_GRAPHICS_BIT, 1, true)];
    let indices = queue_families(&families, 9, QUEUE_GRAPHICS_BIT);
    assert_eq!(
        Swapchain::create_info(77, &details, &indices, None, None),
        Err(Error::NoSurfaceFormat)
    );
}

#[test]
fn create_info_fails_without_a_family() {
    let caps = undefined((1, 1), (4096, 4096));
    let format = SurfaceFormatKHR { format: FORMAT_R8G8B8A8_UNORM, color_space: 0 };
    let details = SwapchainSupportDetails::new(caps, vec![format], vec![PRESENT_MODE_FIFO_KHR]);
    let no_graphics = vec![family(0, 1, true)];
    let indices = queue_families(&no_graphics, 9, QUEUE_GRAPHICS_BIT);
    assert_eq!(
        Swapchain::create_info(77, &details, &indices, None, None),
        Err(Error::NoQueueFamily)
    );
    let no_present = vec![family(QUEUE_GRAPHICS_BIT, 1, false)];
    let indices = queue_families(&no_present, 9, QUEUE_GRAPHICS_BIT);
    assert_eq!(
        Swapchain::create_info(77, &details, &indices, None, None),
        Err(Error::NoQueueFamily)
    );
}

#[test]
fn recreation_for_the_same_request_agrees() {
    let caps = undefined((1, 1), (4096, 4096));
    let format = SurfaceFormatKHR { format: FORMAT_R8G8B8A8_UNORM, color_space: 0 };
    let details = SwapchainSupportDetails::new(caps, vec![format], vec![PRESENT_MODE_FIFO_KHR]);
    let families = vec![family(QUEUE_GRAPHICS_BIT, 1, true)];
    let indices = queue_families(&families, 9, QUEUE_GRAPHICS_BIT);
    let wanted = Some(Extent2D { width: 5000, height: 300 });
    let first = Swapchain::create_info(77, &details, &indices, wanted, None).unwrap();
    let second = Swapchain::create_info(77, &details, &indices, wanted, Some(1)).unwrap();
    assert_eq!(first.image_extent, Extent2D { width: 4096, height: 300 });
    assert_eq!(first.image_extent, second.image_extent);
    assert_eq!(first.min_image_count, second.min_image_count);
}

#[test]
fn swapchain_records_what_it_was_made_from() {
    let caps = undefined((1, 1), (4096, 4096));
    let format = SurfaceFormatKHR { format: FORMAT_R8G8B8A8_UNORM, color_space: 0 };
    let details = SwapchainSupportDetails::new(caps, vec![format], vec![PRESENT_MODE_FIFO_KHR]);
    let families = vec![family(QUEUE_GRAPHICS_BIT, 1, true)];
    let indices = queue_families(&families, 9, QUEUE_GRAPHICS_BIT);
    let info = Swapchain::create_info(77, &details, &indices, None, None).unwrap();
    let swapchain = Swapchain::new(5, &[11, 12, 13], &info);
    assert_eq!(swapchain.handle(), 5);
    assert_eq!(swapchain.images(), &[11, 12, 13]);
    assert_eq!(swapchain.image_format(), FORMAT_R8G8B8A8_UNORM);
    assert_eq!(swapchain.extent(), Extent2D { width: 800, height: 600 });
    assert_eq!(swapchain.surface, 77);
}

#[test]
fn the_rendering_family_presents_where_it_can() {
    let caps = undefined((1, 1), (4096, 4096));
    let format = SurfaceFormatKHR { format: FORMAT_R8G8B8A8_UNORM, color_space: 0 };
    let details = SwapchainSupportDetails::new(caps, vec![format], vec![PRESENT_MODE_FIFO_KHR]);
    let families = vec![family(0, 1, true), family(QUEUE_GRAPHICS_BIT, 1, true)];
    let indices = queue_families(&families, 9, QUEUE_GRAPHICS_BIT);
    assert_eq!(indices.presentation_idxs(), &[0, 1]);
    assert_eq!(indices.present_family(), Some(1));
    let info = Swapchain::create_info(77, &details, &indices, None, None).unwrap();
    assert_eq!(info.image_sharing_mode, SHARING_MODE_EXCLUSIVE);
    assert_eq!(info.queue_family_index_count, 0);
    assert_eq!(info.graphics_queue_family, 1);
    assert_eq!(info.present_queue_family, 1);
    let apart = vec![family(0, 1, true), family(QUEUE_GRAPHICS_BIT, 1, false)];
    assert_eq!(queue_families(&apart, 9, QUEUE_GRAPHICS_BIT).present_family(), Some(0));
    let none = vec![family(QUEUE_GRAPHICS_BIT, 1, false)];
    assert_eq!(queue_families(&none, 9, QUEUE_GRAPHICS_BIT).present_family(), None);
    let only_present = vec![family(0, 1, true)];
    assert_eq!(queue_families(&only_present, 9, QUEUE_GRAPHICS_BIT).present_family(), Some(0));
}

#[test]
fn create_info_asks_for_no_image_where_the_maximum_is_zero() {
    let caps = capabilities(2, 0, (u32::MAX, u32::MAX), (1, 1), (4096, 4096));
    let format = SurfaceFormatKHR { format: FORMAT_R8G8B8A8_UNORM, color_space: 0 };
    let details = SwapchainSupportDetails::new(caps, vec![format], vec![PRESENT_MODE_FIFO_KHR]);
    let families = vec![family(QUEUE_GRAPHICS_BIT, 1, true)];
    let indices = queue_families(&families, 9, QUEUE_GRAPHICS_BIT);
    let info = Swapchain::create_info(77, &details, &indices, None, None).unwrap();
    assert_eq!(info.min_image_count, 0);
}
