//! Negotiating a swapchain with a surface: format, present mode, extent,
//! image count and sharing mode.

use vstd::prelude::*;
use crate::error::{Error, VkcResult};
use crate::handle_list::{ImageList, HANDLE_LIST_LIMIT, image_list_as_slice, image_list_items,
    image_list_new, image_list_push};
use crate::queue::QueueFamilyIndices;
use crate::vk::{Extent2D, SurfaceCapabilitiesKHR, SurfaceFormatKHR, COLOR_SPACE_SRGB_NONLINEAR_KHR,
    COMPOSITE_ALPHA_OPAQUE_BIT_KHR, FORMAT_B8G8R8A8_UNORM, FORMAT_UNDEFINED,
    IMAGE_USAGE_COLOR_ATTACHMENT_BIT, NULL_HANDLE, PRESENT_MODE_FIFO_KHR,
    PRESENT_MODE_IMMEDIATE_KHR, PRESENT_MODE_MAILBOX_KHR, SHARING_MODE_CONCURRENT,
    SHARING_MODE_EXCLUSIVE};

verus! {

/// The width asked for where nobody names one.
pub const DEFAULT_WIDTH: u32 = 800;

/// The height asked for where nobody names one.
pub const DEFAULT_HEIGHT: u32 = 600;

/// What a physical device supports on a surface.
pub struct SwapchainSupportDetails {
    pub capabilities: SurfaceCapabilitiesKHR,
    pub formats: Vec<SurfaceFormatKHR>,
    pub present_modes: Vec<u32>,
}

impl SwapchainSupportDetails {
    /// Puts together what the three surface queries returned.
    pub fn new(
        capabilities: SurfaceCapabilitiesKHR,
        formats: Vec<SurfaceFormatKHR>,
        present_modes: Vec<u32>,
    ) -> (details: SwapchainSupportDetails)
        ensures
            details.capabilities == capabilities,
            details.formats == formats,
            details.present_modes == present_modes,
    {
        SwapchainSupportDetails { capabilities, formats, present_modes }
    }

    /// A swapchain can be made: there is a format and there is a present mode.
    pub open spec fn spec_is_adequate(&self) -> bool {
        self.formats@.len() > 0 && self.present_modes@.len() > 0
    }

    /// Whether a swapchain can be made on the surface.
    pub fn is_adequate(&self) -> (adequate: bool)
        ensures
            adequate == self.spec_is_adequate(),
    {
        self.formats.len() > 0 && self.present_modes.len() > 0
    }
}

/// The format that is taken wherever the surface allows it.
pub open spec fn preferred_surface_format() -> SurfaceFormatKHR {
    SurfaceFormatKHR { format: FORMAT_B8G8R8A8_UNORM, color_space: COLOR_SPACE_SRGB_NONLINEAR_KHR }
}

/// The surface format chosen among `formats`: the preferred one where the
/// surface has no preference of its own or lists it, else the first listed.
pub open spec fn spec_choose_swap_surface_format(
    formats: Seq<SurfaceFormatKHR>,
) -> SurfaceFormatKHR
    recommends
        formats.len() > 0,
{
    if formats.len() == 1 && formats[0].format == FORMAT_UNDEFINED {
        preferred_surface_format()
    } else if formats.contains(preferred_surface_format()) {
        preferred_surface_format()
    } else {
        formats[0]
    }
}

/// Chooses the surface format of the swapchain.
pub fn choose_swap_surface_format(
    available_formats: &[SurfaceFormatKHR],
) -> (chosen: SurfaceFormatKHR)
    requires
        available_formats@.len() > 0,
    ensures
        chosen == spec_choose_swap_surface_format(available_formats@),
{
    let preferred = SurfaceFormatKHR {
        format: FORMAT_B8G8R8A8_UNORM,
        color_space: COLOR_SPACE_SRGB_NONLINEAR_KHR,
    };
    if available_formats.len() == 1 && available_formats[0].format == FORMAT_UNDEFINED {
        return preferred;
    }
    let mut i: usize = 0;
    while i < available_formats.len()
        invariant
            0 <= i <= available_formats@.len(),
            preferred == preferred_surface_format(),
            forall|j: int| 0 <= j < i ==> available_formats@[j] != preferred_surface_format(),
        decreases available_formats@.len() - i,
    {
        let available = available_formats[i];
        if available.format == FORMAT_B8G8R8A8_UNORM && available.color_space
            == COLOR_SPACE_SRGB_NONLINEAR_KHR {
            assert(available_formats@[i as int] == preferred_surface_format());
            return preferred;
        }
        i = i + 1;
    }
    available_formats[0]
}

/// The present mode chosen among `modes`: mailbox where offered, else
/// immediate where offered, else first-in-first-out, which every surface has.
pub open spec fn spec_choose_swap_present_mode(modes: Seq<u32>) -> u32 {
    if modes.contains(PRESENT_MODE_MAILBOX_KHR) {
        PRESENT_MODE_MAILBOX_KHR
    } else if modes.contains(PRESENT_MODE_IMMEDIATE_KHR) {
        PRESENT_MODE_IMMEDIATE_KHR
    } else {
        PRESENT_MODE_FIFO_KHR
    }
}

/// Chooses the present mode of the swapchain.
pub fn choose_swap_present_mode(available_present_modes: &[u32]) -> (chosen: u32)
    ensures
        chosen == spec_choose_swap_present_mode(available_present_modes@),
{
    let mut best_mode: u32 = PRESENT_MODE_FIFO_KHR;
    let mut i: usize = 0;
    while i < available_present_modes.len()
        invariant
            0 <= i <= available_present_modes@.len(),
            forall|j: int| 0 <= j < i ==> available_present_modes@[j] != PRESENT_MODE_MAILBOX_KHR,
            best_mode == PRESENT_MODE_IMMEDIATE_KHR <==> exists|j: int|
                0 <= j < i && available_present_modes@[j] == PRESENT_MODE_IMMEDIATE_KHR,
            best_mode == PRESENT_MODE_IMMEDIATE_KHR || best_mode == PRESENT_MODE_FIFO_KHR,
        decreases available_present_modes@.len() - i,
    {
        let available: u32 = available_present_modes[i];
        if available == PRESENT_MODE_MAILBOX_KHR {
            return available;
        } else if available == PRESENT_MODE_IMMEDIATE_KHR {
            best_mode = available;
        }
        i = i + 1;
    }
    best_mode
}

/// `value` brought into `lo ..= hi`; `lo` where the bounds cross.
pub open spec fn clamp_dimension(value: u32, lo: u32, hi: u32) -> u32 {
    let capped = if hi < value { hi } else { value };
    if capped < lo { lo } else { capped }
}

/// The surface fixes the size of its images.
pub open spec fn extent_is_defined(capabilities: SurfaceCapabilitiesKHR) -> bool {
    capabilities.current_extent.width != u32::MAX
}

/// The extent that is clamped where the surface leaves the size open: the
/// requested one, or the default.
pub open spec fn wanted_extent(requested: Option<Extent2D>) -> Extent2D {
    match requested {
        Some(extent) => extent,
        None => Extent2D { width: DEFAULT_WIDTH, height: DEFAULT_HEIGHT },
    }
}

/// The extent of the swapchain images: the surface's current extent where it
/// is defined, else the wanted extent clamped to the surface's bounds.
pub open spec fn spec_choose_swap_extent(
    capabilities: SurfaceCapabilitiesKHR,
    requested: Option<Extent2D>,
) -> Extent2D {
    if extent_is_defined(capabilities) {
        capabilities.current_extent
    } else {
        Extent2D {
            width: clamp_dimension(
                wanted_extent(requested).width,
                capabilities.min_image_extent.width,
                capabilities.max_image_extent.width,
            ),
            height: clamp_dimension(
                wanted_extent(requested).height,
                capabilities.min_image_extent.height,
                capabilities.max_image_extent.height,
            ),
        }
    }
}

fn clamp(value: u32, lo: u32, hi: u32) -> (clamped: u32)
    ensures
        clamped == clamp_dimension(value, lo, hi),
{
    let capped: u32 = if hi < value { hi } else { value };
    if capped < lo { lo } else { capped }
}

/// Chooses the extent of the swapchain images.
pub fn choose_swap_extent(
    capabilities: &SurfaceCapabilitiesKHR,
    requested: Option<Extent2D>,
) -> (chosen: Extent2D)
    ensures
        chosen == spec_choose_swap_extent(*capabilities, requested),
{
    if capabilities.current_extent.width != u32::MAX {
        capabilities.current_extent
    } else {
        let wanted = match requested {
            Some(extent) => extent,
            None => Extent2D { width: DEFAULT_WIDTH, height: DEFAULT_HEIGHT },
        };
        Extent2D {
            width: clamp(
                wanted.width,
                capabilities.min_image_extent.width,
                capabilities.max_image_extent.width,
            ),
            height: clamp(
                wanted.height,
                capabilities.min_image_extent.height,
                capabilities.max_image_extent.height,
            ),
        }
    }
}

/// Where the surface leaves the size open and its bounds do not cross, a
/// request within the bounds is taken as it is, and one outside them is
/// brought to the nearest bound, each dimension by itself.
pub proof fn lemma_extent_is_request_clamped(
    capabilities: SurfaceCapabilitiesKHR,
    requested: Extent2D,
)
    requires
        !extent_is_defined(capabilities),
        capabilities.min_image_extent.width <= capabilities.max_image_extent.width,
        capabilities.min_image_extent.height <= capabilities.max_image_extent.height,
    ensures
        ({
            let chosen = spec_choose_swap_extent(capabilities, Some(requested));
            let lo = capabilities.min_image_extent;
            let hi = capabilities.max_image_extent;
            &&& lo.width <= chosen.width <= hi.width
            &&& lo.height <= chosen.height <= hi.height
            &&& lo.width <= requested.width <= hi.width ==> chosen.width == requested.width
            &&& lo.height <= requested.height <= hi.height ==> chosen.height == requested.height
            &&& requested.width < lo.width ==> chosen.width == lo.width
            &&& requested.width > hi.width ==> chosen.width == hi.width
            &&& requested.height < lo.height ==> chosen.height == lo.height
            &&& requested.height > hi.height ==> chosen.height == hi.height
        }),
{
}

/// Asking again for an extent that was chosen before, of a surface whose
/// capabilities have not changed, chooses the same extent.
pub proof fn lemma_chosen_extent_is_stable(
    capabilities: SurfaceCapabilitiesKHR,
    requested: Option<Extent2D>,
)
    ensures
        spec_choose_swap_extent(
            capabilities,
            Some(spec_choose_swap_extent(capabilities, requested)),
        ) == spec_choose_swap_extent(capabilities, requested),
{
}

/// The number of images asked for: one more than the surface's minimum,
/// or the surface's maximum where that is less.
pub open spec fn spec_choose_image_count(capabilities: SurfaceCapabilitiesKHR) -> int {
    let wanted = capabilities.min_image_count + 1;
    if capabilities.max_image_count < wanted {
        capabilities.max_image_count as int
    } else {
        wanted
    }
}

/// Chooses how many images to ask for: the lesser of the surface's maximum
/// and one more than its minimum.
pub fn choose_image_count(capabilities: &SurfaceCapabilitiesKHR) -> (count: u32)
    ensures
        count == spec_choose_image_count(*capabilities),
        count <= capabilities.max_image_count,
{
    if capabilities.min_image_count >= capabilities.max_image_count {
        capabilities.max_image_count
    } else {
        capabilities.min_image_count + 1
    }
}

/// How the swapchain images are shared between two queue families.
pub open spec fn spec_image_sharing_mode(graphics_family: u32, present_family: u32) -> u32 {
    if graphics_family != present_family {
        SHARING_MODE_CONCURRENT
    } else {
        SHARING_MODE_EXCLUSIVE
    }
}

/// Everything that the creation of a swapchain is told.
#[derive(Clone, Copy, Debug, PartialEq, Eq, Structural)]
pub struct SwapchainCreateInfo {
    pub surface: u64,
    pub min_image_count: u32,
    pub image_format: u32,
    pub image_color_space: u32,
    pub image_extent: Extent2D,
    pub image_array_layers: u32,
    pub image_usage: u32,
    pub image_sharing_mode: u32,
    /// Two where the images are shared between the two families, else zero.
    pub queue_family_index_count: u32,
    pub graphics_queue_family: u32,
    pub present_queue_family: u32,
    pub pre_transform: u32,
    pub composite_alpha: u32,
    pub present_mode: u32,
    pub clipped: bool,
    /// The swapchain that this one replaces, or `NULL_HANDLE`.
    pub old_swapchain: u64,
}

/// What the creation of a swapchain is told, given the surface's support,
/// the two queue families, the wanted extent and the swapchain to replace.
pub open spec fn spec_swapchain_create_info(
    surface: u64,
    capabilities: SurfaceCapabilitiesKHR,
    formats: Seq<SurfaceFormatKHR>,
    present_modes: Seq<u32>,
    graphics_family: i32,
    present_family: i32,
    requested_extent: Option<Extent2D>,
    old_swapchain: Option<u64>,
) -> SwapchainCreateInfo {
    let format = spec_choose_swap_surface_format(formats);
    let shared = graphics_family as u32 != present_family as u32;
    SwapchainCreateInfo {
        surface,
        min_image_count: spec_choose_image_count(capabilities) as u32,
        image_format: format.format,
        image_color_space: format.color_space,
        image_extent: spec_choose_swap_extent(capabilities, requested_extent),
        image_array_layers: 1,
        image_usage: IMAGE_USAGE_COLOR_ATTACHMENT_BIT,
        image_sharing_mode: spec_image_sharing_mode(graphics_family as u32, present_family as u32),
        queue_family_index_count: if shared { 2 } else { 0 },
        graphics_queue_family: graphics_family as u32,
        present_queue_family: present_family as u32,
        pre_transform: capabilities.current_transform,
        composite_alpha: COMPOSITE_ALPHA_OPAQUE_BIT_KHR,
        present_mode: spec_choose_swap_present_mode(present_modes),
        clipped: true,
        old_swapchain: match old_swapchain {
            Some(handle) => handle,
            None => NULL_HANDLE,
        },
    }
}

/// A swapchain that was made: its handle, its images in presentation order,
/// and the format and extent they have.
pub struct Swapchain {
    pub handle: u64,
    pub surface: u64,
    pub images: ImageList,
    pub image_format: u32,
    pub extent: Extent2D,
}

/// The most images that a swapchain can be recorded with.
pub const MAX_SWAPCHAIN_IMAGES: usize = HANDLE_LIST_LIMIT;

impl Swapchain {
    /// The images of the swapchain, in presentation order.
    pub open spec fn images_view(&self) -> Seq<u64> {
        image_list_items(self.images)
    }

    /// Negotiates a swapchain for `surface`. The images are shared only
    /// where the family that renders cannot present. Fails with
    /// `NoSurfaceFormat` where the surface offers no format, and otherwise
    /// with `NoQueueFamily` where no family renders or none presents.
    pub fn create_info(
        surface: u64,
        details: &SwapchainSupportDetails,
        indices: &QueueFamilyIndices,
        requested_extent: Option<Extent2D>,
        old_swapchain: Option<u64>,
    ) -> (result: VkcResult<SwapchainCreateInfo>)
        ensures
            details.formats@.len() == 0 ==> result == Err::<SwapchainCreateInfo, Error>(
                Error::NoSurfaceFormat,
            ),
            details.formats@.len() > 0 && (indices.flag_view().len() == 0
                || indices.presentation_view().len() == 0) ==> result == Err::<
                SwapchainCreateInfo,
                Error,
            >(Error::NoQueueFamily),
            details.formats@.len() > 0 && indices.flag_view().len() > 0
                && indices.presentation_view().len() > 0 ==> result == Ok::<
                SwapchainCreateInfo,
                Error,
            >(
                spec_swapchain_create_info(
                    surface,
                    details.capabilities,
                    details.formats@,
                    details.present_modes@,
                    indices.flag_view()[0],
                    indices.spec_present_family()->Some_0,
                    requested_extent,
                    old_swapchain,
                ),
            ),
    {
        if details.formats.len() == 0 {
            return Err(Error::NoSurfaceFormat);
        }
        let graphics = indices.family_idxs();
        if graphics.len() == 0 {
            return Err(Error::NoQueueFamily);
        }
        let present_family: u32 = match indices.present_family() {
            Some(family) => family as u32,
            None => {
                return Err(Error::NoQueueFamily);
            },
        };
        let surface_format = choose_swap_surface_format(details.formats.as_slice());
        let present_mode: u32 = choose_swap_present_mode(details.present_modes.as_slice());
        let extent = choose_swap_extent(&details.capabilities, requested_extent);
        let image_count: u32 = choose_image_count(&details.capabilities);
        let graphics_family: u32 = graphics[0] as u32;
        let shared = graphics_family != present_family;
        Ok(
            SwapchainCreateInfo {
                surface,
                min_image_count: image_count,
                image_format: surface_format.format,
                image_color_space: surface_format.color_space,
                image_extent: extent,
                image_array_layers: 1,
                image_usage: IMAGE_USAGE_COLOR_ATTACHMENT_BIT,
                image_sharing_mode: if shared {
                    SHARING_MODE_CONCURRENT
                } else {
                    SHARING_MODE_EXCLUSIVE
                },
                queue_family_index_count: if shared { 2 } else { 0 },
                graphics_queue_family: graphics_family,
                present_queue_family: present_family,
                pre_transform: details.capabilities.current_transform,
                composite_alpha: COMPOSITE_ALPHA_OPAQUE_BIT_KHR,
                present_mode,
                clipped: true,
                old_swapchain: match old_swapchain {
                    Some(handle) => handle,
                    None => NULL_HANDLE,
                },
            },
        )
    }

    /// Records a swapchain that was made from `info` under `handle`, with the
    /// images that the presentation engine lent.
    pub fn new(handle: u64, images: &[u64], info: &SwapchainCreateInfo) -> (swapchain: Swapchain)
        requires
            images@.len() <= MAX_SWAPCHAIN_IMAGES,
        ensures
            swapchain.handle == handle,
            swapchain.surface == info.surface,
            swapchain.images_view() == images@,
            swapchain.image_format == info.image_format,
            swapchain.extent == info.image_extent,
    {
        let mut list = image_list_new();
        let mut i: usize = 0;
        while i < images.len()
            invariant
                0 <= i <= images@.len(),
                images@.len() <= MAX_SWAPCHAIN_IMAGES,
                image_list_items(list) == images@.take(i as int),
            decreases images@.len() - i,
        {
            image_list_push(&mut list, images[i]);
            proof {
                assert(images@.take(i + 1) =~= images@.take(i as int).push(images@[i as int]));
            }
            i = i + 1;
        }
        proof {
            assert(images@.take(images@.len() as int) =~= images@);
        }
        Swapchain {
            handle,
            surface: info.surface,
            images: list,
            image_format: info.image_format,
            extent: info.image_extent,
        }
    }

    /// The images of the swapchain, in presentation order.
    pub fn images(&self) -> (images: &[u64])
        ensures
            images@ == self.images_view(),
    {
        image_list_as_slice(&self.images)
    }

    /// The format of the images.
    pub fn image_format(&self) -> (format: u32)
        ensures
            format == self.image_format,
    {
        self.image_format
    }

    /// The extent of the images.
    pub fn extent(&self) -> (extent: Extent2D)
        ensures
            extent == self.extent,
    {
        self.extent
    }

    /// The handle under which the swapchain is known.
    pub fn handle(&self) -> (handle: u64)
        ensures
            handle == self.handle,
    {
        self.handle
    }
}

} // verus!
