//! Choosing the physical device, and what the creation of the logical
//! device is told.

use vstd::prelude::*;
use crate::error::{Error, VkcResult};
use crate::names::{contains_all_names, name_from, spec_contains_name};
use crate::queue::{Queue, QueueFamilyIndices, first_family_with_flags,
    lemma_first_family_with_flags, queue_families, MAX_QUEUE_FAMILIES};
use crate::swapchain::SwapchainSupportDetails;
use crate::vk::QueueFamilyProperties;

verus! {

/// The name of the extension that swapchains come with.
pub open spec fn swapchain_extension_name() -> Seq<u8> {
    seq![86, 75, 95, 75, 72, 82, 95, 115, 119, 97, 112, 99, 104, 97, 105, 110]
}

/// The device extensions that rendering to a surface needs.
pub fn required_extensions() -> (names: Vec<Vec<u8>>)
    ensures
        names@.len() == 1,
        names@[0]@ == swapchain_extension_name(),
{
    let name: [u8; 16] = [86, 75, 95, 75, 72, 82, 95, 115, 119, 97, 112, 99, 104, 97, 105, 110];
    let bytes = name_from(name.as_slice());
    assert(bytes@ =~= swapchain_extension_name());
    let mut names: Vec<Vec<u8>> = Vec::new();
    names.push(bytes);
    names
}

/// Every required device extension is among `available`.
pub open spec fn spec_extensions_supported(available: Seq<Vec<u8>>) -> bool {
    exists|j: int| 0 <= j < available.len() && (#[trigger] available[j])@
        == swapchain_extension_name()
}

/// Whether the device offers every extension that rendering to a surface
/// needs.
pub fn check_device_extension_support(available_extensions: &[Vec<u8>]) -> (supported: bool)
    ensures
        supported == spec_extensions_supported(available_extensions@),
{
    let required = required_extensions();
    let supported = contains_all_names(available_extensions, required.as_slice());
    proof {
        if spec_extensions_supported(available_extensions@) {
            assert forall|i: int| 0 <= i < required@.len() implies spec_contains_name(
                available_extensions@,
                (#[trigger] required@[i])@,
            ) by {
                assert(i == 0);
            }
        }
        if supported {
            assert(spec_contains_name(available_extensions@, required@[0]@));
        }
    }
    supported
}

/// What is known of one physical device before it is chosen.
pub struct PhysicalDeviceInfo {
    pub handle: u64,
    pub queue_families: Vec<QueueFamilyProperties>,
    /// The names of the device extensions on offer.
    pub extensions: Vec<Vec<u8>>,
    /// What the device supports on the surface. It is read only where the
    /// swapchain extension is on offer.
    pub swapchain_support: SwapchainSupportDetails,
}

/// The device serves: one of its families has a queue with the operations in
/// `queue_flags`, it offers the required extensions, and the surface has a
/// format and a present mode for it.
pub open spec fn spec_device_is_suitable(info: PhysicalDeviceInfo, queue_flags: u32) -> bool {
    &&& first_family_with_flags(info.queue_families@, queue_flags) < info.queue_families@.len()
    &&& spec_extensions_supported(info.extensions@)
    &&& info.swapchain_support.spec_is_adequate()
}

/// Whether the device can render to the surface.
pub fn device_is_suitable(info: &PhysicalDeviceInfo, queue_flags: u32) -> (suitable: bool)
    requires
        info.queue_families@.len() <= MAX_QUEUE_FAMILIES,
    ensures
        suitable == spec_device_is_suitable(*info, queue_flags),
{
    let extensions_supported = check_device_extension_support(info.extensions.as_slice());
    let mut swap_chain_adequate = false;
    if extensions_supported {
        swap_chain_adequate = info.swapchain_support.is_adequate();
    }
    let indices = queue_families(info.queue_families.as_slice(), info.handle, queue_flags);
    proof {
        lemma_first_family_with_flags(info.queue_families@, queue_flags);
    }
    indices.is_complete() && extensions_supported && swap_chain_adequate
}

/// Chooses the first physical device that can render to the surface, by its
/// place in `devices`. That there is none is an error.
pub fn choose_physical_device(
    devices: &[PhysicalDeviceInfo],
    queue_flags: u32,
) -> (result: VkcResult<usize>)
    requires
        forall|i: int|
            0 <= i < devices@.len() ==> (#[trigger] devices@[i]).queue_families@.len()
                <= MAX_QUEUE_FAMILIES,
    ensures
        match result {
            Ok(chosen) => {
                &&& chosen < devices@.len()
                &&& spec_device_is_suitable(devices@[chosen as int], queue_flags)
                &&& forall|j: int|
                    0 <= j < chosen ==> !spec_device_is_suitable(#[trigger] devices@[j], queue_flags)
            },
            Err(e) => {
                &&& e == Error::NoSuitableDevice
                &&& forall|j: int|
                    0 <= j < devices@.len() ==> !spec_device_is_suitable(
                        #[trigger] devices@[j],
                        queue_flags,
                    )
            },
        },
{
    let mut i: usize = 0;
    while i < devices.len()
        invariant
            0 <= i <= devices@.len(),
            forall|k: int|
                0 <= k < devices@.len() ==> (#[trigger] devices@[k]).queue_families@.len()
                    <= MAX_QUEUE_FAMILIES,
            forall|j: int|
                0 <= j < i ==> !spec_device_is_suitable(#[trigger] devices@[j], queue_flags),
        decreases devices@.len() - i,
    {
        if device_is_suitable(&devices[i], queue_flags) {
            return Ok(i);
        }
        i = i + 1;
    }
    Err(Error::NoSuitableDevice)
}

/// The optional features of a device, each on or off.
#[derive(Clone, Copy, Debug, PartialEq, Eq, Structural)]
pub struct PhysicalDeviceFeatures {
    pub robust_buffer_access: bool,
    pub full_draw_index_uint32: bool,
    pub image_cube_array: bool,
    pub independent_blend: bool,
    pub geometry_shader: bool,
    pub tessellation_shader: bool,
    pub sample_rate_shading: bool,
    pub dual_src_blend: bool,
    pub logic_op: bool,
    pub multi_draw_indirect: bool,
    pub draw_indirect_first_instance: bool,
    pub depth_clamp: bool,
    pub depth_bias_clamp: bool,
    pub fill_mode_non_solid: bool,
    pub depth_bounds: bool,
    pub wide_lines: bool,
    pub large_points: bool,
    pub alpha_to_one: bool,
    pub multi_viewport: bool,
    pub sampler_anisotropy: bool,
    pub texture_compression_etc2: bool,
    pub texture_compression_astc_ldr: bool,
    pub texture_compression_bc: bool,
    pub occlusion_query_precise: bool,
    pub pipeline_statistics_query: bool,
    pub vertex_pipeline_stores_and_atomics: bool,
    pub fragment_stores_and_atomics: bool,
    pub shader_tessellation_and_geometry_point_size: bool,
    pub shader_image_gather_extended: bool,
    pub shader_storage_image_extended_formats: bool,
    pub shader_storage_image_multisample: bool,
    pub shader_storage_image_read_without_format: bool,
    pub shader_storage_image_write_without_format: bool,
    pub shader_uniform_buffer_array_dynamic_indexing: bool,
    pub shader_sampled_image_array_dynamic_indexing: bool,
    pub shader_storage_buffer_array_dynamic_indexing: bool,
    pub shader_storage_image_array_dynamic_indexing: bool,
    pub shader_clip_distance: bool,
    pub shader_cull_distance: bool,
    pub shader_float64: bool,
    pub shader_int64: bool,
    pub shader_int16: bool,
    pub shader_resource_residency: bool,
    pub shader_resource_min_lod: bool,
    pub sparse_binding: bool,
    pub sparse_residency_buffer: bool,
    pub sparse_residency_image2d: bool,
    pub sparse_residency_image3d: bool,
    pub sparse_residency2_samples: bool,
    pub sparse_residency4_samples: bool,
    pub sparse_residency8_samples: bool,
    pub sparse_residency16_samples: bool,
    pub sparse_residency_aliased: bool,
    pub variable_multisample_rate: bool,
    pub inherited_queries: bool,
}

/// No optional feature is on.
pub open spec fn spec_device_features_none() -> PhysicalDeviceFeatures {
    PhysicalDeviceFeatures {
        robust_buffer_access: false,
        full_draw_index_uint32: false,
        image_cube_array: false,
        independent_blend: false,
        geometry_shader: false,
        tessellation_shader: false,
        sample_rate_shading: false,
        dual_src_blend: false,
        logic_op: false,
        multi_draw_indirect: false,
        draw_indirect_first_instance: false,
        depth_clamp: false,
        depth_bias_clamp: false,
        fill_mode_non_solid: false,
        depth_bounds: false,
        wide_lines: false,
        large_points: false,
        alpha_to_one: false,
        multi_viewport: false,
        sampler_anisotropy: false,
        texture_compression_etc2: false,
        texture_compression_astc_ldr: false,
        texture_compression_bc: false,
        occlusion_query_precise: false,
        pipeline_statistics_query: false,
        vertex_pipeline_stores_and_atomics: false,
        fragment_stores_and_atomics: false,
        shader_tessellation_and_geometry_point_size: false,
        shader_image_gather_extended: false,
        shader_storage_image_extended_formats: false,
        shader_storage_image_multisample: false,
        shader_storage_image_read_without_format: false,
        shader_storage_image_write_without_format: false,
        shader_uniform_buffer_array_dynamic_indexing: false,
        shader_sampled_image_array_dynamic_indexing: false,
        shader_storage_buffer_array_dynamic_indexing: false,
        shader_storage_image_array_dynamic_indexing: false,
        shader_clip_distance: false,
        shader_cull_distance: false,
        shader_float64: false,
        shader_int64: false,
        shader_int16: false,
        shader_resource_residency: false,
        shader_resource_min_lod: false,
        sparse_binding: false,
        sparse_residency_buffer: false,
        sparse_residency_image2d: false,
        sparse_residency_image3d: false,
        sparse_residency2_samples: false,
        sparse_residency4_samples: false,
        sparse_residency8_samples: false,
        sparse_residency16_samples: false,
        sparse_residency_aliased: false,
        variable_multisample_rate: false,
        inherited_queries: false,
    }
}

/// The features of a device on which no optional feature is enabled.
pub fn device_features_none() -> (features: PhysicalDeviceFeatures)
    ensures
        features == spec_device_features_none(),
{
    PhysicalDeviceFeatures {
        robust_buffer_access: false,
        full_draw_index_uint32: false,
        image_cube_array: false,
        independent_blend: false,
        geometry_shader: false,
        tessellation_shader: false,
        sample_rate_shading: false,
        dual_src_blend: false,
        logic_op: false,
        multi_draw_indirect: false,
        draw_indirect_first_instance: false,
        depth_clamp: false,
        depth_bias_clamp: false,
        fill_mode_non_solid: false,
        depth_bounds: false,
        wide_lines: false,
        large_points: false,
        alpha_to_one: false,
        multi_viewport: false,
        sampler_anisotropy: false,
        texture_compression_etc2: false,
        texture_compression_astc_ldr: false,
        texture_compression_bc: false,
        occlusion_query_precise: false,
        pipeline_statistics_query: false,
        vertex_pipeline_stores_and_atomics: false,
        fragment_stores_and_atomics: false,
        shader_tessellation_and_geometry_point_size: false,
        shader_image_gather_extended: false,
        shader_storage_image_extended_formats: false,
        shader_storage_image_multisample: false,
        shader_storage_image_read_without_format: false,
        shader_storage_image_write_without_format: false,
        shader_uniform_buffer_array_dynamic_indexing: false,
        shader_sampled_image_array_dynamic_indexing: false,
        shader_storage_buffer_array_dynamic_indexing: false,
        shader_storage_image_array_dynamic_indexing: false,
        shader_clip_distance: false,
        shader_cull_distance: false,
        shader_float64: false,
        shader_int64: false,
        shader_int16: false,
        shader_resource_residency: false,
        shader_resource_min_lod: false,
        sparse_binding: false,
        sparse_residency_buffer: false,
        sparse_residency_image2d: false,
        sparse_residency_image3d: false,
        sparse_residency2_samples: false,
        sparse_residency4_samples: false,
        sparse_residency8_samples: false,
        sparse_residency16_samples: false,
        sparse_residency_aliased: false,
        variable_multisample_rate: false,
        inherited_queries: false,
    }
}

/// Everything that the creation of the logical device is told: one queue of
/// one family, the layers and extensions to enable, and the features.
pub struct Device {
    pub physical_device: u64,
    pub queue_family_idx: u32,
    pub queue_count: u32,
    pub enabled_layer_names: Vec<Vec<u8>>,
    pub enabled_extension_names: Vec<Vec<u8>>,
    pub enabled_features: PhysicalDeviceFeatures,
}

impl Device {
    /// Plans the logical device on the physical device that `indices` were
    /// found for: one queue of the first family found, the given layers, the
    /// required extensions and no optional feature. Fails where no family
    /// was found.
    pub fn new(
        indices: &QueueFamilyIndices,
        enabled_layer_names: Vec<Vec<u8>>,
    ) -> (result: VkcResult<Device>)
        ensures
            indices.flag_view().len() == 0 ==> result is Err && result->Err_0
                == Error::NoQueueFamily,
            indices.flag_view().len() > 0 ==> {
                &&& result is Ok
                &&& result->Ok_0.physical_device == indices.physical_device
                &&& result->Ok_0.queue_family_idx == indices.flag_view()[0] as u32
                &&& result->Ok_0.queue_count == 1
                &&& result->Ok_0.enabled_layer_names == enabled_layer_names
                &&& result->Ok_0.enabled_extension_names@.len() == 1
                &&& result->Ok_0.enabled_extension_names@[0]@ == swapchain_extension_name()
                &&& result->Ok_0.enabled_features == spec_device_features_none()
            },
    {
        let families = indices.family_idxs();
        if families.len() == 0 {
            return Err(Error::NoQueueFamily);
        }
        let queue_family_idx: u32 = families[0] as u32;
        Ok(
            Device {
                physical_device: indices.physical_device,
                queue_family_idx,
                queue_count: 1,
                enabled_layer_names,
                enabled_extension_names: required_extensions(),
                enabled_features: device_features_none(),
            },
        )
    }

    /// The queue at `queue_idx` in the family of the device.
    pub fn queue(&self, queue_idx: u32) -> (queue: Queue)
        ensures
            queue.family_idx == self.queue_family_idx,
            queue.idx == queue_idx,
    {
        Queue::new(self.queue_family_idx, queue_idx)
    }

    /// The physical device that the logical device is made on.
    pub fn physical_device(&self) -> (handle: u64)
        ensures
            handle == self.physical_device,
    {
        self.physical_device
    }
}

} // verus!
