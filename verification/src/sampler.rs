//! The sampler of the texture.

use vstd::prelude::*;
use crate::vk::{BORDER_COLOR_INT_OPAQUE_BLACK, COMPARE_OP_ALWAYS, FILTER_LINEAR,
    SAMPLER_ADDRESS_MODE_REPEAT, SAMPLER_MIPMAP_MODE_LINEAR};

verus! {

/// Everything that the creation of the sampler is told. Levels of detail
/// stay at zero.
#[derive(Clone, Copy, Debug, PartialEq, Eq, Structural)]
pub struct Sampler {
    pub mag_filter: u32,
    pub min_filter: u32,
    pub mipmap_mode: u32,
    pub address_mode_u: u32,
    pub address_mode_v: u32,
    pub address_mode_w: u32,
    pub anisotropy_enable: bool,
    /// The most samples taken along the axis of anisotropy.
    pub max_anisotropy: u32,
    pub compare_enable: bool,
    pub compare_op: u32,
    pub border_color: u32,
    pub unnormalized_coordinates: bool,
}

/// Linear filtering, repeated in every direction, sixteen-fold anisotropic.
pub open spec fn spec_sampler() -> Sampler {
    Sampler {
        mag_filter: FILTER_LINEAR,
        min_filter: FILTER_LINEAR,
        mipmap_mode: SAMPLER_MIPMAP_MODE_LINEAR,
        address_mode_u: SAMPLER_ADDRESS_MODE_REPEAT,
        address_mode_v: SAMPLER_ADDRESS_MODE_REPEAT,
        address_mode_w: SAMPLER_ADDRESS_MODE_REPEAT,
        anisotropy_enable: true,
        max_anisotropy: 16,
        compare_enable: false,
        compare_op: COMPARE_OP_ALWAYS,
        border_color: BORDER_COLOR_INT_OPAQUE_BLACK,
        unnormalized_coordinates: false,
    }
}

impl Sampler {
    /// Describes the sampler of the texture.
    pub fn new() -> (sampler: Sampler)
        ensures
            sampler == spec_sampler(),
    {
        Sampler {
            mag_filter: FILTER_LINEAR,
            min_filter: FILTER_LINEAR,
            mipmap_mode: SAMPLER_MIPMAP_MODE_LINEAR,
            address_mode_u: SAMPLER_ADDRESS_MODE_REPEAT,
            address_mode_v: SAMPLER_ADDRESS_MODE_REPEAT,
            address_mode_w: SAMPLER_ADDRESS_MODE_REPEAT,
            anisotropy_enable: true,
            max_anisotropy: 16,
            compare_enable: false,
            compare_op: COMPARE_OP_ALWAYS,
            border_color: BORDER_COLOR_INT_OPAQUE_BLACK,
            unnormalized_coordinates: false,
        }
    }
}

} // verus!
