//! The layout of the one descriptor set: the uniform block for the vertex
//! stage and, where the mesh is textured, a sampled image for the fragment
//! stage.

use vstd::prelude::*;
use crate::vk::{DESCRIPTOR_TYPE_COMBINED_IMAGE_SAMPLER, DESCRIPTOR_TYPE_UNIFORM_BUFFER,
    SHADER_STAGE_FRAGMENT_BIT, SHADER_STAGE_VERTEX_BIT};

verus! {

/// One binding of a descriptor set layout.
#[derive(Clone, Copy, Debug, PartialEq, Eq, Structural)]
pub struct DescriptorSetLayoutBinding {
    pub binding: u32,
    pub descriptor_type: u32,
    pub descriptor_count: u32,
    pub stage_flags: u32,
}

/// Everything that the creation of the descriptor set layout is told.
#[derive(Clone, Copy, Debug, PartialEq, Eq, Structural)]
pub struct DescriptorSetLayout {
    /// Binding 0: the uniform block.
    pub uniform_binding: DescriptorSetLayoutBinding,
    /// Binding 1: the sampled texture, where there is one.
    pub sampler_binding: Option<DescriptorSetLayoutBinding>,
}

/// The binding of the uniform block.
pub open spec fn spec_uniform_binding() -> DescriptorSetLayoutBinding {
    DescriptorSetLayoutBinding {
        binding: 0,
        descriptor_type: DESCRIPTOR_TYPE_UNIFORM_BUFFER,
        descriptor_count: 1,
        stage_flags: SHADER_STAGE_VERTEX_BIT,
    }
}

/// The binding of the sampled texture.
pub open spec fn spec_sampler_binding() -> DescriptorSetLayoutBinding {
    DescriptorSetLayoutBinding {
        binding: 1,
        descriptor_type: DESCRIPTOR_TYPE_COMBINED_IMAGE_SAMPLER,
        descriptor_count: 1,
        stage_flags: SHADER_STAGE_FRAGMENT_BIT,
    }
}

impl DescriptorSetLayout {
    /// The number of bindings in the layout.
    pub open spec fn spec_binding_count(&self) -> u32 {
        if self.sampler_binding is Some {
            2
        } else {
            1
        }
    }

    /// Describes the layout, with or without the sampled texture.
    pub fn new(textured: bool) -> (layout: DescriptorSetLayout)
        ensures
            layout.uniform_binding == spec_uniform_binding(),
            textured ==> layout.sampler_binding == Some(spec_sampler_binding()),
            !textured ==> layout.sampler_binding is None,
    {
        let uniform_binding = DescriptorSetLayoutBinding {
            binding: 0,
            descriptor_type: DESCRIPTOR_TYPE_UNIFORM_BUFFER,
            descriptor_count: 1,
            stage_flags: SHADER_STAGE_VERTEX_BIT,
        };
        let sampler_binding = if textured {
            Some(
                DescriptorSetLayoutBinding {
                    binding: 1,
                    descriptor_type: DESCRIPTOR_TYPE_COMBINED_IMAGE_SAMPLER,
                    descriptor_count: 1,
                    stage_flags: SHADER_STAGE_FRAGMENT_BIT,
                },
            )
        } else {
            None
        };
        DescriptorSetLayout { uniform_binding, sampler_binding }
    }

    /// The number of bindings in the layout.
    pub fn binding_count(&self) -> (count: u32)
        ensures
            count == self.spec_binding_count(),
    {
        match self.sampler_binding {
            Some(_) => 2,
            None => 1,
        }
    }
}

} // verus!
