//! What is written into the one descriptor set.

use vstd::prelude::*;
use crate::buffer::UNIFORM_BUFFER_BYTES;
use crate::vk::{DESCRIPTOR_TYPE_COMBINED_IMAGE_SAMPLER, DESCRIPTOR_TYPE_UNIFORM_BUFFER,
    IMAGE_LAYOUT_SHADER_READ_ONLY_OPTIMAL};

verus! {

/// What a descriptor points at.
#[derive(Clone, Copy, Debug, PartialEq, Eq, Structural)]
pub enum DescriptorResource {
    Buffer { buffer: u64, offset: u64, range: u64 },
    Image { sampler: u64, image_view: u64, image_layout: u32 },
}

/// One write into a descriptor set.
#[derive(Clone, Copy, Debug, PartialEq, Eq, Structural)]
pub struct WriteDescriptorSet {
    pub dst_set: u64,
    pub dst_binding: u32,
    pub dst_array_element: u32,
    pub descriptor_count: u32,
    pub descriptor_type: u32,
    pub resource: DescriptorResource,
}

/// A texture as a descriptor needs it: the view and the sampler.
#[derive(Clone, Copy, Debug, PartialEq, Eq, Structural)]
pub struct Texture {
    pub image_view: u64,
    pub sampler: u64,
}

/// The write that points binding 0 at the whole uniform block.
pub open spec fn spec_uniform_write(descriptor_set: u64, uniform_buffer: u64) -> WriteDescriptorSet {
    WriteDescriptorSet {
        dst_set: descriptor_set,
        dst_binding: 0,
        dst_array_element: 0,
        descriptor_count: 1,
        descriptor_type: DESCRIPTOR_TYPE_UNIFORM_BUFFER,
        resource: DescriptorResource::Buffer {
            buffer: uniform_buffer,
            offset: 0,
            range: UNIFORM_BUFFER_BYTES,
        },
    }
}

/// The write that points binding 1 at the texture, read by shaders.
pub open spec fn spec_texture_write(descriptor_set: u64, texture: Texture) -> WriteDescriptorSet {
    WriteDescriptorSet {
        dst_set: descriptor_set,
        dst_binding: 1,
        dst_array_element: 0,
        descriptor_count: 1,
        descriptor_type: DESCRIPTOR_TYPE_COMBINED_IMAGE_SAMPLER,
        resource: DescriptorResource::Image {
            sampler: texture.sampler,
            image_view: texture.image_view,
            image_layout: IMAGE_LAYOUT_SHADER_READ_ONLY_OPTIMAL,
        },
    }
}

/// The writes that fill `descriptor_set`: the uniform block, then the
/// texture where there is one.
pub open spec fn spec_descriptor_writes(
    descriptor_set: u64,
    uniform_buffer: u64,
    texture: Option<Texture>,
) -> Seq<WriteDescriptorSet> {
    match texture {
        Some(texture) => seq![
            spec_uniform_write(descriptor_set, uniform_buffer),
            spec_texture_write(descriptor_set, texture),
        ],
        None => seq![spec_uniform_write(descriptor_set, uniform_buffer)],
    }
}

/// Plans the writes that fill the descriptor set once it is allocated.
pub fn create_descriptor_set(
    descriptor_set: u64,
    uniform_buffer: u64,
    texture: Option<Texture>,
) -> (writes: Vec<WriteDescriptorSet>)
    ensures
        writes@ == spec_descriptor_writes(descriptor_set, uniform_buffer, texture),
{
    let mut writes: Vec<WriteDescriptorSet> = Vec::new();
    writes.push(
        WriteDescriptorSet {
            dst_set: descriptor_set,
            dst_binding: 0,
            dst_array_element: 0,
            descriptor_count: 1,
            descriptor_type: DESCRIPTOR_TYPE_UNIFORM_BUFFER,
            resource: DescriptorResource::Buffer {
                buffer: uniform_buffer,
                offset: 0,
                range: UNIFORM_BUFFER_BYTES,
            },
        },
    );
    match texture {
        Some(texture) => {
            writes.push(
                WriteDescriptorSet {
                    dst_set: descriptor_set,
                    dst_binding: 1,
                    dst_array_element: 0,
                    descriptor_count: 1,
                    descriptor_type: DESCRIPTOR_TYPE_COMBINED_IMAGE_SAMPLER,
                    resource: DescriptorResource::Image {
                        sampler: texture.sampler,
                        image_view: texture.image_view,
                        image_layout: IMAGE_LAYOUT_SHADER_READ_ONLY_OPTIMAL,
                    },
                },
            );
        },
        None => {},
    }
    assert(writes@ =~= spec_descriptor_writes(descriptor_set, uniform_buffer, texture));
    writes
}

} // verus!
