//! Resource lifecycle planning and per-frame synchronization rules for a
//! swapchain-based renderer, stated over plain values and proved.
//!
//! The crate decides; its caller talks to the device. Every function here
//! takes what the device reported as plain values and returns what the
//! device is to be told next, or the reason why the session ends.

use vstd::prelude::*;

pub mod buffer;
pub mod command_buffers;
pub mod command_pool;
pub mod depth;
pub mod descriptor_pool;
pub mod descriptor_set;
pub mod descriptor_set_layout;
pub mod device;
pub mod device_memory;
pub mod error;
pub mod frame;
pub mod framebuffer;
pub mod generation;
pub mod graphics_pipeline;
pub mod handle_list;
pub mod image;
pub mod image_view;
pub mod index_list;
pub mod instance;
pub mod lifecycle;
pub mod names;
pub mod pipeline_layout;
pub mod queue;
pub mod render_pass;
pub mod sampler;
pub mod shader_module;
pub mod swapchain;
pub mod texture;
pub mod version;
pub mod vertex;
pub mod vk;

use crate::error::{Error, VkcResult};
use crate::vk::{MemoryType, MAX_MEMORY_TYPES, SUCCESS};

verus! {

/// Memory type `index` may back a resource that admits the types in
/// `type_filter`, and has all of `properties`.
pub open spec fn memory_type_suits(
    memory_types: Seq<MemoryType>,
    index: int,
    type_filter: u32,
    properties: u32,
) -> bool {
    &&& 0 <= index < memory_types.len()
    &&& index < MAX_MEMORY_TYPES
    &&& type_filter & (1u32 << (index as u32)) != 0
    &&& memory_types[index].property_flags & properties == properties
}

/// Finds the first memory type that `type_filter` admits and that has all of
/// `properties`. That there is none is an error of its own.
pub fn find_memory_type(
    memory_types: &[MemoryType],
    type_filter: u32,
    properties: u32,
) -> (result: VkcResult<u32>)
    ensures
        match result {
            Ok(index) => {
                &&& memory_type_suits(memory_types@, index as int, type_filter, properties)
                &&& forall|j: int|
                    0 <= j < index ==> !memory_type_suits(
                        memory_types@,
                        j,
                        type_filter,
                        properties,
                    )
            },
            Err(e) => {
                &&& e == Error::NoSuitableMemoryType
                &&& forall|j: int| !memory_type_suits(memory_types@, j, type_filter, properties)
            },
        },
{
    let mut i: u32 = 0;
    while (i as usize) < memory_types.len() && (i as usize) < MAX_MEMORY_TYPES
        invariant
            0 <= i <= memory_types@.len(),
            i <= MAX_MEMORY_TYPES,
            forall|j: int|
                0 <= j < i ==> !memory_type_suits(memory_types@, j, type_filter, properties),
        decreases MAX_MEMORY_TYPES - i,
    {
        if (type_filter & (1u32 << i)) != 0 && (memory_types[i as usize].property_flags
            & properties) == properties {
            return Ok(i);
        }
        i = i + 1;
    }
    Err(Error::NoSuitableMemoryType)
}

/// Tells success from failure in the result code of an API call.
pub fn check(code: i32) -> (result: VkcResult<()>)
    ensures
        code == SUCCESS ==> result == Ok::<(), Error>(()),
        code != SUCCESS ==> result == Err::<(), Error>(Error::Api(code)),
{
    if code != SUCCESS {
        Err(Error::Api(code))
    } else {
        Ok(())
    }
}

} // verus!
