//! The pool that the one descriptor set is allocated from.

use vstd::prelude::*;
use crate::vk::DESCRIPTOR_TYPE_UNIFORM_BUFFER;

verus! {

/// How many descriptors of one type a pool holds.
#[derive(Clone, Copy, Debug, PartialEq, Eq, Structural)]
pub struct DescriptorPoolSize {
    pub descriptor_type: u32,
    pub descriptor_count: u32,
}

/// Everything that the creation of the descriptor pool is told.
#[derive(Clone, Copy, Debug, PartialEq, Eq, Structural)]
pub struct DescriptorPool {
    pub max_sets: u32,
    pub pool_size: DescriptorPoolSize,
}

impl DescriptorPool {
    /// Describes a pool for one set with one uniform block.
    pub fn new() -> (pool: DescriptorPool)
        ensures
            pool == (DescriptorPool {
                max_sets: 1,
                pool_size: DescriptorPoolSize {
                    descriptor_type: DESCRIPTOR_TYPE_UNIFORM_BUFFER,
                    descriptor_count: 1,
                },
            }),
    {
        DescriptorPool {
            max_sets: 1,
            pool_size: DescriptorPoolSize {
                descriptor_type: DESCRIPTOR_TYPE_UNIFORM_BUFFER,
                descriptor_count: 1,
            },
        }
    }
}

} // verus!
