//! Device memory: how much is allocated, and of which type.

use vstd::prelude::*;
use crate::error::{Error, VkcResult};
use crate::find_memory_type;
use crate::memory_type_suits;
use crate::vk::{MemoryRequirements, MemoryType};

verus! {

/// One allocation of device memory.
#[derive(Clone, Copy, Debug, PartialEq, Eq, Structural)]
pub struct DeviceMemory {
    pub allocation_size: u64,
    pub memory_type_index: u32,
}

impl DeviceMemory {
    /// An allocation of `allocation_size` bytes of memory type
    /// `memory_type_index`.
    pub fn new(allocation_size: u64, memory_type_index: u32) -> (memory: DeviceMemory)
        ensures
            memory.allocation_size == allocation_size,
            memory.memory_type_index == memory_type_index,
    {
        DeviceMemory { allocation_size, memory_type_index }
    }

    /// The allocation that backs a resource with `requirements`: as large as
    /// the resource requires, and of the first memory type that the resource
    /// admits and that has all of `properties`.
    pub fn for_requirements(
        requirements: &MemoryRequirements,
        properties: u32,
        memory_types: &[MemoryType],
    ) -> (result: VkcResult<DeviceMemory>)
        ensures
            match result {
                Ok(memory) => {
                    &&& memory.allocation_size == requirements.size
                    &&& memory_type_suits(
                        memory_types@,
                        memory.memory_type_index as int,
                        requirements.memory_type_bits,
                        properties,
                    )
                    &&& forall|j: int|
                        0 <= j < memory.memory_type_index ==> !memory_type_suits(
                            memory_types@,
                            j,
                            requirements.memory_type_bits,
                            properties,
                        )
                },
                Err(e) => {
                    &&& e == Error::NoSuitableMemoryType
                    &&& forall|j: int|
                        !memory_type_suits(
                            memory_types@,
                            j,
                            requirements.memory_type_bits,
                            properties,
                        )
                },
            },
    {
        match find_memory_type(memory_types, requirements.memory_type_bits, properties) {
            Ok(memory_type_index) => Ok(DeviceMemory::new(requirements.size, memory_type_index)),
            Err(e) => Err(e),
        }
    }
}

} // verus!
