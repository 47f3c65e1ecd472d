//! The command pool, on the queue family that renders.

use vstd::prelude::*;
use crate::error::{Error, VkcResult};
use crate::queue::QueueFamilyIndices;

verus! {

/// Everything that the creation of the command pool is told.
#[derive(Clone, Copy, Debug, PartialEq, Eq, Structural)]
pub struct CommandPool {
    pub queue_family_index: u32,
}

impl CommandPool {
    /// Describes a command pool on the first family that was found to offer
    /// the requested operations. Fails where none was found.
    pub fn new(indices: &QueueFamilyIndices) -> (result: VkcResult<CommandPool>)
        ensures
            indices.flag_view().len() == 0 ==> result == Err::<CommandPool, Error>(
                Error::NoQueueFamily,
            ),
            indices.flag_view().len() > 0 ==> result == Ok::<CommandPool, Error>(
                CommandPool { queue_family_index: indices.flag_view()[0] as u32 },
            ),
    {
        let families = indices.family_idxs();
        if families.len() == 0 {
            return Err(Error::NoQueueFamily);
        }
        Ok(CommandPool { queue_family_index: families[0] as u32 })
    }
}

} // verus!
