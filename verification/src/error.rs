//! The conditions under which planning stops.

use vstd::prelude::*;

verus! {

/// Why a session cannot be set up or cannot go on.
#[derive(Clone, Copy, Debug, PartialEq, Eq, Structural)]
pub enum Error {
    /// An API call returned this code, which is neither success nor a
    /// condition that the frame loop recovers from.
    Api(i32),
    /// The instance reported no physical device at all.
    NoPhysicalDevices,
    /// No physical device has the queues, the extensions and the surface
    /// support that rendering needs.
    NoSuitableDevice,
    /// No queue family offers the requested operations, or none presents.
    NoQueueFamily,
    /// The surface offers no format.
    NoSurfaceFormat,
    /// No memory type is both admissible and has the required properties.
    NoSuitableMemoryType,
    /// None of the candidate formats has the required features.
    NoSupportedFormat,
    /// The pair of image layouts is not one that barriers are defined for.
    UnsupportedLayoutTransition,
    /// Validation was asked for and a validation layer is not installed.
    ValidationLayersUnavailable,
    /// The presentation engine named an image that the swapchain does not
    /// have.
    InvalidImageIndex,
    /// A swapchain generation was handed over without a view, a framebuffer
    /// and a command buffer for each image.
    IncompleteGeneration,
    /// The session was told of something that it was not waiting for.
    OutOfTurn,
}

/// What every fallible operation of the crate returns.
pub type VkcResult<T> = Result<T, Error>;

} // verus!
