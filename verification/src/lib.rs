//! A client-side rendering core built around an explicit GPU protocol:
//! command recording, swapchain image acquisition, future-chained
//! asynchronous work, and recovery from swapchain invalidation.
//!
//! The crate verifies the decision-making half of that protocol.  Driver
//! objects (instances, logical devices, surfaces, shader binaries, GPU
//! memory) live with the caller; here they appear as plain values: queue
//! and buffer handles, image descriptions, format codes, and a tree of
//! scheduled-but-possibly-incomplete GPU work.
//!
//! The drawing flow is a state machine enforced by ownership transfer:
//! `Device` begins a `Frame`, the `Frame` opens a `PassInFrame` for each
//! render pass, draws are recorded, and finishing the frame hands the
//! `Device` back together with the future of the submitted work.

pub mod format;
pub mod sync;
pub mod pass;
pub mod builder;
pub mod swapchain;
pub mod device;
pub mod frame;
pub mod presets;

use vstd::prelude::*;
use crate::swapchain::ImageCreationError;
use crate::swapchain::SwapchainBackendError;

verus! {

/// Error during resizing of the presentable surface.
#[derive(Clone, Copy, Debug, PartialEq, Eq, Structural)]
pub enum ResizeError {
    /// The backend failed to recreate the swapchain at the new size.
    Swapchain(SwapchainBackendError),
    /// The backend failed to recreate a depth image at the new size.
    Image(ImageCreationError),
    /// The window has no apparent size.
    UnsizedWindow,
}

impl From<SwapchainBackendError> for ResizeError {
    fn from(err: SwapchainBackendError) -> (r: ResizeError) {
        ResizeError::Swapchain(err)
    }
}

impl vstd::std_specs::convert::FromSpecImpl<SwapchainBackendError> for ResizeError {
    open spec fn obeys_from_spec() -> bool {
        true
    }

    open spec fn from_spec(err: SwapchainBackendError) -> ResizeError {
        ResizeError::Swapchain(err)
    }
}

impl From<ImageCreationError> for ResizeError {
    fn from(err: ImageCreationError) -> (r: ResizeError) {
        ResizeError::Image(err)
    }
}

impl vstd::std_specs::convert::FromSpecImpl<ImageCreationError> for ResizeError {
    open spec fn obeys_from_spec() -> bool {
        true
    }

    open spec fn from_spec(err: ImageCreationError) -> ResizeError {
        ResizeError::Image(err)
    }
}

} // verus!
