//! The failures that the lifecycle reports.

use vstd::prelude::*;

verus! {

/// What went wrong, by the component that failed.
#[derive(Clone, Copy, Debug, PartialEq, Eq, Structural)]
pub enum ErrorKind {
    /// The loader, the instance or the surface could not be had.
    Initialization,
    /// No physical device, or no queue family that both draws and presents.
    NoSuitableDevice,
    /// The logical device was refused.
    DeviceCreation,
    /// The swapchain, its images or an image view could not be had, or the
    /// surface offers nothing to build one from.
    SwapchainCreation,
    /// The render pass was refused.
    RenderPassCreation,
    /// A framebuffer was refused.
    FramebufferCreation,
    /// The command pool, its buffers or a recording was refused.
    CommandRecording,
    /// An outcome was reported that answers no pending request.
    UnexpectedEvent,
}

/// A failure: its kind and, where a device call was refused, the result code
/// of that call.
#[derive(Clone, Copy, Debug, PartialEq, Eq)]
pub struct RendererError {
    pub kind: ErrorKind,
    pub code: Option<i32>,
}

impl RendererError {
    /// A failure that the library found by itself.
    pub fn own(kind: ErrorKind) -> (e: RendererError)
        ensures
            e == (RendererError { kind, code: None }),
    {
        RendererError { kind, code: None }
    }

    /// A failure of a device call that gave `code`.
    pub fn of_call(kind: ErrorKind, code: i32) -> (e: RendererError)
        ensures
            e == (RendererError { kind, code: Some(code) }),
    {
        RendererError { kind, code: Some(code) }
    }
}

} // verus!
