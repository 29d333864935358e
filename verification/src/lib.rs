//! Bootstrap and swapchain lifecycle of a windowed graphics device.
//!
//! The crate holds the decisions of the lifecycle: which queue family is
//! picked, how the swapchain is negotiated against the surface, what each
//! creation call is handed, in which order the context advances and in which
//! order its handles are destroyed. The host performs the device calls and
//! reports their outcome; every handle is carried as its raw 64-bit value.

pub mod error;
pub mod surface;
pub mod negotiate;
pub mod queue;
pub mod describe;
pub mod context;
pub mod renderer;
pub mod laws;
