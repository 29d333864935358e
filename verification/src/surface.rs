//! Plain values that describe a presentation surface.

use vstd::prelude::*;

verus! {

/// Width reported in `current_extent` by a surface that accepts any extent.
pub const ANY_EXTENT: u32 = 0xFFFF_FFFF;

/// Width asked for when the surface leaves the extent open and nobody has
/// resized the window yet.
pub const DEFAULT_WIDTH: u32 = 800;

/// Height that goes with [`DEFAULT_WIDTH`].
pub const DEFAULT_HEIGHT: u32 = 600;

/// Code of the 8-bit BGRA sRGB pixel format.
pub const FORMAT_B8G8R8A8_SRGB: i32 = 50;

/// Code of the mailbox present mode: low latency, never blocks.
pub const PRESENT_MODE_MAILBOX: i32 = 1;

/// Code of the FIFO present mode, which every implementation supports.
pub const PRESENT_MODE_FIFO: i32 = 2;

/// Width and height in pixels.
#[derive(Clone, Copy, Debug, PartialEq, Eq, Structural)]
pub struct Extent {
    pub width: u32,
    pub height: u32,
}

/// A pixel format, by its code.
#[derive(Clone, Copy, Debug, PartialEq, Eq, Structural)]
pub struct Format(pub i32);

/// A colour space, by its code.
#[derive(Clone, Copy, Debug, PartialEq, Eq, Structural)]
pub struct ColorSpace(pub i32);

/// A present mode, by its code.
#[derive(Clone, Copy, Debug, PartialEq, Eq, Structural)]
pub struct PresentMode(pub i32);

/// A format and colour space that the surface can present.
#[derive(Clone, Copy, Debug, PartialEq, Eq, Structural)]
pub struct SurfaceFormat {
    pub format: Format,
    pub color_space: ColorSpace,
}

/// What a surface reports about the swapchains it accepts. Queried anew
/// before every swapchain build.
#[derive(Clone, Copy, Debug, PartialEq, Eq, Structural)]
pub struct SurfaceCapabilities {
    pub min_image_count: u32,
    /// Zero means that the surface sets no upper limit.
    pub max_image_count: u32,
    /// A width of [`ANY_EXTENT`] means that the swapchain decides.
    pub current_extent: Extent,
    pub min_image_extent: Extent,
    pub max_image_extent: Extent,
    /// The transform bit that the surface currently applies.
    pub current_transform: u32,
}

impl Extent {
    /// The extent asked for before the window was ever resized: 800 by 600.
    pub open spec fn default_window_spec() -> Extent {
        Extent { width: DEFAULT_WIDTH, height: DEFAULT_HEIGHT }
    }

    /// The extent asked for before the window was ever resized.
    #[verifier::when_used_as_spec(default_window_spec)]
    pub fn default_window() -> (e: Extent)
        ensures
            e == Extent::default_window_spec(),
    {
        Extent { width: DEFAULT_WIDTH, height: DEFAULT_HEIGHT }
    }

    /// Both components of `self` are at most those of `other`.
    pub open spec fn le(self, other: Extent) -> bool {
        self.width <= other.width && self.height <= other.height
    }
}

impl SurfaceCapabilities {
    /// The surface leaves the extent to the swapchain.
    pub open spec fn any_extent(self) -> bool {
        self.current_extent.width == ANY_EXTENT
    }
}

} // verus!
