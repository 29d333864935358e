//! Negotiation of a swapchain against what the surface supports.

use vstd::prelude::*;
use crate::error::{ErrorKind, RendererError};
use crate::surface::{
    Extent, PresentMode, SurfaceCapabilities, SurfaceFormat, ANY_EXTENT, FORMAT_B8G8R8A8_SRGB,
    PRESENT_MODE_FIFO, PRESENT_MODE_MAILBOX,
};

verus! {

/// `v` brought down to `hi` first and then up to `lo`; where `lo > hi` the
/// lower bound wins.
pub open spec fn clamped(v: u32, lo: u32, hi: u32) -> u32 {
    let capped = if v <= hi { v } else { hi };
    if capped >= lo { capped } else { lo }
}

/// The extent of a swapchain built for `caps` when the window wants `desired`.
pub open spec fn extent_for(caps: SurfaceCapabilities, desired: Extent) -> Extent {
    if caps.any_extent() {
        Extent {
            width: clamped(desired.width, caps.min_image_extent.width, caps.max_image_extent.width),
            height: clamped(
                desired.height,
                caps.min_image_extent.height,
                caps.max_image_extent.height,
            ),
        }
    } else {
        caps.current_extent
    }
}

/// The number of images to ask for: one more than the minimum, held to the
/// maximum where the surface sets one.
pub open spec fn image_count_for(caps: SurfaceCapabilities) -> int {
    let wanted = caps.min_image_count + 1;
    if caps.max_image_count > 0 && wanted > caps.max_image_count {
        caps.max_image_count as int
    } else {
        wanted
    }
}

/// The format is the preferred one: 8-bit BGRA sRGB.
pub open spec fn is_preferred_format(f: SurfaceFormat) -> bool {
    f.format.0 == FORMAT_B8G8R8A8_SRGB
}

/// The present mode is mailbox.
pub open spec fn is_mailbox(m: PresentMode) -> bool {
    m.0 == PRESENT_MODE_MAILBOX
}

/// Position of the first preferred format at or after `from`, or the length
/// of `formats` where there is none.
pub open spec fn first_preferred(formats: Seq<SurfaceFormat>, from: int) -> int
    decreases formats.len() - from,
{
    if from < 0 || from >= formats.len() {
        formats.len() as int
    } else if is_preferred_format(formats[from]) {
        from
    } else {
        first_preferred(formats, from + 1)
    }
}

/// The format chosen among `formats`: the first preferred one, else the first
/// of the list; none where the list is empty.
pub open spec fn format_for(formats: Seq<SurfaceFormat>) -> Option<SurfaceFormat> {
    if formats.len() == 0 {
        None
    } else if first_preferred(formats, 0) < formats.len() {
        Some(formats[first_preferred(formats, 0)])
    } else {
        Some(formats[0])
    }
}

/// The present mode chosen among `modes`: mailbox where it is offered, FIFO
/// in every other case.
pub open spec fn present_mode_for(modes: Seq<PresentMode>) -> PresentMode {
    if exists|i: int| 0 <= i < modes.len() && is_mailbox(#[trigger] modes[i]) {
        PresentMode(PRESENT_MODE_MAILBOX)
    } else {
        PresentMode(PRESENT_MODE_FIFO)
    }
}

fn clamp(v: u32, lo: u32, hi: u32) -> (r: u32)
    ensures
        r == clamped(v, lo, hi),
{
    let capped: u32 = if v <= hi { v } else { hi };
    if capped >= lo { capped } else { lo }
}

/// Picks the swapchain extent: the surface's current extent as it stands, or,
/// where the surface leaves it open, `desired` clamped into the supported
/// range.
pub fn choose_extent(caps: &SurfaceCapabilities, desired: Extent) -> (e: Extent)
    ensures
        e == extent_for(*caps, desired),
        !caps.any_extent() ==> e == caps.current_extent,
        caps.any_extent() && caps.min_image_extent.le(desired) && desired.le(
            caps.max_image_extent,
        ) ==> e == desired,
        caps.any_extent() && caps.min_image_extent.le(caps.max_image_extent)
            ==> caps.min_image_extent.le(e) && e.le(caps.max_image_extent),
{
    if caps.current_extent.width != ANY_EXTENT {
        caps.current_extent
    } else {
        Extent {
            width: clamp(desired.width, caps.min_image_extent.width, caps.max_image_extent.width),
            height: clamp(
                desired.height,
                caps.min_image_extent.height,
                caps.max_image_extent.height,
            ),
        }
    }
}

/// Picks the number of swapchain images, or nothing where one more than the
/// minimum cannot be counted and the surface sets no maximum.
pub fn choose_image_count(caps: &SurfaceCapabilities) -> (n: Option<u32>)
    ensures
        n.is_some() <==> image_count_for(*caps) <= u32::MAX,
        n.is_some() ==> n.unwrap() == image_count_for(*caps),
        n.is_some() && caps.max_image_count > 0 ==> n.unwrap() <= caps.max_image_count,
        n.is_some() && caps.max_image_count == 0 ==> n.unwrap() == caps.min_image_count + 1,
        caps.max_image_count > 0 ==> n.is_some(),
{
    if caps.max_image_count > 0 && caps.min_image_count >= caps.max_image_count {
        Some(caps.max_image_count)
    } else if caps.min_image_count == u32::MAX {
        None
    } else {
        Some(caps.min_image_count + 1)
    }
}

/// `first_preferred` lands on a preferred format with none before it, or on
/// the end of a list that holds none from `from` on.
pub proof fn lemma_first_preferred(formats: Seq<SurfaceFormat>, from: int)
    requires
        0 <= from <= formats.len(),
    ensures
        from <= first_preferred(formats, from) <= formats.len(),
        first_preferred(formats, from) < formats.len() ==> is_preferred_format(
            formats[first_preferred(formats, from)],
        ),
        forall|j: int|
            from <= j < first_preferred(formats, from) ==> !is_preferred_format(
                #[trigger] formats[j],
            ),
    decreases formats.len() - from,
{
    if from < formats.len() && !is_preferred_format(formats[from]) {
        lemma_first_preferred(formats, from + 1);
    }
}

/// Picks the surface format: the first 8-bit BGRA sRGB entry wherever it
/// stands, else the first entry; nothing from an empty list.
pub fn choose_surface_format(formats: &Vec<SurfaceFormat>) -> (r: Option<SurfaceFormat>)
    ensures
        r == format_for(formats@),
        r.is_none() <==> formats@.len() == 0,
{
    if formats.len() == 0 {
        return None;
    }
    let mut i: usize = 0;
    while i < formats.len()
        invariant
            0 <= i <= formats@.len(),
            first_preferred(formats@, 0) == first_preferred(formats@, i as int),
        decreases formats@.len() - i,
    {
        if formats[i].format.0 == FORMAT_B8G8R8A8_SRGB {
            return Some(formats[i]);
        }
        i += 1;
    }
    Some(formats[0])
}

/// Picks the present mode: mailbox where the surface offers it, else FIFO,
/// whether or not the list names FIFO.
pub fn choose_present_mode(modes: &Vec<PresentMode>) -> (m: PresentMode)
    ensures
        m == present_mode_for(modes@),
{
    let mut i: usize = 0;
    while i < modes.len()
        invariant
            0 <= i <= modes@.len(),
            forall|j: int| 0 <= j < i ==> !is_mailbox(#[trigger] modes@[j]),
        decreases modes@.len() - i,
    {
        if modes[i].0 == PRESENT_MODE_MAILBOX {
            return PresentMode(PRESENT_MODE_MAILBOX);
        }
        i += 1;
    }
    PresentMode(PRESENT_MODE_FIFO)
}

/// What was settled for one swapchain build.
#[derive(Clone, Copy, Debug, PartialEq, Eq, Structural)]
pub struct SwapchainConfig {
    pub surface_format: SurfaceFormat,
    pub present_mode: PresentMode,
    pub extent: Extent,
    /// The number of images asked for; the swapchain may hold more.
    pub min_image_count: u32,
    pub pre_transform: u32,
}

/// What `negotiate` settles: every choice made as its own rule says, or a
/// swapchain failure where the surface offers no format or the image count
/// cannot be counted.
pub open spec fn config_for(
    caps: SurfaceCapabilities,
    formats: Seq<SurfaceFormat>,
    modes: Seq<PresentMode>,
    desired: Extent,
) -> Result<SwapchainConfig, RendererError> {
    if formats.len() == 0 || image_count_for(caps) > u32::MAX {
        Err(RendererError { kind: ErrorKind::SwapchainCreation, code: None })
    } else {
        Ok(
            SwapchainConfig {
                surface_format: format_for(formats).unwrap(),
                present_mode: present_mode_for(modes),
                extent: extent_for(caps, desired),
                min_image_count: image_count_for(caps) as u32,
                pre_transform: caps.current_transform,
            },
        )
    }
}

/// Settles format, present mode, extent and image count of a swapchain for a
/// window that wants `desired`; the transform is the surface's current one.
pub fn negotiate(
    caps: &SurfaceCapabilities,
    formats: &Vec<SurfaceFormat>,
    modes: &Vec<PresentMode>,
    desired: Extent,
) -> (r: Result<SwapchainConfig, RendererError>)
    ensures
        r == config_for(*caps, formats@, modes@, desired),
        r is Err <==> formats@.len() == 0 || (caps.max_image_count == 0 && caps.min_image_count
            == u32::MAX),
{
    let surface_format = match choose_surface_format(formats) {
        Some(f) => f,
        None => {
            return Err(RendererError::own(ErrorKind::SwapchainCreation));
        },
    };
    let min_image_count: u32 = match choose_image_count(caps) {
        Some(n) => n,
        None => {
            return Err(RendererError::own(ErrorKind::SwapchainCreation));
        },
    };
    Ok(
        SwapchainConfig {
            surface_format,
            present_mode: choose_present_mode(modes),
            extent: choose_extent(caps, desired),
            min_image_count,
            pre_transform: caps.current_transform,
        },
    )
}

} // verus!
