//! Swapchain configuration: surface format, present mode, extent and image
//! count chosen from what the surface supports.
use vstd::prelude::*;

verus! {

/// `VK_FORMAT_B8G8R8A8_SRGB`.
pub const FORMAT_B8G8R8A8_SRGB: i32 = 50;

/// `VK_COLOR_SPACE_SRGB_NONLINEAR_KHR`.
pub const COLOR_SPACE_SRGB_NONLINEAR: i32 = 0;

/// `VK_PRESENT_MODE_MAILBOX_KHR`.
pub const PRESENT_MODE_MAILBOX: i32 = 1;

/// `VK_PRESENT_MODE_FIFO_KHR`, which every surface supports.
pub const PRESENT_MODE_FIFO: i32 = 2;

/// The width the surface reports when the swapchain decides the extent.
pub const EXTENT_UNDEFINED: u32 = 0xFFFF_FFFF;

/// `VK_FORMAT_FEATURE_DEPTH_STENCIL_ATTACHMENT_BIT`.
pub const FEATURE_DEPTH_STENCIL_ATTACHMENT: u32 = 0x200;

/// A width and height in pixels.
#[derive(Clone, Copy, Debug, PartialEq, Eq, Structural)]
pub struct Extent2D {
    pub width: u32,
    pub height: u32,
}

/// What the surface reports of the images a swapchain may have.
#[derive(Clone, Copy, Debug, PartialEq, Eq, Structural)]
pub struct SurfaceCapabilities {
    pub min_image_count: u32,
    /// Zero when there is no upper bound.
    pub max_image_count: u32,
    pub current_extent: Extent2D,
    pub min_image_extent: Extent2D,
    pub max_image_extent: Extent2D,
}

/// A pixel format together with its colour space, as raw Vulkan codes.
#[derive(Clone, Copy, Debug, PartialEq, Eq, Structural)]
pub struct SurfaceFormat {
    pub format: i32,
    pub color_space: i32,
}

/// Everything a device reports of its support for the active surface.
#[derive(Debug)]
pub struct SurfaceSupport {
    pub capabilities: SurfaceCapabilities,
    pub formats: Vec<SurfaceFormat>,
    pub present_modes: Vec<i32>,
}

/// Why no swapchain can be configured.
#[derive(Clone, Copy, Debug, PartialEq, Eq, Structural)]
pub enum SwapchainError {
    /// The surface reports no format at all.
    NoSurfaceFormat,
    /// The chosen extent has no area.
    ZeroExtent,
    /// No candidate depth format can serve as a depth attachment.
    NoDepthFormat,
}

/// A candidate format and the features the device offers for it with
/// optimal tiling.
#[derive(Clone, Copy, Debug, PartialEq, Eq, Structural)]
pub struct FormatFeatures {
    pub format: i32,
    pub optimal_tiling_features: u32,
}

/// The format can be a depth attachment with optimal tiling.
pub open spec fn depth_capable(f: FormatFeatures) -> bool {
    f.optimal_tiling_features & FEATURE_DEPTH_STENCIL_ATTACHMENT == FEATURE_DEPTH_STENCIL_ATTACHMENT
}

/// The configuration of one swapchain generation.
#[derive(Clone, Copy, Debug, PartialEq, Eq, Structural)]
pub struct SwapchainPlan {
    pub format: SurfaceFormat,
    pub present_mode: i32,
    pub extent: Extent2D,
    pub image_count: u32,
}

pub open spec fn is_preferred_format(f: SurfaceFormat) -> bool {
    f.format == FORMAT_B8G8R8A8_SRGB && f.color_space == COLOR_SPACE_SRGB_NONLINEAR
}

/// The preferred 8-bit BGRA sRGB format when offered, else the first one.
pub open spec fn format_choice(formats: Seq<SurfaceFormat>) -> SurfaceFormat
    recommends
        formats.len() > 0,
{
    if exists|i: int| 0 <= i < formats.len() && is_preferred_format(#[trigger] formats[i]) {
        SurfaceFormat { format: FORMAT_B8G8R8A8_SRGB, color_space: COLOR_SPACE_SRGB_NONLINEAR }
    } else {
        formats[0]
    }
}

/// Mailbox when offered, else FIFO.
pub open spec fn present_mode_choice(modes: Seq<i32>) -> i32 {
    if modes.contains(PRESENT_MODE_MAILBOX) {
        PRESENT_MODE_MAILBOX
    } else {
        PRESENT_MODE_FIFO
    }
}

/// `x` brought into `[lo, hi]`; `lo` wins when the range is empty.
pub open spec fn clamp_spec(x: u32, lo: u32, hi: u32) -> u32 {
    if x > hi {
        if lo > hi { lo } else { hi }
    } else if x < lo {
        lo
    } else {
        x
    }
}

/// The surface's own extent when it fixes one, else the window's size
/// clamped to the surface's bounds.
pub open spec fn extent_choice(caps: SurfaceCapabilities, window: Extent2D) -> Extent2D {
    if caps.current_extent.width != EXTENT_UNDEFINED {
        caps.current_extent
    } else {
        Extent2D {
            width: clamp_spec(window.width, caps.min_image_extent.width, caps.max_image_extent.width),
            height: clamp_spec(window.height, caps.min_image_extent.height, caps.max_image_extent.height),
        }
    }
}

/// One image more than the minimum, bounded by the maximum when there is one
/// (and by the largest `u32`).
pub open spec fn image_count_choice(caps: SurfaceCapabilities) -> u32 {
    let wanted: int = if caps.min_image_count == u32::MAX {
        u32::MAX as int
    } else {
        caps.min_image_count + 1
    };
    if caps.max_image_count > 0 && wanted > caps.max_image_count {
        caps.max_image_count
    } else {
        wanted as u32
    }
}

pub open spec fn has_area(e: Extent2D) -> bool {
    e.width > 0 && e.height > 0
}

/// The plan for a swapchain on a surface with `caps`, `formats` and `modes`,
/// for a window of size `window`.
pub open spec fn plan_of(
    caps: SurfaceCapabilities,
    formats: Seq<SurfaceFormat>,
    modes: Seq<i32>,
    window: Extent2D,
) -> Result<SwapchainPlan, SwapchainError> {
    if formats.len() == 0 {
        Err(SwapchainError::NoSurfaceFormat)
    } else if !has_area(extent_choice(caps, window)) {
        Err(SwapchainError::ZeroExtent)
    } else {
        Ok(
            SwapchainPlan {
                format: format_choice(formats),
                present_mode: present_mode_choice(modes),
                extent: extent_choice(caps, window),
                image_count: image_count_choice(caps),
            },
        )
    }
}

/// Picks the first candidate, in order of preference, that can be a depth
/// attachment with optimal tiling.
pub fn choose_depth_format(candidates: &Vec<FormatFeatures>) -> (r: Result<i32, SwapchainError>)
    ensures
        r is Ok <==> exists|i: int| 0 <= i < candidates@.len() && depth_capable(#[trigger] candidates@[i]),
        r is Ok ==> exists|i: int|
            0 <= i < candidates@.len() && depth_capable(candidates@[i]) && candidates@[i].format == r->Ok_0
                && forall|j: int| 0 <= j < i ==> !depth_capable(#[trigger] candidates@[j]),
        r is Err ==> r->Err_0 == SwapchainError::NoDepthFormat,
{
    let mut i: usize = 0;
    while i < candidates.len()
        invariant
            i <= candidates@.len(),
            forall|j: int| 0 <= j < i ==> !depth_capable(#[trigger] candidates@[j]),
        decreases candidates@.len() - i,
    {
        let c = candidates[i];
        if c.optimal_tiling_features & FEATURE_DEPTH_STENCIL_ATTACHMENT == FEATURE_DEPTH_STENCIL_ATTACHMENT {
            assert(depth_capable(candidates@[i as int]));
            return Ok(c.format);
        }
        i += 1;
    }
    Err(SwapchainError::NoDepthFormat)
}

/// Picks 8-bit BGRA with the sRGB colour space when the surface offers it,
/// else the first reported format; `None` when none is reported.
pub fn choose_surface_format(formats: &Vec<SurfaceFormat>) -> (r: Option<SurfaceFormat>)
    ensures
        formats@.len() == 0 <==> r is None,
        r is Some ==> r->0 == format_choice(formats@),
{
    if formats.len() == 0 {
        return None;
    }
    let mut i: usize = 0;
    while i < formats.len()
        invariant
            i <= formats@.len(),
            forall|j: int| 0 <= j < i ==> !is_preferred_format(#[trigger] formats@[j]),
        decreases formats@.len() - i,
    {
        let f = formats[i];
        if f.format == FORMAT_B8G8R8A8_SRGB && f.color_space == COLOR_SPACE_SRGB_NONLINEAR {
            return Some(f);
        }
        i += 1;
    }
    Some(formats[0])
}

/// Picks mailbox when the surface offers it, else FIFO.
pub fn choose_present_mode(modes: &Vec<i32>) -> (r: i32)
    ensures
        r == present_mode_choice(modes@),
{
    let mut i: usize = 0;
    while i < modes.len()
        invariant
            i <= modes@.len(),
            forall|j: int| 0 <= j < i ==> modes@[j] != PRESENT_MODE_MAILBOX,
        decreases modes@.len() - i,
    {
        if modes[i] == PRESENT_MODE_MAILBOX {
            assert(modes@.contains(PRESENT_MODE_MAILBOX)) by {
                assert(modes@[i as int] == PRESENT_MODE_MAILBOX);
            }
            return PRESENT_MODE_MAILBOX;
        }
        i += 1;
    }
    PRESENT_MODE_FIFO
}

fn clamp_u32(x: u32, lo: u32, hi: u32) -> (r: u32)
    ensures
        r == clamp_spec(x, lo, hi),
{
    if x > hi {
        if lo > hi { lo } else { hi }
    } else if x < lo {
        lo
    } else {
        x
    }
}

/// The extent of the swapchain images for a window of size `window`.
pub fn choose_extent(caps: &SurfaceCapabilities, window: Extent2D) -> (r: Extent2D)
    ensures
        r == extent_choice(*caps, window),
{
    if caps.current_extent.width != EXTENT_UNDEFINED {
        caps.current_extent
    } else {
        Extent2D {
            width: clamp_u32(window.width, caps.min_image_extent.width, caps.max_image_extent.width),
            height: clamp_u32(window.height, caps.min_image_extent.height, caps.max_image_extent.height),
        }
    }
}

/// The number of swapchain images to ask for.
pub fn choose_image_count(caps: &SurfaceCapabilities) -> (r: u32)
    ensures
        r == image_count_choice(*caps),
{
    let wanted = caps.min_image_count.saturating_add(1);
    if caps.max_image_count > 0 && wanted > caps.max_image_count {
        caps.max_image_count
    } else {
        wanted
    }
}

/// Configures a swapchain for a window of size `window`.
pub fn plan_swapchain(support: &SurfaceSupport, window: Extent2D) -> (r: Result<SwapchainPlan, SwapchainError>)
    ensures
        r == plan_of(support.capabilities, support.formats@, support.present_modes@, window),
{
    let format = match choose_surface_format(&support.formats) {
        Some(f) => f,
        None => return Err(SwapchainError::NoSurfaceFormat),
    };
    let extent = choose_extent(&support.capabilities, window);
    if extent.width == 0 || extent.height == 0 {
        return Err(SwapchainError::ZeroExtent);
    }
    Ok(
        SwapchainPlan {
            format,
            present_mode: choose_present_mode(&support.present_modes),
            extent,
            image_count: choose_image_count(&support.capabilities),
        },
    )
}

} // verus!
