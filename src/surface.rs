use vstd::prelude::*;

verus! {

/// Present mode value of mailbox presentation.
pub const PRESENT_MODE_MAILBOX: i32 = 1;

/// Present mode value of first-in-first-out presentation, always available.
pub const PRESENT_MODE_FIFO: i32 = 2;

#[derive(Clone, Copy, PartialEq, Eq, Debug, Structural)]
pub struct Extent2D {
    pub width: u32,
    pub height: u32,
}

/// What the surface reports about image sizes and counts.
#[derive(Clone, Copy, PartialEq, Eq, Debug, Structural)]
pub struct SurfaceCapabilities {
    pub current_extent: Extent2D,
    pub min_image_extent: Extent2D,
    pub max_image_extent: Extent2D,
    pub min_image_count: u32,
    /// Zero when there is no upper bound.
    pub max_image_count: u32,
}

/// A supported pair of pixel format and color space.
#[derive(Clone, Copy, PartialEq, Eq, Debug, Structural)]
pub struct SurfaceFormat {
    pub format: i32,
    pub color_space: i32,
}

#[derive(Clone, Copy, PartialEq, Eq, Debug, Structural)]
pub enum SharingMode {
    Exclusive,
    Concurrent,
}

pub open spec fn clamp_spec(v: u32, lo: u32, hi: u32) -> u32 {
    if v < lo {
        lo
    } else if v > hi {
        hi
    } else {
        v
    }
}

/// Relies on num::clamp: for `min <= max`, returns `min` below the range,
/// `max` above it, and the input inside it.
#[verifier::external_body]
fn clamp_u32(input: u32, min: u32, max: u32) -> (r: u32)
    requires
        min <= max,
    ensures
        r == clamp_spec(input, min, max),
{
    num::clamp(input, min, max)
}

/// A current extent whose width is `u32::MAX` means the window decides.
pub open spec fn extent_is_free(caps: SurfaceCapabilities) -> bool {
    caps.current_extent.width == u32::MAX
}

pub open spec fn swap_extent_spec(caps: SurfaceCapabilities, window: Extent2D) -> Extent2D {
    if !extent_is_free(caps) {
        caps.current_extent
    } else {
        Extent2D {
            width: clamp_spec(window.width, caps.min_image_extent.width, caps.max_image_extent.width),
            height: clamp_spec(window.height, caps.min_image_extent.height, caps.max_image_extent.height),
        }
    }
}

/// The surface's current extent, or the window's drawable size bounded by
/// the surface's limits when the surface leaves the size open.
pub fn choose_swap_extent(caps: &SurfaceCapabilities, window: Extent2D) -> (r: Extent2D)
    requires
        extent_is_free(*caps) ==> caps.min_image_extent.width <= caps.max_image_extent.width
            && caps.min_image_extent.height <= caps.max_image_extent.height,
    ensures
        r == swap_extent_spec(*caps, window),
{
    if caps.current_extent.width != u32::MAX {
        caps.current_extent
    } else {
        Extent2D {
            width: clamp_u32(window.width, caps.min_image_extent.width, caps.max_image_extent.width),
            height: clamp_u32(window.height, caps.min_image_extent.height, caps.max_image_extent.height),
        }
    }
}

/// One more image than the minimum, but no more than the maximum if there is one.
pub open spec fn image_count_spec(caps: SurfaceCapabilities) -> u32 {
    let wanted = (caps.min_image_count + 1) as u32;
    if caps.max_image_count > 0 && wanted > caps.max_image_count {
        caps.max_image_count
    } else {
        wanted
    }
}

pub fn swapchain_image_count(caps: &SurfaceCapabilities) -> (r: u32)
    requires
        caps.min_image_count < u32::MAX,
    ensures
        r == image_count_spec(*caps),
{
    let wanted = caps.min_image_count + 1;
    if caps.max_image_count > 0 && wanted > caps.max_image_count {
        caps.max_image_count
    } else {
        wanted
    }
}

pub open spec fn format_matches(f: SurfaceFormat, format: i32, color_space: Option<i32>) -> bool {
    f.format == format && match color_space {
        Some(cs) => f.color_space == cs,
        None => true,
    }
}

/// The first supported format with the wanted pixel format (and color space,
/// if one is given), or else the first supported format.
pub fn choose_surface_format(formats: &Vec<SurfaceFormat>, format: i32, color_space: Option<i32>) -> (r:
    SurfaceFormat)
    requires
        formats@.len() > 0,
    ensures
        (exists|i: int| 0 <= i < formats@.len() && format_matches(#[trigger] formats@[i], format, color_space))
            ==> (exists|i: int|
            0 <= i < formats@.len() && r == formats@[i] && format_matches(r, format, color_space)
                && forall|j: int|
                0 <= j < i ==> !format_matches(#[trigger] formats@[j], format, color_space)),
        (forall|i: int| 0 <= i < formats@.len() ==> !format_matches(#[trigger] formats@[i], format, color_space))
            ==> r == formats@[0],
{
    let mut i: usize = 0;
    while i < formats.len()
        invariant
            i <= formats@.len(),
            forall|j: int| 0 <= j < i ==> !format_matches(#[trigger] formats@[j], format, color_space),
        decreases formats.len() - i,
    {
        let f = formats[i];
        let space_ok = match color_space {
            Some(cs) => f.color_space == cs,
            None => true,
        };
        if f.format == format && space_ok {
            return f;
        }
        i = i + 1;
    }
    formats[0]
}

/// Mailbox presentation when the surface offers it, first-in-first-out otherwise.
pub fn choose_present_mode(modes: &Vec<i32>) -> (r: i32)
    ensures
        modes@.contains(PRESENT_MODE_MAILBOX) ==> r == PRESENT_MODE_MAILBOX,
        !modes@.contains(PRESENT_MODE_MAILBOX) ==> r == PRESENT_MODE_FIFO,
{
    let mut i: usize = 0;
    while i < modes.len()
        invariant
            i <= modes@.len(),
            forall|j: int| 0 <= j < i ==> modes@[j] != PRESENT_MODE_MAILBOX,
        decreases modes.len() - i,
    {
        if modes[i] == PRESENT_MODE_MAILBOX {
            return PRESENT_MODE_MAILBOX;
        }
        i = i + 1;
    }
    PRESENT_MODE_FIFO
}

/// Images are shared between two queue families only when graphics and
/// presentation use different ones.
pub fn sharing_mode(graphics_family: u32, present_family: u32) -> (r: SharingMode)
    ensures
        graphics_family != present_family <==> r == SharingMode::Concurrent,
{
    if graphics_family != present_family {
        SharingMode::Concurrent
    } else {
        SharingMode::Exclusive
    }
}

} // verus!
