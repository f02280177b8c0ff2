//! How the swapchain is laid out for the window: pixel format, presentation
//! mode, image size and number of images.
//!
//! Formats and presentation modes are the raw values of the Vulkan enums
//! `VkFormat` and `VkPresentModeKHR`.
use vstd::prelude::*;

verus! {

/// `VK_FORMAT_R8G8B8A8_UNORM`.
pub const FORMAT_R8G8B8A8_UNORM: i32 = 37;
/// `VK_FORMAT_B8G8R8A8_UNORM`.
pub const FORMAT_B8G8R8A8_UNORM: i32 = 44;
/// `VK_PRESENT_MODE_MAILBOX_KHR`.
pub const PRESENT_MODE_MAILBOX: i32 = 1;
/// `VK_PRESENT_MODE_FIFO_KHR`.
pub const PRESENT_MODE_FIFO: i32 = 2;

/// A pixel format together with the color space it is presented in.
#[derive(Clone, Copy, Debug, PartialEq, Eq, Structural)]
pub struct SurfaceFormat {
    pub format: i32,
    pub color_space: i32,
}

/// A size in pixels.
#[derive(Clone, Copy, Debug, PartialEq, Eq, Structural)]
pub struct Extent {
    pub width: u32,
    pub height: u32,
}

/// What the surface allows for a swapchain.
#[derive(Clone, Copy, Debug, PartialEq, Eq, Structural)]
pub struct SurfaceLimits {
    pub min_image_count: u32,
    /// 0 when the surface sets no upper bound.
    pub max_image_count: u32,
    pub min_extent: Extent,
    pub max_extent: Extent,
}

/// The layout chosen for a swapchain.
#[derive(Clone, Copy, Debug, PartialEq, Eq, Structural)]
pub struct SwapchainPlan {
    pub format: SurfaceFormat,
    pub present_mode: i32,
    pub extent: Extent,
    pub image_count: u32,
}

/// An 8-bit-per-channel RGBA or BGRA format, which the renderer prefers.
pub open spec fn preferred_format(f: SurfaceFormat) -> bool {
    f.format == FORMAT_B8G8R8A8_UNORM || f.format == FORMAT_R8G8B8A8_UNORM
}

/// The format that the renderer picks among those that the surface offers:
/// the first preferred one, else the first one.
pub open spec fn spec_surface_format(formats: Seq<SurfaceFormat>) -> SurfaceFormat
    decreases formats.len(),
{
    if formats.len() == 0 {
        arbitrary()
    } else if preferred_format(formats[0]) || formats.len() == 1 {
        formats[0]
    } else {
        let rest = spec_surface_format(formats.drop_first());
        if preferred_format(rest) { rest } else { formats[0] }
    }
}

pub open spec fn clamp(v: u32, lo: u32, hi: u32) -> u32 {
    if v < lo { lo } else if v > hi { hi } else { v }
}

pub open spec fn spec_extent(window: Extent, limits: SurfaceLimits) -> Extent {
    Extent {
        width: clamp(window.width, limits.min_extent.width, limits.max_extent.width),
        height: clamp(window.height, limits.min_extent.height, limits.max_extent.height),
    }
}

pub open spec fn spec_image_count(min_image_count: u32, max_image_count: u32) -> int {
    let bound: int = if max_image_count == 0 { u32::MAX as int } else { max_image_count as int };
    if min_image_count + 1 < bound { min_image_count + 1 } else { bound }
}

pub open spec fn spec_present_mode(modes: Seq<i32>) -> i32 {
    if modes.contains(PRESENT_MODE_MAILBOX) { PRESENT_MODE_MAILBOX } else { PRESENT_MODE_FIFO }
}

/// The chosen format is always one that the surface offers.
pub proof fn lemma_format_is_offered(formats: Seq<SurfaceFormat>)
    requires
        formats.len() > 0,
    ensures
        formats.contains(spec_surface_format(formats)),
    decreases formats.len(),
{
    if !preferred_format(formats[0]) && formats.len() > 1 {
        let rest = formats.drop_first();
        lemma_format_is_offered(rest);
        let k = choose|k: int| 0 <= k < rest.len() && rest[k] == spec_surface_format(rest);
        assert(formats[k + 1] == rest[k]);
    } else {
        assert(formats[0] == spec_surface_format(formats));
    }
}

/// The chosen presentation mode is always one that the surface offers, as
/// long as it offers FIFO (which Vulkan requires of every surface).
pub proof fn lemma_present_mode_is_offered(modes: Seq<i32>)
    requires
        modes.contains(PRESENT_MODE_FIFO),
    ensures
        modes.contains(spec_present_mode(modes)),
{
}

/// Mailbox presentation is chosen exactly when the surface offers it, at
/// whatever position of the list; FIFO otherwise.
pub proof fn lemma_mailbox_when_offered(modes: Seq<i32>)
    ensures
        (exists|i: int| 0 <= i < modes.len() && modes[i] == PRESENT_MODE_MAILBOX)
            ==> spec_present_mode(modes) == PRESENT_MODE_MAILBOX,
        (forall|i: int| 0 <= i < modes.len() ==> modes[i] != PRESENT_MODE_MAILBOX)
            ==> spec_present_mode(modes) == PRESENT_MODE_FIFO,
{
    if exists|i: int| 0 <= i < modes.len() && modes[i] == PRESENT_MODE_MAILBOX {
        let i = choose|i: int| 0 <= i < modes.len() && modes[i] == PRESENT_MODE_MAILBOX;
        assert(modes.contains(PRESENT_MODE_MAILBOX));
    }
}

/// Picks the first format whose format is 8-bit RGBA or BGRA, and the first
/// format offered when there is none.
pub fn choose_surface_format(formats: &Vec<SurfaceFormat>) -> (chosen: SurfaceFormat)
    requires
        formats.len() > 0,
    ensures
        chosen == spec_surface_format(formats@),
        forall|k: int| 0 <= k < formats.len() && preferred_format(#[trigger] formats@[k])
            ==> preferred_format(chosen) && (exists|i: int| 0 <= i <= k && chosen == formats@[i]
            && forall|j: int| 0 <= j < i ==> !preferred_format(#[trigger] formats@[j])),
        (forall|k: int| 0 <= k < formats.len() ==> !preferred_format(#[trigger] formats@[k]))
            ==> chosen == formats@[0],
{
    let mut i: usize = 0;
    while i < formats.len()
        invariant
            0 <= i <= formats.len(),
            forall|j: int| 0 <= j < i ==> !preferred_format(#[trigger] formats@[j]),
        decreases formats.len() - i,
    {
        let f = formats[i];
        if f.format == FORMAT_B8G8R8A8_UNORM || f.format == FORMAT_R8G8B8A8_UNORM {
            proof { lemma_first_preferred(formats@, i as int); }
            return f;
        }
        i = i + 1;
    }
    proof { lemma_no_preferred(formats@); }
    formats[0]
}

proof fn lemma_first_preferred(s: Seq<SurfaceFormat>, i: int)
    requires
        0 <= i < s.len(),
        preferred_format(s[i]),
        forall|j: int| 0 <= j < i ==> !preferred_format(#[trigger] s[j]),
    ensures
        spec_surface_format(s) == s[i],
    decreases i,
{
    if i > 0 {
        let rest = s.drop_first();
        assert forall|j: int| 0 <= j < i - 1 implies !preferred_format(#[trigger] rest[j]) by {
            assert(rest[j] == s[j + 1]);
        }
        lemma_first_preferred(rest, i - 1);
    }
}

proof fn lemma_no_preferred(s: Seq<SurfaceFormat>)
    requires
        s.len() > 0,
        forall|j: int| 0 <= j < s.len() ==> !preferred_format(#[trigger] s[j]),
    ensures
        spec_surface_format(s) == s[0],
    decreases s.len(),
{
    if s.len() > 1 {
        let rest = s.drop_first();
        assert forall|j: int| 0 <= j < rest.len() implies !preferred_format(#[trigger] rest[j]) by {
            assert(rest[j] == s[j + 1]);
        }
        lemma_no_preferred(rest);
    }
}

/// Mailbox presentation when the surface offers it, FIFO (which every
/// surface offers) otherwise.
pub fn choose_present_mode(modes: &Vec<i32>) -> (mode: i32)
    ensures
        mode == spec_present_mode(modes@),
{
    let mut i: usize = 0;
    while i < modes.len()
        invariant
            0 <= i <= modes.len(),
            forall|j: int| 0 <= j < i ==> modes@[j] != PRESENT_MODE_MAILBOX,
        decreases modes.len() - i,
    {
        if modes[i] == PRESENT_MODE_MAILBOX {
            assert(modes@.contains(PRESENT_MODE_MAILBOX));
            return PRESENT_MODE_MAILBOX;
        }
        i = i + 1;
    }
    PRESENT_MODE_FIFO
}

/// The window's size, brought into the range the surface allows.
pub fn choose_extent(window: Extent, limits: SurfaceLimits) -> (extent: Extent)
    requires
        limits.min_extent.width <= limits.max_extent.width,
        limits.min_extent.height <= limits.max_extent.height,
    ensures
        extent == spec_extent(window, limits),
        limits.min_extent.width <= extent.width <= limits.max_extent.width,
        limits.min_extent.height <= extent.height <= limits.max_extent.height,
        limits.min_extent.width <= window.width <= limits.max_extent.width ==> extent.width == window.width,
        limits.min_extent.height <= window.height <= limits.max_extent.height ==> extent.height == window.height,
{
    Extent {
        width: clamp_u32(window.width, limits.min_extent.width, limits.max_extent.width),
        height: clamp_u32(window.height, limits.min_extent.height, limits.max_extent.height),
    }
}

fn clamp_u32(v: u32, lo: u32, hi: u32) -> (r: u32)
    requires
        lo <= hi,
    ensures
        r == clamp(v, lo, hi),
{
    if v < lo { lo } else if v > hi { hi } else { v }
}

/// One image more than the surface's minimum, so that the renderer never
/// waits on the driver for an image, within the surface's maximum.
pub fn choose_image_count(min_image_count: u32, max_image_count: u32) -> (count: u32)
    requires
        min_image_count < u32::MAX,
    ensures
        count == spec_image_count(min_image_count, max_image_count),
        max_image_count != 0 ==> count <= max_image_count,
        max_image_count == 0 || max_image_count > min_image_count ==> count == min_image_count + 1,
        max_image_count >= min_image_count ==> count >= min_image_count,
{
    let bound: u32 = if max_image_count == 0 { u32::MAX } else { max_image_count };
    let wanted: u32 = min_image_count + 1;
    if wanted < bound { wanted } else { bound }
}

/// The whole layout of a swapchain for a window of the given size.
pub fn plan_swapchain(
    limits: SurfaceLimits,
    formats: &Vec<SurfaceFormat>,
    present_modes: &Vec<i32>,
    window: Extent,
) -> (plan: SwapchainPlan)
    requires
        formats.len() > 0,
        limits.min_image_count < u32::MAX,
        limits.min_extent.width <= limits.max_extent.width,
        limits.min_extent.height <= limits.max_extent.height,
    ensures
        plan == (SwapchainPlan {
            format: spec_surface_format(formats@),
            present_mode: spec_present_mode(present_modes@),
            extent: spec_extent(window, limits),
            image_count: spec_image_count(limits.min_image_count, limits.max_image_count) as u32,
        }),
{
    let format = choose_surface_format(formats);
    let present_mode = choose_present_mode(present_modes);
    let extent = choose_extent(window, limits);
    let image_count = choose_image_count(limits.min_image_count, limits.max_image_count);
    SwapchainPlan { format, present_mode, extent, image_count }
}

} // verus!
