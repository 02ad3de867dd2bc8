//! Swapchain negotiation: choosing an image count, a surface format, a
//! presentation mode and an extent from what the surface reports.
//!
//! All inputs are plain capability descriptions; the functions are the
//! selection policies themselves, with their results pinned down exactly.

use vstd::prelude::*;

verus! {

/// Width and height of a presentation surface, in pixels.
#[derive(Clone, Copy, Debug, PartialEq, Eq, Structural)]
pub struct Extent2d {
    pub width: u32,
    pub height: u32,
}

/// A pixel format paired with a color space, as a surface reports them.
#[derive(Clone, Copy, Debug, PartialEq, Eq, Structural)]
pub struct SurfaceFormat {
    pub format: u32,
    pub color_space: u32,
}

/// How presentation requests are queued against the display.
#[derive(Clone, Copy, Debug, PartialEq, Eq, Structural)]
pub enum PresentMode {
    /// Low latency without tearing: newer frames replace queued ones.
    Mailbox,
    /// Low latency with tearing: frames are shown as soon as they arrive.
    Immediate,
    /// The universally supported queue-and-wait mode.
    Fifo,
    /// Like Fifo but allowed to tear when a frame arrives late.
    FifoRelaxed,
}

/// What a surface reports about the swapchains it can back.
#[derive(Clone, Copy, Debug)]
pub struct SurfaceCapabilities {
    /// The smallest image count the surface supports; at least one.
    pub min_image_count: u32,
    /// The largest image count the surface supports; zero means unbounded.
    pub max_image_count: u32,
    /// The extent the surface is currently fixed to, or `None` when the
    /// surface leaves the extent to the swapchain.
    pub current_extent: Option<Extent2d>,
    /// The smallest extent the surface supports.
    pub min_image_extent: Extent2d,
    /// The largest extent the surface supports.
    pub max_image_extent: Extent2d,
}

impl SurfaceCapabilities {
    /// What any real surface guarantees about its own report.
    pub open spec fn wf(&self) -> bool {
        &&& 1 <= self.min_image_count < u32::MAX
        &&& (self.max_image_count == 0 || self.max_image_count >= self.min_image_count)
        &&& self.min_image_extent.width <= self.max_image_extent.width
        &&& self.min_image_extent.height <= self.max_image_extent.height
    }
}

/// Everything the surface reports that swapchain construction needs:
/// its capabilities, the formats it offers, and the presentation modes
/// it supports.
#[derive(Debug)]
pub struct SurfaceDescription {
    pub capabilities: SurfaceCapabilities,
    pub formats: Vec<SurfaceFormat>,
    pub present_modes: Vec<PresentMode>,
}

impl SurfaceDescription {
    /// What any real surface guarantees about its own report.
    pub open spec fn wf(&self) -> bool {
        self.capabilities.wf()
    }
}

/// One more image than the supported minimum, clamped by the supported
/// maximum when the surface reports one.
pub open spec fn chosen_image_count(caps: SurfaceCapabilities) -> u32 {
    if caps.max_image_count != 0 && caps.min_image_count + 1 > caps.max_image_count {
        caps.max_image_count
    } else {
        (caps.min_image_count + 1) as u32
    }
}

/// Select how many images the swapchain asks for.
pub fn choose_image_count(caps: &SurfaceCapabilities) -> (n: u32)
    requires
        caps.wf(),
    ensures
        n == chosen_image_count(*caps),
        caps.min_image_count <= n,
        caps.max_image_count != 0 ==> n <= caps.max_image_count,
{
    let recommended = caps.min_image_count + 1;
    if caps.max_image_count != 0 && recommended > caps.max_image_count {
        caps.max_image_count
    } else {
        recommended
    }
}

/// Whether `wanted` occurs anywhere in `formats`.
pub open spec fn format_available(formats: Seq<SurfaceFormat>, wanted: SurfaceFormat) -> bool {
    exists|i: int| 0 <= i < formats.len() && formats[i] == wanted
}

/// Select the surface format: the preferred pair whenever the surface
/// offers it, anywhere in the list, else the first offered pair together
/// with a raised fallback notice. `None` only when the surface offers no
/// format at all, which callers treat as a fatal setup failure.
pub fn choose_swapchain_format(
    formats: &Vec<SurfaceFormat>,
    preferred: SurfaceFormat,
) -> (r: Option<(SurfaceFormat, bool)>)
    ensures
        r is None <==> formats@.len() == 0,
        format_available(formats@, preferred) ==> r == Some((preferred, false)),
        formats@.len() > 0 && !format_available(formats@, preferred) ==> r == Some((
            formats@[0],
            true,
        )),
{
    let mut i: usize = 0;
    while i < formats.len()
        invariant
            i <= formats@.len(),
            forall|j: int| 0 <= j < i ==> formats@[j] != preferred,
        decreases formats@.len() - i,
    {
        if formats[i] == preferred {
            return Some((preferred, false));
        }
        i = i + 1;
    }
    if formats.len() > 0 {
        Some((formats[0], true))
    } else {
        None
    }
}

/// Whether `wanted` occurs anywhere in `modes`.
pub open spec fn mode_available(modes: Seq<PresentMode>, wanted: PresentMode) -> bool {
    exists|i: int| 0 <= i < modes.len() && modes[i] == wanted
}

/// The presentation-mode priority: mailbox, then immediate, then the
/// always-supported fifo.
pub open spec fn chosen_present_mode(modes: Seq<PresentMode>) -> PresentMode {
    if mode_available(modes, PresentMode::Mailbox) {
        PresentMode::Mailbox
    } else if mode_available(modes, PresentMode::Immediate) {
        PresentMode::Immediate
    } else {
        PresentMode::Fifo
    }
}

/// Whether `modes` contains `wanted`.
fn contains_mode(modes: &Vec<PresentMode>, wanted: PresentMode) -> (r: bool)
    ensures
        r == mode_available(modes@, wanted),
{
    let mut i: usize = 0;
    while i < modes.len()
        invariant
            i <= modes@.len(),
            forall|j: int| 0 <= j < i ==> modes@[j] != wanted,
        decreases modes@.len() - i,
    {
        if modes[i] == wanted {
            return true;
        }
        i = i + 1;
    }
    false
}

/// Select the presentation mode by fixed priority; fifo is the guaranteed
/// fallback and is returned even when the list omits it.
pub fn choose_swapchain_presentation_mode(modes: &Vec<PresentMode>) -> (m: PresentMode)
    ensures
        m == chosen_present_mode(modes@),
{
    if contains_mode(modes, PresentMode::Mailbox) {
        PresentMode::Mailbox
    } else if contains_mode(modes, PresentMode::Immediate) {
        PresentMode::Immediate
    } else {
        PresentMode::Fifo
    }
}

/// `x` forced into the closed interval from `lo` to `hi`.
pub open spec fn clamped(x: u32, lo: u32, hi: u32) -> u32 {
    if x < lo {
        lo
    } else if x > hi {
        hi
    } else {
        x
    }
}

/// The extent the swapchain must use: the surface's current extent when
/// the surface fixes one, else the desired extent clamped component-wise
/// into the reported bounds.
pub open spec fn chosen_extent(caps: SurfaceCapabilities, desired: Extent2d) -> Extent2d {
    match caps.current_extent {
        Some(current) => current,
        None => Extent2d {
            width: clamped(desired.width, caps.min_image_extent.width, caps.max_image_extent.width),
            height: clamped(
                desired.height,
                caps.min_image_extent.height,
                caps.max_image_extent.height,
            ),
        },
    }
}

/// `x` forced into the closed interval from `lo` to `hi`.
fn clamp_u32(x: u32, lo: u32, hi: u32) -> (r: u32)
    requires
        lo <= hi,
    ensures
        r == clamped(x, lo, hi),
{
    if x < lo {
        lo
    } else if x > hi {
        hi
    } else {
        x
    }
}

/// Select the swapchain extent.
pub fn choose_swapchain_extent(caps: &SurfaceCapabilities, desired: Extent2d) -> (e: Extent2d)
    requires
        caps.wf(),
    ensures
        e == chosen_extent(*caps, desired),
{
    match caps.current_extent {
        Some(current) => current,
        None => Extent2d {
            width: clamp_u32(
                desired.width,
                caps.min_image_extent.width,
                caps.max_image_extent.width,
            ),
            height: clamp_u32(
                desired.height,
                caps.min_image_extent.height,
                caps.max_image_extent.height,
            ),
        },
    }
}

} // verus!
