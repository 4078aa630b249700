//! Swapchain parameter selection.
//!
//! A [`SwapchainSupport`] snapshot holds what was queried from a physical
//! device and surface pair: capabilities, the supported surface formats and
//! the supported present modes. From it the renderer selects the surface
//! format, the present mode and the image extent, and decides the image
//! sharing mode from the graphics and present queue assignments.

use vstd::prelude::*;

use crate::constants;

verus! {

/// A two-dimensional extent in pixels.
#[derive(Clone, Copy, PartialEq, Eq, Structural, Debug)]
pub struct Extent2D {
    pub width: u32,
    pub height: u32,
}

/// A three-dimensional extent in pixels.
#[derive(Clone, Copy, PartialEq, Eq, Structural, Debug)]
pub struct Extent3D {
    pub width: u32,
    pub height: u32,
    pub depth: u32,
}

impl Extent2D {
    /// The same extent as a volume one texel deep.
    pub fn to_3d(&self) -> (r: Extent3D)
        ensures
            r == (Extent3D { width: self.width, height: self.height, depth: 1u32 }),
    {
        Extent3D { width: self.width, height: self.height, depth: 1 }
    }
}

/// A surface format: a pixel format paired with a color space, both as the
/// API's raw enumeration values.
#[derive(Clone, Copy, PartialEq, Eq, Structural, Debug)]
pub struct SurfaceFormat {
    pub format: u32,
    pub color_space: u32,
}

/// The capabilities of a surface on one physical device.
#[derive(Clone, Copy, PartialEq, Eq, Structural, Debug)]
pub struct SurfaceCapabilities {
    pub min_image_count: u32,
    pub current_transform: u32,
    pub min_image_extent: Extent2D,
    pub max_image_extent: Extent2D,
}

impl SurfaceCapabilities {
    /// A valid snapshot never reports a minimum extent above the maximum.
    pub open spec fn wf(self) -> bool {
        self.min_image_extent.width <= self.max_image_extent.width
            && self.min_image_extent.height <= self.max_image_extent.height
    }
}

/// Everything queried from a device and surface pair that swapchain
/// creation depends on; immutable once captured, re-queried on resize.
#[derive(Clone, PartialEq, Debug)]
pub struct SwapchainSupport {
    pub capabilities: SurfaceCapabilities,
    pub formats: Vec<SurfaceFormat>,
    pub present_modes: Vec<u32>,
}

/// The format the renderer prefers: 8-bit-per-channel sRGB.
pub open spec fn preferred_format() -> SurfaceFormat {
    SurfaceFormat {
        format: constants::FORMAT_B8G8R8A8_SRGB,
        color_space: constants::COLOR_SPACE_SRGB_NONLINEAR,
    }
}

/// The format selection rule: the preferred sRGB pair when supported, else
/// the first supported format.
pub open spec fn spec_select_format(formats: Seq<SurfaceFormat>) -> SurfaceFormat
    recommends
        formats.len() > 0,
{
    if formats.contains(preferred_format()) {
        preferred_format()
    } else {
        formats[0]
    }
}

/// The present mode selection rule: the preferred mode when supported, else
/// the always-available first-in-first-out mode.
pub open spec fn spec_select_present_mode(modes: Seq<u32>, preferred: u32) -> u32 {
    if modes.contains(preferred) {
        preferred
    } else {
        constants::PRESENT_MODE_FIFO
    }
}

/// `v` clamped into `[lo, hi]`.
pub open spec fn spec_clamp(v: u32, lo: u32, hi: u32) -> u32
    recommends
        lo <= hi,
{
    if v < lo {
        lo
    } else if v > hi {
        hi
    } else {
        v
    }
}

/// The extent selection rule: each requested dimension clamped into the
/// surface's supported range.
pub open spec fn spec_select_extent(caps: SurfaceCapabilities, width: u32, height: u32) -> Extent2D {
    Extent2D {
        width: spec_clamp(width, caps.min_image_extent.width, caps.max_image_extent.width),
        height: spec_clamp(height, caps.min_image_extent.height, caps.max_image_extent.height),
    }
}

impl SwapchainSupport {
    /// A usable snapshot: valid capabilities and non-empty format and
    /// present-mode lists.
    pub open spec fn wf(self) -> bool {
        self.capabilities.wf() && self.formats@.len() > 0 && self.present_modes@.len() > 0
    }

    /// The queried surface capabilities.
    pub fn capabilities(&self) -> (r: &SurfaceCapabilities)
        ensures
            *r == self.capabilities,
    {
        &self.capabilities
    }

    /// The supported surface formats.
    pub fn formats(&self) -> (r: &Vec<SurfaceFormat>)
        ensures
            *r == self.formats,
    {
        &self.formats
    }

    /// The supported present modes.
    pub fn present_modes(&self) -> (r: &Vec<u32>)
        ensures
            *r == self.present_modes,
    {
        &self.present_modes
    }

    /// Select the surface format: the preferred 8-bit sRGB pair when the
    /// surface supports it, else the first supported format.
    pub fn select_format(&self) -> (r: SurfaceFormat)
        requires
            self.formats@.len() > 0,
        ensures
            r == spec_select_format(self.formats@),
    {
        let n = self.formats.len();
        let mut i: usize = 0;
        while i < n
            invariant
                n == self.formats@.len(),
                i <= n,
                forall|j: int| 0 <= j < i ==> self.formats@[j] != preferred_format(),
            decreases n - i,
        {
            let f = self.formats[i];
            if f.format == constants::FORMAT_B8G8R8A8_SRGB && f.color_space
                == constants::COLOR_SPACE_SRGB_NONLINEAR {
                assert(self.formats@.contains(preferred_format()));
                return f;
            }
            i += 1;
        }
        assert(!self.formats@.contains(preferred_format()));
        self.formats[0]
    }

    /// Select the present mode: `preferred` exactly when the surface
    /// supports it, else the mandatory first-in-first-out mode.
    pub fn select_present_mode(&self, preferred: u32) -> (r: u32)
        ensures
            r == spec_select_present_mode(self.present_modes@, preferred),
    {
        let n = self.present_modes.len();
        let mut i: usize = 0;
        while i < n
            invariant
                n == self.present_modes@.len(),
                i <= n,
                forall|j: int| 0 <= j < i ==> self.present_modes@[j] != preferred,
            decreases n - i,
        {
            if self.present_modes[i] == preferred {
                assert(self.present_modes@.contains(preferred));
                return preferred;
            }
            i += 1;
        }
        assert(!self.present_modes@.contains(preferred));
        constants::PRESENT_MODE_FIFO
    }

    /// Select the swapchain extent: the requested window size, with each
    /// dimension clamped into the surface's supported range.
    pub fn select_extent(&self, width: u32, height: u32) -> (r: Extent2D)
        requires
            self.capabilities.wf(),
        ensures
            r == spec_select_extent(self.capabilities, width, height),
    {
        let caps = &self.capabilities;
        let w = if width < caps.min_image_extent.width {
            caps.min_image_extent.width
        } else if width > caps.max_image_extent.width {
            caps.max_image_extent.width
        } else {
            width
        };
        let h = if height < caps.min_image_extent.height {
            caps.min_image_extent.height
        } else if height > caps.max_image_extent.height {
            caps.max_image_extent.height
        } else {
            height
        };
        Extent2D { width: w, height: h }
    }
}

/// How the swapchain images are shared between queue families.
#[derive(Clone, Copy, PartialEq, Eq, Structural, Debug)]
pub enum SharingMode {
    /// One queue family owns the images.
    Exclusive,
    /// The images are shared concurrently by the listed families.
    Concurrent,
}

/// Everything swapchain creation needs, fully decided.
#[derive(Clone, PartialEq, Debug)]
pub struct SwapchainConfig {
    pub format: SurfaceFormat,
    pub present_mode: u32,
    pub extent: Extent2D,
    pub min_image_count: u32,
    pub pre_transform: u32,
    pub sharing_mode: SharingMode,
    pub queue_family_indices: Vec<u32>,
}

/// Decide every swapchain creation parameter from the support snapshot, the
/// requested window size and the graphics and present queue assignments.
/// Graphics and present in the same queue family use exclusive sharing;
/// distinct families share the images concurrently between the two, which
/// avoids explicit ownership transfers.
pub fn build_swapchain_config(
    support: &SwapchainSupport,
    preferred_present_mode: u32,
    width: u32,
    height: u32,
    graphics: (u32, u32),
    present: (u32, u32),
) -> (r: SwapchainConfig)
    requires
        support.wf(),
    ensures
        r.format == spec_select_format(support.formats@),
        r.present_mode == spec_select_present_mode(support.present_modes@, preferred_present_mode),
        r.extent == spec_select_extent(support.capabilities, width, height),
        r.min_image_count == support.capabilities.min_image_count,
        r.pre_transform == support.capabilities.current_transform,
        graphics.0 == present.0 ==> r.sharing_mode == SharingMode::Exclusive
            && r.queue_family_indices@ =~= Seq::<u32>::empty(),
        graphics.0 != present.0 ==> r.sharing_mode == SharingMode::Concurrent
            && r.queue_family_indices@ =~= seq![graphics.0, present.0],
{
    let format = support.select_format();
    let present_mode = support.select_present_mode(preferred_present_mode);
    let extent = support.select_extent(width, height);
    let mut queue_family_indices: Vec<u32> = Vec::new();
    let sharing_mode = if graphics.0 == present.0 {
        SharingMode::Exclusive
    } else {
        queue_family_indices.push(graphics.0);
        queue_family_indices.push(present.0);
        SharingMode::Concurrent
    };
    SwapchainConfig {
        format,
        present_mode,
        extent,
        min_image_count: support.capabilities.min_image_count,
        pre_transform: support.capabilities.current_transform,
        sharing_mode,
        queue_family_indices,
    }
}

} // verus!
