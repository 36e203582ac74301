use vstd::prelude::*;

verus! {

/// Image-count bounds the driver reports for a (device, surface) pair.
/// A `max_image_count` of zero means the driver sets no upper bound.
#[derive(Clone, Copy, PartialEq, Eq, Structural, Debug)]
pub struct SurfaceCapabilities {
    pub min_image_count: u32,
    pub max_image_count: u32,
}

/// One supported surface pixel format, as the driver's raw format and
/// color-space codes.
#[derive(Clone, Copy, PartialEq, Eq, Structural, Debug)]
pub struct SurfaceFormat {
    pub format: i32,
    pub color_space: i32,
}

/// What one (device, surface) pair supports: capabilities, the supported
/// surface formats, and the supported present modes (as the driver's raw
/// codes). Queried on demand, never cached.
#[derive(PartialEq, Eq, Debug)]
pub struct SwapchainSupportDetails {
    pub capabilities: SurfaceCapabilities,
    pub formats: Vec<SurfaceFormat>,
    pub present_modes: Vec<i32>,
}

/// A pair is adequate iff it supports at least one format and at least one
/// present mode.
pub open spec fn swapchain_adequate_spec(details: SwapchainSupportDetails) -> bool {
    details.formats@.len() > 0 && details.present_modes@.len() > 0
}

impl SwapchainSupportDetails {
    /// Adequacy is false whenever either list is empty, and true only for a
    /// (non-empty, non-empty) combination.
    pub fn swapchain_adequate(&self) -> (r: bool)
        ensures
            r == swapchain_adequate_spec(*self),
    {
        self.formats.len() > 0 && self.present_modes.len() > 0
    }
}

} // verus!
