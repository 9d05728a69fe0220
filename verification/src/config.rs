//! Render configuration: device, model and preset choices, and the options
//! block with its validity test.
//!
//! The core assumes a sane configuration — positive dimensions, at least
//! one sample and one bounce, positive exposure and gamma — and the
//! embedder must reject anything else before rendering. The test that
//! decides sanity is verified here; exposure and gamma arrive as float bit
//! patterns and are compared exactly.

use crate::fbits;
use vstd::prelude::*;

verus! {

/// Which backend renders the frame.
#[derive(Clone, Copy, Debug, PartialEq, Eq, Structural)]
pub enum Device {
    Cpu,
    Gpu,
}

/// Which reflectance model shades the scene.
#[derive(Clone, Copy, Debug, PartialEq, Eq, Structural)]
pub enum BrdfName {
    Disney,
    Lambertian,
}

/// Which built-in scene is rendered.
#[derive(Clone, Copy, Debug, PartialEq, Eq, Structural)]
pub enum ScenePreset {
    CornellBox,
}

/// The options a render runs under. Exposure and gamma are 32-bit float
/// bit patterns.
#[derive(Clone, Copy, Debug, PartialEq, Eq, Structural)]
pub struct RenderOptions {
    pub screen_width: u32,
    pub screen_height: u32,
    pub sample_per_pixel: u32,
    pub max_ray_bounces: u32,
    pub exposure: u32,
    pub gamma: u32,
}

impl RenderOptions {
    /// The configuration the core assumes: nonzero image dimensions, at
    /// least one sample per pixel and one bounce, and strictly positive
    /// exposure and gamma.
    pub open spec fn spec_valid(self) -> bool {
        &&& self.screen_width >= 1
        &&& self.screen_height >= 1
        &&& self.sample_per_pixel >= 1
        &&& self.max_ray_bounces >= 1
        &&& fbits::spec_lt(0, self.exposure)
        &&& fbits::spec_lt(0, self.gamma)
    }

    /// Decides whether the options are sane; the embedder must refuse to
    /// render when this is false.
    pub fn validate(&self) -> (r: bool)
        ensures
            r == self.spec_valid(),
    {
        self.screen_width >= 1 && self.screen_height >= 1 && self.sample_per_pixel >= 1
            && self.max_ray_bounces >= 1 && fbits::f32_bits_lt(0, self.exposure)
            && fbits::f32_bits_lt(0, self.gamma)
    }
}

} // verus!
