use vstd::prelude::*;

verus! {

/// The extent and sample count of the shared depth/stencil attachment. A
/// texture cannot be empty, so a zero dimension becomes one texel.
#[derive(Clone, Copy, Debug, PartialEq, Eq, Structural)]
pub struct StencilTexture {
    pub width: u32,
    pub height: u32,
    pub sample_count: u32,
}

pub open spec fn at_least_one(n: u32) -> u32 {
    if n == 0 { 1 } else { n }
}

impl StencilTexture {
    /// The attachment for a surface of `width` by `height` pixels.
    pub fn create_stencil_texture(width: u32, height: u32, sample_count: u32) -> (r: StencilTexture)
        ensures
            r.width == at_least_one(width),
            r.height == at_least_one(height),
            r.sample_count == sample_count,
    {
        StencilTexture {
            width: if width == 0 { 1 } else { width },
            height: if height == 0 { 1 } else { height },
            sample_count,
        }
    }
}

} // verus!
