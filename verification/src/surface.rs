//! The output surface configuration: resize discipline and format choice.

use vstd::prelude::*;

verus! {

/// How many frames the presentation engine may queue ahead of display.
pub const DESIRED_FRAME_LATENCY: u32 = 2;

/// The host-side record of how the output surface is configured.
#[derive(Clone, Copy, Debug, PartialEq, Eq, Structural)]
pub struct SurfaceConfig {
    pub width: u32,
    pub height: u32,
}

impl SurfaceConfig {
    pub fn new(width: u32, height: u32) -> (c: SurfaceConfig)
        ensures
            c == (SurfaceConfig { width, height }),
    {
        SurfaceConfig { width, height }
    }

    /// Applies a resize request: only a request with both dimensions
    /// positive reconfigures the surface; a zero-area request is a
    /// guarded no-op, not an error. Returns whether the surface must be
    /// reconfigured.
    pub fn apply_resize(&mut self, width: u32, height: u32) -> (changed: bool)
        ensures
            changed == (width > 0 && height > 0),
            changed ==> *final(self) == (SurfaceConfig { width, height }),
            !changed ==> *final(self) == *old(self),
    {
        if width > 0 && height > 0 {
            self.width = width;
            self.height = height;
            true
        } else {
            false
        }
    }
}

/// Picks the surface format: the first sRGB-capable format the surface
/// offers, or the first offered format when none is sRGB. `srgb[i]`
/// says whether offered format `i` is sRGB-capable.
pub fn choose_format_index(srgb: &Vec<bool>) -> (i: usize)
    requires
        srgb@.len() > 0,
    ensures
        i < srgb@.len(),
        (exists|j: int| 0 <= j < srgb@.len() && srgb@[j]) ==> srgb@[i as int] && (forall|j: int|
            0 <= j < i ==> !srgb@[j]),
        (forall|j: int| 0 <= j < srgb@.len() ==> !srgb@[j]) ==> i == 0,
{
    let n = srgb.len();
    for k in 0..n
        invariant
            n == srgb@.len(),
            forall|j: int| 0 <= j < k ==> !srgb@[j],
    {
        if srgb[k] {
            return k;
        }
    }
    0
}

} // verus!
