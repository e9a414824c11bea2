//! Byte layout of the authoritative particle record and of the derived
//! presentation buffers, and the session-level choice of draw strategy.

use vstd::prelude::*;

verus! {

/// Byte stride of one authoritative particle record:
/// position (8) + velocity (8) + color (16), tightly packed.
pub const PARTICLE_STRIDE: usize = 32;

/// Byte offset of the position field inside an authoritative record.
pub const POSITION_OFFSET: usize = 0;

/// Byte size of the position field (two 32-bit floats).
pub const POSITION_SIZE: usize = 8;

/// Byte offset of the velocity field inside an authoritative record.
pub const VELOCITY_OFFSET: usize = 8;

/// Byte size of the velocity field (two 32-bit floats).
pub const VELOCITY_SIZE: usize = 8;

/// Byte offset of the color field inside an authoritative record.
pub const COLOR_OFFSET: usize = 16;

/// Byte size of the color field (four 32-bit floats).
pub const COLOR_SIZE: usize = 16;

/// Byte stride of one interleaved presentation record: position + color.
pub const INTERLEAVED_STRIDE: usize = 24;

/// How the derived presentation data is laid out, chosen once per session.
#[derive(Clone, Copy, Debug, PartialEq, Eq, Structural)]
pub enum DerivedLayout {
    /// One buffer of per-particle `{position, color}` records, stride 24.
    Interleaved,
    /// Two parallel buffers: positions (stride 8) and colors (stride 16).
    Split,
}

/// How the particles are drawn, chosen once per session.
#[derive(Clone, Copy, Debug, PartialEq, Eq, Structural)]
pub enum DrawStrategy {
    /// One vertex per particle from the interleaved buffer.
    PointList,
    /// A fixed quad instanced once per particle from the split buffers.
    InstancedQuad,
}

/// A draw strategy agrees with exactly one derived layout: the point list
/// reads the interleaved buffer, the instanced quad reads the split pair.
pub open spec fn strategy_matches_layout(strategy: DrawStrategy, layout: DerivedLayout) -> bool {
    match strategy {
        DrawStrategy::PointList => layout is Interleaved,
        DrawStrategy::InstancedQuad => layout is Split,
    }
}

/// Runtime check of the strategy/layout agreement demanded at construction.
pub fn layouts_agree(strategy: DrawStrategy, layout: DerivedLayout) -> (r: bool)
    ensures
        r == strategy_matches_layout(strategy, layout),
{
    match strategy {
        DrawStrategy::PointList => matches!(layout, DerivedLayout::Interleaved),
        DrawStrategy::InstancedQuad => matches!(layout, DerivedLayout::Split),
    }
}

/// Total byte size of the interleaved presentation buffer for `n` particles.
pub open spec fn interleaved_len(n: int) -> int {
    INTERLEAVED_STRIDE * n
}

/// Total byte size of the split position buffer for `n` particles.
pub open spec fn split_positions_len(n: int) -> int {
    POSITION_SIZE * n
}

/// Total byte size of the split color buffer for `n` particles.
pub open spec fn split_colors_len(n: int) -> int {
    COLOR_SIZE * n
}

/// Total byte size of the authoritative buffer for `n` particles.
pub open spec fn authoritative_len(n: int) -> int {
    PARTICLE_STRIDE * n
}

} // verus!
