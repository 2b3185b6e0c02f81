//! One rasterized pixel candidate, produced by the rasterizer and consumed
//! immediately by the shading framework.
use vstd::prelude::*;

use crate::fx::{fx_ok, FX_ONE};
use crate::mat::{v3_ok, Vec3Fx};

verus! {

#[derive(Clone, Copy, PartialEq, Eq, Structural, Debug)]
pub struct Fragment {
    /// Pixel column.
    pub x: u32,
    /// Pixel row.
    pub y: u32,
    /// Interpolated device depth at the pixel center.
    pub depth: i64,
    /// Object-space position interpolated across the triangle, so shading is
    /// independent of screen resolution.
    pub vertex_position: Vec3Fx,
    /// Interpolated normal.
    pub normal: Vec3Fx,
    /// Lighting intensity in `[0, FX_ONE]`.
    pub intensity: i64,
}

pub open spec fn fragment_ok(f: Fragment) -> bool {
    fx_ok(f.depth as int) && v3_ok(f.vertex_position) && v3_ok(f.normal) && 0 <= f.intensity
        <= FX_ONE
}

} // verus!
