//! The per-frame, read-mostly bundle shared by every fragment of a draw
//! call.
use vstd::prelude::*;

use crate::mat::{m4_ok, Mat4Fx};
use crate::noise::NoiseConfig;

verus! {

/// Per-frame state: the four pipeline matrices, the frame counter driving
/// animation, and the noise configuration of the mesh group currently being
/// rendered.  The noise member is swapped between mesh groups within a
/// frame; the configurations themselves are immutable after construction.
#[derive(Clone, Copy, PartialEq, Eq, Structural, Debug)]
pub struct Uniforms {
    pub model_matrix: Mat4Fx,
    pub view_matrix: Mat4Fx,
    pub projection_matrix: Mat4Fx,
    pub viewport_matrix: Mat4Fx,
    pub time: u32,
    pub noise: NoiseConfig,
}

pub open spec fn uniforms_ok(u: Uniforms) -> bool {
    m4_ok(u.model_matrix) && m4_ok(u.view_matrix) && m4_ok(u.projection_matrix) && m4_ok(
        u.viewport_matrix,
    )
}

} // verus!
