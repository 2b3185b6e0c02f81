//! Per-vertex attributes and their transformed counterparts.
use vstd::prelude::*;

use crate::color::Color;
use crate::mat::{v2_ok, v3_ok, Vec2Fx, Vec3Fx};

verus! {

/// A mesh vertex.  `position`, `normal`, `tex_coords` and `color` are the
/// base attributes handed in by the mesh supplier; `transformed_position`
/// (pixel-space x, y and device depth z) and `transformed_normal` are
/// derived, written only by the transform stage.
#[derive(Clone, Copy, PartialEq, Eq, Structural, Debug)]
pub struct Vertex {
    pub position: Vec3Fx,
    pub normal: Vec3Fx,
    pub tex_coords: Vec2Fx,
    pub color: Color,
    pub transformed_position: Vec3Fx,
    pub transformed_normal: Vec3Fx,
}

pub open spec fn vertex_ok(v: Vertex) -> bool {
    v3_ok(v.position) && v3_ok(v.normal) && v2_ok(v.tex_coords) && v3_ok(v.transformed_position)
        && v3_ok(v.transformed_normal)
}

impl Vertex {
    /// A fresh vertex: base attributes as given, derived fields zeroed until
    /// the transform stage fills them.
    pub fn new(position: Vec3Fx, normal: Vec3Fx, tex_coords: Vec2Fx, color: Color) -> (v: Vertex)
        ensures
            v == (Vertex {
                position,
                normal,
                tex_coords,
                color,
                transformed_position: Vec3Fx { x: 0, y: 0, z: 0 },
                transformed_normal: Vec3Fx { x: 0, y: 0, z: 0 },
            }),
    {
        Vertex {
            position,
            normal,
            tex_coords,
            color,
            transformed_position: Vec3Fx { x: 0, y: 0, z: 0 },
            transformed_normal: Vec3Fx { x: 0, y: 0, z: 0 },
        }
    }
}

} // verus!
