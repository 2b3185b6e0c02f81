//! Fixed-point vectors and matrices: the geometry carriers of the pipeline.
//!
//! Matrices are row-major; `mRC` is the entry at row `R`, column `C`.
use vstd::prelude::*;

use crate::fx::{
    fx_abs_spec, fx_add, fx_add_spec, fx_div, fx_div_spec, fx_mul, fx_mul_spec, fx_ok, fx_sqrt,
    fx_sqrt_spec, fx_sub, fx_sub_spec, FX_ONE,
};

verus! {

#[derive(Clone, Copy, PartialEq, Eq, Structural, Debug)]
pub struct Vec2Fx {
    pub x: i64,
    pub y: i64,
}

#[derive(Clone, Copy, PartialEq, Eq, Structural, Debug)]
pub struct Vec3Fx {
    pub x: i64,
    pub y: i64,
    pub z: i64,
}

#[derive(Clone, Copy, PartialEq, Eq, Structural, Debug)]
pub struct Vec4Fx {
    pub x: i64,
    pub y: i64,
    pub z: i64,
    pub w: i64,
}

#[derive(Clone, Copy, PartialEq, Eq, Structural, Debug)]
pub struct Mat3Fx {
    pub m00: i64,
    pub m01: i64,
    pub m02: i64,
    pub m10: i64,
    pub m11: i64,
    pub m12: i64,
    pub m20: i64,
    pub m21: i64,
    pub m22: i64,
}

#[derive(Clone, Copy, PartialEq, Eq, Structural, Debug)]
pub struct Mat4Fx {
    pub m00: i64,
    pub m01: i64,
    pub m02: i64,
    pub m03: i64,
    pub m10: i64,
    pub m11: i64,
    pub m12: i64,
    pub m13: i64,
    pub m20: i64,
    pub m21: i64,
    pub m22: i64,
    pub m23: i64,
    pub m30: i64,
    pub m31: i64,
    pub m32: i64,
    pub m33: i64,
}

pub open spec fn v2_ok(v: Vec2Fx) -> bool {
    fx_ok(v.x as int) && fx_ok(v.y as int)
}

pub open spec fn v3_ok(v: Vec3Fx) -> bool {
    fx_ok(v.x as int) && fx_ok(v.y as int) && fx_ok(v.z as int)
}

pub open spec fn v4_ok(v: Vec4Fx) -> bool {
    fx_ok(v.x as int) && fx_ok(v.y as int) && fx_ok(v.z as int) && fx_ok(v.w as int)
}

pub open spec fn m3_ok(m: Mat3Fx) -> bool {
    fx_ok(m.m00 as int) && fx_ok(m.m01 as int) && fx_ok(m.m02 as int) && fx_ok(m.m10 as int)
        && fx_ok(m.m11 as int) && fx_ok(m.m12 as int) && fx_ok(m.m20 as int) && fx_ok(m.m21 as int)
        && fx_ok(m.m22 as int)
}

pub open spec fn m4_ok(m: Mat4Fx) -> bool {
    fx_ok(m.m00 as int) && fx_ok(m.m01 as int) && fx_ok(m.m02 as int) && fx_ok(m.m03 as int)
        && fx_ok(m.m10 as int) && fx_ok(m.m11 as int) && fx_ok(m.m12 as int) && fx_ok(m.m13 as int)
        && fx_ok(m.m20 as int) && fx_ok(m.m21 as int) && fx_ok(m.m22 as int) && fx_ok(m.m23 as int)
        && fx_ok(m.m30 as int) && fx_ok(m.m31 as int) && fx_ok(m.m32 as int) && fx_ok(m.m33 as int)
}

/// Saturating four-term dot product.
pub open spec fn fx_dot4_spec(a0: int, a1: int, a2: int, a3: int, b0: int, b1: int, b2: int, b3: int) -> int {
    fx_add_spec(
        fx_add_spec(fx_add_spec(fx_mul_spec(a0, b0), fx_mul_spec(a1, b1)), fx_mul_spec(a2, b2)),
        fx_mul_spec(a3, b3),
    )
}

/// Saturating three-term dot product.
pub open spec fn fx_dot3_spec(a0: int, a1: int, a2: int, b0: int, b1: int, b2: int) -> int {
    fx_add_spec(fx_add_spec(fx_mul_spec(a0, b0), fx_mul_spec(a1, b1)), fx_mul_spec(a2, b2))
}

pub fn fx_dot4(a0: i64, a1: i64, a2: i64, a3: i64, b0: i64, b1: i64, b2: i64, b3: i64) -> (r: i64)
    requires
        fx_ok(a0 as int) && fx_ok(a1 as int) && fx_ok(a2 as int) && fx_ok(a3 as int),
        fx_ok(b0 as int) && fx_ok(b1 as int) && fx_ok(b2 as int) && fx_ok(b3 as int),
    ensures
        r == fx_dot4_spec(a0 as int, a1 as int, a2 as int, a3 as int, b0 as int, b1 as int, b2 as int, b3 as int),
        fx_ok(r as int),
{
    fx_add(fx_add(fx_add(fx_mul(a0, b0), fx_mul(a1, b1)), fx_mul(a2, b2)), fx_mul(a3, b3))
}

pub fn fx_dot3(a0: i64, a1: i64, a2: i64, b0: i64, b1: i64, b2: i64) -> (r: i64)
    requires
        fx_ok(a0 as int) && fx_ok(a1 as int) && fx_ok(a2 as int),
        fx_ok(b0 as int) && fx_ok(b1 as int) && fx_ok(b2 as int),
    ensures
        r == fx_dot3_spec(a0 as int, a1 as int, a2 as int, b0 as int, b1 as int, b2 as int),
        fx_ok(r as int),
{
    fx_add(fx_add(fx_mul(a0, b0), fx_mul(a1, b1)), fx_mul(a2, b2))
}

pub open spec fn mat4_mul_vec4_spec(m: Mat4Fx, v: Vec4Fx) -> Vec4Fx {
    Vec4Fx {
        x: fx_dot4_spec(m.m00 as int, m.m01 as int, m.m02 as int, m.m03 as int, v.x as int, v.y as int, v.z as int, v.w as int) as i64,
        y: fx_dot4_spec(m.m10 as int, m.m11 as int, m.m12 as int, m.m13 as int, v.x as int, v.y as int, v.z as int, v.w as int) as i64,
        z: fx_dot4_spec(m.m20 as int, m.m21 as int, m.m22 as int, m.m23 as int, v.x as int, v.y as int, v.z as int, v.w as int) as i64,
        w: fx_dot4_spec(m.m30 as int, m.m31 as int, m.m32 as int, m.m33 as int, v.x as int, v.y as int, v.z as int, v.w as int) as i64,
    }
}

pub fn mat4_mul_vec4(m: Mat4Fx, v: Vec4Fx) -> (r: Vec4Fx)
    requires
        m4_ok(m),
        v4_ok(v),
    ensures
        r == (mat4_mul_vec4_spec(m, v)),
        v4_ok(r),
{
    Vec4Fx {
        x: fx_dot4(m.m00, m.m01, m.m02, m.m03, v.x, v.y, v.z, v.w),
        y: fx_dot4(m.m10, m.m11, m.m12, m.m13, v.x, v.y, v.z, v.w),
        z: fx_dot4(m.m20, m.m21, m.m22, m.m23, v.x, v.y, v.z, v.w),
        w: fx_dot4(m.m30, m.m31, m.m32, m.m33, v.x, v.y, v.z, v.w),
    }
}

pub open spec fn mat3_mul_vec3_spec(m: Mat3Fx, v: Vec3Fx) -> Vec3Fx {
    Vec3Fx {
        x: fx_dot3_spec(m.m00 as int, m.m01 as int, m.m02 as int, v.x as int, v.y as int, v.z as int) as i64,
        y: fx_dot3_spec(m.m10 as int, m.m11 as int, m.m12 as int, v.x as int, v.y as int, v.z as int) as i64,
        z: fx_dot3_spec(m.m20 as int, m.m21 as int, m.m22 as int, v.x as int, v.y as int, v.z as int) as i64,
    }
}

pub fn mat3_mul_vec3(m: Mat3Fx, v: Vec3Fx) -> (r: Vec3Fx)
    requires
        m3_ok(m),
        v3_ok(v),
    ensures
        r == (mat3_mul_vec3_spec(m, v)),
        v3_ok(r),
{
    Vec3Fx {
        x: fx_dot3(m.m00, m.m01, m.m02, v.x, v.y, v.z),
        y: fx_dot3(m.m10, m.m11, m.m12, v.x, v.y, v.z),
        z: fx_dot3(m.m20, m.m21, m.m22, v.x, v.y, v.z),
    }
}

pub open spec fn mat4_mul_mat4_spec(a: Mat4Fx, b: Mat4Fx) -> Mat4Fx {
    Mat4Fx {
        m00: fx_dot4_spec(a.m00 as int, a.m01 as int, a.m02 as int, a.m03 as int, b.m00 as int, b.m10 as int, b.m20 as int, b.m30 as int) as i64,
        m01: fx_dot4_spec(a.m00 as int, a.m01 as int, a.m02 as int, a.m03 as int, b.m01 as int, b.m11 as int, b.m21 as int, b.m31 as int) as i64,
        m02: fx_dot4_spec(a.m00 as int, a.m01 as int, a.m02 as int, a.m03 as int, b.m02 as int, b.m12 as int, b.m22 as int, b.m32 as int) as i64,
        m03: fx_dot4_spec(a.m00 as int, a.m01 as int, a.m02 as int, a.m03 as int, b.m03 as int, b.m13 as int, b.m23 as int, b.m33 as int) as i64,
        m10: fx_dot4_spec(a.m10 as int, a.m11 as int, a.m12 as int, a.m13 as int, b.m00 as int, b.m10 as int, b.m20 as int, b.m30 as int) as i64,
        m11: fx_dot4_spec(a.m10 as int, a.m11 as int, a.m12 as int, a.m13 as int, b.m01 as int, b.m11 as int, b.m21 as int, b.m31 as int) as i64,
        m12: fx_dot4_spec(a.m10 as int, a.m11 as int, a.m12 as int, a.m13 as int, b.m02 as int, b.m12 as int, b.m22 as int, b.m32 as int) as i64,
        m13: fx_dot4_spec(a.m10 as int, a.m11 as int, a.m12 as int, a.m13 as int, b.m03 as int, b.m13 as int, b.m23 as int, b.m33 as int) as i64,
        m20: fx_dot4_spec(a.m20 as int, a.m21 as int, a.m22 as int, a.m23 as int, b.m00 as int, b.m10 as int, b.m20 as int, b.m30 as int) as i64,
        m21: fx_dot4_spec(a.m20 as int, a.m21 as int, a.m22 as int, a.m23 as int, b.m01 as int, b.m11 as int, b.m21 as int, b.m31 as int) as i64,
        m22: fx_dot4_spec(a.m20 as int, a.m21 as int, a.m22 as int, a.m23 as int, b.m02 as int, b.m12 as int, b.m22 as int, b.m32 as int) as i64,
        m23: fx_dot4_spec(a.m20 as int, a.m21 as int, a.m22 as int, a.m23 as int, b.m03 as int, b.m13 as int, b.m23 as int, b.m33 as int) as i64,
        m30: fx_dot4_spec(a.m30 as int, a.m31 as int, a.m32 as int, a.m33 as int, b.m00 as int, b.m10 as int, b.m20 as int, b.m30 as int) as i64,
        m31: fx_dot4_spec(a.m30 as int, a.m31 as int, a.m32 as int, a.m33 as int, b.m01 as int, b.m11 as int, b.m21 as int, b.m31 as int) as i64,
        m32: fx_dot4_spec(a.m30 as int, a.m31 as int, a.m32 as int, a.m33 as int, b.m02 as int, b.m12 as int, b.m22 as int, b.m32 as int) as i64,
        m33: fx_dot4_spec(a.m30 as int, a.m31 as int, a.m32 as int, a.m33 as int, b.m03 as int, b.m13 as int, b.m23 as int, b.m33 as int) as i64,
    }
}

pub fn mat4_mul_mat4(a: Mat4Fx, b: Mat4Fx) -> (r: Mat4Fx)
    requires
        m4_ok(a),
        m4_ok(b),
    ensures
        r == (mat4_mul_mat4_spec(a, b)),
        m4_ok(r),
{
    Mat4Fx {
        m00: fx_dot4(a.m00, a.m01, a.m02, a.m03, b.m00, b.m10, b.m20, b.m30),
        m01: fx_dot4(a.m00, a.m01, a.m02, a.m03, b.m01, b.m11, b.m21, b.m31),
        m02: fx_dot4(a.m00, a.m01, a.m02, a.m03, b.m02, b.m12, b.m22, b.m32),
        m03: fx_dot4(a.m00, a.m01, a.m02, a.m03, b.m03, b.m13, b.m23, b.m33),
        m10: fx_dot4(a.m10, a.m11, a.m12, a.m13, b.m00, b.m10, b.m20, b.m30),
        m11: fx_dot4(a.m10, a.m11, a.m12, a.m13, b.m01, b.m11, b.m21, b.m31),
        m12: fx_dot4(a.m10, a.m11, a.m12, a.m13, b.m02, b.m12, b.m22, b.m32),
        m13: fx_dot4(a.m10, a.m11, a.m12, a.m13, b.m03, b.m13, b.m23, b.m33),
        m20: fx_dot4(a.m20, a.m21, a.m22, a.m23, b.m00, b.m10, b.m20, b.m30),
        m21: fx_dot4(a.m20, a.m21, a.m22, a.m23, b.m01, b.m11, b.m21, b.m31),
        m22: fx_dot4(a.m20, a.m21, a.m22, a.m23, b.m02, b.m12, b.m22, b.m32),
        m23: fx_dot4(a.m20, a.m21, a.m22, a.m23, b.m03, b.m13, b.m23, b.m33),
        m30: fx_dot4(a.m30, a.m31, a.m32, a.m33, b.m00, b.m10, b.m20, b.m30),
        m31: fx_dot4(a.m30, a.m31, a.m32, a.m33, b.m01, b.m11, b.m21, b.m31),
        m32: fx_dot4(a.m30, a.m31, a.m32, a.m33, b.m02, b.m12, b.m22, b.m32),
        m33: fx_dot4(a.m30, a.m31, a.m32, a.m33, b.m03, b.m13, b.m23, b.m33),
    }
}

pub open spec fn mat3_identity_spec() -> Mat3Fx {
    Mat3Fx {
        m00: FX_ONE,
        m01: 0,
        m02: 0,
        m10: 0,
        m11: FX_ONE,
        m12: 0,
        m20: 0,
        m21: 0,
        m22: FX_ONE,
    }
}

pub fn mat3_identity() -> (r: Mat3Fx)
    ensures
        r == (mat3_identity_spec()),
        m3_ok(r),
{
    Mat3Fx {
        m00: FX_ONE,
        m01: 0,
        m02: 0,
        m10: 0,
        m11: FX_ONE,
        m12: 0,
        m20: 0,
        m21: 0,
        m22: FX_ONE,
    }
}

pub open spec fn mat4_identity_spec() -> Mat4Fx {
    Mat4Fx {
        m00: FX_ONE,
        m01: 0,
        m02: 0,
        m03: 0,
        m10: 0,
        m11: FX_ONE,
        m12: 0,
        m13: 0,
        m20: 0,
        m21: 0,
        m22: FX_ONE,
        m23: 0,
        m30: 0,
        m31: 0,
        m32: 0,
        m33: FX_ONE,
    }
}

pub fn mat4_identity() -> (r: Mat4Fx)
    ensures
        r == (mat4_identity_spec()),
        m4_ok(r),
{
    Mat4Fx {
        m00: FX_ONE,
        m01: 0,
        m02: 0,
        m03: 0,
        m10: 0,
        m11: FX_ONE,
        m12: 0,
        m13: 0,
        m20: 0,
        m21: 0,
        m22: FX_ONE,
        m23: 0,
        m30: 0,
        m31: 0,
        m32: 0,
        m33: FX_ONE,
    }
}

/// The identity matrix is a two-sided unit of the saturating matrix
/// product: multiplying by one is exact and adding zero changes nothing.
pub proof fn lemma_mat4_identity_unit(m: Mat4Fx)
    requires
        m4_ok(m),
    ensures
        mat4_mul_mat4_spec(mat4_identity_spec(), m) == m,
        mat4_mul_mat4_spec(m, mat4_identity_spec()) == m,
{
    crate::fx::lemma_fx_mul_zero(0);
    crate::fx::lemma_fx_mul_one(m.m00 as int);
    crate::fx::lemma_fx_mul_one(m.m01 as int);
    crate::fx::lemma_fx_mul_one(m.m02 as int);
    crate::fx::lemma_fx_mul_one(m.m03 as int);
    crate::fx::lemma_fx_mul_one(m.m10 as int);
    crate::fx::lemma_fx_mul_one(m.m11 as int);
    crate::fx::lemma_fx_mul_one(m.m12 as int);
    crate::fx::lemma_fx_mul_one(m.m13 as int);
    crate::fx::lemma_fx_mul_one(m.m20 as int);
    crate::fx::lemma_fx_mul_one(m.m21 as int);
    crate::fx::lemma_fx_mul_one(m.m22 as int);
    crate::fx::lemma_fx_mul_one(m.m23 as int);
    crate::fx::lemma_fx_mul_one(m.m30 as int);
    crate::fx::lemma_fx_mul_one(m.m31 as int);
    crate::fx::lemma_fx_mul_one(m.m32 as int);
    crate::fx::lemma_fx_mul_one(m.m33 as int);
    crate::fx::lemma_fx_mul_zero(m.m00 as int);
    crate::fx::lemma_fx_mul_zero(m.m01 as int);
    crate::fx::lemma_fx_mul_zero(m.m02 as int);
    crate::fx::lemma_fx_mul_zero(m.m03 as int);
    crate::fx::lemma_fx_mul_zero(m.m10 as int);
    crate::fx::lemma_fx_mul_zero(m.m11 as int);
    crate::fx::lemma_fx_mul_zero(m.m12 as int);
    crate::fx::lemma_fx_mul_zero(m.m13 as int);
    crate::fx::lemma_fx_mul_zero(m.m20 as int);
    crate::fx::lemma_fx_mul_zero(m.m21 as int);
    crate::fx::lemma_fx_mul_zero(m.m22 as int);
    crate::fx::lemma_fx_mul_zero(m.m23 as int);
    crate::fx::lemma_fx_mul_zero(m.m30 as int);
    crate::fx::lemma_fx_mul_zero(m.m31 as int);
    crate::fx::lemma_fx_mul_zero(m.m32 as int);
    crate::fx::lemma_fx_mul_zero(m.m33 as int);
    crate::fx::lemma_fx_mul_zero(FX_ONE as int);
}

/// Upper-left 3x3 block of a 4x4 matrix.
pub open spec fn mat4_upper3_spec(m: Mat4Fx) -> Mat3Fx {
    Mat3Fx {
        m00: m.m00,
        m01: m.m01,
        m02: m.m02,
        m10: m.m10,
        m11: m.m11,
        m12: m.m12,
        m20: m.m20,
        m21: m.m21,
        m22: m.m22,
    }
}

pub fn mat4_upper3(m: Mat4Fx) -> (r: Mat3Fx)
    ensures
        r == (mat4_upper3_spec(m)),
{
    Mat3Fx {
        m00: m.m00,
        m01: m.m01,
        m02: m.m02,
        m10: m.m10,
        m11: m.m11,
        m12: m.m12,
        m20: m.m20,
        m21: m.m21,
        m22: m.m22,
    }
}

pub open spec fn mat3_transpose_spec(m: Mat3Fx) -> Mat3Fx {
    Mat3Fx {
        m00: m.m00,
        m01: m.m10,
        m02: m.m20,
        m10: m.m01,
        m11: m.m11,
        m12: m.m21,
        m20: m.m02,
        m21: m.m12,
        m22: m.m22,
    }
}

pub fn mat3_transpose(m: Mat3Fx) -> (r: Mat3Fx)
    ensures
        r == (mat3_transpose_spec(m)),
{
    Mat3Fx {
        m00: m.m00,
        m01: m.m10,
        m02: m.m20,
        m10: m.m01,
        m11: m.m11,
        m12: m.m21,
        m20: m.m02,
        m21: m.m12,
        m22: m.m22,
    }
}

/// Determinant of a 3x3 matrix by cofactor expansion along the first row,
/// in saturating fixed-point arithmetic.
pub open spec fn mat3_det_spec(m: Mat3Fx) -> int {
    let c0 = fx_sub_spec(fx_mul_spec(m.m11 as int, m.m22 as int), fx_mul_spec(m.m12 as int, m.m21 as int));
    let c1 = fx_sub_spec(fx_mul_spec(m.m10 as int, m.m22 as int), fx_mul_spec(m.m12 as int, m.m20 as int));
    let c2 = fx_sub_spec(fx_mul_spec(m.m10 as int, m.m21 as int), fx_mul_spec(m.m11 as int, m.m20 as int));
    fx_add_spec(
        fx_sub_spec(fx_mul_spec(m.m00 as int, c0), fx_mul_spec(m.m01 as int, c1)),
        fx_mul_spec(m.m02 as int, c2),
    )
}

pub fn mat3_det(m: Mat3Fx) -> (r: i64)
    requires
        m3_ok(m),
    ensures
        r == mat3_det_spec(m),
        fx_ok(r as int),
{
    let c0 = fx_sub(fx_mul(m.m11, m.m22), fx_mul(m.m12, m.m21));
    let c1 = fx_sub(fx_mul(m.m10, m.m22), fx_mul(m.m12, m.m20));
    let c2 = fx_sub(fx_mul(m.m10, m.m21), fx_mul(m.m11, m.m20));
    fx_add(fx_sub(fx_mul(m.m00, c0), fx_mul(m.m01, c1)), fx_mul(m.m02, c2))
}

/// Inverse of a 3x3 matrix with a known non-zero determinant: the adjugate,
/// entry by entry, divided by the determinant.
pub open spec fn mat3_inverse_spec(m: Mat3Fx, det: int) -> Mat3Fx {
    Mat3Fx {
        m00: fx_div_spec(fx_sub_spec(fx_mul_spec(m.m11 as int, m.m22 as int), fx_mul_spec(m.m12 as int, m.m21 as int)), det) as i64,
        m01: fx_div_spec(fx_sub_spec(fx_mul_spec(m.m02 as int, m.m21 as int), fx_mul_spec(m.m01 as int, m.m22 as int)), det) as i64,
        m02: fx_div_spec(fx_sub_spec(fx_mul_spec(m.m01 as int, m.m12 as int), fx_mul_spec(m.m02 as int, m.m11 as int)), det) as i64,
        m10: fx_div_spec(fx_sub_spec(fx_mul_spec(m.m12 as int, m.m20 as int), fx_mul_spec(m.m10 as int, m.m22 as int)), det) as i64,
        m11: fx_div_spec(fx_sub_spec(fx_mul_spec(m.m00 as int, m.m22 as int), fx_mul_spec(m.m02 as int, m.m20 as int)), det) as i64,
        m12: fx_div_spec(fx_sub_spec(fx_mul_spec(m.m02 as int, m.m10 as int), fx_mul_spec(m.m00 as int, m.m12 as int)), det) as i64,
        m20: fx_div_spec(fx_sub_spec(fx_mul_spec(m.m10 as int, m.m21 as int), fx_mul_spec(m.m11 as int, m.m20 as int)), det) as i64,
        m21: fx_div_spec(fx_sub_spec(fx_mul_spec(m.m01 as int, m.m20 as int), fx_mul_spec(m.m00 as int, m.m21 as int)), det) as i64,
        m22: fx_div_spec(fx_sub_spec(fx_mul_spec(m.m00 as int, m.m11 as int), fx_mul_spec(m.m01 as int, m.m10 as int)), det) as i64,
    }
}

pub fn mat3_inverse(m: Mat3Fx, det: i64) -> (r: Mat3Fx)
    requires
        m3_ok(m),
        fx_ok(det as int),
    ensures
        r == (mat3_inverse_spec(m, det as int)),
        m3_ok(r),
{
    Mat3Fx {
        m00: fx_div(fx_sub(fx_mul(m.m11, m.m22), fx_mul(m.m12, m.m21)), det),
        m01: fx_div(fx_sub(fx_mul(m.m02, m.m21), fx_mul(m.m01, m.m22)), det),
        m02: fx_div(fx_sub(fx_mul(m.m01, m.m12), fx_mul(m.m02, m.m11)), det),
        m10: fx_div(fx_sub(fx_mul(m.m12, m.m20), fx_mul(m.m10, m.m22)), det),
        m11: fx_div(fx_sub(fx_mul(m.m00, m.m22), fx_mul(m.m02, m.m20)), det),
        m12: fx_div(fx_sub(fx_mul(m.m02, m.m10), fx_mul(m.m00, m.m12)), det),
        m20: fx_div(fx_sub(fx_mul(m.m10, m.m21), fx_mul(m.m11, m.m20)), det),
        m21: fx_div(fx_sub(fx_mul(m.m01, m.m20), fx_mul(m.m00, m.m21)), det),
        m22: fx_div(fx_sub(fx_mul(m.m00, m.m11), fx_mul(m.m01, m.m10)), det),
    }
}

/// Saturating dot product of two 3-vectors.
pub open spec fn v3_dot_spec(a: Vec3Fx, b: Vec3Fx) -> int {
    fx_dot3_spec(a.x as int, a.y as int, a.z as int, b.x as int, b.y as int, b.z as int)
}

pub fn v3_dot(a: Vec3Fx, b: Vec3Fx) -> (r: i64)
    requires
        v3_ok(a),
        v3_ok(b),
    ensures
        r == v3_dot_spec(a, b),
        fx_ok(r as int),
{
    fx_dot3(a.x, a.y, a.z, b.x, b.y, b.z)
}

/// Length of a 3-vector: the square root of its dot product with itself.
pub open spec fn v3_len_spec(a: Vec3Fx) -> int {
    fx_sqrt_spec(v3_dot_spec(a, a))
}

pub fn v3_len(a: Vec3Fx) -> (r: i64)
    requires
        v3_ok(a),
    ensures
        r == v3_len_spec(a),
        fx_ok(r as int),
        r >= 0,
{
    fx_sqrt(v3_dot(a, a))
}

/// A vector scaled to unit length; the zero vector (and any vector whose
/// length rounds to zero) maps to the zero vector.
pub open spec fn v3_normalize_spec(a: Vec3Fx) -> Vec3Fx {
    let l = v3_len_spec(a);
    Vec3Fx {
        x: fx_div_spec(a.x as int, l) as i64,
        y: fx_div_spec(a.y as int, l) as i64,
        z: fx_div_spec(a.z as int, l) as i64,
    }
}

pub fn v3_normalize(a: Vec3Fx) -> (r: Vec3Fx)
    requires
        v3_ok(a),
    ensures
        r == (v3_normalize_spec(a)),
        v3_ok(r),
{
    let l = v3_len(a);
    Vec3Fx { x: fx_div(a.x, l), y: fx_div(a.y, l), z: fx_div(a.z, l) }
}

} // verus!
