//! The transform stage: model, view, projection and viewport application
//! with perspective division, and the builders for those matrices.
//!
//! A zero perspective `w` divides to zero (the saturating division's
//! defined fallback) rather than being undefined: geometry at or behind the
//! eye plane lands on the viewport center ray instead of faulting.
use vstd::prelude::*;

use crate::fx::{
    fx_add, fx_add_spec, fx_cos, fx_cos_spec, fx_div, fx_div_spec, fx_mul, fx_mul_spec, fx_ok,
    fx_sin, fx_sin_spec, fx_sub, fx_sub_spec, FX_ONE, FX_SAT,
};
use crate::mat::{
    m4_ok, mat3_det, mat3_det_spec, mat3_identity, mat3_identity_spec, mat3_inverse,
    mat3_inverse_spec, mat3_mul_vec3, mat3_mul_vec3_spec, mat3_transpose, mat3_transpose_spec,
    mat4_identity_spec, mat4_mul_mat4, mat4_mul_mat4_spec, mat4_mul_vec4, mat4_mul_vec4_spec,
    mat4_upper3, mat4_upper3_spec, v3_dot, v3_dot_spec, v3_normalize, v3_normalize_spec, v3_ok,
    Mat3Fx, Mat4Fx, Vec3Fx, Vec4Fx,
};
use crate::uniforms::{uniforms_ok, Uniforms};
use crate::vertex::{vertex_ok, Vertex};

verus! {

/// Screen-space position of an object-space point: model, view and
/// projection applied in turn, perspective division by the clip `w`, then
/// the viewport map.  The post-division `w` is fixed to one and discarded.
pub open spec fn transformed_position_spec(pos: Vec3Fx, u: Uniforms) -> Vec3Fx {
    let p4 = Vec4Fx { x: pos.x, y: pos.y, z: pos.z, w: FX_ONE };
    let mp = mat4_mul_vec4_spec(u.model_matrix, p4);
    let vp = mat4_mul_vec4_spec(u.view_matrix, mp);
    let cp = mat4_mul_vec4_spec(u.projection_matrix, vp);
    let ndc = Vec4Fx {
        x: fx_div_spec(cp.x as int, cp.w as int) as i64,
        y: fx_div_spec(cp.y as int, cp.w as int) as i64,
        z: fx_div_spec(cp.z as int, cp.w as int) as i64,
        w: FX_ONE,
    };
    let sp = mat4_mul_vec4_spec(u.viewport_matrix, ndc);
    Vec3Fx { x: sp.x, y: sp.y, z: sp.z }
}

/// The normal transform: inverse of the transposed upper-left 3x3 block of
/// the model matrix.  A singular block falls back to the identity — a
/// defined degenerate-input policy, not an error.
pub open spec fn normal_matrix_spec(m: Mat4Fx) -> Mat3Fx {
    let t = mat3_transpose_spec(mat4_upper3_spec(m));
    let det = mat3_det_spec(t);
    if det == 0 {
        mat3_identity_spec()
    } else {
        mat3_inverse_spec(t, det)
    }
}

/// The whole transform stage for one vertex: base attributes copied through
/// unchanged, derived fields recomputed from the uniforms.
pub open spec fn vertex_shader_spec(v: Vertex, u: Uniforms) -> Vertex {
    Vertex {
        position: v.position,
        normal: v.normal,
        tex_coords: v.tex_coords,
        color: v.color,
        transformed_position: transformed_position_spec(v.position, u),
        transformed_normal: mat3_mul_vec3_spec(normal_matrix_spec(u.model_matrix), v.normal),
    }
}

/// Transform one vertex under the given uniforms.  Pure: a new vertex is
/// returned and the input is untouched.
pub fn vertex_shader(vertex: &Vertex, uniforms: &Uniforms) -> (r: Vertex)
    requires
        vertex_ok(*vertex),
        uniforms_ok(*uniforms),
    ensures
        r == (vertex_shader_spec(*vertex, *uniforms)),
        vertex_ok(r),
{
    let pos = vertex.position;
    let p4 = Vec4Fx { x: pos.x, y: pos.y, z: pos.z, w: FX_ONE };
    let mp = mat4_mul_vec4(uniforms.model_matrix, p4);
    let vp = mat4_mul_vec4(uniforms.view_matrix, mp);
    let cp = mat4_mul_vec4(uniforms.projection_matrix, vp);
    let ndc = Vec4Fx {
        x: fx_div(cp.x, cp.w),
        y: fx_div(cp.y, cp.w),
        z: fx_div(cp.z, cp.w),
        w: FX_ONE,
    };
    let sp = mat4_mul_vec4(uniforms.viewport_matrix, ndc);

    let t = mat3_transpose(mat4_upper3(uniforms.model_matrix));
    let det = mat3_det(t);
    let normal_matrix = if det == 0 {
        mat3_identity()
    } else {
        mat3_inverse(t, det)
    };

    Vertex {
        position: vertex.position,
        normal: vertex.normal,
        tex_coords: vertex.tex_coords,
        color: vertex.color,
        transformed_position: Vec3Fx { x: sp.x, y: sp.y, z: sp.z },
        transformed_normal: mat3_mul_vec3(normal_matrix, vertex.normal),
    }
}

/// Perspective round-trip: a vertex that the model and view transforms put
/// straight ahead of the eye — on the negative view axis, where a look-at
/// construction puts its center — projects through any symmetric frustum
/// and the viewport map onto the exact center pixel of the viewport.
pub proof fn lemma_center_round_trip(v: Vertex, u: Uniforms, width: int, height: int)
    requires
        ({
            let p4 = Vec4Fx { x: v.position.x, y: v.position.y, z: v.position.z, w: FX_ONE };
            let vp = mat4_mul_vec4_spec(u.view_matrix, mat4_mul_vec4_spec(u.model_matrix, p4));
            vp.x == 0 && vp.y == 0 && vp.z < 0
        }),
        u.projection_matrix.m01 == 0 && u.projection_matrix.m02 == 0 && u.projection_matrix.m03
            == 0,
        u.projection_matrix.m10 == 0 && u.projection_matrix.m12 == 0 && u.projection_matrix.m13
            == 0,
        u.projection_matrix.m30 == 0 && u.projection_matrix.m31 == 0,
        u.projection_matrix.m32 == -FX_ONE && u.projection_matrix.m33 == 0,
        u.viewport_matrix == (viewport_matrix_spec(width, height)),
        0 <= width <= FX_SAT as int,
        0 <= height <= FX_SAT as int,
    ensures
        transformed_position_spec(v.position, u).x == width / 2,
        transformed_position_spec(v.position, u).y == height / 2,
{
    let p4 = Vec4Fx { x: v.position.x, y: v.position.y, z: v.position.z, w: FX_ONE };
    let vp = mat4_mul_vec4_spec(u.view_matrix, mat4_mul_vec4_spec(u.model_matrix, p4));
    let proj = u.projection_matrix;
    let zi: int = vp.z as int;
    assert(fx_ok(zi));
    crate::fx::lemma_fx_mul_zero(proj.m00 as int);
    crate::fx::lemma_fx_mul_zero(proj.m01 as int);
    crate::fx::lemma_fx_mul_zero(proj.m11 as int);
    crate::fx::lemma_fx_mul_zero(zi);
    crate::fx::lemma_fx_mul_zero(FX_ONE as int);
    crate::fx::lemma_fx_mul_one(zi);
    let cp = mat4_mul_vec4_spec(proj, vp);
    assert(cp.x == 0);
    assert(cp.y == 0);
    assert(cp.w == -zi);
    crate::fx::lemma_fx_div_zero(cp.w as int);
    let ndc = Vec4Fx {
        x: fx_div_spec(cp.x as int, cp.w as int) as i64,
        y: fx_div_spec(cp.y as int, cp.w as int) as i64,
        z: fx_div_spec(cp.z as int, cp.w as int) as i64,
        w: FX_ONE,
    };
    assert(ndc.x == 0 && ndc.y == 0);
    let hw: int = width / 2;
    let hh: int = height / 2;
    crate::fx::lemma_fx_mul_zero(hw);
    crate::fx::lemma_fx_mul_zero(hh);
    crate::fx::lemma_fx_mul_zero(-hh);
    crate::fx::lemma_fx_mul_zero(ndc.z as int);
    crate::fx::lemma_fx_mul_one(hw);
    crate::fx::lemma_fx_mul_one(hh);
    let sp = mat4_mul_vec4_spec(u.viewport_matrix, ndc);
    assert(sp.x == hw);
    assert(sp.y == hh);
}

/// Rotation about the x axis by an angle, as the wave of `fx_sin`/`fx_cos`.
pub open spec fn rotation_x_spec(angle: int) -> Mat4Fx {
    let s = fx_sin_spec(angle) as i64;
    let c = fx_cos_spec(angle) as i64;
    Mat4Fx {
        m00: FX_ONE, m01: 0, m02: 0, m03: 0,
        m10: 0, m11: c, m12: (-(s as int)) as i64, m13: 0,
        m20: 0, m21: s, m22: c, m23: 0,
        m30: 0, m31: 0, m32: 0, m33: FX_ONE,
    }
}

/// Rotation about the y axis.
pub open spec fn rotation_y_spec(angle: int) -> Mat4Fx {
    let s = fx_sin_spec(angle) as i64;
    let c = fx_cos_spec(angle) as i64;
    Mat4Fx {
        m00: c, m01: 0, m02: s, m03: 0,
        m10: 0, m11: FX_ONE, m12: 0, m13: 0,
        m20: (-(s as int)) as i64, m21: 0, m22: c, m23: 0,
        m30: 0, m31: 0, m32: 0, m33: FX_ONE,
    }
}

/// Rotation about the z axis.
pub open spec fn rotation_z_spec(angle: int) -> Mat4Fx {
    let s = fx_sin_spec(angle) as i64;
    let c = fx_cos_spec(angle) as i64;
    Mat4Fx {
        m00: c, m01: (-(s as int)) as i64, m02: 0, m03: 0,
        m10: s, m11: c, m12: 0, m13: 0,
        m20: 0, m21: 0, m22: FX_ONE, m23: 0,
        m30: 0, m31: 0, m32: 0, m33: FX_ONE,
    }
}

/// The model matrix: uniform scale and translation applied to the combined
/// rotation `z * y * x`.
pub open spec fn model_matrix_spec(translation: Vec3Fx, scale: int, rotation: Vec3Fx) -> Mat4Fx {
    let rx = rotation_x_spec(rotation.x as int);
    let ry = rotation_y_spec(rotation.y as int);
    let rz = rotation_z_spec(rotation.z as int);
    let r = mat4_mul_mat4_spec(mat4_mul_mat4_spec(rz, ry), rx);
    let t = Mat4Fx {
        m00: scale as i64, m01: 0, m02: 0, m03: translation.x,
        m10: 0, m11: scale as i64, m12: 0, m13: translation.y,
        m20: 0, m21: 0, m22: scale as i64, m23: translation.z,
        m30: 0, m31: 0, m32: 0, m33: FX_ONE,
    };
    mat4_mul_mat4_spec(t, r)
}

/// At zero translation, unit scale and zero rotation the model matrix is
/// exactly the identity, as a float composition would give: the wave's
/// exact axis values make each rotation factor the identity, and the
/// saturating product of identities is exact.
pub proof fn lemma_model_matrix_identity()
    ensures
        model_matrix_spec(
            Vec3Fx { x: 0, y: 0, z: 0 },
            FX_ONE as int,
            Vec3Fx { x: 0, y: 0, z: 0 },
        ) == (mat4_identity_spec()),
{
    crate::fx::lemma_fx_sin_axis();
    assert(rotation_x_spec(0) == (mat4_identity_spec()));
    assert(rotation_y_spec(0) == (mat4_identity_spec()));
    assert(rotation_z_spec(0) == (mat4_identity_spec()));
    crate::mat::lemma_mat4_identity_unit(mat4_identity_spec());
    assert(mat4_mul_mat4_spec(mat4_identity_spec(), mat4_identity_spec()) == (
    mat4_identity_spec()));
    assert((Mat4Fx {
        m00: FX_ONE, m01: 0, m02: 0, m03: 0,
        m10: 0, m11: FX_ONE, m12: 0, m13: 0,
        m20: 0, m21: 0, m22: FX_ONE, m23: 0,
        m30: 0, m31: 0, m32: 0, m33: FX_ONE,
    }) == (mat4_identity_spec()));
}

pub fn create_model_matrix(translation: Vec3Fx, scale: i64, rotation: Vec3Fx) -> (m: Mat4Fx)
    requires
        v3_ok(translation),
        fx_ok(scale as int),
        v3_ok(rotation),
    ensures
        m == (model_matrix_spec(translation, scale as int, rotation)),
        m4_ok(m),
{
    let sx = fx_sin(rotation.x);
    let cx = fx_cos(rotation.x);
    let sy = fx_sin(rotation.y);
    let cy = fx_cos(rotation.y);
    let sz = fx_sin(rotation.z);
    let cz = fx_cos(rotation.z);

    let rx = Mat4Fx {
        m00: FX_ONE, m01: 0, m02: 0, m03: 0,
        m10: 0, m11: cx, m12: -sx, m13: 0,
        m20: 0, m21: sx, m22: cx, m23: 0,
        m30: 0, m31: 0, m32: 0, m33: FX_ONE,
    };
    let ry = Mat4Fx {
        m00: cy, m01: 0, m02: sy, m03: 0,
        m10: 0, m11: FX_ONE, m12: 0, m13: 0,
        m20: -sy, m21: 0, m22: cy, m23: 0,
        m30: 0, m31: 0, m32: 0, m33: FX_ONE,
    };
    let rz = Mat4Fx {
        m00: cz, m01: -sz, m02: 0, m03: 0,
        m10: sz, m11: cz, m12: 0, m13: 0,
        m20: 0, m21: 0, m22: FX_ONE, m23: 0,
        m30: 0, m31: 0, m32: 0, m33: FX_ONE,
    };
    let rotation_matrix = mat4_mul_mat4(mat4_mul_mat4(rz, ry), rx);
    let transform_matrix = Mat4Fx {
        m00: scale, m01: 0, m02: 0, m03: translation.x,
        m10: 0, m11: scale, m12: 0, m13: translation.y,
        m20: 0, m21: 0, m22: scale, m23: translation.z,
        m30: 0, m31: 0, m32: 0, m33: FX_ONE,
    };
    mat4_mul_mat4(transform_matrix, rotation_matrix)
}

/// The look-at view matrix: forward, side and up basis rows with the eye
/// translation folded in.
pub open spec fn view_matrix_spec(eye: Vec3Fx, center: Vec3Fx, up: Vec3Fx) -> Mat4Fx {
    let f = v3_normalize_spec(
        Vec3Fx {
            x: fx_sub_spec(center.x as int, eye.x as int) as i64,
            y: fx_sub_spec(center.y as int, eye.y as int) as i64,
            z: fx_sub_spec(center.z as int, eye.z as int) as i64,
        },
    );
    let s = v3_normalize_spec(v3_cross_spec(f, up));
    let u = v3_cross_spec(s, f);
    Mat4Fx {
        m00: s.x, m01: s.y, m02: s.z, m03: (-(v3_dot_spec(s, eye))) as i64,
        m10: u.x, m11: u.y, m12: u.z, m13: (-(v3_dot_spec(u, eye))) as i64,
        m20: (-(f.x as int)) as i64, m21: (-(f.y as int)) as i64, m22: (-(f.z as int)) as i64, m23: v3_dot_spec(f, eye) as i64,
        m30: 0, m31: 0, m32: 0, m33: FX_ONE,
    }
}

/// Saturating cross product.
pub open spec fn v3_cross_spec(a: Vec3Fx, b: Vec3Fx) -> Vec3Fx {
    Vec3Fx {
        x: fx_sub_spec(fx_mul_spec(a.y as int, b.z as int), fx_mul_spec(a.z as int, b.y as int)) as i64,
        y: fx_sub_spec(fx_mul_spec(a.z as int, b.x as int), fx_mul_spec(a.x as int, b.z as int)) as i64,
        z: fx_sub_spec(fx_mul_spec(a.x as int, b.y as int), fx_mul_spec(a.y as int, b.x as int)) as i64,
    }
}

pub fn v3_cross(a: Vec3Fx, b: Vec3Fx) -> (r: Vec3Fx)
    requires
        v3_ok(a),
        v3_ok(b),
    ensures
        r == (v3_cross_spec(a, b)),
        v3_ok(r),
{
    Vec3Fx {
        x: fx_sub(fx_mul(a.y, b.z), fx_mul(a.z, b.y)),
        y: fx_sub(fx_mul(a.z, b.x), fx_mul(a.x, b.z)),
        z: fx_sub(fx_mul(a.x, b.y), fx_mul(a.y, b.x)),
    }
}

pub fn create_view_matrix(eye: Vec3Fx, center: Vec3Fx, up: Vec3Fx) -> (m: Mat4Fx)
    requires
        v3_ok(eye),
        v3_ok(center),
        v3_ok(up),
    ensures
        m == (view_matrix_spec(eye, center, up)),
        m4_ok(m),
{
    let f = v3_normalize(
        Vec3Fx {
            x: fx_sub(center.x, eye.x),
            y: fx_sub(center.y, eye.y),
            z: fx_sub(center.z, eye.z),
        },
    );
    let s = v3_normalize(v3_cross(f, up));
    let u = v3_cross(s, f);
    Mat4Fx {
        m00: s.x, m01: s.y, m02: s.z, m03: -v3_dot(s, eye),
        m10: u.x, m11: u.y, m12: u.z, m13: -v3_dot(u, eye),
        m20: -f.x, m21: -f.y, m22: -f.z, m23: v3_dot(f, eye),
        m30: 0, m31: 0, m32: 0, m33: FX_ONE,
    }
}

/// Half of the 45-degree vertical field of view, in fixed point
/// (`PI_FX / 8`, rounded down).
pub const HALF_FOV_FX: i64 = 25735;

/// The near plane, one tenth of a unit (`FX_ONE / 10`, rounded down).
pub const NEAR_FX: i64 = 6553;

/// The far plane, a thousand units.
pub const FAR_FX: i64 = 1000 * FX_ONE;

/// A symmetric perspective projection with a 45-degree vertical field of
/// view, near plane at 1/10 and far plane at 1000.
pub open spec fn perspective_matrix_spec(width: int, height: int) -> Mat4Fx {
    let tan_half = fx_div_spec(fx_sin_spec(HALF_FOV_FX as int), fx_cos_spec(HALF_FOV_FX as int));
    let aspect = fx_div_spec(width, height);
    let near = NEAR_FX as int;
    let far = FAR_FX as int;
    let m00 = fx_div_spec(FX_ONE as int, fx_mul_spec(aspect, tan_half));
    let m11 = fx_div_spec(FX_ONE as int, tan_half);
    let m22 = -fx_div_spec(fx_add_spec(far, near), fx_sub_spec(far, near));
    let m23 = -fx_div_spec(fx_mul_spec(2 * (FX_ONE as int), fx_mul_spec(far, near)), fx_sub_spec(far, near));
    Mat4Fx {
        m00: m00 as i64, m01: 0, m02: 0, m03: 0,
        m10: 0, m11: m11 as i64, m12: 0, m13: 0,
        m20: 0, m21: 0, m22: m22 as i64, m23: m23 as i64,
        m30: 0, m31: 0, m32: (-(FX_ONE as int)) as i64, m33: 0,
    }
}

pub fn create_perspective_matrix(window_width: i64, window_height: i64) -> (m: Mat4Fx)
    requires
        fx_ok(window_width as int),
        fx_ok(window_height as int),
    ensures
        m == (perspective_matrix_spec(window_width as int, window_height as int)),
        m4_ok(m),
{
    let tan_half = fx_div(fx_sin(HALF_FOV_FX), fx_cos(HALF_FOV_FX));
    let aspect = fx_div(window_width, window_height);
    let near: i64 = NEAR_FX;
    let far: i64 = FAR_FX;
    let m00 = fx_div(FX_ONE, fx_mul(aspect, tan_half));
    let m11 = fx_div(FX_ONE, tan_half);
    let m22 = -fx_div(fx_add(far, near), fx_sub(far, near));
    let m23 = -fx_div(fx_mul(2 * FX_ONE, fx_mul(far, near)), fx_sub(far, near));
    Mat4Fx {
        m00, m01: 0, m02: 0, m03: 0,
        m10: 0, m11, m12: 0, m13: 0,
        m20: 0, m21: 0, m22, m23,
        m30: 0, m31: 0, m32: -FX_ONE, m33: 0,
    }
}

/// The viewport map: normalized device coordinates to pixel space, with the
/// y axis flipped so rows grow downward; depth passes through unchanged.
pub open spec fn viewport_matrix_spec(width: int, height: int) -> Mat4Fx {
    let hw = width / 2;
    let hh = height / 2;
    Mat4Fx {
        m00: hw as i64, m01: 0, m02: 0, m03: hw as i64,
        m10: 0, m11: (-hh) as i64, m12: 0, m13: hh as i64,
        m20: 0, m21: 0, m22: FX_ONE, m23: 0,
        m30: 0, m31: 0, m32: 0, m33: FX_ONE,
    }
}

pub fn create_viewport_matrix(width: i64, height: i64) -> (m: Mat4Fx)
    requires
        0 <= width as int <= FX_SAT as int,
        0 <= height as int <= FX_SAT as int,
    ensures
        m == (viewport_matrix_spec(width as int, height as int)),
        m4_ok(m),
{
    let hw: i64 = ((width as u64) / 2) as i64;
    let hh: i64 = ((height as u64) / 2) as i64;
    Mat4Fx {
        m00: hw, m01: 0, m02: 0, m03: hw,
        m10: 0, m11: -hh, m12: 0, m13: hh,
        m20: 0, m21: 0, m22: FX_ONE, m23: 0,
        m30: 0, m31: 0, m32: 0, m33: FX_ONE,
    }
}

} // verus!
