//! Scan conversion: one triangle in, one fragment per covered pixel out.
//!
//! Coverage uses the standard edge functions at integer pixel centers; a
//! pixel is covered when all three barycentric weights share the area's
//! sign, edges inclusive, so pixels exactly on a shared edge belong to both
//! adjacent triangles.  Depth, object-space position and normal are
//! interpolated linearly in screen space (no perspective correction), and
//! lighting intensity is the clamped dot product of the normalized
//! interpolated normal with a fixed light direction.  A zero-area triangle
//! covers nothing.
use vstd::prelude::*;

use vstd::arithmetic::div_mod::{lemma_mod_bound, lemma_multiply_divide_lt};

use crate::fragment::{fragment_ok, Fragment};
use crate::fx::{
    fx_add, fx_add_spec, fx_clamp01, fx_clamp01_spec, fx_div, fx_div_spec, fx_mul, fx_mul_spec,
    fx_ok, fx_sub, fx_sub_spec, FX_ONE, FX_SAT,
};
use crate::mat::{v3_dot, v3_dot_spec, v3_normalize, v3_normalize_spec, v3_ok, Vec3Fx};
use crate::vertex::{vertex_ok, Vertex};

verus! {

/// Exactly three transformed vertices, assembled from consecutive triples
/// of the vertex stream.
#[derive(Clone, Copy, PartialEq, Eq, Structural, Debug)]
pub struct Triangle {
    pub v0: Vertex,
    pub v1: Vertex,
    pub v2: Vertex,
}

pub open spec fn triangle_ok(t: Triangle) -> bool {
    vertex_ok(t.v0) && vertex_ok(t.v1) && vertex_ok(t.v2)
}

/// The fixed light direction of the pipeline: straight along +z.
pub open spec fn light_dir_spec() -> Vec3Fx {
    Vec3Fx { x: 0, y: 0, z: FX_ONE }
}

/// Lighting intensity of a surface normal: the dot product of the
/// normalized normal with the light direction, clamped into `[0, FX_ONE]`.
/// A zero-length normal normalizes to zero and yields intensity zero.
pub open spec fn intensity_spec(n: Vec3Fx) -> int {
    fx_clamp01_spec(v3_dot_spec(v3_normalize_spec(n), light_dir_spec()))
}

pub fn lighting_intensity(n: Vec3Fx) -> (r: i64)
    requires
        v3_ok(n),
    ensures
        r == intensity_spec(n),
        0 <= r <= FX_ONE,
{
    fx_clamp01(v3_dot(v3_normalize(n), Vec3Fx { x: 0, y: 0, z: FX_ONE }))
}

/// Lighting intensity always lies in the unit interval, for every normal.
pub proof fn lemma_intensity_in_unit_interval(n: Vec3Fx)
    ensures
        0 <= intensity_spec(n) <= FX_ONE,
{
}

/// A zero-length normal is a defined edge value: it lights to exactly zero.
pub proof fn lemma_zero_normal_intensity()
    ensures
        intensity_spec(Vec3Fx { x: 0, y: 0, z: 0 }) == 0,
{
    assert(fx_mul_spec(0, 0) == 0);
    assert(fx_mul_spec(0, FX_ONE as int) == 0);
    assert(fx_add_spec(0, 0) == 0);
    assert(fx_div_spec(0, 0) == 0);
}

/// The edge function: the cross product telling on which side of the
/// directed edge `a -> b` the point `p` lies, in saturating fixed point.
pub open spec fn edge_spec(ax: int, ay: int, bx: int, by: int, px: int, py: int) -> int {
    fx_sub_spec(
        fx_mul_spec(fx_sub_spec(bx, ax), fx_sub_spec(py, ay)),
        fx_mul_spec(fx_sub_spec(by, ay), fx_sub_spec(px, ax)),
    )
}

fn edge_fn(ax: i64, ay: i64, bx: i64, by: i64, px: i64, py: i64) -> (r: i64)
    requires
        fx_ok(ax as int),
        fx_ok(ay as int),
        fx_ok(bx as int),
        fx_ok(by as int),
        fx_ok(px as int),
        fx_ok(py as int),
    ensures
        r == edge_spec(ax as int, ay as int, bx as int, by as int, px as int, py as int),
        fx_ok(r as int),
{
    fx_sub(fx_mul(fx_sub(bx, ax), fx_sub(py, ay)), fx_mul(fx_sub(by, ay), fx_sub(px, ax)))
}

/// Twice the signed area of the triangle's screen-space projection.
pub open spec fn area_spec(t: Triangle) -> int {
    edge_spec(
        t.v0.transformed_position.x as int,
        t.v0.transformed_position.y as int,
        t.v1.transformed_position.x as int,
        t.v1.transformed_position.y as int,
        t.v2.transformed_position.x as int,
        t.v2.transformed_position.y as int,
    )
}

/// Barycentric weight of `v0` at the pixel center `(px, py)`.
pub open spec fn w0_spec(t: Triangle, px: int, py: int) -> int {
    edge_spec(
        t.v1.transformed_position.x as int,
        t.v1.transformed_position.y as int,
        t.v2.transformed_position.x as int,
        t.v2.transformed_position.y as int,
        px * (FX_ONE as int),
        py * (FX_ONE as int),
    )
}

/// Barycentric weight of `v1`.
pub open spec fn w1_spec(t: Triangle, px: int, py: int) -> int {
    edge_spec(
        t.v2.transformed_position.x as int,
        t.v2.transformed_position.y as int,
        t.v0.transformed_position.x as int,
        t.v0.transformed_position.y as int,
        px * (FX_ONE as int),
        py * (FX_ONE as int),
    )
}

/// Barycentric weight of `v2`.
pub open spec fn w2_spec(t: Triangle, px: int, py: int) -> int {
    edge_spec(
        t.v0.transformed_position.x as int,
        t.v0.transformed_position.y as int,
        t.v1.transformed_position.x as int,
        t.v1.transformed_position.y as int,
        px * (FX_ONE as int),
        py * (FX_ONE as int),
    )
}

/// A pixel is covered when all three weights lie on the area's side,
/// boundaries included; a degenerate (zero-area) triangle covers nothing.
pub open spec fn covered_spec(t: Triangle, px: int, py: int) -> bool {
    let area = area_spec(t);
    let w0 = w0_spec(t, px, py);
    let w1 = w1_spec(t, px, py);
    let w2 = w2_spec(t, px, py);
    if area > 0 {
        w0 >= 0 && w1 >= 0 && w2 >= 0
    } else if area < 0 {
        w0 <= 0 && w1 <= 0 && w2 <= 0
    } else {
        false
    }
}

/// Barycentric interpolation of a vertex attribute: the weighted sum of the
/// three attribute values, divided by the area.
pub open spec fn interp_w_spec(w0: int, w1: int, w2: int, area: int, a0: int, a1: int, a2: int) -> int {
    fx_div_spec(
        fx_add_spec(
            fx_add_spec(fx_mul_spec(w0, a0), fx_mul_spec(w1, a1)),
            fx_mul_spec(w2, a2),
        ),
        area,
    )
}

fn interp_w(w0: i64, w1: i64, w2: i64, area: i64, a0: i64, a1: i64, a2: i64) -> (r: i64)
    requires
        fx_ok(w0 as int),
        fx_ok(w1 as int),
        fx_ok(w2 as int),
        fx_ok(area as int),
        fx_ok(a0 as int),
        fx_ok(a1 as int),
        fx_ok(a2 as int),
    ensures
        r == interp_w_spec(w0 as int, w1 as int, w2 as int, area as int, a0 as int, a1 as int, a2 as int),
        fx_ok(r as int),
{
    fx_div(fx_add(fx_add(fx_mul(w0, a0), fx_mul(w1, a1)), fx_mul(w2, a2)), area)
}

/// The fragment emitted for the covered pixel `(px, py)`.
pub open spec fn frag_at_spec(t: Triangle, px: int, py: int) -> Fragment {
    let w0 = w0_spec(t, px, py);
    let w1 = w1_spec(t, px, py);
    let w2 = w2_spec(t, px, py);
    let area = area_spec(t);
    let depth = interp_w_spec(
        w0,
        w1,
        w2,
        area,
        t.v0.transformed_position.z as int,
        t.v1.transformed_position.z as int,
        t.v2.transformed_position.z as int,
    );
    let vpos = Vec3Fx {
        x: interp_w_spec(w0, w1, w2, area, t.v0.position.x as int, t.v1.position.x as int, t.v2.position.x as int) as i64,
        y: interp_w_spec(w0, w1, w2, area, t.v0.position.y as int, t.v1.position.y as int, t.v2.position.y as int) as i64,
        z: interp_w_spec(w0, w1, w2, area, t.v0.position.z as int, t.v1.position.z as int, t.v2.position.z as int) as i64,
    };
    let nrm = Vec3Fx {
        x: interp_w_spec(w0, w1, w2, area, t.v0.transformed_normal.x as int, t.v1.transformed_normal.x as int, t.v2.transformed_normal.x as int) as i64,
        y: interp_w_spec(w0, w1, w2, area, t.v0.transformed_normal.y as int, t.v1.transformed_normal.y as int, t.v2.transformed_normal.y as int) as i64,
        z: interp_w_spec(w0, w1, w2, area, t.v0.transformed_normal.z as int, t.v1.transformed_normal.z as int, t.v2.transformed_normal.z as int) as i64,
    };
    Fragment {
        x: px as u32,
        y: py as u32,
        depth: depth as i64,
        vertex_position: vpos,
        normal: nrm,
        intensity: intensity_spec(nrm) as i64,
    }
}

pub open spec fn min3_spec(a: int, b: int, c: int) -> int {
    if a <= b && a <= c {
        a
    } else if b <= c {
        b
    } else {
        c
    }
}

pub open spec fn max3_spec(a: int, b: int, c: int) -> int {
    if a >= b && a >= c {
        a
    } else if b >= c {
        b
    } else {
        c
    }
}

fn min3(a: i64, b: i64, c: i64) -> (r: i64)
    ensures
        r == min3_spec(a as int, b as int, c as int),
{
    if a <= b && a <= c {
        a
    } else if b <= c {
        b
    } else {
        c
    }
}

fn max3(a: i64, b: i64, c: i64) -> (r: i64)
    ensures
        r == max3_spec(a as int, b as int, c as int),
{
    if a >= b && a >= c {
        a
    } else if b >= c {
        b
    } else {
        c
    }
}

/// First pixel column of the bounding box, clamped to be non-negative.
pub open spec fn box_left_spec(t: Triangle) -> int {
    let mn = min3_spec(
        t.v0.transformed_position.x as int,
        t.v1.transformed_position.x as int,
        t.v2.transformed_position.x as int,
    );
    if mn < 0 {
        0
    } else {
        mn / (FX_ONE as int)
    }
}

/// First pixel row of the bounding box, clamped to be non-negative.
pub open spec fn box_top_spec(t: Triangle) -> int {
    let mn = min3_spec(
        t.v0.transformed_position.y as int,
        t.v1.transformed_position.y as int,
        t.v2.transformed_position.y as int,
    );
    if mn < 0 {
        0
    } else {
        mn / (FX_ONE as int)
    }
}

/// Number of pixel columns the bounding box spans.
pub open spec fn box_width_spec(t: Triangle) -> int {
    let mx = max3_spec(
        t.v0.transformed_position.x as int,
        t.v1.transformed_position.x as int,
        t.v2.transformed_position.x as int,
    );
    if mx < 0 {
        0
    } else {
        let xh = mx / (FX_ONE as int);
        if xh < box_left_spec(t) {
            0
        } else {
            xh - box_left_spec(t) + 1
        }
    }
}

/// Number of pixel rows the bounding box spans.
pub open spec fn box_height_spec(t: Triangle) -> int {
    let mx = max3_spec(
        t.v0.transformed_position.y as int,
        t.v1.transformed_position.y as int,
        t.v2.transformed_position.y as int,
    );
    if mx < 0 {
        0
    } else {
        let yh = mx / (FX_ONE as int);
        if yh < box_top_spec(t) {
            0
        } else {
            yh - box_top_spec(t) + 1
        }
    }
}

/// Cells of the bounding box in row-major order.
pub open spec fn total_cells_spec(t: Triangle) -> int {
    box_width_spec(t) * box_height_spec(t)
}

pub open spec fn cell_x_spec(t: Triangle, k: int) -> int {
    box_left_spec(t) + k % box_width_spec(t)
}

pub open spec fn cell_y_spec(t: Triangle, k: int) -> int {
    box_top_spec(t) + k / box_width_spec(t)
}

/// The fragments of the first `n` bounding-box cells, in scan order: one
/// fragment per covered cell, nothing for the rest.
pub open spec fn frags_upto_spec(t: Triangle, n: nat) -> Seq<Fragment>
    decreases n,
{
    if n == 0 {
        Seq::<Fragment>::empty()
    } else {
        let prev = frags_upto_spec(t, (n - 1) as nat);
        let px = cell_x_spec(t, n - 1);
        let py = cell_y_spec(t, n - 1);
        if covered_spec(t, px, py) {
            prev.push(frag_at_spec(t, px, py))
        } else {
            prev
        }
    }
}

/// Everything the rasterizer emits for one triangle.
pub open spec fn raster_spec(t: Triangle) -> Seq<Fragment> {
    frags_upto_spec(t, total_cells_spec(t) as nat)
}

proof fn lemma_frags_upto_complete(t: Triangle, n: nat, k: int)
    requires
        0 <= k < n,
        covered_spec(t, cell_x_spec(t, k), cell_y_spec(t, k)),
    ensures
        frags_upto_spec(t, n).contains(frag_at_spec(t, cell_x_spec(t, k), cell_y_spec(t, k))),
    decreases n,
{
    let f = frag_at_spec(t, cell_x_spec(t, k), cell_y_spec(t, k));
    let prev = frags_upto_spec(t, (n - 1) as nat);
    let cur = frags_upto_spec(t, n);
    if k == n - 1 {
        assert(cur == prev.push(f));
        assert(cur[prev.len() as int] == f);
    } else {
        lemma_frags_upto_complete(t, (n - 1) as nat, k);
        let i = choose|i: int| 0 <= i < prev.len() && prev[i] == f;
        assert(cur[i] == f);
    }
}

/// Completeness: every covered pixel of the bounding box has its fragment
/// in the rasterizer's output.
pub proof fn lemma_raster_complete(t: Triangle, k: int)
    requires
        0 <= k < total_cells_spec(t),
        covered_spec(t, cell_x_spec(t, k), cell_y_spec(t, k)),
    ensures
        raster_spec(t).contains(frag_at_spec(t, cell_x_spec(t, k), cell_y_spec(t, k))),
{
    lemma_frags_upto_complete(t, total_cells_spec(t) as nat, k);
}

proof fn lemma_frags_upto_sound(t: Triangle, n: nat, i: int)
    requires
        0 <= i < frags_upto_spec(t, n).len(),
    ensures
        exists|k: int|
            0 <= k < n && covered_spec(t, cell_x_spec(t, k), cell_y_spec(t, k))
                && frags_upto_spec(t, n)[i] == frag_at_spec(
                t,
                cell_x_spec(t, k),
                cell_y_spec(t, k),
            ) && frags_upto_spec(t, k as nat).len() == i,
    decreases n,
{
    let prev = frags_upto_spec(t, (n - 1) as nat);
    let cur = frags_upto_spec(t, n);
    if covered_spec(t, cell_x_spec(t, n - 1), cell_y_spec(t, n - 1)) && i == prev.len() {
        assert(0 <= n - 1 < n && covered_spec(t, cell_x_spec(t, n - 1), cell_y_spec(t, n - 1))
            && cur[i] == frag_at_spec(t, cell_x_spec(t, n - 1), cell_y_spec(t, n - 1))
            && frags_upto_spec(t, (n - 1) as nat).len() == i);
    } else {
        lemma_frags_upto_sound(t, (n - 1) as nat, i);
        let k = choose|k: int|
            0 <= k < n - 1 && covered_spec(t, cell_x_spec(t, k), cell_y_spec(t, k)) && prev[i]
                == frag_at_spec(t, cell_x_spec(t, k), cell_y_spec(t, k)) && frags_upto_spec(
                t,
                k as nat,
            ).len() == i;
        assert(0 <= k < n && covered_spec(t, cell_x_spec(t, k), cell_y_spec(t, k)) && cur[i]
            == frag_at_spec(t, cell_x_spec(t, k), cell_y_spec(t, k)) && frags_upto_spec(
            t,
            k as nat,
        ).len() == i);
    }
}

/// Soundness: every fragment the rasterizer emits is the fragment of some
/// covered pixel of the bounding box — nothing is emitted for uncovered or
/// out-of-box pixels.
pub proof fn lemma_raster_sound(t: Triangle, i: int)
    requires
        0 <= i < raster_spec(t).len(),
    ensures
        exists|k: int|
            0 <= k < total_cells_spec(t) && covered_spec(t, cell_x_spec(t, k), cell_y_spec(t, k))
                && raster_spec(t)[i] == frag_at_spec(t, cell_x_spec(t, k), cell_y_spec(t, k)),
{
    lemma_frags_upto_sound(t, total_cells_spec(t) as nat, i);
}

/// No pixel is emitted twice for one triangle: two fragments at different
/// positions of the stream always name different pixels.
pub proof fn lemma_raster_no_double_emit(t: Triangle, i: int, j: int)
    requires
        triangle_ok(t),
        0 <= i < j < raster_spec(t).len(),
    ensures
        raster_spec(t)[i].x != raster_spec(t)[j].x || raster_spec(t)[i].y != raster_spec(t)[j].y,
{
    let total = total_cells_spec(t);
    lemma_frags_upto_sound(t, total as nat, i);
    lemma_frags_upto_sound(t, total as nat, j);
    let ki = choose|k: int|
        0 <= k < total && covered_spec(t, cell_x_spec(t, k), cell_y_spec(t, k)) && raster_spec(t)[i]
            == frag_at_spec(t, cell_x_spec(t, k), cell_y_spec(t, k)) && frags_upto_spec(
            t,
            k as nat,
        ).len() == i;
    let kj = choose|k: int|
        0 <= k < total && covered_spec(t, cell_x_spec(t, k), cell_y_spec(t, k)) && raster_spec(t)[j]
            == frag_at_spec(t, cell_x_spec(t, k), cell_y_spec(t, k)) && frags_upto_spec(
            t,
            k as nat,
        ).len() == j;
    assert(ki != kj);
    let w = box_width_spec(t);
    let h = box_height_spec(t);
    assert(w > 0 && h > 0) by (nonlinear_arith)
        requires
            0 <= ki < w * h,
            w >= 0,
            h >= 0,
    ;
    lemma_mod_bound(ki, w);
    lemma_mod_bound(kj, w);
    lemma_multiply_divide_lt(ki, w, h);
    lemma_multiply_divide_lt(kj, w, h);
    let sat = FX_SAT as int;
    let one = FX_ONE as int;
    vstd::arithmetic::div_mod::lemma_div_is_ordered(
        max3_spec(
            t.v0.transformed_position.x as int,
            t.v1.transformed_position.x as int,
            t.v2.transformed_position.x as int,
        ),
        sat,
        one,
    );
    vstd::arithmetic::div_mod::lemma_div_is_ordered(
        max3_spec(
            t.v0.transformed_position.y as int,
            t.v1.transformed_position.y as int,
            t.v2.transformed_position.y as int,
        ),
        sat,
        one,
    );
    assert(sat / one == 0x7fff_ffff);
    assert(box_left_spec(t) + w <= 0x8000_0000 && box_top_spec(t) + h <= 0x8000_0000);
    if raster_spec(t)[i].x == raster_spec(t)[j].x && raster_spec(t)[i].y == raster_spec(t)[j].y {
        assert(cell_x_spec(t, ki) == cell_x_spec(t, kj));
        assert(cell_y_spec(t, ki) == cell_y_spec(t, kj));
        assert(ki % w == kj % w && ki / w == kj / w);
        vstd::arithmetic::div_mod::lemma_fundamental_div_mod(ki, w);
        vstd::arithmetic::div_mod::lemma_fundamental_div_mod(kj, w);
        assert(false);
    }
}

/// Rasterize one triangle: walk its clamped bounding box in row-major
/// order and emit one fragment per covered pixel center.
pub fn triangle(a: &Vertex, b: &Vertex, c: &Vertex) -> (frags: Vec<Fragment>)
    requires
        vertex_ok(*a),
        vertex_ok(*b),
        vertex_ok(*c),
    ensures
        frags@ == raster_spec(Triangle { v0: *a, v1: *b, v2: *c }),
        forall|i: int| 0 <= i < frags@.len() ==> fragment_ok(#[trigger] frags@[i]),
{
    let ghost t = Triangle { v0: *a, v1: *b, v2: *c };
    let p0 = a.transformed_position;
    let p1 = b.transformed_position;
    let p2 = c.transformed_position;

    let mnx = min3(p0.x, p1.x, p2.x);
    let mxx = max3(p0.x, p1.x, p2.x);
    let mny = min3(p0.y, p1.y, p2.y);
    let mxy = max3(p0.y, p1.y, p2.y);

    let xs: u64 = if mnx < 0 {
        0
    } else {
        (mnx as u64) / 65536
    };
    let ys: u64 = if mny < 0 {
        0
    } else {
        (mny as u64) / 65536
    };
    let w: u64 = if mxx < 0 {
        0
    } else {
        let xh: u64 = (mxx as u64) / 65536;
        if xh < xs {
            0
        } else {
            xh - xs + 1
        }
    };
    let h: u64 = if mxy < 0 {
        0
    } else {
        let yh: u64 = (mxy as u64) / 65536;
        if yh < ys {
            0
        } else {
            yh - ys + 1
        }
    };
    proof {
        assert(xs == box_left_spec(t));
        assert(ys == box_top_spec(t));
        assert(w == box_width_spec(t));
        assert(h == box_height_spec(t));
        assert(xs + w <= 0x8000_0000 && ys + h <= 0x8000_0000);
        assert((w as int) * (h as int) <= 0x8000_0000 * 0x8000_0000) by (nonlinear_arith)
            requires
                0 <= w as int <= 0x8000_0000,
                0 <= h as int <= 0x8000_0000,
        ;
    }
    let total: u64 = w * h;

    let area = edge_fn(p0.x, p0.y, p1.x, p1.y, p2.x, p2.y);

    let mut frags: Vec<Fragment> = Vec::new();
    let mut k: u64 = 0;
    while k < total
        invariant
            vertex_ok(*a) && vertex_ok(*b) && vertex_ok(*c),
            t == (Triangle { v0: *a, v1: *b, v2: *c }),
            p0 == a.transformed_position && p1 == b.transformed_position && p2
                == c.transformed_position,
            k <= total,
            xs == box_left_spec(t),
            ys == box_top_spec(t),
            w == box_width_spec(t),
            h == box_height_spec(t),
            total == w * h,
            total == total_cells_spec(t),
            xs + w <= 0x8000_0000,
            ys + h <= 0x8000_0000,
            area == area_spec(t),
            fx_ok(area as int),
            frags@ == frags_upto_spec(t, k as nat),
            forall|i: int| 0 <= i < frags@.len() ==> fragment_ok(#[trigger] frags@[i]),
        decreases total - k,
    {
        proof {
            assert(w > 0) by (nonlinear_arith)
                requires
                    (k as int) < (w as int) * (h as int),
                    k >= 0,
                    w >= 0,
            ;
            lemma_mod_bound(k as int, w as int);
            lemma_multiply_divide_lt(k as int, w as int, h as int);
        }
        let px: u64 = xs + k % w;
        let py: u64 = ys + k / w;
        let pfx: i64 = (px * 65536) as i64;
        let pfy: i64 = (py * 65536) as i64;

        let w0 = edge_fn(p1.x, p1.y, p2.x, p2.y, pfx, pfy);
        let w1 = edge_fn(p2.x, p2.y, p0.x, p0.y, pfx, pfy);
        let w2 = edge_fn(p0.x, p0.y, p1.x, p1.y, pfx, pfy);

        let cov: bool = if area > 0 {
            w0 >= 0 && w1 >= 0 && w2 >= 0
        } else if area < 0 {
            w0 <= 0 && w1 <= 0 && w2 <= 0
        } else {
            false
        };
        proof {
            assert(px == cell_x_spec(t, k as int));
            assert(py == cell_y_spec(t, k as int));
            assert(cov == covered_spec(t, px as int, py as int));
        }
        if cov {
            let depth = interp_w(w0, w1, w2, area, p0.z, p1.z, p2.z);
            let vpos = Vec3Fx {
                x: interp_w(w0, w1, w2, area, a.position.x, b.position.x, c.position.x),
                y: interp_w(w0, w1, w2, area, a.position.y, b.position.y, c.position.y),
                z: interp_w(w0, w1, w2, area, a.position.z, b.position.z, c.position.z),
            };
            let nrm = Vec3Fx {
                x: interp_w(
                    w0,
                    w1,
                    w2,
                    area,
                    a.transformed_normal.x,
                    b.transformed_normal.x,
                    c.transformed_normal.x,
                ),
                y: interp_w(
                    w0,
                    w1,
                    w2,
                    area,
                    a.transformed_normal.y,
                    b.transformed_normal.y,
                    c.transformed_normal.y,
                ),
                z: interp_w(
                    w0,
                    w1,
                    w2,
                    area,
                    a.transformed_normal.z,
                    b.transformed_normal.z,
                    c.transformed_normal.z,
                ),
            };
            let frag = Fragment {
                x: px as u32,
                y: py as u32,
                depth,
                vertex_position: vpos,
                normal: nrm,
                intensity: lighting_intensity(nrm),
            };
            proof {
                assert(frag == (frag_at_spec(t, px as int, py as int)));
            }
            frags.push(frag);
        }
        proof {
            assert(frags@ =~= frags_upto_spec(t, (k + 1) as nat));
        }
        k = k + 1;
    }
    frags
}

} // verus!
