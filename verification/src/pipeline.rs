//! The per-frame pipeline: transform every vertex, assemble consecutive
//! triples into triangles, rasterize each triangle, and write shaded
//! fragments into the framebuffer.
//!
//! The caller drives the fragment loop, because sampling a noise field is
//! outside work: for each fragment it asks `noise_requests` where to
//! sample, samples its generator there, and hands the samples to
//! `shade_and_write`.
use vstd::prelude::*;

use crate::color::color_hex_spec;
use crate::fragment::{fragment_ok, Fragment};
use crate::framebuffer::{fb_wf, fb_write_spec, Framebuffer};
use crate::fx::fx_ok;
use crate::raster::{raster_spec, triangle, triangle_ok, Triangle};
use crate::shaders::{fragment_shader, fragment_shader_spec, sample_count_spec};
use crate::transform::{vertex_shader, vertex_shader_spec};
use crate::uniforms::{uniforms_ok, Uniforms};
use crate::vertex::{vertex_ok, Vertex};

verus! {

/// The whole vertex stream pushed through the transform stage, in order.
pub open spec fn transform_spec(verts: Seq<Vertex>, u: Uniforms) -> Seq<Vertex> {
    Seq::new(verts.len(), |i: int| vertex_shader_spec(verts[i], u))
}

pub fn transform_vertices(vertex_array: &Vec<Vertex>, uniforms: &Uniforms) -> (r: Vec<Vertex>)
    requires
        uniforms_ok(*uniforms),
        forall|i: int| 0 <= i < vertex_array@.len() ==> vertex_ok(#[trigger] vertex_array@[i]),
    ensures
        r@ == transform_spec(vertex_array@, *uniforms),
        forall|i: int| 0 <= i < r@.len() ==> vertex_ok(#[trigger] r@[i]),
{
    let n = vertex_array.len();
    let mut out: Vec<Vertex> = Vec::new();
    let mut i: usize = 0;
    while i < n
        invariant
            i <= n,
            n == vertex_array@.len(),
            uniforms_ok(*uniforms),
            forall|j: int| 0 <= j < n ==> vertex_ok(#[trigger] vertex_array@[j]),
            out@.len() == i,
            forall|j: int|
                0 <= j < i ==> #[trigger] out@[j] == vertex_shader_spec(
                    vertex_array@[j],
                    *uniforms,
                ),
            forall|j: int| 0 <= j < i ==> vertex_ok(#[trigger] out@[j]),
        decreases n - i,
    {
        out.push(vertex_shader(&vertex_array[i], uniforms));
        i = i + 1;
    }
    proof {
        assert(out@ =~= transform_spec(vertex_array@, *uniforms));
    }
    out
}

/// Primitive assembly: consecutive non-overlapping triples, in input order;
/// a trailing group of one or two vertices yields nothing.
pub open spec fn assemble_spec(verts: Seq<Vertex>) -> Seq<Triangle> {
    Seq::new(
        (verts.len() / 3) as nat,
        |k: int| Triangle { v0: verts[3 * k], v1: verts[3 * k + 1], v2: verts[3 * k + 2] },
    )
}

/// A vertex stream of length `n` assembles into exactly `n / 3` triangles
/// (rounded down), each taking its three vertices from one consecutive
/// triple; the one or two trailing vertices beyond `3 * (n / 3)` appear in
/// no triangle.
pub proof fn lemma_partial_triple_dropped(verts: Seq<Vertex>)
    ensures
        assemble_spec(verts).len() == verts.len() / 3,
        3 * (verts.len() / 3) <= verts.len(),
        verts.len() - 3 * (verts.len() / 3) < 3,
        forall|k: int|
            0 <= k < verts.len() / 3 ==> #[trigger] assemble_spec(verts)[k] == (Triangle {
                v0: verts[3 * k],
                v1: verts[3 * k + 1],
                v2: verts[3 * k + 2],
            }),
{
    let n = verts.len() as int;
    assert(3 * (n / 3) <= n && n - 3 * (n / 3) < 3) by {
        vstd::arithmetic::div_mod::lemma_fundamental_div_mod(n, 3);
        vstd::arithmetic::div_mod::lemma_mod_bound(n, 3);
    }
}

pub fn assemble_triangles(transformed: &Vec<Vertex>) -> (tris: Vec<Triangle>)
    ensures
        tris@ == assemble_spec(transformed@),
{
    let n = transformed.len();
    let m = n / 3;
    let mut tris: Vec<Triangle> = Vec::new();
    let mut k: usize = 0;
    while k < m
        invariant
            k <= m,
            m == n / 3,
            n == transformed@.len(),
            tris@.len() == k,
            forall|j: int|
                0 <= j < k ==> #[trigger] tris@[j] == (Triangle {
                    v0: transformed@[3 * j],
                    v1: transformed@[3 * j + 1],
                    v2: transformed@[3 * j + 2],
                }),
        decreases m - k,
    {
        let i = 3 * k;
        tris.push(
            Triangle { v0: transformed[i], v1: transformed[i + 1], v2: transformed[i + 2] },
        );
        k = k + 1;
    }
    proof {
        assert(tris@ =~= assemble_spec(transformed@));
    }
    tris
}

/// Every triangle's fragments, concatenated in triangle order.
pub open spec fn raster_all_spec(tris: Seq<Triangle>) -> Seq<Fragment>
    decreases tris.len(),
{
    if tris.len() == 0 {
        Seq::<Fragment>::empty()
    } else {
        raster_all_spec(tris.drop_last()) + raster_spec(tris.last())
    }
}

pub fn rasterize_triangles(tris: &Vec<Triangle>) -> (frags: Vec<Fragment>)
    requires
        forall|k: int| 0 <= k < tris@.len() ==> triangle_ok(#[trigger] tris@[k]),
    ensures
        frags@ == raster_all_spec(tris@),
        forall|i: int| 0 <= i < frags@.len() ==> fragment_ok(#[trigger] frags@[i]),
{
    let n = tris.len();
    let mut frags: Vec<Fragment> = Vec::new();
    let mut k: usize = 0;
    while k < n
        invariant
            k <= n,
            n == tris@.len(),
            forall|j: int| 0 <= j < n ==> triangle_ok(#[trigger] tris@[j]),
            frags@ == raster_all_spec(tris@.take(k as int)),
            forall|i: int| 0 <= i < frags@.len() ==> fragment_ok(#[trigger] frags@[i]),
        decreases n - k,
    {
        let t = &tris[k];
        let sub = triangle(&t.v0, &t.v1, &t.v2);
        let mut j: usize = 0;
        let ghost before = frags@;
        while j < sub.len()
            invariant
                j <= sub@.len(),
                frags@ == before + sub@.take(j as int),
                forall|i: int| 0 <= i < sub@.len() ==> fragment_ok(#[trigger] sub@[i]),
                forall|i: int| 0 <= i < before.len() ==> fragment_ok(#[trigger] before[i]),
            decreases sub@.len() - j,
        {
            frags.push(sub[j]);
            proof {
                assert(frags@ =~= before + sub@.take(j + 1));
            }
            j = j + 1;
        }
        proof {
            assert(sub@.take(sub@.len() as int) =~= sub@);
            assert(tris@.take(k + 1).drop_last() =~= tris@.take(k as int));
            assert(tris@.take(k + 1).last() == tris@[k as int]);
            assert(sub@ == raster_spec(Triangle { v0: t.v0, v1: t.v1, v2: t.v2 }));
            assert(Triangle { v0: t.v0, v1: t.v1, v2: t.v2 } == tris@[k as int]);
            assert(frags@ == raster_all_spec(tris@.take(k + 1)));
        }
        k = k + 1;
    }
    proof {
        assert(tris@.take(n as int) =~= tris@);
    }
    frags
}

/// Transform, assembly and rasterization for one mesh group's vertex
/// stream: everything of the frame that needs no noise field.
pub open spec fn render_fragments_spec(verts: Seq<Vertex>, u: Uniforms) -> Seq<Fragment> {
    raster_all_spec(assemble_spec(transform_spec(verts, u)))
}

pub fn render_fragments(uniforms: &Uniforms, vertex_array: &Vec<Vertex>) -> (frags: Vec<Fragment>)
    requires
        uniforms_ok(*uniforms),
        forall|i: int| 0 <= i < vertex_array@.len() ==> vertex_ok(#[trigger] vertex_array@[i]),
    ensures
        frags@ == render_fragments_spec(vertex_array@, *uniforms),
        forall|i: int| 0 <= i < frags@.len() ==> fragment_ok(#[trigger] frags@[i]),
{
    let transformed = transform_vertices(vertex_array, uniforms);
    let tris = assemble_triangles(&transformed);
    proof {
        assert(forall|k: int| 0 <= k < tris@.len() ==> triangle_ok(#[trigger] tris@[k]));
    }
    rasterize_triangles(&tris)
}

/// Shade one fragment with the selected policy and write it, depth-tested,
/// into the framebuffer.
pub fn shade_and_write(
    fb: &mut Framebuffer,
    f: &Fragment,
    uniforms: &Uniforms,
    current_shader: u32,
    samples: &Vec<i64>,
)
    requires
        fb_wf(*old(fb)),
        fragment_ok(*f),
        samples@.len() == sample_count_spec(current_shader),
        forall|i: int| 0 <= i < samples@.len() ==> fx_ok(#[trigger] samples@[i] as int),
    ensures
        fb_wf(*final(fb)),
        final(fb).model() == fb_write_spec(
            old(fb).model(),
            f.x as int,
            f.y as int,
            f.depth as int,
            color_hex_spec(
                fragment_shader_spec(*f, uniforms.time, current_shader, samples@),
            ) as u32,
        ),
{
    let color = fragment_shader(f, uniforms, current_shader, samples);
    fb.write(f.x as usize, f.y as usize, f.depth, color.to_hex());
}

} // verus!
