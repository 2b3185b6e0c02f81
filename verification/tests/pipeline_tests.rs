use planet_raster::color::Color;
use planet_raster::framebuffer::{Framebuffer, DEPTH_FAR};
use planet_raster::fx::FX_ONE;
use planet_raster::mat::{mat4_identity, Vec2Fx, Vec3Fx};
use planet_raster::noise::create_generic_noise;
use planet_raster::pipeline::{assemble_triangles, render_fragments, transform_vertices};
use planet_raster::raster::triangle;
use planet_raster::transform::{
    create_model_matrix, create_perspective_matrix, create_view_matrix, create_viewport_matrix,
    vertex_shader,
};
use planet_raster::uniforms::Uniforms;
use planet_raster::vertex::Vertex;

fn px(units: i64) -> i64 {
    units * FX_ONE
}

fn screen_vertex(x: i64, y: i64, z: i64) -> Vertex {
    Vertex {
        position: Vec3Fx { x: 0, y: 0, z: 0 },
        normal: Vec3Fx { x: 0, y: 0, z: FX_ONE },
        tex_coords: Vec2Fx { x: 0, y: 0 },
        color: Color::new(0, 0, 0),
        transformed_position: Vec3Fx { x, y, z },
        transformed_normal: Vec3Fx { x: 0, y: 0, z: FX_ONE },
    }
}

fn plain_vertex(x: i64, y: i64, z: i64) -> Vertex {
    Vertex::new(
        Vec3Fx { x, y, z },
        Vec3Fx { x: 0, y: 0, z: FX_ONE },
        Vec2Fx { x: 0, y: 0 },
        Color::new(10, 20, 30),
    )
}

fn identity_uniforms() -> Uniforms {
    Uniforms {
        model_matrix: mat4_identity(),
        view_matrix: mat4_identity(),
        projection_matrix: mat4_identity(),
        viewport_matrix: mat4_identity(),
        time: 0,
        noise: create_generic_noise(),
    }
}

#[test]
fn single_axis_aligned_triangle_scenario() {
    // Screen-space right triangle (10,10), (20,10), (10,20), all at depth 0.5.
    let half = FX_ONE / 2;
    let v0 = screen_vertex(px(10), px(10), half);
    let v1 = screen_vertex(px(20), px(10), half);
    let v2 = screen_vertex(px(10), px(20), half);

    let frags = triangle(&v0, &v1, &v2);
    assert!(!frags.is_empty());

    let mut fb = Framebuffer::new(100, 100);
    fb.set_background_color(0x111111);
    fb.clear();
    for f in &frags {
        fb.write(f.x as usize, f.y as usize, f.depth, 0xaa5500);
    }

    for y in 0usize..100 {
        for x in 0usize..100 {
            let i = y * 100 + x;
            let inside = x >= 10 && y >= 10 && x + y <= 30;
            if inside {
                assert_eq!(fb.depths[i], half, "pixel ({x},{y}) should hold depth 0.5");
                assert_eq!(fb.buffer[i], 0xaa5500);
            } else {
                assert_eq!(fb.depths[i], DEPTH_FAR, "no write outside at ({x},{y})");
                assert_eq!(fb.buffer[i], 0x111111);
            }
            // Nothing lands outside the bounding box [10,20]x[10,20].
            if x > 20 || y > 20 || x < 10 || y < 10 {
                assert_eq!(fb.depths[i], DEPTH_FAR);
            }
        }
    }
}

#[test]
fn depth_test_keeps_nearer_color_in_either_order() {
    let near = FX_ONE / 4;
    let far = FX_ONE / 2;

    let mut fb1 = Framebuffer::new(8, 8);
    fb1.clear();
    fb1.write(3, 3, far, 0x0000ff);
    fb1.write(3, 3, near, 0x00ff00);

    let mut fb2 = Framebuffer::new(8, 8);
    fb2.clear();
    fb2.write(3, 3, near, 0x00ff00);
    fb2.write(3, 3, far, 0x0000ff);

    let i = 3 * 8 + 3;
    assert_eq!(fb1.buffer[i], 0x00ff00);
    assert_eq!(fb2.buffer[i], 0x00ff00);
    assert_eq!(fb1.depths[i], near);
    assert_eq!(fb2.depths[i], near);
    assert_eq!(fb1.buffer, fb2.buffer);
    assert_eq!(fb1.depths, fb2.depths);
}

#[test]
fn partial_triple_is_dropped() {
    let verts: Vec<Vertex> = (0..7).map(|i| plain_vertex(px(i), px(i), 0)).collect();
    let tris = assemble_triangles(&verts);
    assert_eq!(tris.len(), 2);
    assert_eq!(tris[0].v0, verts[0]);
    assert_eq!(tris[0].v2, verts[2]);
    assert_eq!(tris[1].v0, verts[3]);
    assert_eq!(tris[1].v2, verts[5]);

    // The trailing vertex is never rasterized: six and seven vertices give
    // the same fragments.
    let u = identity_uniforms();
    let six: Vec<Vertex> = verts[0..6].to_vec();
    let f7 = render_fragments(&u, &verts);
    let f6 = render_fragments(&u, &six);
    assert_eq!(f6, f7);

    let two: Vec<Vertex> = verts[0..2].to_vec();
    assert_eq!(assemble_triangles(&two).len(), 0);
    assert_eq!(render_fragments(&u, &two).len(), 0);
}

#[test]
fn out_of_range_point_is_noop() {
    let mut fb = Framebuffer::new(4, 4);
    fb.clear();
    let before_colors = fb.buffer.clone();
    let before_depths = fb.depths.clone();
    fb.set_current_color(0x123456);
    fb.point(4, 0, 0);
    fb.point(0, 4, 0);
    fb.point(1000, 1000, 0);
    assert_eq!(fb.buffer, before_colors);
    assert_eq!(fb.depths, before_depths);
}

#[test]
fn clear_resets_colors_and_depths() {
    let mut fb = Framebuffer::new(4, 4);
    fb.set_background_color(0x333355);
    fb.clear();
    fb.write(1, 1, 0, 0xffffff);
    assert_eq!(fb.buffer[5], 0xffffff);
    fb.clear();
    for i in 0..16 {
        assert_eq!(fb.buffer[i], 0x333355);
        assert_eq!(fb.depths[i], DEPTH_FAR);
    }
}

#[test]
fn perspective_round_trip_hits_viewport_center() {
    // Camera five units back, looking at the origin; a vertex at the
    // look-at center lands exactly on the center of the 800x600 viewport.
    let eye = Vec3Fx { x: 0, y: 0, z: px(5) };
    let center = Vec3Fx { x: 0, y: 0, z: 0 };
    let up = Vec3Fx { x: 0, y: FX_ONE, z: 0 };
    let u = Uniforms {
        model_matrix: mat4_identity(),
        view_matrix: create_view_matrix(eye, center, up),
        projection_matrix: create_perspective_matrix(px(800), px(600)),
        viewport_matrix: create_viewport_matrix(px(800), px(600)),
        time: 0,
        noise: create_generic_noise(),
    };
    let v = plain_vertex(0, 0, 0);
    let out = vertex_shader(&v, &u);
    assert_eq!(out.transformed_position.x, px(400));
    assert_eq!(out.transformed_position.y, px(300));
    // Base attributes are copied through unchanged.
    assert_eq!(out.position, v.position);
    assert_eq!(out.normal, v.normal);
    assert_eq!(out.tex_coords, v.tex_coords);
    assert_eq!(out.color, v.color);
}

#[test]
fn model_matrix_at_rest_is_exactly_identity() {
    // Zero rotation, unit scale and zero translation compose to the exact
    // identity, as the float sin_cos(0) == (0, 1) composition would give.
    let zero = Vec3Fx { x: 0, y: 0, z: 0 };
    let m = create_model_matrix(zero, FX_ONE, zero);
    assert_eq!(m, mat4_identity());
}

#[test]
fn singular_model_falls_back_to_identity_normal_transform() {
    // A zero scale collapses the model's linear part; the normal transform
    // falls back to the identity instead of failing, so normals pass
    // through unchanged.
    let mut u = identity_uniforms();
    u.model_matrix = create_model_matrix(
        Vec3Fx { x: px(1), y: px(2), z: px(3) },
        0,
        Vec3Fx { x: px(1), y: px(2), z: px(3) },
    );
    let v = Vertex::new(
        Vec3Fx { x: px(1), y: 0, z: 0 },
        Vec3Fx { x: px(3), y: px(-2), z: px(7) },
        Vec2Fx { x: 0, y: 0 },
        Color::new(1, 2, 3),
    );
    let out = vertex_shader(&v, &u);
    assert_eq!(out.transformed_normal, v.normal);
}

#[test]
fn transform_is_per_vertex() {
    let u = identity_uniforms();
    let verts: Vec<Vertex> = (0..5).map(|i| plain_vertex(px(i), px(2 * i), px(1))).collect();
    let out = transform_vertices(&verts, &u);
    assert_eq!(out.len(), 5);
    for (vin, vout) in verts.iter().zip(out.iter()) {
        assert_eq!(*vout, vertex_shader(vin, &u));
    }
}
