use fastnoise_lite::{FastNoiseLite, FractalType, NoiseType};

use planet_raster::color::Color;
use planet_raster::fragment::Fragment;
use planet_raster::fx::{fx_div, fx_mul, fx_sin, fx_sqrt, FX_ONE, FX_SAT};
use planet_raster::mat::{mat4_identity, Vec3Fx};
use planet_raster::noise::{
    create_cloud_noise, create_gas_giant_noise, create_generic_noise, create_ground_noise,
    create_icy_noise, create_lava_noise, create_noise_for_planet, FractalKind, NoiseAlgorithm,
    NoiseConfig,
};
use planet_raster::pipeline::render_fragments;
use planet_raster::raster::lighting_intensity;
use planet_raster::shaders::{fragment_shader, noise_requests, NoiseRequest};
use planet_raster::uniforms::Uniforms;
use planet_raster::vertex::Vertex;

/// Instantiate a generator from a configuration, the way the window loop
/// does: thousandths become the fractional parameters.
fn make_noise(cfg: &NoiseConfig) -> FastNoiseLite {
    let mut noise = FastNoiseLite::with_seed(cfg.seed);
    noise.set_noise_type(Some(match cfg.algorithm {
        NoiseAlgorithm::Perlin => NoiseType::Perlin,
        NoiseAlgorithm::OpenSimplex2 => NoiseType::OpenSimplex2,
        NoiseAlgorithm::Cellular => NoiseType::Cellular,
    }));
    noise.set_frequency(Some(cfg.frequency_thousandths as f32 / 1000.0));
    match cfg.fractal {
        FractalKind::Plain => {}
        FractalKind::Fbm => {
            noise.set_fractal_type(Some(FractalType::FBm));
            noise.set_fractal_octaves(Some(cfg.octaves as i32));
            noise.set_fractal_lacunarity(Some(cfg.lacunarity_thousandths as f32 / 1000.0));
            noise.set_fractal_gain(Some(cfg.gain_thousandths as f32 / 1000.0));
        }
    }
    noise
}

fn to_f32(v: i64) -> f32 {
    v as f32 / FX_ONE as f32
}

fn to_fx(v: f32) -> i64 {
    let scaled = (v * FX_ONE as f32) as i64;
    scaled.clamp(-FX_SAT, FX_SAT)
}

fn sample(noise: &FastNoiseLite, req: &NoiseRequest) -> i64 {
    match *req {
        NoiseRequest::Plane { x, y } => to_fx(noise.get_noise_2d(to_f32(x), to_f32(y))),
        NoiseRequest::Space { x, y, z } => {
            to_fx(noise.get_noise_3d(to_f32(x), to_f32(y), to_f32(z)))
        }
    }
}

fn some_fragment() -> Fragment {
    Fragment {
        x: 5,
        y: 7,
        depth: FX_ONE / 2,
        vertex_position: Vec3Fx { x: FX_ONE / 3, y: -FX_ONE / 5, z: FX_ONE / 2 },
        normal: Vec3Fx { x: 0, y: 0, z: FX_ONE },
        intensity: FX_ONE,
    }
}

fn identity_uniforms(time: u32) -> Uniforms {
    Uniforms {
        model_matrix: mat4_identity(),
        view_matrix: mat4_identity(),
        projection_matrix: mat4_identity(),
        viewport_matrix: mat4_identity(),
        time,
        noise: create_generic_noise(),
    }
}

#[test]
fn noise_sampling_is_deterministic() {
    // Identical construction parameters give bit-identical samples.
    let a = make_noise(&create_lava_noise());
    let b = make_noise(&create_lava_noise());
    let coords = [
        (0.0f32, 0.0f32, 0.0f32),
        (1.5, -2.25, 3.75),
        (1000.0, 1000.0, 1000.0),
        (-512.125, 88.5, 0.001),
    ];
    for &(x, y, z) in &coords {
        assert_eq!(a.get_noise_2d(x, y).to_bits(), b.get_noise_2d(x, y).to_bits());
        assert_eq!(a.get_noise_3d(x, y, z).to_bits(), b.get_noise_3d(x, y, z).to_bits());
        let twice = a.get_noise_3d(x, y, z).to_bits();
        assert_eq!(twice, a.get_noise_3d(x, y, z).to_bits());
    }
}

#[test]
fn rendering_twice_with_two_equal_noise_fields_matches() {
    // Two distinct generator instances sharing parameters shade a mesh
    // group to identical colors: the framework has no hidden state.
    let u = identity_uniforms(3);
    let verts = vec![
        Vertex::new(
            Vec3Fx { x: 2 * FX_ONE, y: 2 * FX_ONE, z: FX_ONE / 2 },
            Vec3Fx { x: 0, y: 0, z: FX_ONE },
            planet_raster::mat::Vec2Fx { x: 0, y: 0 },
            Color::new(0, 0, 0),
        ),
        Vertex::new(
            Vec3Fx { x: 8 * FX_ONE, y: 2 * FX_ONE, z: FX_ONE / 2 },
            Vec3Fx { x: 0, y: 0, z: FX_ONE },
            planet_raster::mat::Vec2Fx { x: 0, y: 0 },
            Color::new(0, 0, 0),
        ),
        Vertex::new(
            Vec3Fx { x: 2 * FX_ONE, y: 8 * FX_ONE, z: FX_ONE / 2 },
            Vec3Fx { x: 0, y: 0, z: FX_ONE },
            planet_raster::mat::Vec2Fx { x: 0, y: 0 },
            Color::new(0, 0, 0),
        ),
    ];
    let frags = render_fragments(&u, &verts);
    assert!(!frags.is_empty());

    let na = make_noise(&create_icy_noise());
    let nb = make_noise(&create_icy_noise());
    for shader in [0u32, 1, 2, 3, 4, 5, 6, 7] {
        for f in &frags {
            let reqs = noise_requests(f, &u, shader);
            let sa: Vec<i64> = reqs.iter().map(|r| sample(&na, r)).collect();
            let sb: Vec<i64> = reqs.iter().map(|r| sample(&nb, r)).collect();
            assert_eq!(sa, sb);
            let ca = fragment_shader(f, &u, shader, &sa);
            let cb = fragment_shader(f, &u, shader, &sb);
            assert_eq!(ca, cb);
        }
    }
}

#[test]
fn sample_counts_per_policy() {
    let u = identity_uniforms(0);
    let f = some_fragment();
    assert_eq!(noise_requests(&f, &u, 0).len(), 2);
    for shader in [1u32, 2, 3, 4, 5] {
        assert_eq!(noise_requests(&f, &u, shader).len(), 1);
    }
    assert_eq!(noise_requests(&f, &u, 6).len(), 0);
    assert_eq!(noise_requests(&f, &u, 7).len(), 1);
    assert_eq!(noise_requests(&f, &u, 99).len(), 1);
}

#[test]
fn rocky_request_scales_position_by_ten() {
    let u = identity_uniforms(0);
    let mut f = some_fragment();
    f.vertex_position = Vec3Fx { x: FX_ONE, y: 2 * FX_ONE, z: 3 * FX_ONE };
    let reqs = noise_requests(&f, &u, 3);
    assert_eq!(
        reqs[0],
        NoiseRequest::Space { x: 10 * FX_ONE, y: 20 * FX_ONE, z: 30 * FX_ONE }
    );
}

#[test]
fn moon_shader_thresholds_at_time_zero() {
    // At time zero the pulsation is zero, so the crater threshold is
    // exactly 0.4: a brighter sample paints plain gray.
    let u = identity_uniforms(0);
    let f = some_fragment();
    let above = vec![(0.5 * FX_ONE as f32) as i64];
    let c = fragment_shader(&f, &u, 7, &above);
    assert_eq!(c, Color::new(200, 200, 200));
    let mid = vec![(0.35 * FX_ONE as f32) as i64];
    let c = fragment_shader(&f, &u, 7, &mid);
    assert_eq!(c, Color::new(220, 220, 220));
    let low = vec![0i64];
    let c = fragment_shader(&f, &u, 7, &low);
    assert_eq!(c, Color::new(250, 250, 250));
}

#[test]
fn moon_shader_applies_intensity() {
    let u = identity_uniforms(0);
    let mut f = some_fragment();
    f.intensity = FX_ONE / 2;
    let c = fragment_shader(&f, &u, 7, &vec![FX_ONE / 2]);
    assert_eq!(c, Color::new(100, 100, 100));
}

#[test]
fn gas_planet_seeded_draw_is_deterministic() {
    let u = identity_uniforms(11);
    let f = some_fragment();
    let s = vec![FX_ONE / 4];
    let c1 = fragment_shader(&f, &u, 1, &s);
    let c2 = fragment_shader(&f, &u, 1, &s);
    assert_eq!(c1, c2);
}

#[test]
fn gas_planet_full_cloud_is_pure_white() {
    // At a full-strength noise sample the blended and the cloud-dominated
    // palettes coincide, the shadow term vanishes, and a high fragment
    // sits above the glow band: the color is exactly white, whatever the
    // seeded draw returned.
    let u = identity_uniforms(5);
    let mut f = some_fragment();
    f.vertex_position = Vec3Fx { x: FX_ONE, y: 20 * FX_ONE, z: FX_ONE };
    let c = fragment_shader(&f, &u, 1, &vec![FX_ONE]);
    assert_eq!(c, Color::new(255, 255, 255));
}

#[test]
fn lighting_intensity_stays_in_unit_interval() {
    // Including the degenerate zero-length normal, which lights to zero.
    let samples = [
        Vec3Fx { x: 0, y: 0, z: 0 },
        Vec3Fx { x: 0, y: 0, z: FX_ONE },
        Vec3Fx { x: 0, y: 0, z: -FX_ONE },
        Vec3Fx { x: 3 * FX_ONE, y: -4 * FX_ONE, z: FX_ONE / 7 },
        Vec3Fx { x: -1, y: 1, z: 1 },
        Vec3Fx { x: FX_SAT, y: FX_SAT, z: FX_SAT },
    ];
    for n in samples {
        let i = lighting_intensity(n);
        assert!(0 <= i && i <= FX_ONE, "intensity {i} out of range");
    }
    assert_eq!(lighting_intensity(Vec3Fx { x: 0, y: 0, z: 0 }), 0);
    assert_eq!(lighting_intensity(Vec3Fx { x: 0, y: 0, z: FX_ONE }), FX_ONE);
    assert_eq!(lighting_intensity(Vec3Fx { x: 0, y: 0, z: -FX_ONE }), 0);
}

#[test]
fn noise_table_matches_planets() {
    assert_eq!(create_noise_for_planet(0), create_lava_noise());
    assert_eq!(create_noise_for_planet(1), create_cloud_noise());
    assert_eq!(create_noise_for_planet(2), create_generic_noise());
    assert_eq!(create_noise_for_planet(3), create_ground_noise());
    assert_eq!(create_noise_for_planet(4), create_gas_giant_noise());
    assert_eq!(create_noise_for_planet(5), create_icy_noise());
    assert_eq!(create_noise_for_planet(6), create_generic_noise());
    assert_eq!(create_noise_for_planet(42), create_generic_noise());
    let lava = create_lava_noise();
    assert_eq!(lava.seed, 42);
    assert_eq!(lava.frequency_thousandths, 2);
    assert_eq!(lava.octaves, 6);
}

#[test]
fn fixed_point_arithmetic_exact_cases() {
    assert_eq!(fx_mul(2 * FX_ONE, 3 * FX_ONE), 6 * FX_ONE);
    assert_eq!(fx_mul(-2 * FX_ONE, 3 * FX_ONE), -6 * FX_ONE);
    assert_eq!(fx_div(FX_ONE, 2 * FX_ONE), FX_ONE / 2);
    assert_eq!(fx_div(FX_ONE, 0), 0);
    assert_eq!(fx_sqrt(4 * FX_ONE), 2 * FX_ONE);
    assert_eq!(fx_sqrt(-FX_ONE), 0);
    assert_eq!(fx_mul(FX_SAT, FX_SAT), FX_SAT);
    assert_eq!(fx_sin(0), 0);
    // Half a turn later the wave crosses zero again, and the quarter
    // turns hit plus and minus one exactly.
    assert_eq!(fx_sin(planet_raster::fx::PI_FX), 0);
    assert_eq!(fx_sin(planet_raster::fx::HALF_PI_FX), FX_ONE);
    assert_eq!(
        fx_sin(planet_raster::fx::PI_FX + planet_raster::fx::HALF_PI_FX),
        -FX_ONE
    );
}

#[test]
fn color_arithmetic_exact_cases() {
    assert_eq!(Color::new(255, 64, 8).to_hex(), 0xff4008);
    assert_eq!(Color::new(0, 0, 0).lerp(&Color::new(100, 200, 50), FX_ONE / 2), Color::new(50, 100, 25));
    assert_eq!(Color::new(9, 9, 9).lerp(&Color::new(1, 1, 1), 2 * FX_ONE), Color::new(1, 1, 1));
    assert_eq!(Color::new(9, 9, 9).lerp(&Color::new(1, 1, 1), -FX_ONE), Color::new(9, 9, 9));
    assert_eq!(Color::new(100, 100, 100).scale(FX_ONE / 2), Color::new(50, 50, 50));
    assert_eq!(Color::new(100, 100, 100).scale(-FX_ONE), Color::new(0, 0, 0));
    assert_eq!(Color::new(100, 100, 100).scale(3 * FX_ONE), Color::new(255, 255, 255));
    assert_eq!(Color::new(200, 200, 200).add(&Color::new(100, 1, 55)), Color::new(255, 201, 255));
}
