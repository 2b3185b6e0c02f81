//! The per-fragment shading framework: a closed set of interchangeable
//! policies, selected per mesh group by index, each a pure function of the
//! fragment, the frame counter and the noise samples it asked for.
//!
//! Noise sampling itself happens outside the pipeline: a policy first
//! publishes the coordinates it wants sampled (`noise_requests`), the caller
//! samples its noise field there, and the policy then turns the samples into
//! a color (`fragment_shader`).  The policies hold no state of their own, so
//! equal inputs always shade to equal colors.
use vstd::prelude::*;

use rand::rngs::StdRng;
use rand::Rng;
use rand::SeedableRng;

use crate::color::{color_add_spec, color_lerp_spec, color_scale_spec, Color};
use crate::fragment::{fragment_ok, Fragment};
use crate::fx::{
    fx_abs, fx_abs_spec, fx_add, fx_add_spec, fx_clamp01, fx_clamp01_spec, fx_div, fx_div_spec,
    fx_mul, fx_mul_spec, fx_ok, fx_sin, fx_sin_spec, fx_sqrt, fx_sqrt_spec, fx_sub, fx_sub_spec,
    FX_ONE,
};
use crate::mat::{v3_len, v3_len_spec};
use crate::uniforms::Uniforms;

verus! {

/// 0.01 in fixed point.
pub const HUNDREDTH_FX: i64 = 655;

/// 0.05 in fixed point.
pub const FIVE_HUNDREDTHS_FX: i64 = 3277;

/// 0.1 in fixed point.
pub const TENTH_FX: i64 = 6554;

/// 0.2 in fixed point.
pub const FIFTH_FX: i64 = 13107;

/// 0.3 in fixed point.
pub const THREE_TENTHS_FX: i64 = 19661;

/// 0.4 in fixed point, the moon shader's crater threshold.
pub const CRATER_FX: i64 = 26214;

/// 0.5 in fixed point.
pub const HALF_FX: i64 = 32768;

/// Five units.
pub const FIVE_FX: i64 = 5 * FX_ONE;

/// Ten units.
pub const TEN_FX: i64 = 10 * FX_ONE;

/// Fifty units, the moon shader's zoom.
pub const FIFTY_FX: i64 = 50 * FX_ONE;

/// A thousand units, the lava shader's zoom and coordinate offset.
pub const THOUSAND_FX: i64 = 1000 * FX_ONE;

/// The frame counter folded into fixed point.  Counters are reduced modulo
/// `2^20` frames first, so arbitrarily large counters stay well inside the
/// saturation bound; every use downstream is periodic.
pub open spec fn time_fx_spec(time: u32) -> int {
    ((time as int) % 1048576) * (FX_ONE as int)
}

pub fn time_fx(time: u32) -> (r: i64)
    ensures
        r == time_fx_spec(time),
        fx_ok(r as int),
        r >= 0,
{
    (((time % 1048576) as u64) * 65536) as i64
}

/// A coordinate at which a shading policy wants its noise field sampled.
#[derive(Clone, Copy, PartialEq, Eq, Structural, Debug)]
pub enum NoiseRequest {
    /// A two-dimensional sample.
    Plane { x: i64, y: i64 },
    /// A three-dimensional sample.
    Space { x: i64, y: i64, z: i64 },
}

/// How many noise samples each policy consumes.
pub open spec fn sample_count_spec(shader: u32) -> int {
    if shader == 0 {
        2
    } else if shader == 6 {
        0
    } else {
        1
    }
}

/// Executable sample count, for callers assembling a sample vector.
pub fn sample_count(shader: u32) -> (n: usize)
    ensures
        n == sample_count_spec(shader),
{
    if shader == 0 {
        2
    } else if shader == 6 {
        0
    } else {
        1
    }
}

/// Steel-blue water with a sine ripple running outward from the origin; no
/// noise.
pub open spec fn wave_shader_spec(f: Fragment, time: u32) -> Color {
    let t = fx_mul_spec(time_fx_spec(time), THREE_TENTHS_FX as int);
    let pos = f.vertex_position;
    let dist = fx_sqrt_spec(
        fx_add_spec(
            fx_mul_spec(pos.x as int, pos.x as int),
            fx_mul_spec(pos.y as int, pos.y as int),
        ),
    );
    let ripple = fx_mul_spec(
        fx_sin_spec(fx_mul_spec(TEN_FX as int, fx_sub_spec(dist, t))),
        FIVE_HUNDREDTHS_FX as int,
    );
    let base = Color { r: 70, g: 130, b: 180 };
    let ripple_color = Color { r: 173, g: 216, b: 230 };
    let factor = fx_clamp01_spec(ripple);
    color_scale_spec(color_lerp_spec(base, ripple_color, factor), f.intensity as int)
}

pub fn wave_shader(f: &Fragment, time: u32) -> (c: Color)
    requires
        fragment_ok(*f),
    ensures
        c == (wave_shader_spec(*f, time)),
{
    let t = fx_mul(time_fx(time), THREE_TENTHS_FX);
    let pos = f.vertex_position;
    let dist = fx_sqrt(fx_add(fx_mul(pos.x, pos.x), fx_mul(pos.y, pos.y)));
    let ripple = fx_mul(fx_sin(fx_mul(TEN_FX, fx_sub(dist, t))), FIVE_HUNDREDTHS_FX);
    let base = Color::new(70, 130, 180);
    let ripple_color = Color::new(173, 216, 230);
    let factor = fx_clamp01(ripple);
    base.lerp(&ripple_color, factor).scale(f.intensity)
}

/// Gray moon surface whose crater threshold pulses slowly with time.
pub open spec fn moon_shader_spec(f: Fragment, time: u32, surface: int) -> Color {
    let t = fx_mul_spec(time_fx_spec(time), TENTH_FX as int);
    let pulsate = fx_mul_spec(
        fx_sin_spec(fx_mul_spec(t, HALF_FX as int)),
        FIVE_HUNDREDTHS_FX as int,
    );
    let threshold = fx_add_spec(CRATER_FX as int, pulsate);
    let base = if surface > threshold {
        Color { r: 200, g: 200, b: 200 }
    } else if surface > fx_sub_spec(threshold, TENTH_FX as int) {
        Color { r: 220, g: 220, b: 220 }
    } else {
        Color { r: 250, g: 250, b: 250 }
    };
    color_scale_spec(base, f.intensity as int)
}

pub fn moon_shader(f: &Fragment, time: u32, surface: i64) -> (c: Color)
    requires
        fragment_ok(*f),
        fx_ok(surface as int),
    ensures
        c == (moon_shader_spec(*f, time, surface as int)),
{
    let t = fx_mul(time_fx(time), TENTH_FX);
    let pulsate = fx_mul(fx_sin(fx_mul(t, HALF_FX)), FIVE_HUNDREDTHS_FX);
    let threshold = fx_add(CRATER_FX, pulsate);
    let base = if surface > threshold {
        Color::new(200, 200, 200)
    } else if surface > fx_sub(threshold, TENTH_FX) {
        Color::new(220, 220, 220)
    } else {
        Color::new(250, 250, 250)
    };
    base.scale(f.intensity)
}

/// What the seeded draw of the gas-planet shader returns for a given seed:
/// a value in `[0, 100]`, fixed by the seed alone.
pub uninterp spec fn percent_of_seed(seed: u64) -> u32;

/// Relies on rand's `StdRng`: `seed_from_u64` yields the same generator for
/// the same seed on every machine, and `gen_range(0..=100)` returns a value
/// inside that range.
#[verifier::external_body]
fn draw_percent(seed: u64) -> (r: u32)
    ensures
        r == percent_of_seed(seed),
        r <= 100,
{
    let mut rng = StdRng::seed_from_u64(seed);
    rng.gen_range(0..=100u32)
}

/// The seed the gas-planet shader derives from a fragment and the frame
/// counter: the integer part of `|time * y * x|`.
pub open spec fn gas_seed_spec(f: Fragment, time: u32) -> int {
    fx_abs_spec(
        fx_mul_spec(
            fx_mul_spec(time_fx_spec(time), f.vertex_position.y as int),
            f.vertex_position.x as int,
        ),
    ) / (FX_ONE as int)
}

/// Blue gas planet: clouds from noise, a seeded per-fragment draw choosing
/// between a blended and a cloud-dominated palette, soft shadows and a
/// height-based atmospheric glow, all dimmed by the lighting intensity.
pub open spec fn gas_planet_color_spec(f: Fragment, time: u32, s: int) -> Color {
    let percent = percent_of_seed(gas_seed_spec(f, time) as u64) as int;
    let base = Color { r: 70, g: 130, b: 180 };
    let cloud = Color { r: 255, g: 255, b: 255 };
    let shadow = Color { r: 50, g: 50, b: 100 };
    let h = fx_add_spec(fx_mul_spec(s, HALF_FX as int), HALF_FX as int);
    let cloud_factor = fx_mul_spec(h, h);
    let planet = if percent < 50 {
        color_add_spec(
            color_scale_spec(base, fx_sub_spec(FX_ONE as int, cloud_factor)),
            color_scale_spec(cloud, cloud_factor),
        )
    } else {
        color_scale_spec(cloud, cloud_factor)
    };
    let sf = fx_sub_spec(FX_ONE as int, s);
    let shadow_factor = if sf < 0 { 0 } else { sf };
    let shadow_effect = color_scale_spec(
        color_scale_spec(shadow, shadow_factor),
        THREE_TENTHS_FX as int,
    );
    let with_shadow = color_add_spec(planet, shadow_effect);
    let glow = Color { r: 200, g: 200, b: 255 };
    let glow_factor = fx_sub_spec(
        FX_ONE as int,
        fx_clamp01_spec(fx_div_spec(f.vertex_position.y as int, TEN_FX as int)),
    );
    let final_glow = color_scale_spec(color_scale_spec(glow, glow_factor), TENTH_FX as int);
    color_scale_spec(color_add_spec(with_shadow, final_glow), f.intensity as int)
}

pub fn gas_planet_color(f: &Fragment, time: u32, s: i64) -> (c: Color)
    requires
        fragment_ok(*f),
        fx_ok(s as int),
    ensures
        c == (gas_planet_color_spec(*f, time, s as int)),
{
    let seed_fx = fx_mul(fx_mul(time_fx(time), f.vertex_position.y), f.vertex_position.x);
    let seed: u64 = crate::fx::fx_abs_mag(seed_fx) / 65536;
    let percent = draw_percent(seed);
    let base = Color::new(70, 130, 180);
    let cloud = Color::new(255, 255, 255);
    let shadow = Color::new(50, 50, 100);
    let h = fx_add(fx_mul(s, HALF_FX), HALF_FX);
    let cloud_factor = fx_mul(h, h);
    let planet = if percent < 50 {
        base.scale(fx_sub(FX_ONE, cloud_factor)).add(&cloud.scale(cloud_factor))
    } else {
        cloud.scale(cloud_factor)
    };
    let sf = fx_sub(FX_ONE, s);
    let shadow_factor: i64 = if sf < 0 {
        0
    } else {
        sf
    };
    let shadow_effect = shadow.scale(shadow_factor).scale(THREE_TENTHS_FX);
    let with_shadow = planet.add(&shadow_effect);
    let glow = Color::new(200, 200, 255);
    let glow_factor = fx_sub(FX_ONE, fx_clamp01(fx_div(f.vertex_position.y, TEN_FX)));
    let final_glow = glow.scale(glow_factor).scale(TENTH_FX);
    with_shadow.add(&final_glow).scale(f.intensity)
}

/// Molten surface: two offset noise samples averaged, blended between a dark
/// and a bright lava color.
pub open spec fn lava_planet_shader_spec(f: Fragment, time: u32, s1: int, s2: int) -> Color {
    let bright = Color { r: 255, g: 240, b: 0 };
    let dark = Color { r: 130, g: 20, b: 0 };
    let noise_value = fx_mul_spec(fx_add_spec(s1, s2), HALF_FX as int);
    color_scale_spec(color_lerp_spec(dark, bright, noise_value), f.intensity as int)
}

pub fn lava_planet_shader(f: &Fragment, time: u32, s1: i64, s2: i64) -> (c: Color)
    requires
        fragment_ok(*f),
        fx_ok(s1 as int),
        fx_ok(s2 as int),
    ensures
        c == (lava_planet_shader_spec(*f, time, s1 as int, s2 as int)),
{
    let bright = Color::new(255, 240, 0);
    let dark = Color::new(130, 20, 0);
    let noise_value = fx_mul(fx_add(s1, s2), HALF_FX);
    dark.lerp(&bright, noise_value).scale(f.intensity)
}

/// A star: core-to-edge blend by distance from the origin, turbulence
/// brightening, and a glow that falls off quadratically with distance,
/// modulated by the lighting intensity at the end.
pub open spec fn sun_shader_spec(f: Fragment, time: u32, s: int) -> Color {
    let dist = v3_len_spec(f.vertex_position);
    let core = Color { r: 255, g: 204, b: 0 };
    let edge = Color { r: 255, g: 69, b: 0 };
    let turbulence = fx_abs_spec(s);
    let blend = fx_clamp01_spec(fx_sub_spec(dist, FIFTH_FX as int));
    let base = color_lerp_spec(core, edge, blend);
    let dynamic = color_scale_spec(
        base,
        fx_add_spec(FX_ONE as int, fx_mul_spec(turbulence, THREE_TENTHS_FX as int)),
    );
    let g = fx_clamp01_spec(fx_sub_spec(FX_ONE as int, dist));
    let glow_factor = fx_mul_spec(g, g);
    let glow = color_scale_spec(Color { r: 255, g: 255, b: 224 }, glow_factor);
    color_scale_spec(color_add_spec(dynamic, glow), f.intensity as int)
}

pub fn sun_shader(f: &Fragment, time: u32, s: i64) -> (c: Color)
    requires
        fragment_ok(*f),
        fx_ok(s as int),
    ensures
        c == (sun_shader_spec(*f, time, s as int)),
{
    let dist = v3_len(f.vertex_position);
    let core = Color::new(255, 204, 0);
    let edge = Color::new(255, 69, 0);
    let turbulence = fx_abs(s);
    let blend = fx_clamp01(fx_sub(dist, FIFTH_FX));
    let base = core.lerp(&edge, blend);
    let dynamic = base.scale(fx_add(FX_ONE, fx_mul(turbulence, THREE_TENTHS_FX)));
    let g = fx_clamp01(fx_sub(FX_ONE, dist));
    let glow_factor = fx_mul(g, g);
    let glow = Color::new(255, 255, 224).scale(glow_factor);
    dynamic.add(&glow).scale(f.intensity)
}

/// Brown rocky surface with craters where the noise magnitude is high.
pub open spec fn rocky_planet_shader_spec(f: Fragment, s: int) -> Color {
    let base = Color { r: 139, g: 69, b: 19 };
    let crater = Color { r: 105, g: 105, b: 105 };
    let crater_noise = fx_abs_spec(s);
    let c0 = fx_clamp01_spec(fx_sub_spec(crater_noise, HALF_FX as int));
    let crater_factor = fx_mul_spec(c0, c0);
    color_scale_spec(color_lerp_spec(base, crater, crater_factor), f.intensity as int)
}

pub fn rocky_planet_shader(f: &Fragment, s: i64) -> (c: Color)
    requires
        fragment_ok(*f),
        fx_ok(s as int),
    ensures
        c == (rocky_planet_shader_spec(*f, s as int)),
{
    let base = Color::new(139, 69, 19);
    let crater = Color::new(105, 105, 105);
    let crater_noise = fx_abs(s);
    let c0 = fx_clamp01(fx_sub(crater_noise, HALF_FX));
    let crater_factor = fx_mul(c0, c0);
    base.lerp(&crater, crater_factor).scale(f.intensity)
}

/// Banded gas giant: sine bands across latitude modulated by turbulence,
/// plus a distance-based atmospheric glow, dimmed by the lighting
/// intensity.
pub open spec fn gas_giant_shader_spec(f: Fragment, time: u32, s: int) -> Color {
    let pos = f.vertex_position;
    let base = Color { r: 70, g: 130, b: 180 };
    let band = Color { r: 255, g: 255, b: 255 };
    let band_factor = fx_abs_spec(fx_sin_spec(fx_mul_spec(pos.y as int, TEN_FX as int)));
    let turbulence = fx_abs_spec(s);
    let gas = color_lerp_spec(base, band, fx_mul_spec(band_factor, turbulence));
    let glow = Color { r: 200, g: 200, b: 255 };
    let glow_factor = fx_clamp01_spec(
        fx_sub_spec(FX_ONE as int, fx_div_spec(v3_len_spec(pos), TEN_FX as int)),
    );
    let final_glow = color_scale_spec(color_scale_spec(glow, glow_factor), TENTH_FX as int);
    color_scale_spec(color_add_spec(gas, final_glow), f.intensity as int)
}

pub fn gas_giant_shader(f: &Fragment, time: u32, s: i64) -> (c: Color)
    requires
        fragment_ok(*f),
        fx_ok(s as int),
    ensures
        c == (gas_giant_shader_spec(*f, time, s as int)),
{
    let pos = f.vertex_position;
    let base = Color::new(70, 130, 180);
    let band = Color::new(255, 255, 255);
    let band_factor = fx_abs(fx_sin(fx_mul(pos.y, TEN_FX)));
    let turbulence = fx_abs(s);
    let gas = base.lerp(&band, fx_mul(band_factor, turbulence));
    let glow = Color::new(200, 200, 255);
    let glow_factor = fx_clamp01(fx_sub(FX_ONE, fx_div(v3_len(pos), TEN_FX)));
    let final_glow = glow.scale(glow_factor).scale(TENTH_FX);
    gas.add(&final_glow).scale(f.intensity)
}

/// Pale ice sheet blended toward blue where the noise rises, with the same
/// atmospheric glow as the gas giant and the same final intensity term.
pub open spec fn ice_planet_shader_spec(f: Fragment, s: int) -> Color {
    let pos = f.vertex_position;
    let base = Color { r: 240, g: 248, b: 255 };
    let ice = Color { r: 173, g: 216, b: 230 };
    let h = fx_add_spec(fx_mul_spec(s, HALF_FX as int), HALF_FX as int);
    let ice_factor = fx_mul_spec(h, h);
    let ice_color = color_lerp_spec(base, ice, ice_factor);
    let glow = Color { r: 200, g: 200, b: 255 };
    let glow_factor = fx_clamp01_spec(
        fx_sub_spec(FX_ONE as int, fx_div_spec(v3_len_spec(pos), TEN_FX as int)),
    );
    let final_glow = color_scale_spec(color_scale_spec(glow, glow_factor), TENTH_FX as int);
    color_scale_spec(color_add_spec(ice_color, final_glow), f.intensity as int)
}

pub fn ice_planet_shader(f: &Fragment, s: i64) -> (c: Color)
    requires
        fragment_ok(*f),
        fx_ok(s as int),
    ensures
        c == (ice_planet_shader_spec(*f, s as int)),
{
    let pos = f.vertex_position;
    let base = Color::new(240, 248, 255);
    let ice = Color::new(173, 216, 230);
    let h = fx_add(fx_mul(s, HALF_FX), HALF_FX);
    let ice_factor = fx_mul(h, h);
    let ice_color = base.lerp(&ice, ice_factor);
    let glow = Color::new(200, 200, 255);
    let glow_factor = fx_clamp01(fx_sub(FX_ONE, fx_div(v3_len(pos), TEN_FX)));
    let final_glow = glow.scale(glow_factor).scale(TENTH_FX);
    ice_color.add(&final_glow).scale(f.intensity)
}

/// The coordinates each policy wants sampled, in dispatch order.
pub open spec fn noise_requests_spec(f: Fragment, time: u32, shader: u32) -> Seq<NoiseRequest> {
    let pos = f.vertex_position;
    if shader == 0 {
        let t = fx_mul_spec(time_fx_spec(time), HUNDREDTH_FX as int);
        let pulsate = fx_mul_spec(fx_sin_spec(fx_mul_spec(t, FIFTH_FX as int)), HALF_FX as int);
        seq![
            NoiseRequest::Space {
                x: fx_mul_spec(pos.x as int, THOUSAND_FX as int) as i64,
                y: fx_mul_spec(pos.y as int, THOUSAND_FX as int) as i64,
                z: fx_mul_spec(fx_add_spec(f.depth as int, pulsate), THOUSAND_FX as int) as i64,
            },
            NoiseRequest::Space {
                x: fx_mul_spec(fx_add_spec(pos.x as int, THOUSAND_FX as int), THOUSAND_FX as int) as i64,
                y: fx_mul_spec(fx_add_spec(pos.y as int, THOUSAND_FX as int), THOUSAND_FX as int) as i64,
                z: fx_mul_spec(
                    fx_add_spec(fx_add_spec(f.depth as int, THOUSAND_FX as int), pulsate),
                    THOUSAND_FX as int,
                ) as i64,
            },
        ]
    } else if shader == 1 {
        seq![
            NoiseRequest::Plane {
                x: fx_mul_spec(pos.x as int, FIVE_FX as int) as i64,
                y: fx_mul_spec(pos.z as int, FIVE_FX as int) as i64,
            },
        ]
    } else if shader == 2 {
        seq![
            NoiseRequest::Space {
                x: fx_mul_spec(pos.x as int, TEN_FX as int) as i64,
                y: fx_mul_spec(pos.y as int, TEN_FX as int) as i64,
                z: fx_mul_spec(time_fx_spec(time), HUNDREDTH_FX as int) as i64,
            },
        ]
    } else if shader == 3 {
        seq![
            NoiseRequest::Space {
                x: fx_mul_spec(pos.x as int, TEN_FX as int) as i64,
                y: fx_mul_spec(pos.y as int, TEN_FX as int) as i64,
                z: fx_mul_spec(pos.z as int, TEN_FX as int) as i64,
            },
        ]
    } else if shader == 4 {
        seq![
            NoiseRequest::Space {
                x: fx_mul_spec(pos.x as int, FIVE_FX as int) as i64,
                y: fx_mul_spec(pos.y as int, FIVE_FX as int) as i64,
                z: fx_mul_spec(time_fx_spec(time), HUNDREDTH_FX as int) as i64,
            },
        ]
    } else if shader == 5 {
        seq![
            NoiseRequest::Space {
                x: fx_mul_spec(pos.x as int, FIVE_FX as int) as i64,
                y: fx_mul_spec(pos.y as int, FIVE_FX as int) as i64,
                z: fx_mul_spec(pos.z as int, FIVE_FX as int) as i64,
            },
        ]
    } else if shader == 6 {
        Seq::<NoiseRequest>::empty()
    } else {
        let t = fx_mul_spec(time_fx_spec(time), TENTH_FX as int);
        seq![
            NoiseRequest::Plane {
                x: fx_add_spec(fx_mul_spec(pos.x as int, FIFTY_FX as int), t) as i64,
                y: fx_add_spec(fx_mul_spec(pos.y as int, FIFTY_FX as int), t) as i64,
            },
        ]
    }
}

/// Publish the sample coordinates the selected policy needs for this
/// fragment.  The caller samples the active noise field there, in order,
/// and hands the samples back to `fragment_shader`.
pub fn noise_requests(f: &Fragment, uniforms: &Uniforms, current_shader: u32) -> (r: Vec<
    NoiseRequest,
>)
    requires
        fragment_ok(*f),
    ensures
        r@ == noise_requests_spec(*f, uniforms.time, current_shader),
        r@.len() == sample_count_spec(current_shader),
{
    let pos = f.vertex_position;
    let time = uniforms.time;
    let mut out: Vec<NoiseRequest> = Vec::new();
    if current_shader == 0 {
        let t = fx_mul(time_fx(time), HUNDREDTH_FX);
        let pulsate = fx_mul(fx_sin(fx_mul(t, FIFTH_FX)), HALF_FX);
        out.push(
            NoiseRequest::Space {
                x: fx_mul(pos.x, THOUSAND_FX),
                y: fx_mul(pos.y, THOUSAND_FX),
                z: fx_mul(fx_add(f.depth, pulsate), THOUSAND_FX),
            },
        );
        out.push(
            NoiseRequest::Space {
                x: fx_mul(fx_add(pos.x, THOUSAND_FX), THOUSAND_FX),
                y: fx_mul(fx_add(pos.y, THOUSAND_FX), THOUSAND_FX),
                z: fx_mul(fx_add(fx_add(f.depth, THOUSAND_FX), pulsate), THOUSAND_FX),
            },
        );
    } else if current_shader == 1 {
        out.push(
            NoiseRequest::Plane { x: fx_mul(pos.x, FIVE_FX), y: fx_mul(pos.z, FIVE_FX) },
        );
    } else if current_shader == 2 {
        out.push(
            NoiseRequest::Space {
                x: fx_mul(pos.x, TEN_FX),
                y: fx_mul(pos.y, TEN_FX),
                z: fx_mul(time_fx(time), HUNDREDTH_FX),
            },
        );
    } else if current_shader == 3 {
        out.push(
            NoiseRequest::Space {
                x: fx_mul(pos.x, TEN_FX),
                y: fx_mul(pos.y, TEN_FX),
                z: fx_mul(pos.z, TEN_FX),
            },
        );
    } else if current_shader == 4 {
        out.push(
            NoiseRequest::Space {
                x: fx_mul(pos.x, FIVE_FX),
                y: fx_mul(pos.y, FIVE_FX),
                z: fx_mul(time_fx(time), HUNDREDTH_FX),
            },
        );
    } else if current_shader == 5 {
        out.push(
            NoiseRequest::Space {
                x: fx_mul(pos.x, FIVE_FX),
                y: fx_mul(pos.y, FIVE_FX),
                z: fx_mul(pos.z, FIVE_FX),
            },
        );
    } else if current_shader == 6 {
    } else {
        let t = fx_mul(time_fx(time), TENTH_FX);
        out.push(
            NoiseRequest::Plane {
                x: fx_add(fx_mul(pos.x, FIFTY_FX), t),
                y: fx_add(fx_mul(pos.y, FIFTY_FX), t),
            },
        );
    }
    proof {
        assert(out@ =~= noise_requests_spec(*f, time, current_shader));
    }
    out
}

/// The color the selected policy produces from a fragment, the frame
/// counter and the noise samples taken at that policy's requested
/// coordinates.
pub open spec fn fragment_shader_spec(f: Fragment, time: u32, shader: u32, samples: Seq<i64>) -> Color {
    if shader == 0 {
        lava_planet_shader_spec(f, time, samples[0] as int, samples[1] as int)
    } else if shader == 1 {
        gas_planet_color_spec(f, time, samples[0] as int)
    } else if shader == 2 {
        sun_shader_spec(f, time, samples[0] as int)
    } else if shader == 3 {
        rocky_planet_shader_spec(f, samples[0] as int)
    } else if shader == 4 {
        gas_giant_shader_spec(f, time, samples[0] as int)
    } else if shader == 5 {
        ice_planet_shader_spec(f, samples[0] as int)
    } else if shader == 6 {
        wave_shader_spec(f, time)
    } else {
        moon_shader_spec(f, time, samples[0] as int)
    }
}

/// Dispatch to the policy selected for the current mesh group.  `samples`
/// must hold exactly the samples taken at this fragment's requested
/// coordinates, in order.
pub fn fragment_shader(f: &Fragment, uniforms: &Uniforms, current_shader: u32, samples: &Vec<
    i64,
>) -> (c: Color)
    requires
        fragment_ok(*f),
        samples@.len() == sample_count_spec(current_shader),
        forall|i: int| 0 <= i < samples@.len() ==> fx_ok(samples@[i] as int),
    ensures
        c == (fragment_shader_spec(*f, uniforms.time, current_shader, samples@)),
{
    let time = uniforms.time;
    if current_shader == 0 {
        lava_planet_shader(f, time, samples[0], samples[1])
    } else if current_shader == 1 {
        gas_planet_color(f, time, samples[0])
    } else if current_shader == 2 {
        sun_shader(f, time, samples[0])
    } else if current_shader == 3 {
        rocky_planet_shader(f, samples[0])
    } else if current_shader == 4 {
        gas_giant_shader(f, time, samples[0])
    } else if current_shader == 5 {
        ice_planet_shader(f, samples[0])
    } else if current_shader == 6 {
        wave_shader(f, time)
    } else {
        moon_shader(f, time, samples[0])
    }
}

/// The shading framework has no hidden state: under two uniform bundles
/// that agree only on the frame counter — matrices and noise configuration
/// free to differ, as when the noise reference is swapped between mesh
/// groups — a fragment requests the same sample coordinates and, given
/// equal samples, shades to the same color.  Which physical noise-field
/// instance produced the samples cannot matter: it is never consulted here.
pub proof fn lemma_shading_is_pure(
    f: Fragment,
    u1: Uniforms,
    u2: Uniforms,
    shader: u32,
    samples: Seq<i64>,
)
    requires
        u1.time == u2.time,
    ensures
        fragment_shader_spec(f, u1.time, shader, samples) == fragment_shader_spec(
            f,
            u2.time,
            shader,
            samples,
        ),
        noise_requests_spec(f, u1.time, shader) == noise_requests_spec(f, u2.time, shader),
{
}

} // verus!
