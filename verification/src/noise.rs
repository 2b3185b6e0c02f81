//! Noise field configuration: the immutable description of one coherent
//! noise generator.  Fractional parameters are stored in thousandths so that
//! the values are exact plain integers; the collaborator that instantiates a
//! generator divides by 1000.
//!
//! One configuration is built per mesh group at startup, with a shared
//! generic fallback for groups beyond the known table.
use vstd::prelude::*;

verus! {

#[derive(Clone, Copy, PartialEq, Eq, Structural, Debug)]
pub enum NoiseAlgorithm {
    Perlin,
    OpenSimplex2,
    Cellular,
}

#[derive(Clone, Copy, PartialEq, Eq, Structural, Debug)]
pub enum FractalKind {
    /// A single octave, no fractal layering.
    Plain,
    /// Fractal Brownian motion: octaves summed at rising frequency and
    /// falling amplitude.
    Fbm,
}

#[derive(Clone, Copy, PartialEq, Eq, Structural, Debug)]
pub struct NoiseConfig {
    pub algorithm: NoiseAlgorithm,
    pub seed: i32,
    /// Sampling frequency, in thousandths.
    pub frequency_thousandths: u32,
    pub fractal: FractalKind,
    /// Octave count, meaningful only for fractal layering.
    pub octaves: u32,
    /// Frequency multiplier between octaves, in thousandths.
    pub lacunarity_thousandths: u32,
    /// Amplitude multiplier between octaves, in thousandths.
    pub gain_thousandths: u32,
}

/// The default generator: Perlin at a basic frequency.
pub open spec fn generic_noise_spec() -> NoiseConfig {
    NoiseConfig {
        algorithm: NoiseAlgorithm::Perlin,
        seed: 1337,
        frequency_thousandths: 50,
        fractal: FractalKind::Plain,
        octaves: 3,
        lacunarity_thousandths: 2000,
        gain_thousandths: 500,
    }
}

/// Simplex with a higher frequency and fractal layering, for icy or desert
/// surfaces with smooth transitions.
pub open spec fn icy_noise_spec() -> NoiseConfig {
    NoiseConfig {
        algorithm: NoiseAlgorithm::OpenSimplex2,
        seed: 7890,
        frequency_thousandths: 80,
        fractal: FractalKind::Fbm,
        octaves: 3,
        lacunarity_thousandths: 2000,
        gain_thousandths: 500,
    }
}

/// Simplex at a low frequency: large, soft bands.
pub open spec fn gas_giant_noise_spec() -> NoiseConfig {
    NoiseConfig {
        algorithm: NoiseAlgorithm::OpenSimplex2,
        seed: 4242,
        frequency_thousandths: 20,
        fractal: FractalKind::Plain,
        octaves: 3,
        lacunarity_thousandths: 2000,
        gain_thousandths: 500,
    }
}

/// Simplex at the default frequency, for cloud-like shading.
pub open spec fn cloud_noise_spec() -> NoiseConfig {
    NoiseConfig {
        algorithm: NoiseAlgorithm::OpenSimplex2,
        seed: 1337,
        frequency_thousandths: 10,
        fractal: FractalKind::Plain,
        octaves: 3,
        lacunarity_thousandths: 2000,
        gain_thousandths: 500,
    }
}

/// Cellular noise with five fractal octaves: cracked, rugged ground.
pub open spec fn ground_noise_spec() -> NoiseConfig {
    NoiseConfig {
        algorithm: NoiseAlgorithm::Cellular,
        seed: 1337,
        frequency_thousandths: 50,
        fractal: FractalKind::Fbm,
        octaves: 5,
        lacunarity_thousandths: 2000,
        gain_thousandths: 500,
    }
}

/// Perlin with six octaves at a very low frequency: turbulent lava.
pub open spec fn lava_noise_spec() -> NoiseConfig {
    NoiseConfig {
        algorithm: NoiseAlgorithm::Perlin,
        seed: 42,
        frequency_thousandths: 2,
        fractal: FractalKind::Fbm,
        octaves: 6,
        lacunarity_thousandths: 2000,
        gain_thousandths: 500,
    }
}

/// The mesh-group table: which noise configuration each group index gets,
/// with the generic configuration as the fallback.
pub open spec fn noise_for_planet_spec(index: int) -> NoiseConfig {
    if index == 0 {
        lava_noise_spec()
    } else if index == 1 {
        cloud_noise_spec()
    } else if index == 2 {
        generic_noise_spec()
    } else if index == 3 {
        ground_noise_spec()
    } else if index == 4 {
        gas_giant_noise_spec()
    } else if index == 5 {
        icy_noise_spec()
    } else {
        generic_noise_spec()
    }
}

pub fn create_generic_noise() -> (c: NoiseConfig)
    ensures
        c == (generic_noise_spec()),
{
    NoiseConfig {
        algorithm: NoiseAlgorithm::Perlin,
        seed: 1337,
        frequency_thousandths: 50,
        fractal: FractalKind::Plain,
        octaves: 3,
        lacunarity_thousandths: 2000,
        gain_thousandths: 500,
    }
}

pub fn create_icy_noise() -> (c: NoiseConfig)
    ensures
        c == (icy_noise_spec()),
{
    NoiseConfig {
        algorithm: NoiseAlgorithm::OpenSimplex2,
        seed: 7890,
        frequency_thousandths: 80,
        fractal: FractalKind::Fbm,
        octaves: 3,
        lacunarity_thousandths: 2000,
        gain_thousandths: 500,
    }
}

pub fn create_gas_giant_noise() -> (c: NoiseConfig)
    ensures
        c == (gas_giant_noise_spec()),
{
    NoiseConfig {
        algorithm: NoiseAlgorithm::OpenSimplex2,
        seed: 4242,
        frequency_thousandths: 20,
        fractal: FractalKind::Plain,
        octaves: 3,
        lacunarity_thousandths: 2000,
        gain_thousandths: 500,
    }
}

pub fn create_cloud_noise() -> (c: NoiseConfig)
    ensures
        c == (cloud_noise_spec()),
{
    NoiseConfig {
        algorithm: NoiseAlgorithm::OpenSimplex2,
        seed: 1337,
        frequency_thousandths: 10,
        fractal: FractalKind::Plain,
        octaves: 3,
        lacunarity_thousandths: 2000,
        gain_thousandths: 500,
    }
}

pub fn create_ground_noise() -> (c: NoiseConfig)
    ensures
        c == (ground_noise_spec()),
{
    NoiseConfig {
        algorithm: NoiseAlgorithm::Cellular,
        seed: 1337,
        frequency_thousandths: 50,
        fractal: FractalKind::Fbm,
        octaves: 5,
        lacunarity_thousandths: 2000,
        gain_thousandths: 500,
    }
}

pub fn create_lava_noise() -> (c: NoiseConfig)
    ensures
        c == (lava_noise_spec()),
{
    NoiseConfig {
        algorithm: NoiseAlgorithm::Perlin,
        seed: 42,
        frequency_thousandths: 2,
        fractal: FractalKind::Fbm,
        octaves: 6,
        lacunarity_thousandths: 2000,
        gain_thousandths: 500,
    }
}

pub fn create_noise_for_planet(index: usize) -> (c: NoiseConfig)
    ensures
        c == (noise_for_planet_spec(index as int)),
{
    if index == 0 {
        create_lava_noise()
    } else if index == 1 {
        create_cloud_noise()
    } else if index == 2 {
        create_generic_noise()
    } else if index == 3 {
        create_ground_noise()
    } else if index == 4 {
        create_gas_giant_noise()
    } else if index == 5 {
        create_icy_noise()
    } else {
        create_generic_noise()
    }
}

} // verus!
