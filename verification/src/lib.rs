//! A CPU-side rasterization pipeline for procedurally shaded planet
//! meshes: vertex transformation, primitive assembly, barycentric scan
//! conversion with depth testing, and a per-fragment shading framework
//! driven by coherent noise.
//!
//! All geometry lives in saturating fixed-point arithmetic (`fx`), so every
//! stage carries an exact contract.  Windowing, input and the noise
//! generator itself are collaborators outside this crate: the pipeline
//! publishes the coordinates it wants sampled and consumes the samples as
//! plain values.

pub mod color;
pub mod fragment;
pub mod framebuffer;
pub mod fx;
pub mod mat;
pub mod noise;
pub mod pipeline;
pub mod raster;
pub mod shaders;
pub mod transform;
pub mod uniforms;
pub mod vertex;
