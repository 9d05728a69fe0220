//! Verified core of a Monte-Carlo path tracer.
//!
//! The renderer's geometry and radiometry are 32-bit floating-point
//! quantities, which the verifier does not compute with. The core therefore
//! carries every such quantity as its IEEE 754 bit pattern and verifies
//! everything about the render that is decidable on those patterns and on
//! plain integers: the scene registry and its emissive-primitive accounting,
//! closest-hit selection, hit-record orientation, the integrator's and
//! next-event estimation's termination and gating decisions, the
//! deterministic per-pixel random streams, the frame-buffer layout, and the
//! exact partition-of-unity laws behind multiple importance sampling. The
//! embedder performs the floating-point arithmetic between those decisions.

pub mod accum;
pub mod brdfs;
pub mod config;
pub mod fbits;
pub mod framebuffer;
pub mod hit;
pub mod integrator;
pub mod material;
pub mod mis;
pub mod nee;
pub mod objects;
pub mod rng;
pub mod roots;
pub mod scene;
pub mod vec3;
