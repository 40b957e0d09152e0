//! Core of a physically-based-rendering demo: vertex stream descriptors, the
//! GPU resource lifecycle (buffers, textures, upload-on-dirty), the
//! model/mesh/material data model with procedural shape generators, and the
//! image-based-lighting precomputation pipeline (environment cubemap,
//! irradiance convolution, specular prefilter mip chain, BRDF lookup table).
//!
//! The library never talks to a graphics driver directly: every GPU effect is
//! recorded as a [`device::Command`] in a [`device::Device`] log, and a thin
//! host program replays the log against the real API. All decisions — what is
//! allocated, uploaded, bound, drawn, released, and in which order — are made
//! and verified here.

pub mod backend;
pub mod bytes;
pub mod buffer;
pub mod device;
pub mod material;
pub mod model;
pub mod resource;
pub mod shader;
pub mod skybox;
pub mod stream;
pub mod texture;
