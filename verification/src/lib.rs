//! The decision core of a wgpu sprite-rendering backend: surface and frame
//! bookkeeping, the texture registry, the vertex staging cache, the quad index
//! buffer, and the per-draw plan (sampler, scissor rectangle, draw range).
//! The GPU work itself is carried out by the embedding program, following the
//! plans these functions return.
pub mod index_buffer;
pub mod vertex_buffer;
pub mod texture;
pub mod render;
pub mod backend;
pub mod greeting;
pub mod laws;
