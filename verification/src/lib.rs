//! Verified core of a Vulkan-style real-time rendering backend.
//!
//! The crate models the decision logic of the engine: device and format
//! selection, swapchain planning, the pipeline cache and its on-disk codec,
//! resource bookkeeping with a reference-counted allocator, mesh and texture
//! upload planning, the per-frame begin/render/end protocol with its worker
//! round-robin batching, and the teardown order. GPU handles are carried as
//! opaque integer ids; 4x4 matrices are carried as raw 32-bit words, since the
//! engine only ever copies them into mapped buffers. The unverified driver
//! around the crate performs the actual GPU calls and hands their outcomes
//! back as plain values.

pub mod engine;
pub mod gpu_alloc;
pub mod init;
pub mod material;
pub mod mesh;
pub mod pipeline;
pub mod swapchain;
pub mod texture;
pub mod worker;
