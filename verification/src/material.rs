//! Materials: a planned pipeline, identified by a small id that draws are
//! batched by, plus an optional bound texture.

use vstd::prelude::*;

use crate::pipeline::PipelineDesc;
use crate::texture::Texture;

verus! {

/// Why a material could not be loaded. Resource-load failures are typed and
/// propagate to the caller; they never crash the engine.
#[derive(Debug, Clone, Copy, PartialEq, Eq, Structural)]
pub enum MaterialError {
    /// A shader blob could not be reflected.
    ReflectionFailed,
    /// A shader blob reflected to a stage the engine does not accept.
    InvalidStage,
    /// The texture bytes are not a decodable image.
    TextureDecodeFailed,
}

/// A material: the pipeline it draws with and an optional texture. Materials
/// are compared by id for batching, never by value.
#[derive(Debug)]
pub struct Material {
    /// Identity the engine batches by.
    pub id: u64,
    /// The planned pipeline; the driver's compiled pipeline and its layout
    /// are keyed by `id`.
    pub desc: PipelineDesc,
    pub texture: Option<Texture>,
}

impl Material {
    /// Wraps a planned pipeline and an optional texture as the material with
    /// the given identity.
    pub fn new(id: u64, desc: PipelineDesc, texture: Option<Texture>) -> (m: Material)
        ensures
            m.id == id,
            m.desc == desc,
            m.texture == texture,
    {
        Material { id, desc, texture }
    }
}

} // verus!
