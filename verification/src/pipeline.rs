//! Graphics pipeline planning and the persistent pipeline cache.
//!
//! A pipeline is described by the reflected stage of each shader blob, the
//! attachment formats, the target extent and the fixed-function state the
//! engine always uses. The cache remembers which pipeline configurations have
//! been compiled; its on-disk form is a little-endian record file whose codec
//! is verified, with a round-trip proof.

use vstd::prelude::*;

use crate::swapchain::Extent2D;

verus! {

/// Shader stage bit for vertex shaders.
pub const STAGE_VERTEX: u32 = 0x1;

/// Shader stage bit for tessellation control shaders.
pub const STAGE_TESSELLATION_CONTROL: u32 = 0x2;

/// Shader stage bit for tessellation evaluation shaders.
pub const STAGE_TESSELLATION_EVALUATION: u32 = 0x4;

/// Shader stage bit for geometry shaders.
pub const STAGE_GEOMETRY: u32 = 0x8;

/// Shader stage bit for fragment shaders.
pub const STAGE_FRAGMENT: u32 = 0x10;

/// Shader stage bit for compute shaders.
pub const STAGE_COMPUTE: u32 = 0x20;

/// Size in bytes of the one push-constant range: a 4x4 matrix of 32-bit
/// scalars.
pub const PUSH_CONSTANT_SIZE: u32 = 64;

/// Primitive topology `TRIANGLE_LIST`.
pub const TOPOLOGY_TRIANGLE_LIST: u32 = 3;

/// Depth comparison `LESS`.
pub const COMPARE_OP_LESS: u32 = 1;

/// Cull mode `BACK`.
pub const CULL_MODE_BACK: u32 = 2;

/// Front face `COUNTER_CLOCKWISE`.
pub const FRONT_FACE_COUNTER_CLOCKWISE: u32 = 0;

/// Why a pipeline could not be planned.
#[derive(Debug, Clone, Copy, PartialEq, Eq, Structural)]
pub enum PipelineError {
    /// A shader blob could not be reflected.
    ReflectionFailed,
    /// A shader blob reflected to a stage the engine does not accept.
    InvalidStage,
}

/// The stage that shader reflection reports for a SPIR-V blob, as the
/// reflection library's stage bits; reflection failure is `None`. The stage
/// is a function of the shader words alone.
pub uninterp spec fn spirv_stage(blob: Seq<u8>) -> Option<u32>;

/// Relies on `spirv_reflect::create_shader_module` and
/// `ShaderModule::get_shader_stage`: parses a SPIR-V blob and reports the
/// entry point's stage, a function of the blob's bytes alone.
#[verifier::external_body]
fn reflect_stage(blob: &Vec<u8>) -> (r: Option<u32>)
    ensures
        r == spirv_stage(blob@),
{
    match spirv_reflect::create_shader_module(blob.as_slice()) {
        Ok(m) => Some(m.get_shader_stage().bits()),
        Err(_) => None,
    }
}

/// The engine's stage bit for a reflected stage value, when it accepts that
/// stage at all.
pub open spec fn vk_stage_of(reflected: u32) -> Option<u32> {
    if reflected == STAGE_VERTEX {
        Some(STAGE_VERTEX)
    } else if reflected == STAGE_TESSELLATION_CONTROL {
        Some(STAGE_TESSELLATION_CONTROL)
    } else if reflected == STAGE_TESSELLATION_EVALUATION {
        Some(STAGE_TESSELLATION_EVALUATION)
    } else if reflected == STAGE_GEOMETRY {
        Some(STAGE_GEOMETRY)
    } else if reflected == STAGE_FRAGMENT {
        Some(STAGE_FRAGMENT)
    } else if reflected == STAGE_COMPUTE {
        Some(STAGE_COMPUTE)
    } else {
        None
    }
}

/// Maps a reflected stage value to the engine's stage bit.
pub fn map_reflected_stage(reflected: u32) -> (r: Option<u32>)
    ensures
        r == vk_stage_of(reflected),
{
    if reflected == STAGE_VERTEX {
        Some(STAGE_VERTEX)
    } else if reflected == STAGE_TESSELLATION_CONTROL {
        Some(STAGE_TESSELLATION_CONTROL)
    } else if reflected == STAGE_TESSELLATION_EVALUATION {
        Some(STAGE_TESSELLATION_EVALUATION)
    } else if reflected == STAGE_GEOMETRY {
        Some(STAGE_GEOMETRY)
    } else if reflected == STAGE_FRAGMENT {
        Some(STAGE_FRAGMENT)
    } else if reflected == STAGE_COMPUTE {
        Some(STAGE_COMPUTE)
    } else {
        None
    }
}

/// Every blob reflects to some stage.
pub open spec fn all_blobs_reflect(blobs: Seq<Seq<u8>>) -> bool {
    forall|i: int| 0 <= i < blobs.len() ==> (#[trigger] spirv_stage(blobs[i])) is Some
}

/// Every blob reflects to a stage the engine accepts.
pub open spec fn all_stages_valid(blobs: Seq<Seq<u8>>) -> bool {
    forall|i: int|
        0 <= i < blobs.len() ==> (#[trigger] vk_stage_of(spirv_stage(blobs[i]).unwrap())) is Some
}

/// The engine stage of one blob, defined when the blob reflects and its
/// stage is accepted.
pub open spec fn blob_stage(blob: Seq<u8>) -> u32 {
    vk_stage_of(spirv_stage(blob).unwrap()).unwrap()
}

/// The union of the engine stage bits of a list of blobs.
pub open spec fn stage_mask_of(blobs: Seq<Seq<u8>>) -> u32
    decreases blobs.len(),
{
    if blobs.len() == 0 {
        0u32
    } else {
        stage_mask_of(blobs.drop_last()) | blob_stage(blobs.last())
    }
}

/// The little-endian bytes of a 32-bit value.
pub open spec fn le_bytes(v: u32) -> Seq<u8> {
    seq![
        (v & 0xff) as u8,
        ((v >> 8) & 0xff) as u8,
        ((v >> 16) & 0xff) as u8,
        ((v >> 24) & 0xff) as u8,
    ]
}

/// The 32-bit value four little-endian bytes stand for.
pub open spec fn u32_of_le(b0: u8, b1: u8, b2: u8, b3: u8) -> u32 {
    (b0 as u32) | ((b1 as u32) << 8) | ((b2 as u32) << 16) | ((b3 as u32) << 24)
}

/// Reading back the little-endian bytes of a value gives the value.
pub proof fn lemma_u32_le_roundtrip(v: u32)
    ensures
        u32_of_le(
            (v & 0xff) as u8,
            ((v >> 8) & 0xff) as u8,
            ((v >> 16) & 0xff) as u8,
            ((v >> 24) & 0xff) as u8,
        ) == v,
{
    assert((((v & 0xff) as u8) as u32) | ((((v >> 8) & 0xff) as u8) as u32) << 8 | ((((v >> 16)
        & 0xff) as u8) as u32) << 16 | ((((v >> 24) & 0xff) as u8) as u32) << 24 == v)
        by (bit_vector);
}

/// What one compiled pipeline is keyed by in the cache: its stage set and
/// its attachment formats.
#[derive(Debug, Clone, Copy, PartialEq, Eq, Structural)]
pub struct PipelineKey {
    pub stage_mask: u32,
    pub color_format: u32,
    pub depth_format: u32,
}

/// A full pipeline description: the per-blob stages in blob order, the key,
/// the target extent, and the fixed-function state the engine always uses.
#[derive(Debug, Clone, PartialEq, Eq)]
pub struct PipelineDesc {
    /// Engine stage bit of each shader blob, in the order the blobs were
    /// given.
    pub stages: Vec<u32>,
    pub key: PipelineKey,
    pub extent: Extent2D,
    /// Byte size of the one push-constant range.
    pub push_constant_size: u32,
    pub topology: u32,
    pub cull_mode: u32,
    pub front_face: u32,
    pub depth_compare_op: u32,
    pub depth_test: bool,
    pub depth_write: bool,
    pub blend_enable: bool,
}

/// The fixed-function state every pipeline of the engine is built with:
/// triangle lists, back-face culling, depth test and write with `LESS`, no
/// blending.
pub open spec fn fixed_function_ok(d: PipelineDesc) -> bool {
    &&& d.push_constant_size == PUSH_CONSTANT_SIZE
    &&& d.topology == TOPOLOGY_TRIANGLE_LIST
    &&& d.cull_mode == CULL_MODE_BACK
    &&& d.front_face == FRONT_FACE_COUNTER_CLOCKWISE
    &&& d.depth_compare_op == COMPARE_OP_LESS
    &&& d.depth_test
    &&& d.depth_write
    &&& !d.blend_enable
}

/// The cache of compiled pipeline configurations.
#[derive(Debug, Clone, PartialEq, Eq)]
pub struct PipelineCache {
    pub entries: Vec<PipelineKey>,
}

/// Whether the cache already holds a key.
pub open spec fn cache_contains(entries: Seq<PipelineKey>, key: PipelineKey) -> bool {
    exists|i: int| 0 <= i < entries.len() && entries[i] == key
}

impl PipelineCache {
    /// An empty cache, for a first run with no file on disk.
    pub fn new() -> (c: Self)
        ensures
            c.entries@.len() == 0,
    {
        PipelineCache { entries: Vec::new() }
    }

    /// Whether a configuration has already been compiled.
    pub fn contains(&self, key: &PipelineKey) -> (r: bool)
        ensures
            r == cache_contains(self.entries@, *key),
    {
        let mut i: usize = 0;
        while i < self.entries.len()
            invariant
                i <= self.entries@.len(),
                forall|j: int| 0 <= j < i ==> self.entries@[j] != *key,
            decreases self.entries@.len() - i,
        {
            let e = self.entries[i];
            if e.stage_mask == key.stage_mask && e.color_format == key.color_format
                && e.depth_format == key.depth_format {
                proof {
                    assert(self.entries@[i as int] == *key);
                }
                return true;
            }
            i = i + 1;
        }
        false
    }
}

/// Plans a graphics pipeline from its shader blobs and attachment formats,
/// and records the configuration in the cache. The result also says whether
/// the configuration was already cached, in which case the driver compiles
/// it from the cache rather than from scratch.
pub fn create_pipeline(
    cache: &mut PipelineCache,
    blobs: &Vec<Vec<u8>>,
    color_format: u32,
    depth_format: u32,
    extent: Extent2D,
) -> (r: Result<(PipelineDesc, bool), PipelineError>)
    ensures
        ({
            let views = blobs@.map_values(|b: Vec<u8>| b@);
            match r {
                Ok((desc, hit)) => {
                    &&& all_blobs_reflect(views)
                    &&& all_stages_valid(views)
                    &&& desc.stages@.len() == views.len()
                    &&& forall|i: int|
                        0 <= i < views.len() ==> desc.stages@[i] == blob_stage(#[trigger] views[i])
                    &&& desc.key == (PipelineKey {
                        stage_mask: stage_mask_of(views),
                        color_format,
                        depth_format,
                    })
                    &&& desc.extent == extent
                    &&& fixed_function_ok(desc)
                    &&& hit == cache_contains(old(cache).entries@, desc.key)
                    &&& final(cache).entries@ == if hit {
                        old(cache).entries@
                    } else {
                        old(cache).entries@.push(desc.key)
                    }
                },
                Err(PipelineError::ReflectionFailed) => {
                    &&& !all_blobs_reflect(views)
                    &&& *final(cache) == *old(cache)
                },
                Err(PipelineError::InvalidStage) => {
                    &&& all_blobs_reflect(views)
                    &&& !all_stages_valid(views)
                    &&& *final(cache) == *old(cache)
                },
            }
        }),
{
    let ghost views = blobs@.map_values(|b: Vec<u8>| b@);
    let mut reflected: Vec<u32> = Vec::new();
    let mut i: usize = 0;
    while i < blobs.len()
        invariant
            i <= views.len(),
            views == blobs@.map_values(|b: Vec<u8>| b@),
            reflected@.len() == i,
            forall|j: int|
                0 <= j < i ==> Some(reflected@[j]) == spirv_stage(#[trigger] views[j]),
        decreases views.len() - i,
    {
        match reflect_stage(&blobs[i]) {
            Some(s) => reflected.push(s),
            None => {
                proof {
                    assert(spirv_stage(views[i as int]) is None);
                }
                return Err(PipelineError::ReflectionFailed);
            },
        }
        i = i + 1;
    }
    let mut stages: Vec<u32> = Vec::new();
    let mut mask: u32 = 0;
    let mut k: usize = 0;
    while k < reflected.len()
        invariant
            k <= views.len(),
            views == blobs@.map_values(|b: Vec<u8>| b@),
            reflected@.len() == views.len(),
            forall|j: int|
                0 <= j < views.len() ==> Some(reflected@[j]) == spirv_stage(#[trigger] views[j]),
            stages@.len() == k,
            forall|j: int|
                0 <= j < k ==> vk_stage_of(spirv_stage(#[trigger] views[j]).unwrap()) == Some(
                    stages@[j],
                ),
            mask == stage_mask_of(views.take(k as int)),
        decreases views.len() - k,
    {
        match map_reflected_stage(reflected[k]) {
            Some(s) => {
                proof {
                    assert(views.take(k + 1 as int).drop_last() =~= views.take(k as int));
                    assert(views.take(k + 1 as int).last() == views[k as int]);
                }
                stages.push(s);
                mask = mask | s;
            },
            None => {
                proof {
                    assert(vk_stage_of(spirv_stage(views[k as int]).unwrap()) is None);
                }
                return Err(PipelineError::InvalidStage);
            },
        }
        k = k + 1;
    }
    proof {
        assert(views.take(views.len() as int) =~= views);
    }
    let key = PipelineKey { stage_mask: mask, color_format, depth_format };
    let hit = cache.contains(&key);
    if !hit {
        cache.entries.push(key);
    }
    let desc = PipelineDesc {
        stages,
        key,
        extent,
        push_constant_size: PUSH_CONSTANT_SIZE,
        topology: TOPOLOGY_TRIANGLE_LIST,
        cull_mode: CULL_MODE_BACK,
        front_face: FRONT_FACE_COUNTER_CLOCKWISE,
        depth_compare_op: COMPARE_OP_LESS,
        depth_test: true,
        depth_write: true,
        blend_enable: false,
    };
    Ok((desc, hit))
}

/// The twelve bytes one cache entry is stored as.
pub open spec fn encode_key(k: PipelineKey) -> Seq<u8> {
    le_bytes(k.stage_mask) + le_bytes(k.color_format) + le_bytes(k.depth_format)
}

/// The bytes a list of cache entries is stored as, in order.
pub open spec fn encode_entries(ks: Seq<PipelineKey>) -> Seq<u8>
    decreases ks.len(),
{
    if ks.len() == 0 {
        Seq::empty()
    } else {
        encode_key(ks.first()) + encode_entries(ks.drop_first())
    }
}

/// The on-disk form of the cache: an entry count followed by the entries.
pub open spec fn encode_cache(ks: Seq<PipelineKey>) -> Seq<u8> {
    le_bytes(ks.len() as u32) + encode_entries(ks)
}

/// The entry stored at a byte position.
pub open spec fn decode_key_at(bytes: Seq<u8>, pos: int) -> PipelineKey {
    PipelineKey {
        stage_mask: u32_of_le(bytes[pos], bytes[pos + 1], bytes[pos + 2], bytes[pos + 3]),
        color_format: u32_of_le(bytes[pos + 4], bytes[pos + 5], bytes[pos + 6], bytes[pos + 7]),
        depth_format: u32_of_le(bytes[pos + 8], bytes[pos + 9], bytes[pos + 10], bytes[pos + 11]),
    }
}

/// What a cache file's bytes hold: `None` unless the bytes are exactly a
/// count followed by that many twelve-byte entries.
pub open spec fn decode_cache(bytes: Seq<u8>) -> Option<Seq<PipelineKey>> {
    if bytes.len() < 4 {
        None
    } else {
        let n = u32_of_le(bytes[0], bytes[1], bytes[2], bytes[3]);
        if bytes.len() == 4 + 12 * (n as int) {
            Some(Seq::new(n as nat, |i: int| decode_key_at(bytes, 4 + 12 * i)))
        } else {
            None
        }
    }
}

/// The stored entries take twelve bytes each.
pub proof fn lemma_encode_entries_len(ks: Seq<PipelineKey>)
    ensures
        encode_entries(ks).len() == 12 * ks.len(),
    decreases ks.len(),
{
    if ks.len() > 0 {
        lemma_encode_entries_len(ks.drop_first());
    }
}

/// Where each entry's bytes sit inside the stored entry list.
pub proof fn lemma_encode_entries_index(ks: Seq<PipelineKey>, i: int, j: int)
    requires
        0 <= i < ks.len(),
        0 <= j < 12,
    ensures
        encode_entries(ks).len() == 12 * ks.len(),
        encode_entries(ks)[12 * i + j] == encode_key(ks[i])[j],
    decreases i,
{
    lemma_encode_entries_len(ks);
    lemma_encode_entries_len(ks.drop_first());
    if i == 0 {
    } else {
        lemma_encode_entries_index(ks.drop_first(), i - 1, j);
    }
}

/// Decoding the bytes an entry was stored as gives the entry back.
pub proof fn lemma_decode_key(bytes: Seq<u8>, pos: int, k: PipelineKey)
    requires
        0 <= pos,
        pos + 12 <= bytes.len(),
        forall|j: int| 0 <= j < 12 ==> bytes[pos + j] == encode_key(k)[j],
    ensures
        decode_key_at(bytes, pos) == k,
{
    lemma_u32_le_roundtrip(k.stage_mask);
    lemma_u32_le_roundtrip(k.color_format);
    lemma_u32_le_roundtrip(k.depth_format);
    assert(bytes[pos + 0] == encode_key(k)[0]);
    assert(bytes[pos + 1] == encode_key(k)[1]);
    assert(bytes[pos + 2] == encode_key(k)[2]);
    assert(bytes[pos + 3] == encode_key(k)[3]);
    assert(bytes[pos + 4] == encode_key(k)[4]);
    assert(bytes[pos + 5] == encode_key(k)[5]);
    assert(bytes[pos + 6] == encode_key(k)[6]);
    assert(bytes[pos + 7] == encode_key(k)[7]);
    assert(bytes[pos + 8] == encode_key(k)[8]);
    assert(bytes[pos + 9] == encode_key(k)[9]);
    assert(bytes[pos + 10] == encode_key(k)[10]);
    assert(bytes[pos + 11] == encode_key(k)[11]);
}

/// Serializing a cache and reading the bytes back yields the same cache:
/// the codec loses nothing.
pub proof fn lemma_cache_codec_roundtrip(ks: Seq<PipelineKey>)
    requires
        ks.len() <= u32::MAX,
    ensures
        decode_cache(encode_cache(ks)) == Some(ks),
{
    let bytes = encode_cache(ks);
    lemma_encode_entries_len(ks);
    lemma_u32_le_roundtrip(ks.len() as u32);
    assert(u32_of_le(bytes[0], bytes[1], bytes[2], bytes[3]) == ks.len() as u32);
    let decoded = Seq::new(ks.len(), |i: int| decode_key_at(bytes, 4 + 12 * i));
    assert forall|i: int| 0 <= i < ks.len() implies decoded[i] == ks[i] by {
        assert forall|j: int| 0 <= j < 12 implies bytes[4 + 12 * i + j] == encode_key(ks[i])[j] by {
            lemma_encode_entries_index(ks, i, j);
            assert(bytes[4 + 12 * i + j] == encode_entries(ks)[12 * i + j]);
        }
        lemma_decode_key(bytes, 4 + 12 * i, ks[i]);
    }
    assert(decoded =~= ks);
}

/// Appends the little-endian bytes of a value.
fn push_u32(out: &mut Vec<u8>, v: u32)
    ensures
        final(out)@ == old(out)@ + le_bytes(v),
{
    out.push((v & 0xff) as u8);
    out.push(((v >> 8) & 0xff) as u8);
    out.push(((v >> 16) & 0xff) as u8);
    out.push(((v >> 24) & 0xff) as u8);
    proof {
        assert(final(out)@ =~= old(out)@ + le_bytes(v));
    }
}

/// Reads the 32-bit value stored at a byte position.
fn read_u32_at(bytes: &Vec<u8>, pos: usize) -> (r: u32)
    requires
        pos + 4 <= bytes@.len(),
    ensures
        r == u32_of_le(bytes@[pos as int], bytes@[pos + 1], bytes@[pos + 2], bytes@[pos + 3]),
{
    let _len: usize = bytes.len();
    (bytes[pos] as u32) | ((bytes[pos + 1] as u32) << 8) | ((bytes[pos + 2] as u32) << 16) | ((
    bytes[pos + 3] as u32) << 24)
}

impl PipelineCache {
    /// The bytes to persist the cache as.
    pub fn serialize(&self) -> (out: Vec<u8>)
        requires
            self.entries@.len() <= u32::MAX,
        ensures
            out@ == encode_cache(self.entries@),
    {
        let ghost ks = self.entries@;
        let mut out: Vec<u8> = Vec::new();
        push_u32(&mut out, self.entries.len() as u32);
        let mut i: usize = 0;
        while i < self.entries.len()
            invariant
                i <= ks.len(),
                ks == self.entries@,
                ks.len() <= u32::MAX,
                out@ == le_bytes(ks.len() as u32) + encode_entries(ks.take(i as int)),
            decreases ks.len() - i,
        {
            let e = self.entries[i];
            push_u32(&mut out, e.stage_mask);
            push_u32(&mut out, e.color_format);
            push_u32(&mut out, e.depth_format);
            proof {
                lemma_encode_entries_snoc(ks.take(i as int), ks[i as int]);
                assert(ks.take(i + 1 as int) =~= ks.take(i as int).push(ks[i as int]));
                assert(out@ =~= le_bytes(ks.len() as u32) + encode_entries(ks.take(i + 1 as int)));
            }
            i = i + 1;
        }
        proof {
            assert(ks.take(ks.len() as int) =~= ks);
        }
        out
    }

    /// Reads a cache back from persisted bytes; `None` when the bytes are
    /// not a well-formed cache file, in which case the engine starts from an
    /// empty cache.
    pub fn deserialize(bytes: &Vec<u8>) -> (r: Option<PipelineCache>)
        ensures
            match r {
                Some(c) => decode_cache(bytes@) == Some(c.entries@),
                None => decode_cache(bytes@) is None,
            },
    {
        if bytes.len() < 4 {
            return None;
        }
        let n = read_u32_at(bytes, 0);
        if (bytes.len() as u64) != 4u64 + 12u64 * (n as u64) {
            return None;
        }
        let mut entries: Vec<PipelineKey> = Vec::new();
        let l: usize = bytes.len();
        let mut i: usize = 0;
        while i < n as usize
            invariant
                i <= n,
                l == bytes@.len(),
                bytes@.len() == 4 + 12 * (n as int),
                n == u32_of_le(bytes@[0], bytes@[1], bytes@[2], bytes@[3]),
                entries@.len() == i,
                forall|m: int|
                    0 <= m < i ==> entries@[m] == decode_key_at(bytes@, 4 + 12 * m),
            decreases n - i,
        {
            let pos = 4 + 12 * i;
            let k = PipelineKey {
                stage_mask: read_u32_at(bytes, pos),
                color_format: read_u32_at(bytes, pos + 4),
                depth_format: read_u32_at(bytes, pos + 8),
            };
            entries.push(k);
            i = i + 1;
        }
        proof {
            assert(entries@ =~= Seq::new(n as nat, |m: int| decode_key_at(bytes@, 4 + 12 * m)));
        }
        Some(PipelineCache { entries })
    }
}

/// Extending the entry list appends the new entry's bytes.
pub proof fn lemma_encode_entries_snoc(ks: Seq<PipelineKey>, k: PipelineKey)
    ensures
        encode_entries(ks.push(k)) == encode_entries(ks) + encode_key(k),
    decreases ks.len(),
{
    if ks.len() == 0 {
        reveal_with_fuel(encode_entries, 2);
        assert(ks.push(k).drop_first() =~= Seq::<PipelineKey>::empty());
        assert(encode_entries(ks.push(k)) =~= encode_entries(ks) + encode_key(k));
    } else {
        assert(ks.push(k).drop_first() =~= ks.drop_first().push(k));
        lemma_encode_entries_snoc(ks.drop_first(), k);
        assert(encode_entries(ks.push(k)) == encode_key(ks.first()) + (encode_entries(
            ks.drop_first(),
        ) + encode_key(k)));
        assert(encode_key(ks.first()) + (encode_entries(ks.drop_first()) + encode_key(k)) =~= (
        encode_key(ks.first()) + encode_entries(ks.drop_first())) + encode_key(k));
    }
}

} // verus!
