//! Pipeline planning against real SPIR-V reflection, and the persistent
//! cache's codec.

use rendering::pipeline::{
    create_pipeline, PipelineCache, PipelineError, PipelineKey, COMPARE_OP_LESS, CULL_MODE_BACK,
    FRONT_FACE_COUNTER_CLOCKWISE, PUSH_CONSTANT_SIZE, STAGE_FRAGMENT, STAGE_VERTEX,
    TOPOLOGY_TRIANGLE_LIST,
};
use rendering::init::{DepthCandidate, QueueFamily, SurfaceFormat};
use rendering::material::MaterialError;
use rendering::swapchain::{Extent2D, PresentMode, SharingMode, SwapchainPlan};

fn words_to_bytes(words: &[u32]) -> Vec<u8> {
    let mut out = Vec::new();
    for w in words {
        out.extend_from_slice(&w.to_le_bytes());
    }
    out
}

/// A minimal SPIR-V module with one entry point of the given execution
/// model: `OpCapability Shader`, `OpMemoryModel Logical GLSL450`,
/// `OpEntryPoint <model> %3 "main"`, an empty `main`, and for fragment
/// shaders the mandatory `OriginUpperLeft` execution mode.
fn spirv_module(execution_model: u32) -> Vec<u8> {
    let mut words: Vec<u32> = vec![
        0x0723_0203, // magic
        0x0001_0000, // SPIR-V 1.0
        0,           // generator
        5,           // id bound
        0,           // schema
        (2 << 16) | 17, 1, // OpCapability Shader
        (3 << 16) | 14, 0, 1, // OpMemoryModel Logical GLSL450
        (5 << 16) | 15, execution_model, 3, 0x6E69_616D, 0, // OpEntryPoint %3 "main"
    ];
    if execution_model == 4 {
        // OpExecutionMode %3 OriginUpperLeft
        words.extend_from_slice(&[(3 << 16) | 16, 3, 7]);
    }
    words.extend_from_slice(&[
        (2 << 16) | 19, 1, // OpTypeVoid %1
        (3 << 16) | 33, 2, 1, // OpTypeFunction %2 %1
        (5 << 16) | 54, 1, 3, 0, 2, // OpFunction %1 %3 None %2
        (2 << 16) | 248, 4, // OpLabel %4
        (1 << 16) | 253, // OpReturn
        (1 << 16) | 56, // OpFunctionEnd
    ]);
    words_to_bytes(&words)
}

fn extent() -> Extent2D {
    Extent2D { width: 800, height: 600 }
}

/// Reflection recovers the vertex and fragment stages from the blobs, the
/// plan carries the fixed-function state of the engine, and planning the
/// same configuration again hits the cache.
#[test]
fn pipeline_reflects_stages_and_caches() {
    let blobs = vec![spirv_module(0), spirv_module(4)];
    let mut cache = PipelineCache::new();
    let (desc, hit) = create_pipeline(&mut cache, &blobs, 36, 126, extent())
        .expect("both modules reflect");
    assert!(!hit, "an empty cache cannot hit");
    assert_eq!(desc.stages, vec![STAGE_VERTEX, STAGE_FRAGMENT]);
    assert_eq!(desc.key.stage_mask, STAGE_VERTEX | STAGE_FRAGMENT);
    assert_eq!(desc.key.color_format, 36);
    assert_eq!(desc.key.depth_format, 126);
    assert_eq!(desc.extent, extent());
    assert_eq!(desc.push_constant_size, PUSH_CONSTANT_SIZE);
    assert_eq!(desc.topology, TOPOLOGY_TRIANGLE_LIST);
    assert_eq!(desc.cull_mode, CULL_MODE_BACK);
    assert_eq!(desc.front_face, FRONT_FACE_COUNTER_CLOCKWISE);
    assert_eq!(desc.depth_compare_op, COMPARE_OP_LESS);
    assert!(desc.depth_test && desc.depth_write && !desc.blend_enable);
    assert_eq!(cache.entries.len(), 1);

    let (desc2, hit2) = create_pipeline(&mut cache, &blobs, 36, 126, extent())
        .expect("the same modules reflect again");
    assert!(hit2, "the second compile of one configuration hits the cache");
    assert_eq!(desc2.key, desc.key);
    assert_eq!(cache.entries.len(), 1, "a hit adds nothing");
}

#[test]
fn pipeline_rejects_undecodable_shader() {
    let blobs = vec![vec![0u8, 1, 2, 3, 4, 5, 6, 7]];
    let mut cache = PipelineCache::new();
    assert_eq!(
        create_pipeline(&mut cache, &blobs, 36, 126, extent()),
        Err(PipelineError::ReflectionFailed)
    );
    assert_eq!(cache.entries.len(), 0, "a failed plan changes nothing");
}

/// Serializing the cache and reading the bytes back yields the same
/// entries: a restart resumes with every configuration still cached.
#[test]
fn cache_serialization_round_trip() {
    let cache = PipelineCache {
        entries: vec![
            PipelineKey { stage_mask: 0x11, color_format: 36, depth_format: 126 },
            PipelineKey { stage_mask: 0x1, color_format: 50, depth_format: 130 },
        ],
    };
    let bytes = cache.serialize();
    assert_eq!(bytes.len(), 4 + 2 * 12);
    let back = PipelineCache::deserialize(&bytes).expect("the bytes round trip");
    assert_eq!(back.entries, cache.entries);
}

#[test]
fn cache_rejects_malformed_bytes() {
    assert!(PipelineCache::deserialize(&vec![]).is_none());
    assert!(PipelineCache::deserialize(&vec![1, 0, 0]).is_none(), "short of a count");
    assert!(
        PipelineCache::deserialize(&vec![1, 0, 0, 0, 9, 9]).is_none(),
        "count promises more entries than the bytes hold"
    );
    let empty = PipelineCache::new();
    let bytes = empty.serialize();
    assert_eq!(bytes, vec![0, 0, 0, 0]);
    assert_eq!(
        PipelineCache::deserialize(&bytes).expect("an empty cache round trips").entries.len(),
        0
    );
}

/// A restart from the serialized cache plans the same pipeline and hits
/// immediately: the cold compile is never repeated.
#[test]
fn restart_resumes_from_persisted_cache() {
    let blobs = vec![spirv_module(0), spirv_module(4)];
    let mut cache = PipelineCache::new();
    let (first, cold_hit) =
        create_pipeline(&mut cache, &blobs, 36, 126, extent()).expect("modules reflect");
    assert!(!cold_hit);
    let persisted = cache.serialize();

    let mut reloaded = PipelineCache::deserialize(&persisted).expect("the bytes round trip");
    let (second, warm_hit) =
        create_pipeline(&mut reloaded, &blobs, 36, 126, extent()).expect("modules reflect");
    assert!(warm_hit, "the reloaded cache already holds the configuration");
    assert_eq!(second, first, "the cache hands back the same pipeline");
}

fn encode_png(width: u32, height: u32, rgba: &[u8]) -> Vec<u8> {
    let mut bytes: Vec<u8> = Vec::new();
    {
        let mut encoder = png::Encoder::new(&mut bytes, width, height);
        encoder.set_color(png::ColorType::Rgba);
        encoder.set_depth(png::BitDepth::Eight);
        let mut writer = encoder.write_header().expect("header");
        writer.write_image_data(rgba).expect("image data");
    }
    bytes
}

fn test_engine(cache_bytes: Option<&Vec<u8>>) -> rendering::engine::Engine {
    let families = vec![QueueFamily { graphics: true, present: true }];
    let formats = vec![SurfaceFormat { format: 36, color_space: 0 }];
    let depths = vec![DepthCandidate { format: 126, linear_attach: false, optimal_attach: true }];
    let plan = SwapchainPlan {
        format: 36,
        extent: extent(),
        image_count: 3,
        sharing: SharingMode::Exclusive,
        present_mode: PresentMode::Fifo,
    };
    rendering::engine::Engine::new(
        &rendering::engine::GraphicsSettings {
            resolution_width: 800,
            resolution_height: 600,
            vsync: true,
        },
        &families,
        &formats,
        &depths,
        4,
        900,
        plan,
        vec![901, 902, 903],
        vec![904, 905, 906],
        cache_bytes,
    )
    .expect("engine construction")
}

/// Loading a material through the engine reflects the real shader blobs,
/// decodes the real texture bytes, and fills the cache; tearing the engine
/// down hands back cache bytes that a fresh engine resumes from, hitting on
/// the same material immediately.
#[test]
fn material_load_and_cache_survive_restart() {
    let blobs = vec![spirv_module(0), spirv_module(4)];
    let rgba: Vec<u8> = vec![255, 0, 0, 255, 0, 255, 0, 255, 0, 0, 255, 255, 9, 9, 9, 255];
    let texture_bytes = encode_png(2, 2, &rgba);

    let mut engine = test_engine(None);
    let (material, texture_plan, hit) =
        engine.load_material(&blobs, &texture_bytes).expect("shaders and texture load");
    assert!(!hit, "a fresh cache cannot hit");
    assert_eq!(material.id, 0);
    assert_eq!(material.desc.stages, vec![STAGE_VERTEX, STAGE_FRAGMENT]);
    assert_eq!(material.desc.key.color_format, 36);
    assert_eq!(material.desc.key.depth_format, 126);
    let texture = material.texture.expect("a loaded material carries its texture");
    assert_eq!((texture.width, texture.height), (2, 2));
    assert_eq!(texture_plan.staging_size, 16);
    assert_eq!(engine.pipeline_cache.entries.len(), 1);

    // A texture that fails to decode fails the load and changes nothing:
    // the cache keeps its entry (the pipeline was already planned), and no
    // material identity or allocation is spent.
    let outstanding = engine.allocator.outstanding;
    assert_eq!(
        engine.load_material(&blobs, &vec![1, 2, 3]).unwrap_err(),
        MaterialError::TextureDecodeFailed
    );
    assert_eq!(engine.pipeline_cache.entries.len(), 1);
    assert_eq!(engine.allocator.outstanding, outstanding);
    assert_eq!(engine.next_material_id, 1);

    engine.drop_material(material);
    let (_steps, cache_bytes) = engine.destroy().expect("all resources returned");

    let mut restarted = test_engine(Some(&cache_bytes));
    assert_eq!(restarted.pipeline_cache.entries.len(), 1, "the persisted cache is resumed");
    let (_m, _p, warm) =
        restarted.load_material(&blobs, &texture_bytes).expect("shaders and texture load");
    assert!(warm, "the restart compiles the same pipeline from the cache");
}

/// A decode failure on a never-planned configuration unwinds the cache
/// insert too: the engine is exactly as before the call.
#[test]
fn texture_decode_failure_leaves_engine_unchanged() {
    let blobs = vec![spirv_module(0), spirv_module(4)];
    let mut engine = test_engine(None);
    assert_eq!(
        engine.load_material(&blobs, &vec![0xde, 0xad]).unwrap_err(),
        MaterialError::TextureDecodeFailed
    );
    assert_eq!(engine.pipeline_cache.entries.len(), 0, "the fresh plan was unwound");
    assert_eq!(engine.next_material_id, 0);
    assert_eq!(engine.allocator.outstanding, 3, "only the engine's own allocations");
}
