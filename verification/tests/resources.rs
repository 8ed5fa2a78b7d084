//! Resource building — meshes, textures, the mapped globals — and the
//! engine's teardown order.

use rendering::engine::{
    DestroyStep, Engine, GraphicsSettings, TeardownError, FRAMES_IN_FLIGHT,
};
use rendering::gpu_alloc::{
    Allocator, Buffer, BufferCreateInfo, GpuObject, Mat4, Ubo, UBO_SIZE, USAGE_INDEX_BUFFER,
    USAGE_TRANSFER_DST, USAGE_TRANSFER_SRC, USAGE_UNIFORM_BUFFER, USAGE_VERTEX_BUFFER,
};
use rendering::init::{DepthCandidate, QueueFamily, SurfaceFormat};
use rendering::mesh::{Mesh, Vertex, INDEX_SIZE, VERTEX_SIZE};
use rendering::swapchain::{Extent2D, PresentMode, SharingMode, SwapchainPlan};
use rendering::texture::{ImageLayout, ResourceError, Texture, FORMAT_R8G8B8A8_SRGB};

fn vertex() -> Vertex {
    Vertex { position: [0, 0, 0], normal: [0, 0, 0x3f800000] }
}

#[test]
fn mesh_upload_plan_is_exact() {
    let mut allocator = Allocator::new();
    let vertices = vec![vertex(); 24];
    let indices: Vec<u32> = (0..36u32).collect();
    let (mesh, plan) = Mesh::new(&vertices, &indices, &mut allocator);
    assert_eq!(VERTEX_SIZE, 24);
    assert_eq!(INDEX_SIZE, 4);
    assert_eq!(plan.staging_size, 24 * 24 + 36 * 4);
    assert_eq!(plan.vertex_copy.src_offset, 0);
    assert_eq!(plan.vertex_copy.dst_offset, 0);
    assert_eq!(plan.vertex_copy.size, 24 * 24);
    assert_eq!(plan.index_copy.src_offset, 24 * 24);
    assert_eq!(plan.index_copy.dst_offset, 0);
    assert_eq!(plan.index_copy.size, 36 * 4);
    assert_eq!(mesh.get_index_count(), 36);
    assert_eq!(mesh.vertex_count, 24);
    assert_eq!(mesh.vertex_buffer.info.size, 24 * 24);
    assert_eq!(mesh.vertex_buffer.info.usage, USAGE_TRANSFER_DST | USAGE_VERTEX_BUFFER);
    assert_eq!(mesh.index_buffer.info.size, 36 * 4);
    assert_eq!(mesh.index_buffer.info.usage, USAGE_TRANSFER_DST | USAGE_INDEX_BUFFER);
    // The staging buffer is gone; the mesh's two buffers remain.
    assert_eq!(allocator.outstanding, 2);
}

#[test]
fn vertex_description_matches_the_layout() {
    let (bindings, attributes) = Vertex::get_vertex_description();
    assert_eq!(bindings.len(), 1);
    assert_eq!(bindings[0].binding, 0);
    assert_eq!(bindings[0].stride, 24);
    assert_eq!(attributes.len(), 2);
    assert_eq!(attributes[0].location, 0);
    assert_eq!(attributes[0].offset, 0);
    assert_eq!(attributes[1].location, 1);
    assert_eq!(attributes[1].offset, 12);
    assert_eq!(attributes[0].format, 106);
    assert_eq!(attributes[1].format, 106);
}

#[test]
fn buffers_and_mapped_globals_count_against_the_allocator() {
    let mut allocator = Allocator::new();
    let info = BufferCreateInfo { size: 64, usage: USAGE_TRANSFER_SRC, cpu_visible: true };
    let buffer = Buffer::new(info, &mut allocator);
    assert_eq!(buffer.get_info(), info);
    assert_eq!(allocator.outstanding, 1);
    let mut ubo = GpuObject::new(USAGE_UNIFORM_BUFFER, &mut allocator);
    assert_eq!(allocator.outstanding, 2);
    assert_eq!(ubo.buffer.info.size, UBO_SIZE);
    assert!(ubo.buffer.info.cpu_visible);
    let value = Ubo {
        view: Mat4 { words: [7u32; 16] },
        projection: Mat4 { words: [8u32; 16] },
        orthographic: Mat4 { words: [9u32; 16] },
    };
    ubo.write(value);
    assert_eq!(ubo.data, value);
    allocator.destroy_buffer(buffer);
    assert_eq!(allocator.outstanding, 1);
}

fn encode_png(width: u32, height: u32, rgba: &[u8]) -> Vec<u8> {
    let mut bytes: Vec<u8> = Vec::new();
    {
        let mut encoder = png::Encoder::new(&mut bytes, width, height);
        encoder.set_color(png::ColorType::Rgba);
        encoder.set_depth(png::BitDepth::Eight);
        let mut writer = encoder.write_header().expect("header");
        writer.write_image_data(rgba).expect("image data");
    }
    bytes
}

/// A real PNG round trip through the decoder: the texture reports the
/// encoded size and the staging buffer holds exactly the decoded pixels.
#[test]
fn texture_decodes_real_png_bytes() {
    let rgba: Vec<u8> = vec![
        255, 0, 0, 255, 0, 255, 0, 255, //
        0, 0, 255, 255, 255, 255, 255, 255,
    ];
    let bytes = encode_png(2, 2, &rgba);
    let mut allocator = Allocator::new();
    let (texture, plan) = Texture::new(&bytes, &mut allocator).expect("a valid PNG decodes");
    assert_eq!(texture.width, 2);
    assert_eq!(texture.height, 2);
    assert_eq!(texture.image.format, FORMAT_R8G8B8A8_SRGB);
    assert_eq!(plan.staging_size, 16, "2x2 RGBA8 pixels");
    assert_eq!(plan.width, 2);
    assert_eq!(plan.height, 2);
    assert_eq!(plan.to_transfer.from, ImageLayout::Undefined);
    assert_eq!(plan.to_transfer.to, ImageLayout::TransferDstOptimal);
    assert_eq!(plan.to_shader.from, ImageLayout::TransferDstOptimal);
    assert_eq!(plan.to_shader.to, ImageLayout::ShaderReadOnlyOptimal);
    // The staging buffer is gone; the image remains.
    assert_eq!(allocator.outstanding, 1);
}

#[test]
fn texture_rejects_undecodable_bytes() {
    let mut allocator = Allocator::new();
    let junk = vec![1u8, 2, 3, 4, 5, 6, 7, 8];
    assert_eq!(Texture::new(&junk, &mut allocator), Err(ResourceError::DecodeFailed));
    assert_eq!(allocator.outstanding, 0, "a failed decode allocates nothing");
}

fn test_engine() -> Engine {
    let families = vec![QueueFamily { graphics: true, present: true }];
    let formats = vec![SurfaceFormat { format: 36, color_space: 0 }];
    let depths = vec![DepthCandidate { format: 126, linear_attach: false, optimal_attach: true }];
    let plan = SwapchainPlan {
        format: 36,
        extent: Extent2D { width: 800, height: 600 },
        image_count: 3,
        sharing: SharingMode::Exclusive,
        present_mode: PresentMode::Fifo,
    };
    Engine::new(
        &GraphicsSettings { resolution_width: 800, resolution_height: 600, vsync: true },
        &families,
        &formats,
        &depths,
        4,
        900,
        plan,
        vec![901, 902, 903],
        vec![904, 905, 906],
        None,
    )
    .expect("engine construction")
}

/// Tearing the engine down destroys the allocator exactly once, after every
/// resource it backs and before only the cache save and the device-level
/// teardown.
#[test]
fn teardown_destroys_allocator_last() {
    let engine = test_engine();
    let (steps, cache_bytes) = engine.destroy().expect("nothing outstanding");
    let allocator_at = steps
        .iter()
        .position(|s| *s == DestroyStep::DestroyAllocator)
        .expect("the allocator is destroyed");
    assert_eq!(
        steps.iter().filter(|s| **s == DestroyStep::DestroyAllocator).count(),
        1,
        "the allocator is destroyed exactly once"
    );
    for (i, step) in steps.iter().enumerate() {
        let frees = matches!(
            step,
            DestroyStep::DestroyUtilityPool
                | DestroyStep::DestroyFramePools
                | DestroyStep::DestroyFrameSemaphores
                | DestroyStep::DestroyFrameFences
                | DestroyStep::FreeFrameUniformBuffers
                | DestroyStep::FreeDepthImage
                | DestroyStep::DestroyDepthView
                | DestroyStep::DestroyDescriptorPool
                | DestroyStep::DestroyDescriptorLayout
                | DestroyStep::DestroySwapchainViews
                | DestroyStep::DestroySwapchain
        );
        if frees {
            assert!(i < allocator_at, "every resource is freed before the allocator");
        }
    }
    assert_eq!(steps.first(), Some(&DestroyStep::WaitDeviceIdle));
    assert_eq!(steps.last(), Some(&DestroyStep::DestroyInstance));
    assert_eq!(cache_bytes, vec![0, 0, 0, 0], "an empty cache persists as a zero count");
}

/// A mesh the caller still holds blocks teardown — the fatal leak the
/// engine refuses — and returning it first makes teardown succeed.
#[test]
fn teardown_refuses_live_resources() {
    let mut engine = test_engine();
    assert_eq!(engine.allocator.outstanding, 3, "two frame globals and the depth image");
    let vertices = vec![vertex(); 24];
    let indices: Vec<u32> = (0..36u32).collect();
    let (mesh, _plan) = engine.load_model(&vertices, &indices);

    let engine = match engine.destroy() {
        Err(TeardownError::AllocatorInUse) => {
            // The engine was consumed; rebuild the same situation to drop
            // the mesh properly.
            let mut engine = test_engine();
            let (mesh, _plan) = engine.load_model(&vertices, &indices);
            engine.drop_mesh(mesh);
            engine
        }
        Ok(_) => panic!("a live mesh must block teardown"),
    };
    let _ = mesh;
    assert!(engine.destroy().is_ok(), "with the mesh returned, teardown succeeds");
}

#[test]
fn frames_in_flight_is_two() {
    assert_eq!(FRAMES_IN_FLIGHT, 2);
    let engine = test_engine();
    assert_eq!(engine.frames.len(), 2);
    assert_eq!(engine.num_workers, 2, "four logical cores give two workers");
    for frame in &engine.frames {
        assert_eq!(frame.secondary_buffers.len(), 2);
        assert_eq!(frame.secondary_pools.len(), 2);
        assert!(!frame.gpu_busy);
        assert!(!frame.stale);
    }
}
