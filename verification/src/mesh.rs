//! Mesh construction: the staging layout of an upload and the GPU buffers a
//! mesh ends up in. Vertex data arrives as raw 32-bit words — the engine only
//! copies it — and the plan says byte for byte what the driver must stage and
//! copy.

use vstd::prelude::*;

use crate::gpu_alloc::{
    Allocator, Buffer, BufferCreateInfo, USAGE_INDEX_BUFFER, USAGE_TRANSFER_DST,
    USAGE_TRANSFER_SRC, USAGE_VERTEX_BUFFER,
};

verus! {

/// Byte size of one vertex: a three-word position and a three-word normal.
pub const VERTEX_SIZE: u64 = 24;

/// Byte size of one index.
pub const INDEX_SIZE: u64 = 4;

/// Vertex attribute format `R32G32B32_SFLOAT`.
pub const FORMAT_R32G32B32_SFLOAT: u32 = 106;

/// Vertex input rate `VERTEX`: one attribute record per vertex.
pub const INPUT_RATE_VERTEX: u32 = 0;

/// One vertex, carried as the raw words of its position and normal. The
/// engine never computes with them; it stages them for the GPU unchanged.
#[derive(Debug, Clone, Copy, PartialEq, Eq)]
pub struct Vertex {
    pub position: [u32; 3],
    pub normal: [u32; 3],
}

/// How the vertex buffer is walked: one binding, `VERTEX_SIZE` bytes apart.
#[derive(Debug, Clone, Copy, PartialEq, Eq, Structural)]
pub struct VertexBinding {
    pub binding: u32,
    pub stride: u32,
    pub input_rate: u32,
}

/// One vertex attribute: where it sits in the record and its format.
#[derive(Debug, Clone, Copy, PartialEq, Eq, Structural)]
pub struct VertexAttribute {
    pub binding: u32,
    pub location: u32,
    pub format: u32,
    pub offset: u32,
}

impl Vertex {
    /// The vertex layout pipelines are built against: one 24-byte binding,
    /// the position at offset 0 and the normal at offset 12, both three
    /// 32-bit floats.
    pub fn get_vertex_description() -> (r: (Vec<VertexBinding>, Vec<VertexAttribute>))
        ensures
            r.0@ =~= seq![
                VertexBinding { binding: 0, stride: VERTEX_SIZE as u32, input_rate: INPUT_RATE_VERTEX },
            ],
            r.1@ =~= seq![
                VertexAttribute { binding: 0, location: 0, format: FORMAT_R32G32B32_SFLOAT, offset: 0 },
                VertexAttribute { binding: 0, location: 1, format: FORMAT_R32G32B32_SFLOAT, offset: 12 },
            ],
    {
        let mut bindings: Vec<VertexBinding> = Vec::new();
        bindings.push(
            VertexBinding { binding: 0, stride: VERTEX_SIZE as u32, input_rate: INPUT_RATE_VERTEX },
        );
        let mut attributes: Vec<VertexAttribute> = Vec::new();
        attributes.push(
            VertexAttribute { binding: 0, location: 0, format: FORMAT_R32G32B32_SFLOAT, offset: 0 },
        );
        attributes.push(
            VertexAttribute {
                binding: 0,
                location: 1,
                format: FORMAT_R32G32B32_SFLOAT,
                offset: 12,
            },
        );
        (bindings, attributes)
    }
}

/// One buffer-to-buffer copy region.
#[derive(Debug, Clone, Copy, PartialEq, Eq, Structural)]
pub struct CopyRegion {
    pub src_offset: u64,
    pub dst_offset: u64,
    pub size: u64,
}

/// What the driver must do to upload a mesh: fill one staging buffer with
/// the vertices followed by the indices, then copy each half into its own
/// device-local buffer.
#[derive(Debug, Clone, Copy, PartialEq, Eq, Structural)]
pub struct MeshUploadPlan {
    /// Byte size of the staging buffer: vertex bytes plus index bytes.
    pub staging_size: u64,
    /// Staging-to-vertex-buffer copy: the leading vertex bytes.
    pub vertex_copy: CopyRegion,
    /// Staging-to-index-buffer copy: the index bytes that follow.
    pub index_copy: CopyRegion,
}

/// Byte size of a mesh's vertex data.
pub open spec fn vertex_bytes(vertex_count: nat) -> int {
    vertex_count * (VERTEX_SIZE as int)
}

/// Byte size of a mesh's index data.
pub open spec fn index_bytes(index_count: nat) -> int {
    index_count * (INDEX_SIZE as int)
}

/// An immutable GPU mesh: its two device-local buffers and its counts.
#[derive(Debug, Clone, Copy, PartialEq, Eq, Structural)]
pub struct Mesh {
    pub vertex_buffer: Buffer,
    pub index_buffer: Buffer,
    pub vertex_count: usize,
    pub index_count: u32,
}

impl Mesh {
    /// The buffers are sized exactly for the counts, with the usages the
    /// copies and the draws need.
    pub open spec fn wf(&self) -> bool {
        &&& self.vertex_buffer.info.size == vertex_bytes(self.vertex_count as nat)
        &&& self.vertex_buffer.info.usage == USAGE_TRANSFER_DST | USAGE_VERTEX_BUFFER
        &&& !self.vertex_buffer.info.cpu_visible
        &&& self.index_buffer.info.size == index_bytes(self.index_count as nat)
        &&& self.index_buffer.info.usage == USAGE_TRANSFER_DST | USAGE_INDEX_BUFFER
        &&& !self.index_buffer.info.cpu_visible
    }

    /// Builds a mesh: issues its vertex and index buffers from the allocator
    /// and plans the staged upload. The staging buffer itself lives only for
    /// the upload, so the mesh leaves exactly two allocations outstanding.
    pub fn new(vertices: &Vec<Vertex>, indices: &Vec<u32>, allocator: &mut Allocator) -> (r: (
        Mesh,
        MeshUploadPlan,
    ))
        requires
            old(allocator).can_allocate(3),
            vertices@.len() * VERTEX_SIZE + indices@.len() * INDEX_SIZE <= u64::MAX,
            indices@.len() <= u32::MAX,
        ensures
            ({
                let (m, plan) = r;
                let vb = vertex_bytes(vertices@.len());
                let ib = index_bytes(indices@.len());
                &&& m.wf()
                &&& m.vertex_count == vertices@.len()
                &&& m.index_count == indices@.len()
                &&& plan.staging_size == vb + ib
                &&& plan.vertex_copy == (CopyRegion { src_offset: 0, dst_offset: 0, size: vb as u64 })
                &&& plan.index_copy == (CopyRegion {
                    src_offset: vb as u64,
                    dst_offset: 0,
                    size: ib as u64,
                })
                &&& final(allocator).outstanding == old(allocator).outstanding + 2
                &&& final(allocator).next_id == old(allocator).next_id + 3
            }),
    {
        let vertex_size: u64 = (vertices.len() as u64) * VERTEX_SIZE;
        let index_size: u64 = (indices.len() as u64) * INDEX_SIZE;

        let staging = allocator.create_buffer(
            BufferCreateInfo {
                size: vertex_size + index_size,
                usage: USAGE_TRANSFER_SRC,
                cpu_visible: true,
            },
        );
        let vertex_buffer = allocator.create_buffer(
            BufferCreateInfo {
                size: vertex_size,
                usage: USAGE_TRANSFER_DST | USAGE_VERTEX_BUFFER,
                cpu_visible: false,
            },
        );
        let index_buffer = allocator.create_buffer(
            BufferCreateInfo {
                size: index_size,
                usage: USAGE_TRANSFER_DST | USAGE_INDEX_BUFFER,
                cpu_visible: false,
            },
        );
        let plan = MeshUploadPlan {
            staging_size: vertex_size + index_size,
            vertex_copy: CopyRegion { src_offset: 0, dst_offset: 0, size: vertex_size },
            index_copy: CopyRegion { src_offset: vertex_size, dst_offset: 0, size: index_size },
        };
        allocator.destroy_buffer(staging);
        let mesh = Mesh {
            vertex_buffer,
            index_buffer,
            vertex_count: vertices.len(),
            index_count: indices.len() as u32,
        };
        (mesh, plan)
    }

    /// How many indices a draw of this mesh covers.
    pub fn get_index_count(&self) -> (n: u32)
        ensures
            n == self.index_count,
    {
        self.index_count
    }
}

} // verus!
