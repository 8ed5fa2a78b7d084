//! Device-memory bookkeeping: the engine's allocator issues buffers and
//! images and counts what is outstanding, so that teardown can prove the
//! allocator is destroyed only after everything it backs.

use vstd::prelude::*;

verus! {

/// Buffer usage bit `TRANSFER_SRC`.
pub const USAGE_TRANSFER_SRC: u32 = 0x1;

/// Buffer usage bit `TRANSFER_DST`.
pub const USAGE_TRANSFER_DST: u32 = 0x2;

/// Buffer usage bit `UNIFORM_BUFFER`.
pub const USAGE_UNIFORM_BUFFER: u32 = 0x10;

/// Buffer usage bit `INDEX_BUFFER`.
pub const USAGE_INDEX_BUFFER: u32 = 0x40;

/// Buffer usage bit `VERTEX_BUFFER`.
pub const USAGE_VERTEX_BUFFER: u32 = 0x80;

/// What a buffer is created with.
#[derive(Debug, Clone, Copy, PartialEq, Eq, Structural)]
pub struct BufferCreateInfo {
    pub size: u64,
    pub usage: u32,
    /// The buffer is host-visible and persistently mapped.
    pub cpu_visible: bool,
}

/// A device-memory-backed buffer issued by the allocator.
#[derive(Debug, Clone, Copy, PartialEq, Eq, Structural)]
pub struct Buffer {
    /// Opaque handle distinguishing this allocation.
    pub id: u64,
    pub info: BufferCreateInfo,
}

/// A device-memory-backed image issued by the allocator.
#[derive(Debug, Clone, Copy, PartialEq, Eq, Structural)]
pub struct Image {
    /// Opaque handle distinguishing this allocation.
    pub id: u64,
    pub width: u32,
    pub height: u32,
    pub format: u32,
}

/// The allocator: issues buffers and images and tracks how many of its
/// allocations are still alive. It must be destroyed only once that count is
/// zero; destroying it earlier is a leak the engine treats as fatal.
#[derive(Debug, Clone, Copy, PartialEq, Eq, Structural)]
pub struct Allocator {
    /// Id the next allocation will get.
    pub next_id: u64,
    /// Number of live allocations.
    pub outstanding: u64,
}

impl Allocator {
    /// Room for `n` more allocations, a machine limit on ids and the count.
    pub open spec fn can_allocate(&self, n: u64) -> bool {
        &&& self.next_id + n <= u64::MAX
        &&& self.outstanding + n <= u64::MAX
    }

    /// A fresh allocator with nothing outstanding.
    pub fn new() -> (a: Self)
        ensures
            a.outstanding == 0,
            a.next_id == 0,
    {
        Allocator { next_id: 0, outstanding: 0 }
    }

    /// Issues a buffer; one more allocation is outstanding.
    pub fn create_buffer(&mut self, info: BufferCreateInfo) -> (b: Buffer)
        requires
            old(self).can_allocate(1),
        ensures
            b.id == old(self).next_id,
            b.info == info,
            final(self).next_id == old(self).next_id + 1,
            final(self).outstanding == old(self).outstanding + 1,
    {
        let id = self.next_id;
        self.next_id = self.next_id + 1;
        self.outstanding = self.outstanding + 1;
        Buffer { id, info }
    }

    /// Issues an image; one more allocation is outstanding.
    pub fn create_image(&mut self, width: u32, height: u32, format: u32) -> (img: Image)
        requires
            old(self).can_allocate(1),
        ensures
            img.id == old(self).next_id,
            img.width == width,
            img.height == height,
            img.format == format,
            final(self).next_id == old(self).next_id + 1,
            final(self).outstanding == old(self).outstanding + 1,
    {
        let id = self.next_id;
        self.next_id = self.next_id + 1;
        self.outstanding = self.outstanding + 1;
        Image { id, width, height, format }
    }

    /// Returns a buffer's memory; one fewer allocation is outstanding.
    pub fn destroy_buffer(&mut self, b: Buffer)
        requires
            old(self).outstanding >= 1,
        ensures
            final(self).outstanding == old(self).outstanding - 1,
            final(self).next_id == old(self).next_id,
    {
        self.outstanding = self.outstanding - 1;
    }

    /// Returns an image's memory; one fewer allocation is outstanding.
    pub fn destroy_image(&mut self, img: Image)
        requires
            old(self).outstanding >= 1,
        ensures
            final(self).outstanding == old(self).outstanding - 1,
            final(self).next_id == old(self).next_id,
    {
        self.outstanding = self.outstanding - 1;
    }
}

impl Buffer {
    /// What the buffer was created with.
    pub fn get_info(&self) -> (info: BufferCreateInfo)
        ensures
            info == self.info,
    {
        self.info
    }

    /// Creates a buffer through the allocator.
    pub fn new(info: BufferCreateInfo, allocator: &mut Allocator) -> (b: Buffer)
        requires
            old(allocator).can_allocate(1),
        ensures
            b.id == old(allocator).next_id,
            b.info == info,
            final(allocator).next_id == old(allocator).next_id + 1,
            final(allocator).outstanding == old(allocator).outstanding + 1,
    {
        allocator.create_buffer(info)
    }
}

/// A 4x4 matrix carried as its sixteen 32-bit words, column by column. The
/// engine never computes with matrices, it only copies them into mapped
/// buffers, so the words are all it needs.
#[derive(Debug, Clone, Copy, PartialEq, Eq)]
pub struct Mat4 {
    pub words: [u32; 16],
}

/// Per-frame shader globals: the camera's view, perspective projection and
/// orthographic projection.
#[derive(Debug, Clone, Copy, PartialEq, Eq)]
pub struct Ubo {
    pub view: Mat4,
    pub projection: Mat4,
    pub orthographic: Mat4,
}

/// Byte size of the per-frame globals: three 64-byte matrices.
pub const UBO_SIZE: u64 = 192;

/// The all-zero matrix a fresh mapping shows.
pub open spec fn mat4_zero() -> Mat4 {
    Mat4 { words: [0u32, 0, 0, 0, 0, 0, 0, 0, 0, 0, 0, 0, 0, 0, 0, 0] }
}

/// The all-zero globals a fresh mapping shows.
pub open spec fn ubo_zero() -> Ubo {
    Ubo { view: mat4_zero(), projection: mat4_zero(), orthographic: mat4_zero() }
}

/// A persistently host-mapped, device-visible buffer holding the per-frame
/// globals. Writes go straight through the mapping: coherent memory needs no
/// flush, and the owning frame's fence guarantees the GPU is not reading.
#[derive(Debug, Clone, Copy, PartialEq, Eq)]
pub struct GpuObject {
    pub buffer: Buffer,
    /// The value currently visible through the mapping.
    pub data: Ubo,
}

impl GpuObject {
    /// Creates the mapped buffer, sized for the globals, with the given
    /// usage; the mapping starts zeroed.
    pub fn new(usage: u32, allocator: &mut Allocator) -> (g: GpuObject)
        requires
            old(allocator).can_allocate(1),
        ensures
            g.buffer.info == (BufferCreateInfo { size: UBO_SIZE, usage, cpu_visible: true }),
            g.buffer.id == old(allocator).next_id,
            g.data == ubo_zero(),
            final(allocator).next_id == old(allocator).next_id + 1,
            final(allocator).outstanding == old(allocator).outstanding + 1,
    {
        let info = BufferCreateInfo { size: UBO_SIZE, usage, cpu_visible: true };
        let buffer = allocator.create_buffer(info);
        let zero = Mat4 { words: [0u32, 0, 0, 0, 0, 0, 0, 0, 0, 0, 0, 0, 0, 0, 0, 0] };
        GpuObject { buffer, data: Ubo { view: zero, projection: zero, orthographic: zero } }
    }

    /// Writes the globals through the mapping.
    pub fn write(&mut self, data: Ubo)
        ensures
            final(self).data == data,
            final(self).buffer == old(self).buffer,
    {
        self.data = data;
    }
}

} // verus!
