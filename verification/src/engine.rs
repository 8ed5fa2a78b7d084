//! The render engine orchestrator: the per-frame begin / render / end
//! protocol over a fixed ring of frame slots, the round-robin distribution of
//! draws to workers, swapchain recreation on staleness, lazy resource
//! loading, and the teardown order.
//!
//! The engine is the decision core: the driver around it performs the GPU
//! calls an outcome at a time (fence waits, image acquisition, submission)
//! and hands the outcomes back as plain values. Ghost logs track the
//! messages sent to each worker, so the frame protocol is proved, not
//! assumed.

use vstd::prelude::*;

use crate::gpu_alloc::{
    Allocator, GpuObject, Image, Mat4, Ubo, USAGE_UNIFORM_BUFFER,
};
use crate::init::{
    select_depth_format, select_queue_families, select_surface_format, worker_thread_count,
    DepthCandidate, InitError, QueueFamily, SurfaceFormat, Tiling,
};
use crate::material::{Material, MaterialError};
use crate::mesh::{Mesh, MeshUploadPlan, Vertex, INDEX_SIZE, VERTEX_SIZE};
use crate::pipeline::{create_pipeline, PipelineCache, PipelineError};
use crate::swapchain::{Swapchain, SwapchainPlan};
use crate::texture::{ImageLayout, LayoutTransition, Texture, TextureUploadPlan};
use crate::worker::{MaterialRef, MeshRef};

verus! {

/// Number of frame slots: recording of one frame overlaps GPU execution of
/// the previous one.
pub const FRAMES_IN_FLIGHT: usize = 2;

/// The camera, as the raw words of its view, perspective projection and
/// orthographic projection, ready for the mapped uniform buffer.
#[derive(Debug, Clone, Copy, PartialEq, Eq)]
pub struct Camera {
    pub view: Mat4,
    pub projection: Mat4,
    pub orthographic: Mat4,
}

/// Resolution and presentation settings the engine is created with.
#[derive(Debug, Clone, Copy, PartialEq, Eq, Structural)]
pub struct GraphicsSettings {
    pub resolution_width: u32,
    pub resolution_height: u32,
    pub vsync: bool,
}

impl Default for GraphicsSettings {
    /// 800 by 600 with vertical sync, for a first run with no configuration.
    fn default() -> (s: Self)
        ensures
            s == (GraphicsSettings { resolution_width: 800, resolution_height: 600, vsync: true }),
    {
        GraphicsSettings { resolution_width: 800, resolution_height: 600, vsync: true }
    }
}

/// One message to a render worker.
#[derive(Debug, Clone, Copy, PartialEq, Eq)]
pub enum RenderCommand {
    /// Open the frame: the worker's secondary buffer, the camera, the global
    /// descriptor set and the attachment formats.
    Begin {
        secondary_buffer: u64,
        view: Mat4,
        projection: Mat4,
        descriptor_set: u64,
        color_format: u32,
        depth_format: u32,
    },
    /// Record one draw.
    Render { mesh: MeshRef, material: MaterialRef, transform: Mat4 },
    /// Close the secondary buffer and rendezvous on the barrier.
    End,
}

/// The kind of a worker message, for the ghost per-frame logs.
#[derive(Debug, Clone, Copy, PartialEq, Eq, Structural)]
pub enum CommandKind {
    BeginCmd,
    RenderCmd,
    EndCmd,
}

/// One message to the presentation thread: everything a submit and present
/// of the finished frame needs.
#[derive(Debug, Clone, Copy, PartialEq, Eq, Structural)]
pub struct PresentData {
    /// Signalled by the submit, waited on by the present.
    pub render_semaphore: u64,
    /// Signalled by the acquire, waited on by the submit.
    pub present_semaphore: u64,
    /// The primary command buffer to submit.
    pub cmd: u64,
    pub swapchain: u64,
    pub image_index: usize,
    /// Signalled when the GPU finishes the frame; `complete_slot` reports it.
    pub signal_fence: u64,
    /// The frame slot this frame used.
    pub slot: usize,
}

/// One frame slot's resources and its in-flight state.
#[derive(Debug, Clone, PartialEq, Eq)]
pub struct Frame {
    pub primary_buffer: u64,
    pub primary_pool: u64,
    /// One secondary buffer per worker.
    pub secondary_buffers: Vec<u64>,
    pub secondary_pools: Vec<u64>,
    pub fence: u64,
    pub graphics_semaphore: u64,
    pub present_semaphore: u64,
    /// The mapped per-frame globals.
    pub ubo: GpuObject,
    pub global_descriptor: u64,
    /// The slot's last submission has not yet been observed complete.
    pub gpu_busy: bool,
    /// The slot's last presentation reported the swapchain stale.
    pub stale: bool,
}

/// Where the orchestrator stands in the frame protocol.
#[derive(Debug, Clone, Copy, PartialEq, Eq, Structural)]
pub enum Phase {
    /// Between frames.
    Idle,
    /// Between `begin_rendering` and `end_rendering`.
    Recording,
}

/// What image acquisition reported.
#[derive(Debug, Clone, Copy, PartialEq, Eq, Structural)]
pub enum AcquireOutcome {
    /// The driver handed out this image index.
    Acquired(usize),
    /// The swapchain is out of date or suboptimal.
    Stale,
}

/// What `begin_rendering` decided.
#[derive(Debug, Clone, PartialEq, Eq)]
pub enum BeginOutcome {
    /// The swapchain must be rebuilt; call `install_swapchain`, then begin
    /// again.
    RebuildNeeded,
    /// The frame is open; send the i-th message to the i-th worker.
    Begun(Vec<RenderCommand>),
}

/// A worker's log while a frame is being recorded: its Begin, then only
/// Renders.
pub open spec fn recording_log(log: Seq<CommandKind>) -> bool {
    &&& log.len() >= 1
    &&& log[0] == CommandKind::BeginCmd
    &&& forall|j: int| 1 <= j < log.len() ==> log[j] == CommandKind::RenderCmd
}

/// A worker's log of a finished frame: exactly one Begin, any number of
/// Renders, exactly one End, in that order.
pub open spec fn completed_log(log: Seq<CommandKind>) -> bool {
    &&& log.len() >= 2
    &&& log[0] == CommandKind::BeginCmd
    &&& log[log.len() - 1] == CommandKind::EndCmd
    &&& forall|j: int| 1 <= j < log.len() - 1 ==> log[j] == CommandKind::RenderCmd
}

/// Whether a draw's identity differs from the one the orchestrator saw last,
/// which advances the round robin.
pub open spec fn rotates(
    last_mesh: Option<u64>,
    last_material: Option<u64>,
    mesh_id: u64,
    material_id: u64,
) -> bool {
    !(last_mesh == Some(mesh_id) && last_material == Some(material_id))
}

/// The worker a draw goes to.
pub open spec fn next_worker(current: int, rotate: bool, workers: int) -> int {
    if rotate {
        (current + 1) % workers
    } else {
        current
    }
}

/// GPU allocations the engine itself owns: one uniform buffer per frame slot
/// and the depth image.
pub open spec fn engine_allocations() -> int {
    FRAMES_IN_FLIGHT + 1
}

/// The render engine.
pub struct Engine {
    /// Frames finished so far; selects the slot as `frame_count mod
    /// FRAMES_IN_FLIGHT`.
    pub frame_count: u64,
    pub phase: Phase,
    pub frames: Vec<Frame>,
    pub num_workers: usize,
    pub swapchain: Swapchain,
    pub surface_format: u32,
    pub depth_format: u32,
    pub depth_image: Image,
    pub depth_view: u64,
    pub allocator: Allocator,
    pub pipeline_cache: PipelineCache,
    /// Requested resolution; applied at the next swapchain rebuild.
    pub resolution_width: u32,
    pub resolution_height: u32,
    pub vsync: bool,
    /// Identity of the mesh of the last draw the orchestrator saw.
    pub last_mesh: Option<u64>,
    /// Identity of the material of the last draw the orchestrator saw.
    pub last_material: Option<u64>,
    /// The worker draws currently go to.
    pub current_thread: usize,
    pub utility_pool: u64,
    pub global_descriptor_layout: u64,
    pub descriptor_pool: u64,
    /// Source of fresh opaque handles.
    pub next_handle: u64,
    /// Source of fresh material identities.
    pub next_material_id: u64,
    /// Ghost log of the messages sent to each worker for the frame being
    /// recorded, or for the last finished frame while idle.
    pub frame_log: Ghost<Seq<Seq<CommandKind>>>,
}

impl Engine {
    /// The slot the next (or current) frame uses.
    pub open spec fn cur_slot(&self) -> int {
        self.frame_count as int % FRAMES_IN_FLIGHT as int
    }

    /// The engine's structural invariant. While a frame is being recorded,
    /// its slot's previous use has been observed complete — the frame-fence
    /// invariant — and every worker's log is a Begin followed by Renders.
    pub open spec fn wf(&self) -> bool {
        &&& self.frames@.len() == FRAMES_IN_FLIGHT
        &&& self.num_workers >= 1
        &&& forall|s: int|
            0 <= s < self.frames@.len() ==> (#[trigger] self.frames@[s]).secondary_buffers@.len()
                == self.num_workers
        &&& forall|s: int|
            0 <= s < self.frames@.len() ==> (#[trigger] self.frames@[s]).secondary_pools@.len()
                == self.num_workers
        &&& self.swapchain.wf()
        &&& self.current_thread < self.num_workers
        &&& self.frame_log@.len() == self.num_workers
        &&& self.allocator.outstanding >= engine_allocations()
        &&& self.phase == Phase::Recording ==> {
            &&& !self.frames@[self.cur_slot()].gpu_busy
            &&& forall|w: int|
                0 <= w < self.num_workers ==> recording_log(#[trigger] self.frame_log@[w])
        }
    }

    /// The slot index as the driver selects it.
    pub fn current_slot(&self) -> (s: usize)
        ensures
            s == self.cur_slot(),
    {
        (self.frame_count % (FRAMES_IN_FLIGHT as u64)) as usize
    }

    /// Whether the current slot's previous use is still in flight; the
    /// driver must wait on its fence and report `complete_slot` first.
    pub fn slot_busy(&self) -> (b: bool)
        requires
            self.wf(),
        ensures
            b == self.frames@[self.cur_slot()].gpu_busy,
    {
        let s = self.current_slot();
        self.frames[s].gpu_busy
    }

    /// Reports that the GPU finished a slot's frame: its fence signalled and
    /// the presentation thread recorded whether the present found the
    /// swapchain stale. This is the only way a slot stops being busy.
    pub fn complete_slot(&mut self, slot: usize, stale: bool)
        requires
            old(self).wf(),
            slot < old(self).frames@.len(),
            old(self).frames@[slot as int].gpu_busy,
        ensures
            final(self).wf(),
            final(self).frames@ == old(self).frames@.update(
                slot as int,
                Frame { gpu_busy: false, stale, ..old(self).frames@[slot as int] },
            ),
            *final(self) == (Engine { frames: final(self).frames, ..*old(self) }),
    {
        let f = &mut self.frames[slot];
        f.gpu_busy = false;
        f.stale = stale;
        proof {
            assert(final(self).frames@ =~= old(self).frames@.update(
                slot as int,
                Frame { gpu_busy: false, stale, ..old(self).frames@[slot as int] },
            ));
        }
    }

    /// Whether the last presentation of the current slot reported staleness,
    /// in which case the swapchain must be rebuilt before the next frame.
    pub fn needs_rebuild(&self) -> (b: bool)
        requires
            self.wf(),
        ensures
            b == self.frames@[self.cur_slot()].stale,
    {
        let s = self.current_slot();
        self.frames[s].stale
    }

    /// Opens a frame. The slot's previous use must have been observed
    /// complete (the fence wait happened): recording never overlaps the
    /// GPU's use of the same slot. When the slot's last present or this
    /// acquire reported staleness, no frame is opened: the staleness is
    /// consumed and the caller must rebuild the swapchain and begin again.
    /// Otherwise the camera is written to the slot's mapped globals and
    /// every worker is handed exactly one Begin message.
    pub fn begin_rendering(&mut self, camera: &Camera, acquire: AcquireOutcome) -> (r:
        BeginOutcome)
        requires
            old(self).wf(),
            old(self).phase == Phase::Idle,
            !old(self).frames@[old(self).cur_slot()].gpu_busy,
            acquire matches AcquireOutcome::Acquired(i) ==> i < old(
                self,
            ).swapchain.images@.len(),
        ensures
            final(self).wf(),
            ({
                let slot = old(self).cur_slot();
                let stale = old(self).frames@[slot].stale || acquire == AcquireOutcome::Stale;
                if stale {
                    &&& r == BeginOutcome::RebuildNeeded
                    &&& final(self).phase == Phase::Idle
                    &&& final(self).frames@ == old(self).frames@.update(
                        slot,
                        Frame { stale: false, ..old(self).frames@[slot] },
                    )
                    &&& *final(self) == (Engine { frames: final(self).frames, ..*old(self) })
                } else {
                    let index = acquire->Acquired_0;
                    let frame = old(self).frames@[slot];
                    let ubo = Ubo {
                        view: camera.view,
                        projection: camera.projection,
                        orthographic: camera.orthographic,
                    };
                    &&& r matches BeginOutcome::Begun(cmds)
                    &&& cmds@.len() == old(self).num_workers
                    &&& forall|w: int|
                        0 <= w < cmds@.len() ==> cmds@[w] == (RenderCommand::Begin {
                            secondary_buffer: frame.secondary_buffers@[w],
                            view: camera.view,
                            projection: camera.projection,
                            descriptor_set: frame.global_descriptor,
                            color_format: old(self).surface_format,
                            depth_format: old(self).depth_format,
                        })
                    &&& final(self).phase == Phase::Recording
                    &&& final(self).swapchain.current_image_index == index
                    &&& final(self).frames@ == old(self).frames@.update(
                        slot,
                        Frame { ubo: GpuObject { data: ubo, ..frame.ubo }, ..frame },
                    )
                    &&& final(self).frame_log@ == Seq::new(
                        old(self).num_workers as nat,
                        |w: int| seq![CommandKind::BeginCmd],
                    )
                    &&& final(self).frame_count == old(self).frame_count
                    &&& final(self).last_mesh == old(self).last_mesh
                    &&& final(self).last_material == old(self).last_material
                    &&& final(self).current_thread == old(self).current_thread
                    &&& final(self).allocator == old(self).allocator
                    &&& final(self).pipeline_cache == old(self).pipeline_cache
                    &&& final(self).swapchain.handle == old(self).swapchain.handle
                    &&& final(self).swapchain.plan == old(self).swapchain.plan
                    &&& final(self).swapchain.images == old(self).swapchain.images
                    &&& final(self).swapchain.views == old(self).swapchain.views
                }
            }),
    {
        let slot = self.current_slot();
        let stale_before = self.frames[slot].stale;
        let acquired_stale = match acquire {
            AcquireOutcome::Stale => true,
            AcquireOutcome::Acquired(_) => false,
        };
        if stale_before || acquired_stale {
            let f = &mut self.frames[slot];
            f.stale = false;
            proof {
                assert(final(self).frames@ =~= old(self).frames@.update(
                    old(self).cur_slot(),
                    Frame { stale: false, ..old(self).frames@[old(self).cur_slot()] },
                ));
            }
            return BeginOutcome::RebuildNeeded;
        }
        let index = match acquire {
            AcquireOutcome::Acquired(i) => i,
            AcquireOutcome::Stale => 0,
        };
        self.swapchain.next(index);
        let ubo = Ubo {
            view: camera.view,
            projection: camera.projection,
            orthographic: camera.orthographic,
        };
        let f = &mut self.frames[slot];
        f.ubo.write(ubo);
        let mut cmds: Vec<RenderCommand> = Vec::new();
        let frame = &self.frames[slot];
        let mut w: usize = 0;
        while w < self.num_workers
            invariant
                w <= self.num_workers,
                frame.secondary_buffers@.len() == self.num_workers,
                cmds@.len() == w,
                forall|k: int|
                    0 <= k < w ==> cmds@[k] == (RenderCommand::Begin {
                        secondary_buffer: frame.secondary_buffers@[k],
                        view: camera.view,
                        projection: camera.projection,
                        descriptor_set: frame.global_descriptor,
                        color_format: self.surface_format,
                        depth_format: self.depth_format,
                    }),
            decreases self.num_workers - w,
        {
            cmds.push(
                RenderCommand::Begin {
                    secondary_buffer: frame.secondary_buffers[w],
                    view: camera.view,
                    projection: camera.projection,
                    descriptor_set: frame.global_descriptor,
                    color_format: self.surface_format,
                    depth_format: self.depth_format,
                },
            );
            w = w + 1;
        }
        self.phase = Phase::Recording;
        self.frame_log = Ghost(
            Seq::new(self.num_workers as nat, |k: int| seq![CommandKind::BeginCmd]),
        );
        proof {
            assert(final(self).frames@ =~= old(self).frames@.update(
                old(self).cur_slot(),
                Frame {
                    ubo: GpuObject {
                        data: ubo,
                        ..old(self).frames@[old(self).cur_slot()].ubo
                    },
                    ..old(self).frames@[old(self).cur_slot()]
                },
            ));
        }
        BeginOutcome::Begun(cmds)
    }

    /// The layout transitions recorded at the top of each frame's primary
    /// buffer: the acquired color image and the depth image both move from
    /// undefined to their attachment layouts.
    pub fn pre_image_transition() -> (r: Vec<LayoutTransition>)
        ensures
            r@ =~= seq![
                LayoutTransition {
                    from: ImageLayout::Undefined,
                    to: ImageLayout::ColorAttachmentOptimal,
                },
                LayoutTransition {
                    from: ImageLayout::Undefined,
                    to: ImageLayout::DepthAttachmentOptimal,
                },
            ],
    {
        let mut r: Vec<LayoutTransition> = Vec::new();
        r.push(
            LayoutTransition { from: ImageLayout::Undefined, to: ImageLayout::ColorAttachmentOptimal },
        );
        r.push(
            LayoutTransition { from: ImageLayout::Undefined, to: ImageLayout::DepthAttachmentOptimal },
        );
        r
    }

    /// The transition recorded at the end of each frame's primary buffer:
    /// the color image moves from its attachment layout to the present
    /// layout.
    pub fn present_transition() -> (r: LayoutTransition)
        ensures
            r == (LayoutTransition {
                from: ImageLayout::ColorAttachmentOptimal,
                to: ImageLayout::PresentSrc,
            }),
    {
        LayoutTransition { from: ImageLayout::ColorAttachmentOptimal, to: ImageLayout::PresentSrc }
    }

    /// Distributes one draw: when the (mesh, material) identity differs from
    /// the previous draw's, the round robin advances to the next worker. The
    /// returned message goes to the returned worker's channel, preserving
    /// per-worker order.
    pub fn render(&mut self, mesh: &Mesh, mesh_id: u64, material: &Material, transform: &Mat4)
        -> (r: (usize, RenderCommand))
        requires
            old(self).wf(),
            old(self).phase == Phase::Recording,
        ensures
            final(self).wf(),
            ({
                let rot = rotates(old(self).last_mesh, old(self).last_material, mesh_id,
                    material.id);
                let w = next_worker(
                    old(self).current_thread as int,
                    rot,
                    old(self).num_workers as int,
                );
                &&& r.0 == w
                &&& r.1 == (RenderCommand::Render {
                    mesh: MeshRef {
                        id: mesh_id,
                        vertex_buffer: mesh.vertex_buffer.id,
                        index_buffer: mesh.index_buffer.id,
                        index_count: mesh.index_count,
                    },
                    material: MaterialRef { id: material.id },
                    transform: *transform,
                })
                &&& final(self).current_thread == w
                &&& final(self).last_mesh == Some(mesh_id)
                &&& final(self).last_material == Some(material.id)
                &&& final(self).frame_log@ == old(self).frame_log@.update(
                    w,
                    old(self).frame_log@[w].push(CommandKind::RenderCmd),
                )
                &&& final(self).phase == Phase::Recording
                &&& *final(self) == (Engine {
                    current_thread: final(self).current_thread,
                    last_mesh: final(self).last_mesh,
                    last_material: final(self).last_material,
                    frame_log: final(self).frame_log,
                    ..*old(self)
                })
            }),
    {
        let same = match (self.last_mesh, self.last_material) {
            (Some(m), Some(t)) => m == mesh_id && t == material.id,
            _ => false,
        };
        if !same {
            self.current_thread = (self.current_thread + 1) % self.num_workers;
        }
        self.last_mesh = Some(mesh_id);
        self.last_material = Some(material.id);
        let w = self.current_thread;
        let cmd = RenderCommand::Render {
            mesh: MeshRef {
                id: mesh_id,
                vertex_buffer: mesh.vertex_buffer.id,
                index_buffer: mesh.index_buffer.id,
                index_count: mesh.index_count,
            },
            material: MaterialRef { id: material.id },
            transform: *transform,
        };
        proof {
            let logs = self.frame_log@;
            let updated = logs.update(w as int, logs[w as int].push(CommandKind::RenderCmd));
            assert(recording_log(updated[w as int]));
        }
        self.frame_log = Ghost(
            self.frame_log@.update(
                w as int,
                self.frame_log@[w as int].push(CommandKind::RenderCmd),
            ),
        );
        (w, cmd)
    }

    /// Closes the frame: every worker is handed exactly one End message —
    /// completing each worker's Begin / Render* / End protocol for this
    /// frame — the presentation thread is handed the frame's submission, the
    /// slot becomes busy until its fence is observed, and the frame counter
    /// advances by exactly one.
    pub fn end_rendering(&mut self) -> (r: (Vec<RenderCommand>, PresentData))
        requires
            old(self).wf(),
            old(self).phase == Phase::Recording,
            old(self).frame_count < u64::MAX,
        ensures
            final(self).wf(),
            ({
                let slot = old(self).cur_slot();
                let frame = old(self).frames@[slot];
                &&& r.0@.len() == old(self).num_workers
                &&& forall|w: int| 0 <= w < r.0@.len() ==> r.0@[w] == RenderCommand::End
                &&& r.1 == (PresentData {
                    render_semaphore: frame.graphics_semaphore,
                    present_semaphore: frame.present_semaphore,
                    cmd: frame.primary_buffer,
                    swapchain: old(self).swapchain.handle,
                    image_index: old(self).swapchain.current_image_index,
                    signal_fence: frame.fence,
                    slot: slot as usize,
                })
                &&& final(self).frame_count == old(self).frame_count + 1
                &&& final(self).phase == Phase::Idle
                &&& final(self).frames@ == old(self).frames@.update(
                    slot,
                    Frame { gpu_busy: true, ..frame },
                )
                &&& final(self).frame_log@.len() == old(self).num_workers
                &&& forall|w: int|
                    0 <= w < final(self).frame_log@.len() ==> final(self).frame_log@[w] == old(
                        self,
                    ).frame_log@[w].push(CommandKind::EndCmd)
                &&& forall|w: int|
                    0 <= w < final(self).frame_log@.len() ==> completed_log(
                        #[trigger] final(self).frame_log@[w],
                    )
                &&& *final(self) == (Engine {
                    frame_count: final(self).frame_count,
                    phase: Phase::Idle,
                    frames: final(self).frames,
                    frame_log: final(self).frame_log,
                    ..*old(self)
                })
            }),
    {
        let slot = self.current_slot();
        let mut ends: Vec<RenderCommand> = Vec::new();
        let mut w: usize = 0;
        while w < self.num_workers
            invariant
                w <= self.num_workers,
                ends@.len() == w,
                forall|k: int| 0 <= k < w ==> ends@[k] == RenderCommand::End,
            decreases self.num_workers - w,
        {
            ends.push(RenderCommand::End);
            w = w + 1;
        }
        let frame = &self.frames[slot];
        let present = PresentData {
            render_semaphore: frame.graphics_semaphore,
            present_semaphore: frame.present_semaphore,
            cmd: frame.primary_buffer,
            swapchain: self.swapchain.handle,
            image_index: self.swapchain.current_image_index,
            signal_fence: frame.fence,
            slot,
        };
        let f = &mut self.frames[slot];
        f.gpu_busy = true;
        self.frame_count = self.frame_count + 1;
        self.phase = Phase::Idle;
        self.frame_log = Ghost(
            Seq::new(
                self.frame_log@.len(),
                |k: int| self.frame_log@[k].push(CommandKind::EndCmd),
            ),
        );
        proof {
            assert(final(self).frames@ =~= old(self).frames@.update(
                old(self).cur_slot(),
                Frame { gpu_busy: true, ..old(self).frames@[old(self).cur_slot()] },
            ));
            assert forall|k: int|
                0 <= k < final(self).frame_log@.len() implies completed_log(
                #[trigger] final(self).frame_log@[k],
            ) by {
                let log = old(self).frame_log@[k].push(CommandKind::EndCmd);
                assert(recording_log(old(self).frame_log@[k]));
                assert(log[log.len() - 1] == CommandKind::EndCmd);
            }
        }
        (ends, present)
    }

    /// Records the requested resolution; the swapchain itself is rebuilt
    /// only at the next `begin_rendering` that observes staleness, never
    /// mid-frame.
    pub fn resize(&mut self, width: u32, height: u32)
        requires
            old(self).wf(),
        ensures
            final(self).wf(),
            final(self).resolution_width == width,
            final(self).resolution_height == height,
            *final(self) == (Engine {
                resolution_width: width,
                resolution_height: height,
                ..*old(self)
            }),
    {
        self.resolution_width = width;
        self.resolution_height = height;
    }
}

/// The frame-fence invariant: while a frame is being recorded into a slot,
/// the slot's previous use has been observed complete, so two uses of one
/// slot never overlap in GPU-visible state. `end_rendering` marks the slot
/// busy and only `complete_slot` — the driver's fence observation — clears
/// it, and `begin_rendering` demands the cleared flag.
pub proof fn lemma_frame_fence_invariant(e: &Engine)
    requires
        e.wf(),
        e.phase == Phase::Recording,
    ensures
        !e.frames@[e.cur_slot()].gpu_busy,
{
}

/// Protocol completeness: the moment a frame is closed, every worker's log
/// for it is exactly one Begin, zero or more Renders, and one End, in that
/// order. The logs only ever grow through `begin_rendering` and `render`,
/// which keep them in the recording shape this lemma extends.
pub proof fn lemma_protocol_completeness(log: Seq<CommandKind>)
    requires
        recording_log(log),
    ensures
        completed_log(log.push(CommandKind::EndCmd)),
{
    let done = log.push(CommandKind::EndCmd);
    assert(done[done.len() - 1] == CommandKind::EndCmd);
}

/// The identities of one draw request, as the batching sees them.
#[derive(Debug, Clone, Copy, PartialEq, Eq, Structural)]
pub struct DrawKey {
    pub mesh: u64,
    pub material: u64,
}

/// The combined batching state of the orchestrator and the workers during
/// one frame: the round-robin position, the identities the orchestrator last
/// saw (which persist across frames), the material each worker has bound,
/// and the total pipeline rebinds recorded so far.
pub ghost struct BatchState {
    pub current: int,
    pub last_mesh: Option<u64>,
    pub last_material: Option<u64>,
    /// Per worker, the material whose pipeline it has bound this frame.
    pub worker_material: Seq<Option<u64>>,
    /// Pipeline rebinds recorded across all workers combined.
    pub binds: int,
}

/// One draw through the batching: the worker is chosen as `render` chooses
/// it, and the worker rebinds the pipeline exactly when the material differs
/// from what it last bound, as `on_render` does.
pub open spec fn sim_step(s: BatchState, d: DrawKey, workers: int) -> BatchState {
    let rot = rotates(s.last_mesh, s.last_material, d.mesh, d.material);
    let w = next_worker(s.current, rot, workers);
    let bind = s.worker_material[w] != Some(d.material);
    BatchState {
        current: w,
        last_mesh: Some(d.mesh),
        last_material: Some(d.material),
        worker_material: s.worker_material.update(w, Some(d.material)),
        binds: s.binds + if bind {
            1int
        } else {
            0int
        },
    }
}

/// A whole draw list through the batching, in order.
pub open spec fn sim_run(s: BatchState, draws: Seq<DrawKey>, workers: int) -> BatchState
    decreases draws.len(),
{
    if draws.len() == 0 {
        s
    } else {
        sim_run(sim_step(s, draws[0], workers), draws.drop_first(), workers)
    }
}

/// The number of material blocks in a draw list: how often the material
/// differs from the draw before it, with `prev` standing for the material
/// before the list.
pub open spec fn material_groups(draws: Seq<DrawKey>, prev: Option<u64>) -> int
    decreases draws.len(),
{
    if draws.len() == 0 {
        0int
    } else {
        (if Some(draws[0].material) != prev {
            1int
        } else {
            0int
        }) + material_groups(draws.drop_first(), Some(draws[0].material))
    }
}

/// All draws of one material stand together: the list is sorted by material.
pub open spec fn materials_contiguous(draws: Seq<DrawKey>) -> bool {
    forall|i: int, j: int, k: int|
        0 <= i <= j <= k < draws.len() && #[trigger] draws[i].material == #[trigger] draws[k].material
            ==> #[trigger] draws[j].material == draws[i].material
}

/// Neighbouring draws of one material use one mesh: within a material block
/// the mesh never changes, so only material changes advance the round robin.
pub open spec fn one_mesh_per_material(draws: Seq<DrawKey>) -> bool {
    forall|i: int|
        0 < i < draws.len() && #[trigger] draws[i].material == draws[i - 1].material ==> draws[i].mesh
            == draws[i - 1].mesh
}

/// Some draw of the list uses this material.
pub open spec fn material_in(draws: Seq<DrawKey>, m: u64) -> bool {
    exists|i: int| 0 <= i < draws.len() && #[trigger] draws[i].material == m
}

/// The invariant the batching maintains mid-list: `prev` is the draw
/// dispatched last, the current worker has its material bound, every other
/// worker's bound material belongs to an earlier block and so never recurs,
/// and the remaining list is still sorted with one mesh per material.
pub open spec fn batch_inv(
    s: BatchState,
    draws: Seq<DrawKey>,
    prev: Option<DrawKey>,
    workers: int,
) -> bool {
    &&& workers >= 1
    &&& s.worker_material.len() == workers
    &&& 0 <= s.current < workers
    &&& materials_contiguous(draws)
    &&& match prev {
        None => {
            &&& forall|w: int| 0 <= w < workers ==> (#[trigger] s.worker_material[w]) is None
            &&& one_mesh_per_material(draws)
        },
        Some(p) => {
            &&& s.last_mesh == Some(p.mesh)
            &&& s.last_material == Some(p.material)
            &&& s.worker_material[s.current] == Some(p.material)
            &&& draws.len() > 0 && draws[0].material == p.material ==> draws[0].mesh == p.mesh
            &&& one_mesh_per_material(draws)
            &&& forall|j: int|
                0 <= j < draws.len() && (#[trigger] draws[j]).material == p.material
                    ==> draws[0].material == p.material
            &&& forall|w: int|
                0 <= w < workers && w != s.current ==> ((#[trigger] s.worker_material[w]) is None
                    || (s.worker_material[w] != Some(p.material) && !material_in(
                    draws,
                    s.worker_material[w].unwrap(),
                )))
        },
    }
}

/// The material of the draw dispatched last.
pub open spec fn prev_material(prev: Option<DrawKey>) -> Option<u64> {
    match prev {
        Some(p) => Some(p.material),
        None => None,
    }
}

/// Running the batching from a state satisfying the invariant records
/// exactly one pipeline rebind per material block of the remaining list.
pub proof fn lemma_batching_run(
    s: BatchState,
    draws: Seq<DrawKey>,
    prev: Option<DrawKey>,
    workers: int,
)
    requires
        batch_inv(s, draws, prev, workers),
    ensures
        sim_run(s, draws, workers).binds == s.binds + material_groups(
            draws,
            prev_material(prev),
        ),
    decreases draws.len(),
{
    if draws.len() == 0 {
    } else {
        let d = draws[0];
        let rest = draws.drop_first();
        let s2 = sim_step(s, d, workers);
        let w = s2.current;
        assert(0 <= w < workers) by {
            assert(workers >= 1);
        }
        // The step binds exactly when a new material block starts.
        match prev {
            None => {
                assert(s.worker_material[w] is None);
                assert(s2.binds == s.binds + 1);
            },
            Some(p) => {
                if d.material == p.material {
                    // The block continues: same mesh, so no rotation, and
                    // the current worker already has the material bound.
                    assert(d.mesh == p.mesh);
                    assert(!rotates(s.last_mesh, s.last_material, d.mesh, d.material));
                    assert(w == s.current);
                    assert(s2.binds == s.binds);
                } else {
                    // A new block starts: the draw rotates to a worker that
                    // cannot have this material bound.
                    assert(rotates(s.last_mesh, s.last_material, d.mesh, d.material));
                    if w == s.current {
                        assert(s.worker_material[w] == Some(p.material));
                        assert(s2.binds == s.binds + 1);
                    } else {
                        assert(s.worker_material[w] is None || (s.worker_material[w] != Some(
                            p.material,
                        ) && !material_in(draws, s.worker_material[w].unwrap())));
                        assert(material_in(draws, d.material)) by {
                            assert(draws[0].material == d.material);
                        }
                        assert(s.worker_material[w] != Some(d.material));
                        assert(s2.binds == s.binds + 1);
                    }
                }
            },
        }
        // The invariant carries to the rest of the list behind `d`.
        assert(materials_contiguous(rest)) by {
            assert forall|i: int, j: int, k: int|
                0 <= i <= j <= k < rest.len() && #[trigger] rest[i].material
                    == #[trigger] rest[k].material implies #[trigger] rest[j].material
                == rest[i].material by {
                assert(rest[i] == draws[i + 1]);
                assert(rest[j] == draws[j + 1]);
                assert(rest[k] == draws[k + 1]);
            }
        }
        assert(one_mesh_per_material(rest)) by {
            assert forall|i: int|
                0 < i < rest.len() && #[trigger] rest[i].material == rest[i - 1].material implies
                rest[i].mesh == rest[i - 1].mesh by {
                assert(rest[i] == draws[i + 1]);
                assert(rest[i - 1] == draws[i]);
            }
        }
        assert(rest.len() > 0 && rest[0].material == d.material ==> rest[0].mesh == d.mesh) by {
            if rest.len() > 0 {
                assert(rest[0] == draws[1]);
            }
        }
        assert(forall|j: int|
            0 <= j < rest.len() && (#[trigger] rest[j]).material == d.material ==> rest[0].material
                == d.material) by {
            assert forall|j: int|
                0 <= j < rest.len() && (#[trigger] rest[j]).material == d.material
                implies rest[0].material == d.material by {
                assert(rest[j] == draws[j + 1]);
                assert(draws[0].material == draws[j + 1].material);
                assert(rest[0] == draws[1]);
                assert(draws[1].material == draws[0].material);
            }
        }
        assert forall|v: int|
            0 <= v < workers && v != w implies ((#[trigger] s2.worker_material[v]) is None || (
        s2.worker_material[v] != Some(d.material) && !material_in(
            rest,
            s2.worker_material[v].unwrap(),
        ))) by {
            assert(s2.worker_material[v] == s.worker_material[v]);
            if s.worker_material[v] is Some {
                let m = s.worker_material[v].unwrap();
                // Whatever this worker bound came from a block before the
                // one `d` belongs to, so it is neither `d`'s material nor
                // any later draw's.
                match prev {
                    None => {
                        assert(false);
                    },
                    Some(p) => {
                        if v == s.current {
                            // The worker that held the previous block: its
                            // material is gone from the list, since `d`
                            // starts a new block.
                            assert(m == p.material);
                            assert(d.material != p.material);
                            assert(!material_in(rest, m)) by {
                                if material_in(rest, m) {
                                    let j = choose|j: int|
                                        0 <= j < rest.len() && #[trigger] rest[j].material == m;
                                    assert(draws[j + 1].material == p.material);
                                    assert(draws[0].material == p.material);
                                    assert(false);
                                }
                            }
                        } else {
                            assert(m != p.material && !material_in(draws, m));
                            assert(!material_in(rest, m)) by {
                                if material_in(rest, m) {
                                    let j = choose|j: int|
                                        0 <= j < rest.len() && #[trigger] rest[j].material == m;
                                    assert(draws[j + 1].material == m);
                                }
                            }
                            assert(m != d.material) by {
                                assert(draws[0].material == d.material);
                            }
                        }
                    },
                }
            }
        }
        assert(batch_inv(s2, rest, Some(d), workers));
        lemma_batching_run(s2, rest, Some(d), workers);
    }
}

/// Batching monotonicity: a draw list sorted by (material, mesh), with each
/// material drawn with a single mesh, records — across all workers combined,
/// from the fresh per-worker state a Begin establishes — exactly one
/// pipeline rebind per material block, that is, per distinct material.
pub proof fn lemma_batching_monotonicity(s: BatchState, draws: Seq<DrawKey>, workers: int)
    requires
        workers >= 1,
        s.worker_material.len() == workers,
        0 <= s.current < workers,
        s.binds == 0,
        forall|w: int| 0 <= w < workers ==> (#[trigger] s.worker_material[w]) is None,
        materials_contiguous(draws),
        one_mesh_per_material(draws),
    ensures
        sim_run(s, draws, workers).binds == material_groups(draws, None),
{
    lemma_batching_run(s, draws, None, workers);
}

/// The set of materials a draw list uses.
pub open spec fn materials_of(draws: Seq<DrawKey>) -> Set<u64> {
    draws.map_values(|d: DrawKey| d.material).to_set()
}

/// The materials still to be counted when walking a list: all of them, or
/// all but the one whose block the walk stands in.
pub open spec fn distinct_after(draws: Seq<DrawKey>, prev: Option<u64>) -> nat {
    match prev {
        None => materials_of(draws).len(),
        Some(m) => materials_of(draws).remove(m).len(),
    }
}

/// In a list sorted by material, the material blocks are exactly the
/// distinct materials.
proof fn lemma_groups_are_distinct(draws: Seq<DrawKey>, prev: Option<u64>)
    requires
        materials_contiguous(draws),
        prev matches Some(m) ==> forall|j: int|
            0 <= j < draws.len() && (#[trigger] draws[j]).material == m ==> draws[0].material
                == m,
    ensures
        material_groups(draws, prev) == distinct_after(draws, prev),
    decreases draws.len(),
{
    broadcast use vstd::seq_lib::seq_to_set_is_finite;
    broadcast use vstd::set::axiom_set_insert_len;
    broadcast use vstd::set::axiom_set_remove_len;
    broadcast use vstd::set::axiom_set_empty_len;

    if draws.len() == 0 {
        assert(materials_of(draws) =~= Set::<u64>::empty());
        match prev {
            None => {},
            Some(m) => {
                assert(materials_of(draws).remove(m) =~= Set::<u64>::empty());
            },
        }
    } else {
        let d = draws[0];
        let rest = draws.drop_first();
        // The list's materials are the first draw's plus the rest's.
        assert(materials_of(draws) =~= materials_of(rest).insert(d.material)) by {
            let ms = draws.map_values(|dd: DrawKey| dd.material);
            let rs = rest.map_values(|dd: DrawKey| dd.material);
            assert forall|x: u64| materials_of(draws).contains(x) implies materials_of(
                rest,
            ).insert(d.material).contains(x) by {
                let i = choose|i: int| 0 <= i < ms.len() && ms[i] == x;
                if i == 0 {
                    assert(x == d.material);
                } else {
                    assert(rs[i - 1] == x);
                    assert(rs.contains(x));
                }
            }
            assert forall|x: u64| materials_of(rest).insert(d.material).contains(x) implies
                materials_of(draws).contains(x) by {
                if x == d.material {
                    assert(ms[0] == x);
                    assert(ms.contains(x));
                } else {
                    let i = choose|i: int| 0 <= i < rs.len() && rs[i] == x;
                    assert(ms[i + 1] == x);
                    assert(ms.contains(x));
                }
            }
        }
        // The rest of the list is still sorted, and the first draw's block
        // is its prefix.
        assert(materials_contiguous(rest)) by {
            assert forall|i: int, j: int, k: int|
                0 <= i <= j <= k < rest.len() && #[trigger] rest[i].material
                    == #[trigger] rest[k].material implies #[trigger] rest[j].material
                == rest[i].material by {
                assert(rest[i] == draws[i + 1]);
                assert(rest[j] == draws[j + 1]);
                assert(rest[k] == draws[k + 1]);
            }
        }
        assert(forall|j: int|
            0 <= j < rest.len() && (#[trigger] rest[j]).material == d.material ==> rest[0].material
                == d.material) by {
            assert forall|j: int|
                0 <= j < rest.len() && (#[trigger] rest[j]).material == d.material implies rest[0].material
                == d.material by {
                assert(rest[j] == draws[j + 1]);
                assert(draws[0].material == draws[j + 1].material);
                assert(rest[0] == draws[1]);
                assert(draws[1].material == draws[0].material);
            }
        }
        lemma_groups_are_distinct(rest, Some(d.material));
        let full = materials_of(draws);
        let tail = materials_of(rest);
        match prev {
            None => {
                // One new block: the first material, plus the distinct
                // materials behind its block.
                assert(full.len() == tail.remove(d.material).len() + 1) by {
                    assert(full == tail.insert(d.material));
                    assert(tail.insert(d.material) =~= tail.remove(d.material).insert(
                        d.material,
                    ));
                }
            },
            Some(m) => {
                if d.material == m {
                    // The walk stays in `m`'s block: nothing new is counted.
                    assert(full.remove(m).len() == tail.remove(m).len()) by {
                        assert(full.remove(m) =~= tail.remove(m));
                    }
                } else {
                    // A new block: `m` is over and gone from the whole list,
                    // so removing it changes nothing, and the first material
                    // counts as one.
                    assert(!material_in(draws, m)) by {
                        if material_in(draws, m) {
                            let j = choose|j: int|
                                0 <= j < draws.len() && #[trigger] draws[j].material == m;
                        }
                    }
                    assert(full.remove(m) =~= full) by {
                        assert(!full.contains(m)) by {
                            if full.contains(m) {
                                let ms = draws.map_values(|dd: DrawKey| dd.material);
                                let i = choose|i: int| 0 <= i < ms.len() && ms[i] == m;
                                assert(draws[i].material == m);
                                assert(material_in(draws, m));
                            }
                        }
                    }
                    assert(full.len() == tail.remove(d.material).len() + 1) by {
                        assert(full == tail.insert(d.material));
                        assert(tail.insert(d.material) =~= tail.remove(d.material).insert(
                            d.material,
                        ));
                    }
                }
            },
        }
    }
}

/// Batching monotonicity, counted in materials: a draw list sorted by
/// (material, mesh), with each material drawn with a single mesh, records —
/// across all workers combined, from the fresh per-worker state a Begin
/// establishes — a number of pipeline rebinds equal to the number of
/// distinct materials in the list, not the number of draws.
pub proof fn lemma_batching_counts_distinct_materials(
    s: BatchState,
    draws: Seq<DrawKey>,
    workers: int,
)
    requires
        workers >= 1,
        s.worker_material.len() == workers,
        0 <= s.current < workers,
        s.binds == 0,
        forall|w: int| 0 <= w < workers ==> (#[trigger] s.worker_material[w]) is None,
        materials_contiguous(draws),
        one_mesh_per_material(draws),
    ensures
        sim_run(s, draws, workers).binds == materials_of(draws).len(),
{
    lemma_batching_monotonicity(s, draws, workers);
    lemma_groups_are_distinct(draws, None);
}

/// Opaque handles one frame slot needs from the driver: its primary pool and
/// buffer, one pool and buffer per worker, a fence, two semaphores and a
/// descriptor set.
pub open spec fn handles_per_frame(workers: int) -> int {
    6 + 2 * workers
}

/// Builds one frame slot: fresh handles for its pools, buffers and
/// synchronization objects, and a mapped uniform buffer from the allocator.
/// Its fence starts signalled — the slot is not busy — and no staleness is
/// pending.
fn create_frame(workers: usize, next_handle: &mut u64, allocator: &mut Allocator) -> (f: Frame)
    requires
        old(allocator).can_allocate(1),
        *old(next_handle) + handles_per_frame(workers as int) <= u64::MAX,
    ensures
        f.secondary_buffers@.len() == workers,
        f.secondary_pools@.len() == workers,
        !f.gpu_busy,
        !f.stale,
        f.ubo.data == crate::gpu_alloc::ubo_zero(),
        f.ubo.buffer.info == (crate::gpu_alloc::BufferCreateInfo {
            size: crate::gpu_alloc::UBO_SIZE,
            usage: USAGE_UNIFORM_BUFFER,
            cpu_visible: true,
        }),
        f.primary_pool == *old(next_handle),
        f.primary_buffer == *old(next_handle) + 1,
        f.fence == *old(next_handle) + 2,
        f.graphics_semaphore == *old(next_handle) + 3,
        f.present_semaphore == *old(next_handle) + 4,
        f.global_descriptor == *old(next_handle) + 5,
        forall|w: int|
            0 <= w < workers ==> #[trigger] f.secondary_pools@[w] == *old(next_handle) + 6 + 2
                * w,
        forall|w: int|
            0 <= w < workers ==> #[trigger] f.secondary_buffers@[w] == *old(next_handle) + 7 + 2
                * w,
        forall|a: int, b: int|
            0 <= a < b < workers ==> #[trigger] f.secondary_buffers@[a]
                != #[trigger] f.secondary_buffers@[b],
        *final(next_handle) == *old(next_handle) + handles_per_frame(workers as int),
        final(allocator).outstanding == old(allocator).outstanding + 1,
        final(allocator).next_id == old(allocator).next_id + 1,
{
    let primary_pool = *next_handle;
    let primary_buffer = *next_handle + 1;
    let fence = *next_handle + 2;
    let graphics_semaphore = *next_handle + 3;
    let present_semaphore = *next_handle + 4;
    let global_descriptor = *next_handle + 5;
    let mut base = *next_handle + 6;
    let mut secondary_pools: Vec<u64> = Vec::new();
    let mut secondary_buffers: Vec<u64> = Vec::new();
    let mut w: usize = 0;
    while w < workers
        invariant
            w <= workers,
            secondary_pools@.len() == w,
            secondary_buffers@.len() == w,
            forall|k: int|
                0 <= k < w ==> #[trigger] secondary_pools@[k] == *old(next_handle) + 6 + 2 * k,
            forall|k: int|
                0 <= k < w ==> #[trigger] secondary_buffers@[k] == *old(next_handle) + 7 + 2 * k,
            base == *old(next_handle) + 6 + 2 * w,
            *old(next_handle) + handles_per_frame(workers as int) <= u64::MAX,
        decreases workers - w,
    {
        secondary_pools.push(base);
        secondary_buffers.push(base + 1);
        base = base + 2;
        w = w + 1;
    }
    *next_handle = base;
    let ubo = GpuObject::new(USAGE_UNIFORM_BUFFER, allocator);
    Frame {
        primary_buffer,
        primary_pool,
        secondary_buffers,
        secondary_pools,
        fence,
        graphics_semaphore,
        present_semaphore,
        ubo,
        global_descriptor,
        gpu_busy: false,
        stale: false,
    }
}

impl Engine {
    /// Assembles the engine: picks the queue families, the surface format,
    /// the depth format and the worker count from what the driver probed,
    /// builds the frame ring over a fresh allocator, wraps the swapchain the
    /// driver created from its plan, and loads the pipeline cache from the
    /// persisted bytes — absent or unreadable bytes mean an empty cache,
    /// never an error. Failures are exactly the missing selections, found in
    /// this order: queue families, surface format, depth format.
    pub fn new(
        settings: &GraphicsSettings,
        families: &Vec<QueueFamily>,
        surface_formats: &Vec<SurfaceFormat>,
        depth_candidates: &Vec<DepthCandidate>,
        parallelism: usize,
        swapchain_handle: u64,
        plan: SwapchainPlan,
        images: Vec<u64>,
        views: Vec<u64>,
        cache_bytes: Option<&Vec<u8>>,
    ) -> (r: Result<Engine, InitError>)
        requires
            families@.len() <= u32::MAX,
            parallelism <= u32::MAX,
            images@.len() == views@.len(),
            images@.len() > 0,
        ensures
            ({
                let scan = crate::init::scan_queue_families(families@, 0, None, None);
                let fmt = crate::init::first_preferred_format(surface_formats@, 0);
                let depth = crate::init::first_usable_depth(depth_candidates@, Tiling::Optimal, 0);
                match r {
                    Ok(e) => {
                        &&& scan.0 is Some
                        &&& scan.1 is Some
                        &&& surface_formats@.len() > 0
                        &&& depth is Some
                        &&& e.wf()
                        &&& e.frame_count == 0
                        &&& e.phase == Phase::Idle
                        &&& e.num_workers == if parallelism / 2 >= 1 {
                            parallelism / 2
                        } else {
                            1usize
                        }
                        &&& e.surface_format == (match fmt {
                            Some(k) => surface_formats@[k].format,
                            None => surface_formats@[0].format,
                        })
                        &&& e.depth_format == depth_candidates@[depth.unwrap()].format
                        &&& e.swapchain.handle == swapchain_handle
                        &&& e.swapchain.plan == plan
                        &&& e.swapchain.images@ == images@
                        &&& e.swapchain.views@ == views@
                        &&& e.swapchain.current_image_index == 0
                        &&& e.allocator.outstanding == engine_allocations()
                        &&& forall|s: int|
                            0 <= s < e.frames@.len() ==> !(#[trigger] e.frames@[s]).gpu_busy
                                && !e.frames@[s].stale && e.frames@[s].ubo.data
                                == crate::gpu_alloc::ubo_zero()
                        &&& e.pipeline_cache.entries@ == (match cache_bytes {
                            Some(b) => match crate::pipeline::decode_cache(b@) {
                                Some(ks) => ks,
                                None => Seq::<crate::pipeline::PipelineKey>::empty(),
                            },
                            None => Seq::<crate::pipeline::PipelineKey>::empty(),
                        })
                        &&& e.last_mesh is None
                        &&& e.last_material is None
                        &&& e.current_thread == 0
                        &&& e.resolution_width == settings.resolution_width
                        &&& e.resolution_height == settings.resolution_height
                        &&& e.vsync == settings.vsync
                        &&& e.next_material_id == 0
                    },
                    Err(InitError::NoGraphicsQueue) => scan.0 is None,
                    Err(InitError::NoPresentQueue) => scan.0 is Some && scan.1 is None,
                    Err(InitError::NoSurfaceFormat) => scan.0 is Some && scan.1 is Some
                        && surface_formats@.len() == 0,
                    Err(InitError::NoDepthFormat) => scan.0 is Some && scan.1 is Some
                        && surface_formats@.len() > 0 && depth is None,
                    Err(_) => false,
                }
            }),
    {
        let _queue_families = match select_queue_families(families) {
            Ok(q) => q,
            Err(e) => {
                return Err(e);
            },
        };
        let surface_format = match select_surface_format(surface_formats) {
            Ok(f) => f,
            Err(e) => {
                return Err(e);
            },
        };
        let depth_format = match select_depth_format(depth_candidates, Tiling::Optimal) {
            Ok(f) => f,
            Err(e) => {
                return Err(e);
            },
        };
        let num_workers = worker_thread_count(parallelism);
        let mut allocator = Allocator::new();
        let mut next_handle: u64 = 0;
        let mut frames: Vec<Frame> = Vec::new();
        let frame0 = create_frame(num_workers, &mut next_handle, &mut allocator);
        frames.push(frame0);
        let frame1 = create_frame(num_workers, &mut next_handle, &mut allocator);
        frames.push(frame1);
        let utility_pool = next_handle;
        let global_descriptor_layout = next_handle + 1;
        let descriptor_pool = next_handle + 2;
        let depth_view = next_handle + 3;
        let next_handle = next_handle + 4;
        let extent = plan.extent;
        let depth_image = allocator.create_image(extent.width, extent.height, depth_format);
        let pipeline_cache = match cache_bytes {
            Some(b) => match PipelineCache::deserialize(b) {
                Some(c) => c,
                None => PipelineCache::new(),
            },
            None => PipelineCache::new(),
        };
        proof {
            assert(pipeline_cache.entries@ =~= (match cache_bytes {
                Some(b) => match crate::pipeline::decode_cache(b@) {
                    Some(ks) => ks,
                    None => Seq::<crate::pipeline::PipelineKey>::empty(),
                },
                None => Seq::<crate::pipeline::PipelineKey>::empty(),
            }));
        }
        let swapchain = Swapchain::new(swapchain_handle, plan, images, views);
        Ok(
            Engine {
                frame_count: 0,
                phase: Phase::Idle,
                frames,
                num_workers,
                swapchain,
                surface_format: surface_format.format,
                depth_format,
                depth_image,
                depth_view,
                allocator,
                pipeline_cache,
                resolution_width: settings.resolution_width,
                resolution_height: settings.resolution_height,
                vsync: settings.vsync,
                last_mesh: None,
                last_material: None,
                current_thread: 0,
                utility_pool,
                global_descriptor_layout,
                descriptor_pool,
                next_handle,
                next_material_id: 0,
                frame_log: Ghost(Seq::new(num_workers as nat, |w: int| Seq::empty())),
            },
        )
    }

    /// Installs the swapchain the driver rebuilt after staleness, and
    /// recreates the depth image for the new extent: the old depth image's
    /// memory goes back to the allocator and a fresh one is issued.
    pub fn install_swapchain(
        &mut self,
        handle: u64,
        plan: SwapchainPlan,
        images: Vec<u64>,
        views: Vec<u64>,
        depth_view: u64,
    )
        requires
            old(self).wf(),
            old(self).phase == Phase::Idle,
            old(self).allocator.can_allocate(1),
            images@.len() == views@.len(),
            images@.len() > 0,
        ensures
            final(self).wf(),
            final(self).swapchain.handle == handle,
            final(self).swapchain.plan == plan,
            final(self).swapchain.images@ == images@,
            final(self).swapchain.views@ == views@,
            final(self).swapchain.current_image_index == 0,
            final(self).depth_image == (Image {
                id: old(self).allocator.next_id,
                width: plan.extent.width,
                height: plan.extent.height,
                format: old(self).depth_format,
            }),
            final(self).depth_view == depth_view,
            final(self).allocator.outstanding == old(self).allocator.outstanding,
            final(self).allocator.next_id == old(self).allocator.next_id + 1,
            *final(self) == (Engine {
                swapchain: final(self).swapchain,
                depth_image: final(self).depth_image,
                depth_view,
                allocator: final(self).allocator,
                ..*old(self)
            }),
    {
        let old_depth = self.depth_image;
        let new_depth = self.allocator.create_image(
            plan.extent.width,
            plan.extent.height,
            self.depth_format,
        );
        self.allocator.destroy_image(old_depth);
        self.depth_image = new_depth;
        self.depth_view = depth_view;
        self.swapchain = Swapchain::new(handle, plan, images, views);
    }

    /// Loads a model: builds its mesh through the allocator and returns the
    /// upload plan the driver must perform.
    pub fn load_model(&mut self, vertices: &Vec<Vertex>, indices: &Vec<u32>) -> (r: (
        Mesh,
        MeshUploadPlan,
    ))
        requires
            old(self).wf(),
            old(self).allocator.can_allocate(3),
            vertices@.len() * VERTEX_SIZE + indices@.len() * INDEX_SIZE <= u64::MAX,
            indices@.len() <= u32::MAX,
        ensures
            final(self).wf(),
            ({
                let (m, plan) = r;
                &&& m.wf()
                &&& m.vertex_count == vertices@.len()
                &&& m.index_count == indices@.len()
                &&& plan.staging_size == crate::mesh::vertex_bytes(vertices@.len())
                    + crate::mesh::index_bytes(indices@.len())
                &&& final(self).allocator.outstanding == old(self).allocator.outstanding + 2
                &&& *final(self) == (Engine { allocator: final(self).allocator, ..*old(self) })
            }),
    {
        Mesh::new(vertices, indices, &mut self.allocator)
    }

    /// Loads a material: reflects the shader blobs, plans the pipeline
    /// against the swapchain's formats and extent through the cache, and
    /// builds the texture from the image bytes. Every resource-load failure
    /// propagates as a typed error that leaves the engine unchanged: a
    /// shader that cannot be reflected, one that reflects to a stage the
    /// engine does not accept, and texture bytes that do not decode.
    pub fn load_material(&mut self, shader_blobs: &Vec<Vec<u8>>, texture_bytes: &Vec<u8>) -> (r:
        Result<(Material, TextureUploadPlan, bool), MaterialError>)
        requires
            old(self).wf(),
            old(self).allocator.can_allocate(2),
            old(self).next_material_id < u64::MAX,
        ensures
            final(self).wf(),
            ({
                let views = shader_blobs@.map_values(|b: Vec<u8>| b@);
                match r {
                    Ok((m, tex_plan, hit)) => {
                        &&& crate::pipeline::all_blobs_reflect(views)
                        &&& crate::pipeline::all_stages_valid(views)
                        &&& crate::texture::png_decode(texture_bytes@) is Some
                        &&& m.desc.stages@.len() == views.len()
                        &&& forall|i: int|
                            0 <= i < views.len() ==> m.desc.stages@[i] == crate::pipeline::blob_stage(
                                #[trigger] views[i],
                            )
                        &&& m.desc.key == (crate::pipeline::PipelineKey {
                            stage_mask: crate::pipeline::stage_mask_of(views),
                            color_format: old(self).surface_format,
                            depth_format: old(self).depth_format,
                        })
                        &&& m.desc.extent == old(self).swapchain.plan.extent
                        &&& crate::pipeline::fixed_function_ok(m.desc)
                        &&& hit == crate::pipeline::cache_contains(
                            old(self).pipeline_cache.entries@,
                            m.desc.key,
                        )
                        &&& final(self).pipeline_cache.entries@ == if hit {
                            old(self).pipeline_cache.entries@
                        } else {
                            old(self).pipeline_cache.entries@.push(m.desc.key)
                        }
                        &&& m.id == old(self).next_material_id
                        &&& final(self).next_material_id == old(self).next_material_id + 1
                        &&& ({
                            let (w, h, pixels) = crate::texture::png_decode(
                                texture_bytes@,
                            ).unwrap();
                            &&& m.texture matches Some(t)
                            &&& t.wf()
                            &&& t.width == w
                            &&& t.height == h
                            &&& tex_plan.staging_size == pixels.len()
                            &&& tex_plan.width == w
                            &&& tex_plan.height == h
                            &&& final(self).allocator.outstanding == old(
                                self,
                            ).allocator.outstanding + 1
                        })
                        &&& *final(self) == (Engine {
                            pipeline_cache: final(self).pipeline_cache,
                            next_material_id: final(self).next_material_id,
                            allocator: final(self).allocator,
                            ..*old(self)
                        })
                    },
                    Err(MaterialError::ReflectionFailed) => {
                        &&& !crate::pipeline::all_blobs_reflect(views)
                        &&& *final(self) == *old(self)
                    },
                    Err(MaterialError::InvalidStage) => {
                        &&& crate::pipeline::all_blobs_reflect(views)
                        &&& !crate::pipeline::all_stages_valid(views)
                        &&& *final(self) == *old(self)
                    },
                    Err(MaterialError::TextureDecodeFailed) => {
                        &&& crate::pipeline::all_blobs_reflect(views)
                        &&& crate::pipeline::all_stages_valid(views)
                        &&& crate::texture::png_decode(texture_bytes@) is None
                        &&& final(self).pipeline_cache.entries@ == old(
                            self,
                        ).pipeline_cache.entries@
                        &&& *final(self) == (Engine {
                            pipeline_cache: final(self).pipeline_cache,
                            ..*old(self)
                        })
                    },
                }
            }),
    {
        let extent = self.swapchain.plan.extent;
        let (desc, hit) = match create_pipeline(
            &mut self.pipeline_cache,
            shader_blobs,
            self.surface_format,
            self.depth_format,
            extent,
        ) {
            Ok(p) => p,
            Err(PipelineError::ReflectionFailed) => {
                return Err(MaterialError::ReflectionFailed);
            },
            Err(PipelineError::InvalidStage) => {
                return Err(MaterialError::InvalidStage);
            },
        };
        let (texture, tex_plan) = match Texture::new(texture_bytes, &mut self.allocator) {
            Ok((t, p)) => (t, p),
            Err(_) => {
                // Undo the plan this call put in the cache: the material is
                // not created, so the driver compiles nothing.
                if !hit {
                    let _ = self.pipeline_cache.entries.pop();
                    proof {
                        assert(final(self).pipeline_cache.entries@ =~= old(
                            self,
                        ).pipeline_cache.entries@);
                    }
                }
                return Err(MaterialError::TextureDecodeFailed);
            },
        };
        let id = self.next_material_id;
        self.next_material_id = self.next_material_id + 1;
        Ok((Material::new(id, desc, Some(texture)), tex_plan, hit))
    }

    /// Returns a mesh's two buffers to the allocator.
    pub fn drop_mesh(&mut self, mesh: Mesh)
        requires
            old(self).wf(),
            old(self).allocator.outstanding >= engine_allocations() + 2,
        ensures
            final(self).wf(),
            final(self).allocator.outstanding == old(self).allocator.outstanding - 2,
            *final(self) == (Engine { allocator: final(self).allocator, ..*old(self) }),
    {
        let vertex_buffer = mesh.vertex_buffer;
        let index_buffer = mesh.index_buffer;
        self.allocator.destroy_buffer(vertex_buffer);
        self.allocator.destroy_buffer(index_buffer);
    }

    /// Returns a material's texture image, if it has one, to the allocator.
    pub fn drop_material(&mut self, material: Material)
        requires
            old(self).wf(),
            material.texture is Some ==> old(self).allocator.outstanding >= engine_allocations()
                + 1,
        ensures
            final(self).wf(),
            final(self).allocator.outstanding == old(self).allocator.outstanding - (
            if material.texture is Some {
                1int
            } else {
                0int
            }),
            *final(self) == (Engine { allocator: final(self).allocator, ..*old(self) }),
    {
        match material.texture {
            Some(t) => {
                let image = t.image;
                self.allocator.destroy_image(image);
            },
            None => {},
        }
    }
}

/// One step of the engine's teardown, in the order the driver must perform
/// them.
#[derive(Debug, Clone, Copy, PartialEq, Eq, Structural)]
pub enum DestroyStep {
    WaitDeviceIdle,
    ClosePresentChannel,
    JoinPresentThread,
    CloseRenderChannels,
    JoinRenderThreads,
    DestroyUtilityPool,
    DestroyFramePools,
    DestroyFrameSemaphores,
    DestroyFrameFences,
    FreeFrameUniformBuffers,
    FreeDepthImage,
    DestroyDepthView,
    DestroyDescriptorPool,
    DestroyDescriptorLayout,
    DestroySwapchainViews,
    DestroySwapchain,
    DestroyAllocator,
    SavePipelineCache,
    DestroyDevice,
    DestroySurface,
    DestroyInstance,
}

/// Why the engine could not be torn down.
#[derive(Debug, Clone, Copy, PartialEq, Eq, Structural)]
pub enum TeardownError {
    /// Resources the engine issued are still alive; destroying the allocator
    /// now would be a use-after-free in waiting.
    AllocatorInUse,
}

/// The order the engine is torn down in: wait for the device, stop the
/// threads, free every per-frame and swapchain resource, and only then
/// destroy the allocator that backed them; the cache is persisted and the
/// device-level objects fall last.
pub open spec fn teardown_order() -> Seq<DestroyStep> {
    seq![
        DestroyStep::WaitDeviceIdle,
        DestroyStep::ClosePresentChannel,
        DestroyStep::JoinPresentThread,
        DestroyStep::CloseRenderChannels,
        DestroyStep::JoinRenderThreads,
        DestroyStep::DestroyUtilityPool,
        DestroyStep::DestroyFramePools,
        DestroyStep::DestroyFrameSemaphores,
        DestroyStep::DestroyFrameFences,
        DestroyStep::FreeFrameUniformBuffers,
        DestroyStep::FreeDepthImage,
        DestroyStep::DestroyDepthView,
        DestroyStep::DestroyDescriptorPool,
        DestroyStep::DestroyDescriptorLayout,
        DestroyStep::DestroySwapchainViews,
        DestroyStep::DestroySwapchain,
        DestroyStep::DestroyAllocator,
        DestroyStep::SavePipelineCache,
        DestroyStep::DestroyDevice,
        DestroyStep::DestroySurface,
        DestroyStep::DestroyInstance,
    ]
}

/// Whether a teardown step frees or destroys a resource that the allocator
/// or the device backs.
pub open spec fn frees_device_resource(s: DestroyStep) -> bool {
    ||| s == DestroyStep::DestroyUtilityPool
    ||| s == DestroyStep::DestroyFramePools
    ||| s == DestroyStep::DestroyFrameSemaphores
    ||| s == DestroyStep::DestroyFrameFences
    ||| s == DestroyStep::FreeFrameUniformBuffers
    ||| s == DestroyStep::FreeDepthImage
    ||| s == DestroyStep::DestroyDepthView
    ||| s == DestroyStep::DestroyDescriptorPool
    ||| s == DestroyStep::DestroyDescriptorLayout
    ||| s == DestroyStep::DestroySwapchainViews
    ||| s == DestroyStep::DestroySwapchain
}

/// Where the allocator's destruction stands in the teardown order.
pub open spec fn allocator_step_index() -> int {
    16
}

/// The allocator is destroyed exactly once, and only after every resource it
/// or the device backs has been freed: teardown order makes the allocator
/// outlive everything it backed.
pub proof fn lemma_allocator_destroyed_last()
    ensures
        0 <= allocator_step_index() < teardown_order().len(),
        teardown_order()[allocator_step_index()] == DestroyStep::DestroyAllocator,
        forall|j: int|
            0 <= j < teardown_order().len() && #[trigger] teardown_order()[j]
                == DestroyStep::DestroyAllocator ==> j == allocator_step_index(),
        forall|j: int|
            0 <= j < teardown_order().len() && frees_device_resource(
                #[trigger] teardown_order()[j],
            ) ==> j < allocator_step_index(),
{
}

impl Engine {
    /// Tears the engine down. When resources it issued are still alive the
    /// teardown is refused: destroying the allocator under them is the
    /// use-after-free the engine treats as fatal. Otherwise the caller
    /// receives the ordered steps to perform and the pipeline cache's bytes
    /// to persist.
    pub fn destroy(self) -> (r: Result<(Vec<DestroyStep>, Vec<u8>), TeardownError>)
        requires
            self.wf(),
            self.pipeline_cache.entries@.len() <= u32::MAX,
        ensures
            match r {
                Ok((steps, cache_bytes)) => {
                    &&& self.allocator.outstanding == engine_allocations()
                    &&& steps@ == teardown_order()
                    &&& cache_bytes@ == crate::pipeline::encode_cache(
                        self.pipeline_cache.entries@,
                    )
                },
                Err(e) => {
                    &&& e == TeardownError::AllocatorInUse
                    &&& self.allocator.outstanding != engine_allocations()
                },
            },
    {
        if self.allocator.outstanding != (FRAMES_IN_FLIGHT as u64) + 1 {
            return Err(TeardownError::AllocatorInUse);
        }
        let cache_bytes = self.pipeline_cache.serialize();
        let mut steps: Vec<DestroyStep> = Vec::new();
        steps.push(DestroyStep::WaitDeviceIdle);
        steps.push(DestroyStep::ClosePresentChannel);
        steps.push(DestroyStep::JoinPresentThread);
        steps.push(DestroyStep::CloseRenderChannels);
        steps.push(DestroyStep::JoinRenderThreads);
        steps.push(DestroyStep::DestroyUtilityPool);
        steps.push(DestroyStep::DestroyFramePools);
        steps.push(DestroyStep::DestroyFrameSemaphores);
        steps.push(DestroyStep::DestroyFrameFences);
        steps.push(DestroyStep::FreeFrameUniformBuffers);
        steps.push(DestroyStep::FreeDepthImage);
        steps.push(DestroyStep::DestroyDepthView);
        steps.push(DestroyStep::DestroyDescriptorPool);
        steps.push(DestroyStep::DestroyDescriptorLayout);
        steps.push(DestroyStep::DestroySwapchainViews);
        steps.push(DestroyStep::DestroySwapchain);
        steps.push(DestroyStep::DestroyAllocator);
        steps.push(DestroyStep::SavePipelineCache);
        steps.push(DestroyStep::DestroyDevice);
        steps.push(DestroyStep::DestroySurface);
        steps.push(DestroyStep::DestroyInstance);
        proof {
            assert(steps@ =~= teardown_order());
        }
        Ok((steps, cache_bytes))
    }
}

} // verus!
