//! The render worker: the per-thread state machine that turns the Begin /
//! Render / End messages of one frame into recorded commands, rebinding the
//! mesh and the pipeline only when they change.

use vstd::prelude::*;

use crate::gpu_alloc::Mat4;

verus! {

/// What a Render message carries about its mesh.
#[derive(Debug, Clone, Copy, PartialEq, Eq, Structural)]
pub struct MeshRef {
    /// Identity the batching compares.
    pub id: u64,
    pub vertex_buffer: u64,
    pub index_buffer: u64,
    pub index_count: u32,
}

/// What a Render message carries about its material.
#[derive(Debug, Clone, Copy, PartialEq, Eq, Structural)]
pub struct MaterialRef {
    /// Identity the batching compares; the driver's pipeline and layout are
    /// keyed by it.
    pub id: u64,
}

/// Visibility test for one draw. Currently a stub that keeps everything.
pub fn cull_test(mesh: &MeshRef, transform: &Mat4, view: &Mat4, projection: &Mat4) -> (visible:
    bool)
    ensures
        visible,
{
    true
}

/// One command a worker records into its secondary buffer.
#[derive(Debug, Clone, Copy, PartialEq, Eq)]
pub enum WorkerAction {
    /// Bind the mesh's vertex and index buffers.
    BindMesh { vertex_buffer: u64, index_buffer: u64 },
    /// Bind the material's pipeline.
    BindPipeline { material: u64 },
    /// Bind the global descriptor set against the material's layout.
    BindDescriptors { material: u64, descriptor_set: u64 },
    /// Push the draw's transform.
    PushConstants { transform: Mat4 },
    /// Issue the indexed draw.
    DrawIndexed { index_count: u32 },
}

/// The commands one visible draw records, given which state actually needs
/// rebinding.
pub open spec fn render_actions(
    bind_mesh: bool,
    bind_material: bool,
    mesh: MeshRef,
    material: MaterialRef,
    descriptor_set: u64,
    transform: Mat4,
) -> Seq<WorkerAction> {
    (if bind_mesh {
        seq![
            WorkerAction::BindMesh {
                vertex_buffer: mesh.vertex_buffer,
                index_buffer: mesh.index_buffer,
            },
        ]
    } else {
        Seq::empty()
    }) + (if bind_material {
        seq![
            WorkerAction::BindPipeline { material: material.id },
            WorkerAction::BindDescriptors { material: material.id, descriptor_set },
        ]
    } else {
        Seq::empty()
    }) + seq![
        WorkerAction::PushConstants { transform },
        WorkerAction::DrawIndexed { index_count: mesh.index_count },
    ]
}

/// One render worker's state between messages.
#[derive(Debug, Clone, Copy, PartialEq, Eq)]
pub struct Worker {
    /// The secondary buffer of the frame being recorded; `None` between
    /// frames.
    pub cmd: Option<u64>,
    /// Identity of the mesh whose buffers are bound.
    pub last_mesh: Option<u64>,
    /// Identity of the material whose pipeline is bound.
    pub last_material: Option<u64>,
    /// Global descriptor set of the current frame.
    pub descriptor_set: u64,
    pub view: Mat4,
    pub projection: Mat4,
    pub color_format: u32,
    pub depth_format: u32,
    /// Pipeline rebinds recorded since the frame began.
    pub pipeline_binds: u64,
    /// Mesh rebinds recorded since the frame began.
    pub mesh_binds: u64,
}

impl Worker {
    /// A worker parked between frames, with nothing bound.
    pub fn new() -> (w: Worker)
        ensures
            w.cmd is None,
            w.last_mesh is None,
            w.last_material is None,
            w.pipeline_binds == 0,
            w.mesh_binds == 0,
    {
        Worker {
            cmd: None,
            last_mesh: None,
            last_material: None,
            descriptor_set: 0,
            view: Mat4 { words: [0u32, 0, 0, 0, 0, 0, 0, 0, 0, 0, 0, 0, 0, 0, 0, 0] },
            projection: Mat4 { words: [0u32, 0, 0, 0, 0, 0, 0, 0, 0, 0, 0, 0, 0, 0, 0, 0] },
            color_format: 0,
            depth_format: 0,
            pipeline_binds: 0,
            mesh_binds: 0,
        }
    }

    /// Handles a Begin message: records the frame's per-thread state and
    /// opens the secondary buffer. Exactly one Begin per frame: the worker
    /// must be parked.
    pub fn on_begin(
        &mut self,
        cmd: u64,
        view: Mat4,
        projection: Mat4,
        descriptor_set: u64,
        color_format: u32,
        depth_format: u32,
    )
        requires
            old(self).cmd is None,
        ensures
            *final(self) == (Worker {
                cmd: Some(cmd),
                last_mesh: None,
                last_material: None,
                descriptor_set,
                view,
                projection,
                color_format,
                depth_format,
                pipeline_binds: 0,
                mesh_binds: 0,
            }),
    {
        self.cmd = Some(cmd);
        self.last_mesh = None;
        self.last_material = None;
        self.descriptor_set = descriptor_set;
        self.view = view;
        self.projection = projection;
        self.color_format = color_format;
        self.depth_format = depth_format;
        self.pipeline_binds = 0;
        self.mesh_binds = 0;
    }

    /// Handles a Render message: rebinds the mesh's buffers and the
    /// material's pipeline only when they differ from what this thread last
    /// bound, then records the push constant and the draw. Begin must have
    /// opened the frame.
    pub fn on_render(&mut self, mesh: &MeshRef, material: &MaterialRef, transform: &Mat4) -> (acts:
        Vec<WorkerAction>)
        requires
            old(self).cmd is Some,
            old(self).pipeline_binds < u64::MAX,
            old(self).mesh_binds < u64::MAX,
        ensures
            ({
                let bind_mesh = old(self).last_mesh != Some(mesh.id);
                let bind_material = old(self).last_material != Some(material.id);
                &&& acts@ == render_actions(
                    bind_mesh,
                    bind_material,
                    *mesh,
                    *material,
                    old(self).descriptor_set,
                    *transform,
                )
                &&& *final(self) == (Worker {
                    last_mesh: Some(mesh.id),
                    last_material: Some(material.id),
                    pipeline_binds: (old(self).pipeline_binds + if bind_material {
                        1u64
                    } else {
                        0u64
                    }) as u64,
                    mesh_binds: (old(self).mesh_binds + if bind_mesh {
                        1u64
                    } else {
                        0u64
                    }) as u64,
                    ..*old(self)
                })
            }),
    {
        let mut acts: Vec<WorkerAction> = Vec::new();
        let visible = cull_test(mesh, transform, &self.view, &self.projection);
        let bind_mesh = match self.last_mesh {
            Some(id) => id != mesh.id,
            None => true,
        };
        let bind_material = match self.last_material {
            Some(id) => id != material.id,
            None => true,
        };
        if visible {
            if bind_mesh {
                self.last_mesh = Some(mesh.id);
                self.mesh_binds = self.mesh_binds + 1;
                acts.push(
                    WorkerAction::BindMesh {
                        vertex_buffer: mesh.vertex_buffer,
                        index_buffer: mesh.index_buffer,
                    },
                );
            }
            if bind_material {
                self.last_material = Some(material.id);
                self.pipeline_binds = self.pipeline_binds + 1;
                acts.push(WorkerAction::BindPipeline { material: material.id });
                acts.push(
                    WorkerAction::BindDescriptors {
                        material: material.id,
                        descriptor_set: self.descriptor_set,
                    },
                );
            }
            acts.push(WorkerAction::PushConstants { transform: *transform });
            acts.push(WorkerAction::DrawIndexed { index_count: mesh.index_count });
        }
        proof {
            assert(acts@ =~= render_actions(
                old(self).last_mesh != Some(mesh.id),
                old(self).last_material != Some(material.id),
                *mesh,
                *material,
                old(self).descriptor_set,
                *transform,
            ));
        }
        acts
    }

    /// Handles an End message: closes the secondary buffer and parks the
    /// worker; its rebind counters stay readable until the next Begin.
    pub fn on_end(&mut self)
        requires
            old(self).cmd is Some,
        ensures
            *final(self) == (Worker { cmd: None, last_mesh: None, last_material: None, ..*old(self) }),
    {
        self.cmd = None;
        self.last_mesh = None;
        self.last_material = None;
    }
}

} // verus!
