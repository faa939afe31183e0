//! The frame recorder: one pre-recorded, replayable command buffer per
//! swapchain image, encoding a fixed draw workload against that image's
//! framebuffer. The whole set is rebuilt whenever the pipeline (hence the
//! viewport) or the framebuffer set changes.
//!
//! The GPU-side objects (pipeline, vertex buffer, recorded command
//! buffers) are opaque handles; this module tracks what each command
//! buffer records: which framebuffer it targets, which pipeline build it
//! binds, and the exact command sequence. The recorder holds no
//! frame-to-frame mutable state beyond the current buffer set.

use vstd::prelude::*;

use crate::extent::Extent;
use crate::swapchain_manager::{Framebuffer, SwapchainManager};

verus! {

/// One non-indexed draw call. The fixed workload draws the full vertex
/// buffer once: `vertex_count` vertices, one instance, from the start.
#[derive(Clone, Copy, Debug, PartialEq, Eq, Structural)]
pub struct DrawWorkload {
    pub vertex_count: u32,
    pub instance_count: u32,
    pub first_vertex: u32,
    pub first_instance: u32,
}

impl DrawWorkload {
    /// The workload that covers a whole vertex buffer of `vertex_count`
    /// vertices in a single non-indexed, single-instance draw.
    pub fn full_buffer(vertex_count: u32) -> (r: DrawWorkload)
        ensures
            r == (DrawWorkload { vertex_count, instance_count: 1, first_vertex: 0, first_instance: 0 }),
    {
        DrawWorkload { vertex_count, instance_count: 1, first_vertex: 0, first_instance: 0 }
    }
}

/// The graphics pipeline, identified by the build that produced it and the
/// viewport it was built for. Rebuilding for a new viewport bumps the
/// generation; command buffers record which build they bind.
#[derive(Clone, Copy, Debug, PartialEq, Eq, Structural)]
pub struct Pipeline {
    pub generation: u64,
    pub viewport: Extent,
}

/// One recorded GPU command.
#[derive(Clone, Copy, Debug, PartialEq, Eq, Structural)]
pub enum Command {
    /// Begin the render pass on the given framebuffer, clearing the single
    /// color attachment.
    BeginRenderPass { framebuffer_index: usize, render_pass_generation: u64, clear: bool },
    /// Bind the graphics pipeline of the given build.
    BindPipeline { pipeline_generation: u64 },
    /// Bind the vertex buffer at the given binding slot.
    BindVertexBuffers { first_binding: u32, vertex_count: u32 },
    /// Issue one non-indexed draw call.
    Draw { vertex_count: u32, instance_count: u32, first_vertex: u32, first_instance: u32 },
    EndRenderPass,
}

/// One pre-recorded command buffer, targeting a single framebuffer. Built
/// with a multiple-submit usage flag, since it encodes no frame-varying
/// state.
#[derive(Clone, Debug)]
pub struct CommandBuffer {
    pub framebuffer_index: usize,
    pub generation: u64,
    pub multiple_submit: bool,
    pub commands: Vec<Command>,
}

/// The exact recording contract of one command buffer: begin the render
/// pass on `fb` with a single clear, bind the pipeline, bind the vertex
/// buffer at binding 0, draw the workload, end the render pass.
pub open spec fn records_draw(
    cb: CommandBuffer,
    fb: Framebuffer,
    pipeline: Pipeline,
    workload: DrawWorkload,
) -> bool {
    &&& cb.framebuffer_index == fb.image_index
    &&& cb.generation == fb.generation
    &&& cb.multiple_submit
    &&& cb.commands@.len() == 5
    &&& cb.commands@[0] == (Command::BeginRenderPass {
        framebuffer_index: fb.image_index,
        render_pass_generation: fb.render_pass_generation,
        clear: true,
    })
    &&& cb.commands@[1] == (Command::BindPipeline { pipeline_generation: pipeline.generation })
    &&& cb.commands@[2] == (Command::BindVertexBuffers {
        first_binding: 0,
        vertex_count: workload.vertex_count,
    })
    &&& cb.commands@[3] == (Command::Draw {
        vertex_count: workload.vertex_count,
        instance_count: workload.instance_count,
        first_vertex: workload.first_vertex,
        first_instance: workload.first_instance,
    })
    &&& cb.commands@[4] == Command::EndRenderPass
}

/// Records one command buffer against one framebuffer.
pub fn record_command_buffer(
    fb: &Framebuffer,
    pipeline: &Pipeline,
    workload: &DrawWorkload,
) -> (r: CommandBuffer)
    ensures
        records_draw(r, *fb, *pipeline, *workload),
{
    let mut commands: Vec<Command> = Vec::new();
    commands.push(Command::BeginRenderPass {
        framebuffer_index: fb.image_index,
        render_pass_generation: fb.render_pass_generation,
        clear: true,
    });
    commands.push(Command::BindPipeline { pipeline_generation: pipeline.generation });
    commands.push(Command::BindVertexBuffers {
        first_binding: 0,
        vertex_count: workload.vertex_count,
    });
    commands.push(Command::Draw {
        vertex_count: workload.vertex_count,
        instance_count: workload.instance_count,
        first_vertex: workload.first_vertex,
        first_instance: workload.first_instance,
    });
    commands.push(Command::EndRenderPass);
    CommandBuffer {
        framebuffer_index: fb.image_index,
        generation: fb.generation,
        multiple_submit: true,
        commands,
    }
}

/// Records one command buffer per framebuffer, in framebuffer order.
pub fn get_command_buffers(
    framebuffers: &Vec<Framebuffer>,
    pipeline: &Pipeline,
    workload: &DrawWorkload,
) -> (r: Vec<CommandBuffer>)
    ensures
        r@.len() == framebuffers@.len(),
        forall|i: int| 0 <= i < r@.len() ==> records_draw(
            #[trigger] r@[i],
            framebuffers@[i],
            *pipeline,
            *workload,
        ),
{
    let mut command_buffers: Vec<CommandBuffer> = Vec::new();
    let mut i: usize = 0;
    while i < framebuffers.len()
        invariant
            i <= framebuffers@.len(),
            command_buffers@.len() == i,
            forall|j: int| 0 <= j < i ==> records_draw(
                #[trigger] command_buffers@[j],
                framebuffers@[j],
                *pipeline,
                *workload,
            ),
        decreases framebuffers@.len() - i,
    {
        command_buffers.push(record_command_buffer(&framebuffers[i], pipeline, workload));
        i = i + 1;
    }
    command_buffers
}

/// The frame recorder: the current pipeline build and the current set of
/// command buffers.
pub struct Renderer {
    pub pipeline: Pipeline,
    pub workload: DrawWorkload,
    pub command_buffers: Vec<CommandBuffer>,
}

impl Renderer {
    /// The current buffer set is exactly one command buffer per
    /// framebuffer of `framebuffers`, each recording the fixed workload
    /// with the current pipeline against its own framebuffer.
    pub open spec fn targets(self, framebuffers: Seq<Framebuffer>) -> bool {
        &&& self.command_buffers@.len() == framebuffers.len()
        &&& forall|i: int| 0 <= i < framebuffers.len() ==> records_draw(
            #[trigger] self.command_buffers@[i],
            framebuffers[i],
            self.pipeline,
            self.workload,
        )
    }

    /// The recorder is as it was: same pipeline build, same workload, same
    /// buffer set.
    pub open spec fn unchanged(self, other: Renderer) -> bool {
        &&& self.pipeline == other.pipeline
        &&& self.workload == other.workload
        &&& self.command_buffers@ == other.command_buffers@
    }

    /// Builds the initial pipeline (generation zero, for the given
    /// viewport) and records one command buffer per framebuffer of the
    /// manager's current generation.
    pub fn new(manager: &SwapchainManager, viewport: Extent, workload: DrawWorkload) -> (r:
        Renderer)
        ensures
            r.pipeline == (Pipeline { generation: 0, viewport }),
            r.workload == workload,
            r.targets(manager.framebuffers@),
    {
        let pipeline = Pipeline { generation: 0, viewport };
        let command_buffers = get_command_buffers(&manager.framebuffers, &pipeline, &workload);
        Renderer { pipeline, workload, command_buffers }
    }

    /// Rebuilds the pipeline for the new viewport and re-records every
    /// command buffer against the manager's current framebuffers. Invoked
    /// after any pipeline or framebuffer-set change; the previous buffers
    /// must no longer be referenced by in-flight GPU work, which the
    /// presentation loop's fence discipline enforces.
    pub fn recreate_command_buffer(&mut self, manager: &SwapchainManager, viewport: Extent)
        requires
            old(self).pipeline.generation < u64::MAX,
        ensures
            final(self).pipeline.generation == old(self).pipeline.generation + 1,
            final(self).pipeline.viewport == viewport,
            final(self).workload == old(self).workload,
            final(self).targets(manager.framebuffers@),
    {
        let new_pipeline = Pipeline { generation: self.pipeline.generation + 1, viewport };
        self.command_buffers = get_command_buffers(
            &manager.framebuffers,
            &new_pipeline,
            &self.workload,
        );
        self.pipeline = new_pipeline;
    }
}

/// Law: after any (re)build against a well-formed manager with N images,
/// exactly N command buffers exist and each references a distinct
/// framebuffer (buffer i targets framebuffer i and no other).
pub proof fn lemma_command_buffers_distinct(r: Renderer, m: SwapchainManager)
    requires
        m.wf(),
        r.targets(m.framebuffers@),
    ensures
        r.command_buffers@.len() == m.image_count,
        forall|i: int| 0 <= i < r.command_buffers@.len() ==> (#[trigger] r.command_buffers@[i]).framebuffer_index == i,
        forall|i: int, j: int|
            0 <= i < r.command_buffers@.len() && 0 <= j < r.command_buffers@.len() && i != j
                ==> (#[trigger] r.command_buffers@[i]).framebuffer_index != (
            #[trigger] r.command_buffers@[j]).framebuffer_index,
{
    assert forall|i: int| 0 <= i < r.command_buffers@.len() implies (
    #[trigger] r.command_buffers@[i]).framebuffer_index == i by {
        assert(records_draw(r.command_buffers@[i], m.framebuffers@[i], r.pipeline, r.workload));
        assert(m.framebuffers@[i].image_index == i);
    }
}

} // verus!
