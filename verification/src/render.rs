//! The render core: the fixed draw pipeline built once at startup, and the
//! per-frame transaction that records one frame and extends the GPU future
//! chain.

use crate::commands::{
    CommandBufferUsage, DrawCommand, Format, Framebuffer, FragmentStage, GraphicsPipelineConfig,
    ImageView, LoadOp, MemoryAllocator, PrimaryCommand, PrimaryCommandBuffer, Queue, Rgba,
    RenderPassDesc, SecondaryCommandBuffer, StoreOp, Subpass, SubpassContents, VertexStage,
    Viewport,
};
use crate::sync::GpuFuture;
use vstd::prelude::*;

verus! {

/// One vertex: a 2-D clip-space position with coordinates in thousandths
/// of a clip-space unit.
#[derive(Clone, Copy, PartialEq, Eq, Structural, Debug)]
pub struct PosVertex {
    pub x_milli: i32,
    pub y_milli: i32,
}

impl PosVertex {
    pub fn new(x_milli: i32, y_milli: i32) -> (r: Self)
        ensures
            r == (PosVertex { x_milli, y_milli }),
    {
        PosVertex { x_milli, y_milli }
    }
}

/// The one fixed vertex set this renderer ever draws: a triangle standing
/// on its apex, at (0, -0.5), (0.5, 0.5), (-0.5, 0.5) in clip space.
pub open spec fn triangle_vertices() -> Seq<PosVertex> {
    seq![
        PosVertex { x_milli: 0, y_milli: -500i32 },
        PosVertex { x_milli: 500, y_milli: 500 },
        PosVertex { x_milli: -500i32, y_milli: 500 },
    ]
}

/// Builds the fixed vertex data.
pub fn triangle() -> (r: Vec<PosVertex>)
    ensures
        r@ == triangle_vertices(),
{
    let mut v: Vec<PosVertex> = Vec::new();
    v.push(PosVertex { x_milli: 0, y_milli: -500 });
    v.push(PosVertex { x_milli: 500, y_milli: 500 });
    v.push(PosVertex { x_milli: -500, y_milli: 500 });
    proof {
        assert(v@ =~= triangle_vertices());
    }
    v
}

/// Opaque red: the constant color the fragment stage emits.
pub open spec fn opaque_red() -> Rgba {
    Rgba { r_milli: 1000, g_milli: 0, b_milli: 0, a_milli: 1000 }
}

/// Transparent black: the clear value of the sole color attachment.
pub open spec fn transparent_black() -> Rgba {
    Rgba { r_milli: 0, g_milli: 0, b_milli: 0, a_milli: 0 }
}

/// The render pass built at startup for a given swapchain format: one
/// single-sampled color attachment, cleared on load and stored on end.
pub open spec fn render_pass_for(output_format: Format) -> RenderPassDesc {
    RenderPassDesc {
        color_format: output_format,
        samples: 1,
        load_op: LoadOp::Clear,
        store_op: StoreOp::Store,
    }
}

/// The pipeline configuration compiled once at startup: pass-through
/// vertex stage, constant-red fragment stage, no descriptor sets, no
/// blending, dynamic viewport, bound to the given subpass.
pub open spec fn pipeline_config_for(subpass: Subpass) -> GraphicsPipelineConfig {
    GraphicsPipelineConfig {
        vertex_stage: VertexStage::PassThrough2d,
        fragment_stage: FragmentStage::ConstantColor { color: opaque_red() },
        vertex_stride: 8,
        descriptor_set_layouts: 0,
        dynamic_viewport: true,
        color_attachments: 1,
        blend_enabled: false,
        subpass,
    }
}

/// The dynamic viewport recorded for a target of the given extent: origin
/// (0, 0), full extent, full [0, 1] depth range.
pub open spec fn viewport_for(width: u32, height: u32) -> Viewport {
    Viewport { x: 0, y: 0, width, height, depth_min: 0, depth_max: 1 }
}

/// The exact command sequence a draw recording holds for the given
/// pipeline state and viewport extent: set viewport, bind pipeline, bind
/// the vertex buffer at slot 0, draw every vertex once, non-indexed.
pub open spec fn draw_commands(
    p: TriangleDrawPipeline,
    width: u32,
    height: u32,
) -> Seq<DrawCommand> {
    seq![
        DrawCommand::SetViewport { first: 0, viewport: viewport_for(width, height) },
        DrawCommand::BindPipelineGraphics { pipeline: p.pipeline },
        DrawCommand::BindVertexBuffers { first_binding: 0 },
        DrawCommand::Draw {
            vertex_count: p.vertices@.len() as u32,
            instance_count: 1,
            first_vertex: 0,
            first_instance: 0,
        },
    ]
}

/// What it means for a secondary command buffer to be the recording of one
/// draw request: recorded for the pipeline's queue family, reusable across
/// submissions, inheriting the pipeline's subpass, holding exactly the
/// draw command sequence for this state and extent.
pub open spec fn secondary_recorded(
    b: SecondaryCommandBuffer,
    p: TriangleDrawPipeline,
    width: u32,
    height: u32,
) -> bool {
    &&& b.queue_family_index == p.gfx_queue.family_index
    &&& b.usage == CommandBufferUsage::MultipleSubmit
    &&& b.inheritance_subpass == p.subpass
    &&& b.commands@ == draw_commands(p, width, height)
}

/// The compiled draw program: graphics pipeline, subpass binding and the
/// fixed vertex buffer, built once and immutable thereafter. Separate from
/// any per-frame target binding: framebuffer identity never enters it.
#[derive(Clone, PartialEq, Debug)]
pub struct TriangleDrawPipeline {
    pub gfx_queue: Queue,
    pub pipeline: GraphicsPipelineConfig,
    pub subpass: Subpass,
    pub vertices: Vec<PosVertex>,
}

impl TriangleDrawPipeline {
    /// Well-formedness: what construction establishes and every recording
    /// preserves.
    pub open spec fn wf(self) -> bool {
        &&& self.gfx_queue.supports_graphics
        &&& self.pipeline == pipeline_config_for(self.subpass)
        &&& self.vertices@ == triangle_vertices()
    }

    /// Builds the fixed drawing pipeline: uploads the fixed vertex buffer,
    /// compiles the two shader stages, lays out a pipeline with no
    /// descriptor sets and the viewport as sole dynamic state, bound to
    /// the given subpass.
    pub fn new(allocator: MemoryAllocator, gfx_queue: Queue, subpass: Subpass) -> (r: Self)
        requires
            allocator.supports_device_local,
            gfx_queue.supports_graphics,
        ensures
            r.wf(),
            r.gfx_queue == gfx_queue,
            r.subpass == subpass,
            r.pipeline == pipeline_config_for(subpass),
            r.vertices@ == triangle_vertices(),
    {
        let vertices = triangle();
        let pipeline = GraphicsPipelineConfig {
            vertex_stage: VertexStage::PassThrough2d,
            fragment_stage: FragmentStage::ConstantColor {
                color: Rgba { r_milli: 1000, g_milli: 0, b_milli: 0, a_milli: 1000 },
            },
            vertex_stride: 8,
            descriptor_set_layouts: 0,
            dynamic_viewport: true,
            color_attachments: 1,
            blend_enabled: false,
            subpass,
        };
        TriangleDrawPipeline { gfx_queue, pipeline, subpass, vertices }
    }

    /// Records one reusable secondary command buffer for the given
    /// viewport extent: set the dynamic viewport to the full extent, bind
    /// the pipeline, bind the vertex buffer at slot 0, draw every vertex
    /// once. No submission happens here, and nothing of the pipeline
    /// state changes: the result is a function of the state and the
    /// requested extent alone.
    pub fn draw(&mut self, viewport_dimensions: [u32; 2]) -> (r: SecondaryCommandBuffer)
        requires
            old(self).wf(),
        ensures
            *final(self) == *old(self),
            secondary_recorded(r, *old(self), viewport_dimensions[0], viewport_dimensions[1]),
    {
        let width = viewport_dimensions[0];
        let height = viewport_dimensions[1];
        let mut commands: Vec<DrawCommand> = Vec::new();
        commands.push(DrawCommand::SetViewport {
            first: 0,
            viewport: Viewport { x: 0, y: 0, width, height, depth_min: 0, depth_max: 1 },
        });
        commands.push(DrawCommand::BindPipelineGraphics { pipeline: self.pipeline });
        commands.push(DrawCommand::BindVertexBuffers { first_binding: 0 });
        let vertex_count = self.vertices.len() as u32;
        commands.push(DrawCommand::Draw {
            vertex_count,
            instance_count: 1,
            first_vertex: 0,
            first_instance: 0,
        });
        proof {
            assert(commands@ =~= draw_commands(*old(self), width, height));
        }
        SecondaryCommandBuffer {
            queue_family_index: self.gfx_queue.family_index,
            usage: CommandBufferUsage::MultipleSubmit,
            inheritance_subpass: self.subpass,
            commands,
        }
    }
}

/// Why a frame could not be recorded.
#[derive(Clone, Copy, PartialEq, Eq, Structural, Debug)]
pub enum RenderError {
    /// Framebuffer construction failed: the target image view's format
    /// does not match the render pass's color attachment format. A
    /// recoverable, per-frame condition: skip presenting and retry on the
    /// next iteration.
    FramebufferIncompatible { expected: Format, found: Format },
}

/// One frame's outgoing work: the sealed primary command buffer, the
/// queue it must be submitted to, the chain point the GPU must wait for
/// before starting it, and the new token for the extended chain. The
/// caller gates both the next frame's submission and presentation on
/// `after`.
#[derive(Debug)]
pub struct FrameSubmission {
    pub queue: Queue,
    pub command_buffer: PrimaryCommandBuffer,
    pub wait_point: u64,
    pub after: GpuFuture,
}

/// The exact primary command sequence of one frame against renderer state
/// `r` and target `target`: begin the render pass on a fresh framebuffer
/// binding the target, clearing the sole color attachment to transparent
/// black and taking subpass contents from secondary buffers; execute the
/// draw recording sized to the target's extent; end the render pass.
pub open spec fn primary_commands_recorded(
    cmds: Seq<PrimaryCommand>,
    r: Render,
    target: ImageView,
) -> bool {
    &&& cmds.len() == 3
    &&& cmds[0] matches PrimaryCommand::BeginRenderPass { framebuffer, clear_color, contents }
        && framebuffer == (Framebuffer { render_pass: r.render_pass, attachment: target })
        && clear_color == transparent_black()
        && contents == SubpassContents::SecondaryCommandBuffers
    &&& cmds[1] matches PrimaryCommand::ExecuteCommands { buffer }
        && secondary_recorded(buffer, r.triangle_draw_pipeline, target.width, target.height)
    &&& cmds[2] is EndRenderPass
}

/// What it means for a submission to be the complete recording of one
/// frame: a one-time-submit primary buffer for the renderer's queue
/// holding exactly the frame's command sequence, waiting on the incoming
/// chain point and signalling the next one.
pub open spec fn frame_submission_recorded(
    sub: FrameSubmission,
    r: Render,
    before_point: u64,
    target: ImageView,
) -> bool {
    &&& sub.queue == r.gfx_queue
    &&& sub.command_buffer.queue_family_index == r.gfx_queue.family_index
    &&& sub.command_buffer.usage == CommandBufferUsage::OneTimeSubmit
    &&& primary_commands_recorded(sub.command_buffer.commands@, r, target)
    &&& sub.wait_point == before_point
    &&& sub.after.point() == before_point + 1
}

/// The frame renderer: owns the render pass and the compiled draw
/// program, and orchestrates exactly one frame per call. It keeps no
/// other state across frames.
#[derive(Clone, PartialEq, Debug)]
pub struct Render {
    pub gfx_queue: Queue,
    pub render_pass: RenderPassDesc,
    pub triangle_draw_pipeline: TriangleDrawPipeline,
}

impl Render {
    /// Well-formedness: what construction establishes and every frame
    /// preserves. The draw program is compiled against subpass 0 of the
    /// owned render pass, on the same graphics-capable queue.
    pub open spec fn wf(self) -> bool {
        &&& self.gfx_queue.supports_graphics
        &&& self.render_pass.samples == 1
        &&& self.render_pass.load_op == LoadOp::Clear
        &&& self.render_pass.store_op == StoreOp::Store
        &&& self.triangle_draw_pipeline.wf()
        &&& self.triangle_draw_pipeline.gfx_queue == self.gfx_queue
        &&& self.triangle_draw_pipeline.subpass
            == (Subpass { render_pass: self.render_pass, index: 0 })
    }

    /// Builds the per-process render state: the single-attachment render
    /// pass for the swapchain's format, and the triangle draw pipeline
    /// compiled against its first subpass.
    pub fn new(allocator: MemoryAllocator, gfx_queue: Queue, output_format: Format) -> (r: Self)
        requires
            allocator.supports_device_local,
            gfx_queue.supports_graphics,
        ensures
            r.wf(),
            r.gfx_queue == gfx_queue,
            r.render_pass == render_pass_for(output_format),
            r.triangle_draw_pipeline.vertices@ == triangle_vertices(),
    {
        let render_pass = RenderPassDesc {
            color_format: output_format,
            samples: 1,
            load_op: LoadOp::Clear,
            store_op: StoreOp::Store,
        };
        let subpass = Subpass { render_pass, index: 0 };
        let triangle_draw_pipeline = TriangleDrawPipeline::new(allocator, gfx_queue, subpass);
        Render { gfx_queue, render_pass, triangle_draw_pipeline }
    }

    /// One frame as a complete, independent transaction: build a
    /// framebuffer for the supplied target, record the primary command
    /// buffer (begin render pass with a transparent-black clear, execute
    /// the secondary draw recording sized to the target, end render
    /// pass), seal it, and chain it after `before_future` on the graphics
    /// queue.
    ///
    /// Succeeds exactly when the target's format matches the render
    /// pass's color attachment format; otherwise framebuffer construction
    /// fails, no partial frame exists, and the renderer is unchanged
    /// either way. `before_future` is consumed: on success the returned
    /// submission carries the token for the extended chain.
    pub fn render(&mut self, before_future: GpuFuture, target: ImageView) -> (r: Result<
        FrameSubmission,
        RenderError,
    >)
        requires
            old(self).wf(),
            before_future.point() < u64::MAX,
        ensures
            *final(self) == *old(self),
            r is Ok <==> target.format == old(self).render_pass.color_format,
            r matches Ok(sub) ==> frame_submission_recorded(
                sub,
                *old(self),
                before_future.point(),
                target,
            ),
            r matches Err(e) ==> e == (RenderError::FramebufferIncompatible {
                expected: old(self).render_pass.color_format,
                found: target.format,
            }),
    {
        if target.format != self.render_pass.color_format {
            return Err(RenderError::FramebufferIncompatible {
                expected: self.render_pass.color_format,
                found: target.format,
            });
        }
        let framebuffer = Framebuffer { render_pass: self.render_pass, attachment: target };
        let mut commands: Vec<PrimaryCommand> = Vec::new();
        commands.push(PrimaryCommand::BeginRenderPass {
            framebuffer,
            clear_color: Rgba { r_milli: 0, g_milli: 0, b_milli: 0, a_milli: 0 },
            contents: SubpassContents::SecondaryCommandBuffers,
        });
        let cb = self.triangle_draw_pipeline.draw([target.width, target.height]);
        commands.push(PrimaryCommand::ExecuteCommands { buffer: cb });
        commands.push(PrimaryCommand::EndRenderPass);
        let command_buffer = PrimaryCommandBuffer {
            queue_family_index: self.gfx_queue.family_index,
            usage: CommandBufferUsage::OneTimeSubmit,
            commands,
        };
        let wait_point = before_future.point_value();
        let after = GpuFuture::at(wait_point + 1);
        Ok(FrameSubmission { queue: self.gfx_queue, command_buffer, wait_point, after })
    }
}

/// What one iteration of the frame loop decided.
#[derive(Debug)]
pub enum FrameOutcome {
    /// The collaborator failed to acquire a swapchain image. The frame is
    /// skipped whole: no framebuffer and no command buffer were
    /// constructed, and nothing is presented this iteration.
    Skipped,
    /// A frame was recorded and chained: submit it and present gated on
    /// its `after` token.
    Rendered { submission: FrameSubmission },
    /// Recording failed after a successful acquire: skip presenting this
    /// frame and let the caller decide whether to retry next iteration.
    Failed { error: RenderError },
}

/// The decision core of one frame-loop iteration, with the outside work
/// (acquiring an image, submitting, presenting) left to the loop that
/// drives it. `acquired` is what the acquire step produced: the
/// wait-for-previous-work token and the view of the image to write, or
/// nothing if acquisition failed. An acquire failure skips the frame
/// before any construction; otherwise the renderer records the frame
/// against the acquired target.
pub fn frame_step(render: &mut Render, acquired: Option<(GpuFuture, ImageView)>) -> (r:
    FrameOutcome)
    requires
        old(render).wf(),
        acquired matches Some((f, _)) ==> f.point() < u64::MAX,
    ensures
        *final(render) == *old(render),
        acquired is None ==> r is Skipped,
        acquired matches Some((f, t)) ==> if t.format == old(render).render_pass.color_format {
            r matches FrameOutcome::Rendered { submission } && frame_submission_recorded(
                submission,
                *old(render),
                f.point(),
                t,
            )
        } else {
            r matches FrameOutcome::Failed { error } && error
                == (RenderError::FramebufferIncompatible {
                expected: old(render).render_pass.color_format,
                found: t.format,
            })
        },
{
    match acquired {
        None => FrameOutcome::Skipped,
        Some((before_future, target)) => match render.render(before_future, target) {
            Ok(submission) => FrameOutcome::Rendered { submission },
            Err(error) => FrameOutcome::Failed { error },
        },
    }
}

/// The chaining discipline over a whole run: submission `i` waits on the
/// chain point the previous submission signalled (the first on the
/// starting point), and signals the next point.
pub open spec fn chained_after(subs: Seq<FrameSubmission>, start: u64) -> bool {
    forall|i: int|
        0 <= i < subs.len() ==> {
            &&& (#[trigger] subs[i]).wait_point == if i == 0 {
                start
            } else {
                subs[i - 1].after.point()
            }
            &&& subs[i].after.point() == subs[i].wait_point + 1
        }
}

/// The ordering law of the future chain: when N frames are chained, each
/// on the token the previous frame returned, submission i waits on
/// exactly the i-th chain point and signals strictly after it, so GPU
/// submission order matches frame order and no frame's work starts before
/// its own wait token's signal.
pub proof fn lemma_chain_orders_frames(subs: Seq<FrameSubmission>, start: u64)
    requires
        chained_after(subs, start),
    ensures
        forall|i: int|
            0 <= i < subs.len() ==> {
                &&& (#[trigger] subs[i]).wait_point == start + i
                &&& subs[i].after.point() == start + i + 1
                &&& subs[i].wait_point < subs[i].after.point()
            },
    decreases subs.len(),
{
    if subs.len() > 0 {
        let prefix = subs.drop_last();
        assert(chained_after(prefix, start));
        lemma_chain_orders_frames(prefix, start);
        assert forall|i: int| 0 <= i < subs.len() implies {
            &&& (#[trigger] subs[i]).wait_point == start + i
            &&& subs[i].after.point() == start + i + 1
            &&& subs[i].wait_point < subs[i].after.point()
        } by {
            if i < subs.len() - 1 {
                assert(prefix[i] == subs[i]);
            } else if i > 0 {
                assert(prefix[i - 1] == subs[i - 1]);
            }
        }
    }
}

/// The vertex data law: the vertex buffer of a well-formed renderer holds
/// exactly the three fixed vertices (0, -0.5), (0.5, 0.5), (-0.5, 0.5) —
/// in thousandths of a clip-space unit — whatever the viewport size; the
/// viewport transform, not the vertex data, adapts to the window.
pub proof fn lemma_vertex_data_fixed(r: Render)
    requires
        r.wf(),
    ensures
        r.triangle_draw_pipeline.vertices@.len() == 3,
        r.triangle_draw_pipeline.vertices@[0] == (PosVertex { x_milli: 0, y_milli: -500i32 }),
        r.triangle_draw_pipeline.vertices@[1] == (PosVertex { x_milli: 500, y_milli: 500 }),
        r.triangle_draw_pipeline.vertices@[2] == (PosVertex { x_milli: -500i32, y_milli: 500 }),
{
}

/// The viewport law: for any positive extent, a draw recording starts by
/// setting the viewport to exactly [0, 0, width, height] with the full
/// [0, 1] depth range, and the rest of the recording does not depend on
/// the extent at all.
pub proof fn lemma_draw_sets_exact_viewport(p: TriangleDrawPipeline, width: u32, height: u32)
    requires
        width > 0,
        height > 0,
    ensures
        draw_commands(p, width, height)[0] == (DrawCommand::SetViewport {
            first: 0,
            viewport: Viewport { x: 0, y: 0, width, height, depth_min: 0, depth_max: 1 },
        }),
        draw_commands(p, width, height).skip(1) == draw_commands(p, 1, 1).skip(1),
{
    assert(draw_commands(p, width, height).skip(1) =~= draw_commands(p, 1, 1).skip(1));
}

/// The idempotence law: recording depends on nothing but the pipeline
/// state and the requested extent, so two recordings made from the same
/// state with the same viewport dimensions hold identical commands,
/// inheritance and usage — there is no hidden frame counter.
pub proof fn lemma_draw_idempotent(
    p: TriangleDrawPipeline,
    width: u32,
    height: u32,
    b1: SecondaryCommandBuffer,
    b2: SecondaryCommandBuffer,
)
    requires
        secondary_recorded(b1, p, width, height),
        secondary_recorded(b2, p, width, height),
    ensures
        b1.commands@ == b2.commands@,
        b1.inheritance_subpass == b2.inheritance_subpass,
        b1.usage == b2.usage,
        b1.queue_family_index == b2.queue_family_index,
{
}

} // verus!
