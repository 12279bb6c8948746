//! The data the recording logic works on: the handles it is given at
//! construction, the configuration it builds once, and the command
//! transcripts it records per frame.
//!
//! Everything here is plain data. Fractional quantities that the graphics
//! API takes as floating point (clip-space coordinates, color channels) are
//! held in thousandths, which represents every value this renderer ever
//! uses exactly.

use vstd::prelude::*;

verus! {

/// A pixel format, identified by its numeric code. The recording logic
/// never inspects a format beyond comparing codes for equality.
#[derive(Clone, Copy, PartialEq, Eq, Structural, Debug)]
pub struct Format {
    pub code: u32,
}

/// A submission queue as the recording logic sees it: its queue family
/// index and whether that family can take graphics work.
#[derive(Clone, Copy, PartialEq, Eq, Structural, Debug)]
pub struct Queue {
    pub family_index: u32,
    pub supports_graphics: bool,
}

/// A device memory allocator as the recording logic sees it: all it relies
/// on is whether device-local allocations can be served.
#[derive(Clone, Copy, PartialEq, Eq, Structural, Debug)]
pub struct MemoryAllocator {
    pub supports_device_local: bool,
}

/// A view into a target image: its pixel format and its extent. Ownership
/// of the underlying image is transient and stays with the swapchain; per
/// frame the collaborator hands in a fresh view.
#[derive(Clone, Copy, PartialEq, Eq, Structural, Debug)]
pub struct ImageView {
    pub format: Format,
    pub width: u32,
    pub height: u32,
}

/// What happens to an attachment when a render pass begins.
#[derive(Clone, Copy, PartialEq, Eq, Structural, Debug)]
pub enum LoadOp {
    Clear,
    Load,
}

/// What happens to an attachment when a render pass ends.
#[derive(Clone, Copy, PartialEq, Eq, Structural, Debug)]
pub enum StoreOp {
    Store,
    DontCare,
}

/// The render pass: one single-sampled color attachment, cleared on load
/// and stored on end, and one subpass with no depth/stencil. Its invariant:
/// the attachment format must match the format of every framebuffer image
/// used with it.
#[derive(Clone, Copy, PartialEq, Eq, Structural, Debug)]
pub struct RenderPassDesc {
    pub color_format: Format,
    pub samples: u32,
    pub load_op: LoadOp,
    pub store_op: StoreOp,
}

/// One subpass of a render pass, named by index.
#[derive(Clone, Copy, PartialEq, Eq, Structural, Debug)]
pub struct Subpass {
    pub render_pass: RenderPassDesc,
    pub index: u32,
}

/// A framebuffer binds the render pass to one concrete target image view.
/// Built fresh every frame and discarded after use.
#[derive(Clone, Copy, PartialEq, Eq, Structural, Debug)]
pub struct Framebuffer {
    pub render_pass: RenderPassDesc,
    pub attachment: ImageView,
}

/// An RGBA color with channels in thousandths (1000 is full intensity).
#[derive(Clone, Copy, PartialEq, Eq, Structural, Debug)]
pub struct Rgba {
    pub r_milli: u32,
    pub g_milli: u32,
    pub b_milli: u32,
    pub a_milli: u32,
}

/// A viewport rectangle in whole pixels, with a whole-unit depth range
/// (this renderer only ever uses the full [0, 1] range).
#[derive(Clone, Copy, PartialEq, Eq, Structural, Debug)]
pub struct Viewport {
    pub x: u32,
    pub y: u32,
    pub width: u32,
    pub height: u32,
    pub depth_min: u32,
    pub depth_max: u32,
}

/// What the vertex stage computes.
#[derive(Clone, Copy, PartialEq, Eq, Structural, Debug)]
pub enum VertexStage {
    /// Passes the 2-D input position through as the homogeneous clip-space
    /// position (x, y, 0, 1).
    PassThrough2d,
}

/// What the fragment stage computes.
#[derive(Clone, Copy, PartialEq, Eq, Structural, Debug)]
pub enum FragmentStage {
    /// Emits one constant color for every covered fragment.
    ConstantColor { color: Rgba },
}

/// The immutable compiled state of the graphics pipeline: shader stages,
/// vertex input layout, fixed-function configuration and subpass binding.
/// Every default is spelled out so the contract stays auditable; none of
/// these fields ever changes after construction.
#[derive(Clone, Copy, PartialEq, Eq, Structural, Debug)]
pub struct GraphicsPipelineConfig {
    pub vertex_stage: VertexStage,
    pub fragment_stage: FragmentStage,
    /// Bytes per vertex: one 2-D position of two 32-bit channels.
    pub vertex_stride: u32,
    /// No descriptor sets: the pipeline takes no uniforms or textures.
    pub descriptor_set_layouts: u32,
    /// The viewport is the sole dynamic state, so a window resize never
    /// forces a pipeline rebuild.
    pub dynamic_viewport: bool,
    pub color_attachments: u32,
    pub blend_enabled: bool,
    pub subpass: Subpass,
}

/// How often a recorded command buffer may be submitted.
#[derive(Clone, Copy, PartialEq, Eq, Structural, Debug)]
pub enum CommandBufferUsage {
    OneTimeSubmit,
    MultipleSubmit,
}

/// Where the commands of a subpass come from.
#[derive(Clone, Copy, PartialEq, Eq, Structural, Debug)]
pub enum SubpassContents {
    Inline,
    SecondaryCommandBuffers,
}

/// One recorded command of a secondary (draw) command buffer. The vertex
/// buffer a command binds is the pipeline's one fixed buffer, named by its
/// binding slot.
#[derive(Clone, Copy, PartialEq, Eq, Structural, Debug)]
pub enum DrawCommand {
    /// Set the dynamic viewport, starting at viewport slot `first`.
    SetViewport { first: u32, viewport: Viewport },
    BindPipelineGraphics { pipeline: GraphicsPipelineConfig },
    /// Bind the pipeline's vertex buffer at binding slot `first_binding`.
    BindVertexBuffers { first_binding: u32 },
    Draw {
        vertex_count: u32,
        instance_count: u32,
        first_vertex: u32,
        first_instance: u32,
    },
}

/// A pre-recorded draw command list, compatible with execution inside any
/// primary command buffer that has begun the matching render pass/subpass
/// (carried as inheritance metadata). Logically stateless: nothing in it
/// depends on earlier frames.
#[derive(Clone, PartialEq, Debug)]
pub struct SecondaryCommandBuffer {
    pub queue_family_index: u32,
    pub usage: CommandBufferUsage,
    pub inheritance_subpass: Subpass,
    pub commands: Vec<DrawCommand>,
}

/// One recorded command of a primary command buffer.
#[derive(Clone, PartialEq, Debug)]
pub enum PrimaryCommand {
    BeginRenderPass {
        framebuffer: Framebuffer,
        clear_color: Rgba,
        contents: SubpassContents,
    },
    ExecuteCommands { buffer: SecondaryCommandBuffer },
    EndRenderPass,
}

/// A one-time-submit command sequence, built fresh per frame, submitted to
/// the graphics queue and then discarded.
#[derive(Clone, PartialEq, Debug)]
pub struct PrimaryCommandBuffer {
    pub queue_family_index: u32,
    pub usage: CommandBufferUsage,
    pub commands: Vec<PrimaryCommand>,
}

} // verus!
