use frame_render::commands::{
    CommandBufferUsage, DrawCommand, Format, Framebuffer, FragmentStage, ImageView, LoadOp,
    MemoryAllocator, PrimaryCommand, Queue, Rgba, RenderPassDesc, StoreOp, Subpass,
    SubpassContents, VertexStage, Viewport,
};
use frame_render::render::{
    triangle, FrameOutcome, PosVertex, Render, RenderError, TriangleDrawPipeline,
};
use frame_render::sync::GpuFuture;

fn allocator() -> MemoryAllocator {
    MemoryAllocator { supports_device_local: true }
}

fn graphics_queue() -> Queue {
    Queue { family_index: 2, supports_graphics: true }
}

fn swapchain_format() -> Format {
    Format { code: 44 }
}

fn renderer() -> Render {
    Render::new(allocator(), graphics_queue(), swapchain_format())
}

#[test]
fn vertex_buffer_holds_the_three_fixed_vertices() {
    let vertices = triangle();
    assert_eq!(vertices.len(), 3);
    assert_eq!(vertices[0], PosVertex::new(0, -500));
    assert_eq!(vertices[1], PosVertex::new(500, 500));
    assert_eq!(vertices[2], PosVertex::new(-500, 500));
}

#[test]
fn vertex_data_does_not_depend_on_viewport_size() {
    let r = renderer();
    let mut p1 = r.triangle_draw_pipeline.clone();
    let mut p2 = r.triangle_draw_pipeline.clone();
    let small = p1.draw([1, 1]);
    let large = p2.draw([1920, 1080]);
    assert_eq!(p1.vertices, p2.vertices);
    // Only the recorded viewport differs between the two extents.
    assert_eq!(small.commands[1..], large.commands[1..]);
}

#[test]
fn draw_records_the_exact_viewport() {
    let r = renderer();
    let mut pipeline = r.triangle_draw_pipeline;
    let buffer = pipeline.draw([640, 480]);
    assert_eq!(
        buffer.commands[0],
        DrawCommand::SetViewport {
            first: 0,
            viewport: Viewport { x: 0, y: 0, width: 640, height: 480, depth_min: 0, depth_max: 1 },
        }
    );
}

#[test]
fn draw_records_pipeline_buffer_and_draw_call() {
    let r = renderer();
    let mut pipeline = r.triangle_draw_pipeline.clone();
    let buffer = pipeline.draw([800, 600]);
    assert_eq!(buffer.usage, CommandBufferUsage::MultipleSubmit);
    assert_eq!(buffer.queue_family_index, 2);
    assert_eq!(buffer.inheritance_subpass, pipeline.subpass);
    assert_eq!(buffer.commands.len(), 4);
    assert_eq!(
        buffer.commands[1],
        DrawCommand::BindPipelineGraphics { pipeline: pipeline.pipeline }
    );
    assert_eq!(buffer.commands[2], DrawCommand::BindVertexBuffers { first_binding: 0 });
    assert_eq!(
        buffer.commands[3],
        DrawCommand::Draw { vertex_count: 3, instance_count: 1, first_vertex: 0, first_instance: 0 }
    );
}

#[test]
fn draw_twice_with_same_dimensions_is_identical() {
    let r = renderer();
    let mut pipeline = r.triangle_draw_pipeline;
    let first = pipeline.draw([1024, 768]);
    let second = pipeline.draw([1024, 768]);
    assert_eq!(first, second);
}

#[test]
fn construction_pins_the_whole_pipeline_configuration() {
    let pipeline = TriangleDrawPipeline::new(
        allocator(),
        graphics_queue(),
        Subpass {
            render_pass: RenderPassDesc {
                color_format: swapchain_format(),
                samples: 1,
                load_op: LoadOp::Clear,
                store_op: StoreOp::Store,
            },
            index: 0,
        },
    );
    let config = pipeline.pipeline;
    assert_eq!(config.vertex_stage, VertexStage::PassThrough2d);
    assert_eq!(
        config.fragment_stage,
        FragmentStage::ConstantColor {
            color: Rgba { r_milli: 1000, g_milli: 0, b_milli: 0, a_milli: 1000 },
        }
    );
    assert_eq!(config.vertex_stride, 8);
    assert_eq!(config.descriptor_set_layouts, 0);
    assert!(config.dynamic_viewport);
    assert_eq!(config.color_attachments, 1);
    assert!(!config.blend_enabled);
    assert_eq!(config.subpass.index, 0);
}

#[test]
fn render_pass_matches_the_swapchain_format() {
    let r = renderer();
    assert_eq!(
        r.render_pass,
        RenderPassDesc {
            color_format: swapchain_format(),
            samples: 1,
            load_op: LoadOp::Clear,
            store_op: StoreOp::Store,
        }
    );
}

#[test]
fn one_render_on_a_100x100_target_records_the_full_frame() {
    let mut r = renderer();
    let target = ImageView { format: swapchain_format(), width: 100, height: 100 };
    let submission = r.render(GpuFuture::at(0), target).expect("matching format must succeed");

    assert_eq!(submission.queue, graphics_queue());
    assert_eq!(submission.command_buffer.usage, CommandBufferUsage::OneTimeSubmit);
    assert_eq!(submission.command_buffer.queue_family_index, 2);
    let commands = &submission.command_buffer.commands;
    assert_eq!(commands.len(), 3);
    // The pass begins on a fresh framebuffer binding exactly this target,
    // clearing the sole color attachment to transparent black.
    assert_eq!(
        commands[0],
        PrimaryCommand::BeginRenderPass {
            framebuffer: Framebuffer { render_pass: r.render_pass, attachment: target },
            clear_color: Rgba { r_milli: 0, g_milli: 0, b_milli: 0, a_milli: 0 },
            contents: SubpassContents::SecondaryCommandBuffers,
        }
    );
    // The executed secondary buffer draws the triangle, in opaque red,
    // through a viewport covering the full 100x100 target.
    match &commands[1] {
        PrimaryCommand::ExecuteCommands { buffer } => {
            assert_eq!(
                buffer.commands[0],
                DrawCommand::SetViewport {
                    first: 0,
                    viewport: Viewport {
                        x: 0,
                        y: 0,
                        width: 100,
                        height: 100,
                        depth_min: 0,
                        depth_max: 1,
                    },
                }
            );
            match buffer.commands[1] {
                DrawCommand::BindPipelineGraphics { pipeline } => {
                    assert_eq!(
                        pipeline.fragment_stage,
                        FragmentStage::ConstantColor {
                            color: Rgba { r_milli: 1000, g_milli: 0, b_milli: 0, a_milli: 1000 },
                        }
                    );
                }
                ref other => panic!("expected a pipeline bind, found {:?}", other),
            }
            assert_eq!(
                buffer.commands[3],
                DrawCommand::Draw {
                    vertex_count: 3,
                    instance_count: 1,
                    first_vertex: 0,
                    first_instance: 0,
                }
            );
        }
        other => panic!("expected secondary execution, found {:?}", other),
    }
    assert_eq!(commands[2], PrimaryCommand::EndRenderPass);
}

#[test]
fn mismatched_target_format_fails_deterministically() {
    let mut r = renderer();
    let target = ImageView { format: Format { code: 50 }, width: 100, height: 100 };
    let err = r.render(GpuFuture::at(0), target).expect_err("format mismatch must fail");
    assert_eq!(
        err,
        RenderError::FramebufferIncompatible {
            expected: swapchain_format(),
            found: Format { code: 50 },
        }
    );
}

#[test]
fn chained_renders_wait_each_on_the_previous_signal() {
    let mut r = renderer();
    let target = ImageView { format: swapchain_format(), width: 300, height: 200 };

    let mut future = GpuFuture::at(0);
    let mut previous_signal: Option<u64> = None;
    for i in 0..3u64 {
        let submission = r.render(future, target).expect("render must succeed");
        assert_eq!(submission.wait_point, i);
        assert_eq!(submission.after.point_value(), i + 1);
        if let Some(signal) = previous_signal {
            // Frame i waits exactly on what frame i-1 signalled.
            assert_eq!(submission.wait_point, signal);
        }
        previous_signal = Some(submission.after.point_value());
        future = submission.after;
    }
}

#[test]
fn acquire_failure_skips_the_frame_entirely() {
    let mut r = renderer();
    let untouched = r.clone();
    match frame_render::render::frame_step(&mut r, None) {
        FrameOutcome::Skipped => {}
        FrameOutcome::Rendered { .. } => panic!("no frame may be rendered without an image"),
        FrameOutcome::Failed { .. } => panic!("a skipped frame is not a failure"),
    }
    assert_eq!(r, untouched);
}

#[test]
fn successful_acquire_renders_the_frame() {
    let mut r = renderer();
    let target = ImageView { format: swapchain_format(), width: 1920, height: 1080 };
    match frame_render::render::frame_step(&mut r, Some((GpuFuture::at(5), target))) {
        FrameOutcome::Rendered { submission } => {
            assert_eq!(submission.wait_point, 5);
            assert_eq!(submission.after.point_value(), 6);
            assert_eq!(submission.command_buffer.commands.len(), 3);
        }
        FrameOutcome::Skipped => panic!("an acquired frame must not be skipped"),
        FrameOutcome::Failed { error } => panic!("unexpected failure: {:?}", error),
    }
}

#[test]
fn acquire_failure_then_retry_succeeds_next_iteration() {
    let mut r = renderer();
    let target = ImageView { format: swapchain_format(), width: 640, height: 480 };
    match frame_render::render::frame_step(&mut r, None) {
        FrameOutcome::Skipped => {}
        other => panic!("expected a skipped frame, found {:?}", outcome_name(&other)),
    }
    match frame_render::render::frame_step(&mut r, Some((GpuFuture::at(0), target))) {
        FrameOutcome::Rendered { submission } => assert_eq!(submission.wait_point, 0),
        other => panic!("expected a rendered frame, found {:?}", outcome_name(&other)),
    }
}

#[test]
fn draw_handles_the_largest_extent() {
    let r = renderer();
    let mut pipeline = r.triangle_draw_pipeline;
    let buffer = pipeline.draw([u32::MAX, u32::MAX]);
    assert_eq!(
        buffer.commands[0],
        DrawCommand::SetViewport {
            first: 0,
            viewport: Viewport {
                x: 0,
                y: 0,
                width: u32::MAX,
                height: u32::MAX,
                depth_min: 0,
                depth_max: 1,
            },
        }
    );
}

#[test]
fn frame_step_reports_a_recording_failure() {
    let mut r = renderer();
    let target = ImageView { format: Format { code: 99 }, width: 640, height: 480 };
    match frame_render::render::frame_step(&mut r, Some((GpuFuture::at(0), target))) {
        FrameOutcome::Failed { error } => assert_eq!(
            error,
            RenderError::FramebufferIncompatible {
                expected: swapchain_format(),
                found: Format { code: 99 },
            }
        ),
        other => panic!("expected a failed frame, found {:?}", outcome_name(&other)),
    }
}

fn outcome_name(outcome: &FrameOutcome) -> &'static str {
    match outcome {
        FrameOutcome::Skipped => "Skipped",
        FrameOutcome::Rendered { .. } => "Rendered",
        FrameOutcome::Failed { .. } => "Failed",
    }
}
