use gaclen::builder::GraphicalPass;
use gaclen::builder::Shader;
use gaclen::builder::SpecializationConstants;
use gaclen::device::Device;
use gaclen::format::ClearValue;
use gaclen::format::Format;
use gaclen::format::LoadOp;
use gaclen::format::StoreOp;
use gaclen::format::Viewport;
use gaclen::frame::AcquireError;
use gaclen::frame::AcquiredImage;
use gaclen::frame::Command;
use gaclen::frame::FlushError;
use gaclen::frame::Frame;
use gaclen::frame::FrameFinishError;
use gaclen::frame::Framebuffer;
use gaclen::frame::IndexBuffer;
use gaclen::frame::SubmitInfo;
use gaclen::frame::VertexBuffer;
use gaclen::swapchain::PresentMode;
use gaclen::swapchain::Swapchain;
use gaclen::swapchain::SurfaceCapabilities;
use gaclen::swapchain::SurfaceFormat;
use gaclen::sync::GpuFuture;

fn no_constants() -> SpecializationConstants {
    SpecializationConstants { kind: 0, data: 0 }
}

fn test_swapchain() -> Swapchain {
    let capabilities = SurfaceCapabilities {
        min_image_count: 2,
        supported_formats: vec![SurfaceFormat {
            format: Format { code: 50, depth: false },
            color_space: 0,
        }],
    };
    Swapchain::new(&capabilities, (800, 600), PresentMode::Fifo, Format { code: 124, depth: true })
        .unwrap()
}

fn color_pass() -> GraphicalPass {
    GraphicalPass::start()
        .vertex_input(vec![7])
        .vertex_shader(Shader { id: 1, inputs: vec![7], specialization_kind: 0 }, no_constants())
        .fragment_shader(Shader { id: 2, inputs: vec![], specialization_kind: 0 }, no_constants())
        .add_image_attachment(Format { code: 50, depth: false }, LoadOp::Clear, StoreOp::Store)
        .build()
        .unwrap()
}

fn acquired(index: usize, signal: u64) -> Result<AcquiredImage, AcquireError> {
    Ok(AcquiredImage { image_index: index, suboptimal: false, signal })
}

/// Beginning a frame prunes completed work first, then chains the acquired
/// image's signal after what remains of the prior future.
#[test]
fn begin_frame_prunes_then_chains() {
    let mut device = Device::new(1, 1, 1);
    device.before_frame = Some(GpuFuture::signal(3).join(GpuFuture::signal(4)));
    let swapchain = test_swapchain();

    let frame = Frame::begin(device, &swapchain, acquired(0, 9), &vec![3]).unwrap();
    assert_eq!(
        frame.time,
        GpuFuture::Join(
            Box::new(GpuFuture::Join(Box::new(GpuFuture::Now), Box::new(GpuFuture::Signal(4)))),
            Box::new(GpuFuture::Signal(9)),
        )
    );
    assert!(frame.device.before_frame.is_none());
    assert_eq!(frame.swapchain_index, 0);
    assert!(frame.commands.is_empty());
    assert_eq!(frame.viewport, Viewport { width: 800, height: 600, inverse_depth: false });
}

#[test]
fn begin_frame_returns_the_device_on_acquire_failure() {
    let mut device = Device::new(1, 1, 1);
    device.before_frame = Some(GpuFuture::signal(3));
    let swapchain = test_swapchain();

    let (returned, error) = match Frame::begin(device, &swapchain, Err(AcquireError::OutOfDate), &Vec::new()) {
        Err(pair) => pair,
        Ok(_) => panic!("an acquire failure must not begin a frame"),
    };
    assert_eq!(error, AcquireError::OutOfDate);
    // no state is lost: the pending future is still in place
    assert_eq!(returned.before_frame, Some(GpuFuture::Signal(3)));
}

/// A frame that begins a pass, issues zero draws, and finishes still
/// produces a submittable command buffer.
#[test]
fn empty_pass_still_submits() {
    let device = Device::new(1, 1, 1);
    let swapchain = test_swapchain();
    let pass = color_pass();

    let frame = Frame::begin(device, &swapchain, acquired(0, 9), &Vec::new()).unwrap();
    let viewport = swapchain.default_viewport();
    let in_pass = frame.begin_pass(
        &pass,
        Framebuffer { image_index: 0, attachment_count: 1 },
        viewport,
        vec![ClearValue::Float([0, 0, 0, 0])],
    );
    let frame = in_pass.finish_pass();
    assert_eq!(frame.commands.len(), 2);
    assert!(matches!(frame.commands[0], Command::BeginPass { .. }));
    assert_eq!(frame.commands[1], Command::EndPass);

    let time = GpuFuture::Join(Box::new(GpuFuture::Now), Box::new(GpuFuture::Signal(9)));
    let device = frame
        .finish(Ok(SubmitInfo { submission: 21, fence: 22 }))
        .unwrap();
    assert_eq!(
        device.before_frame,
        Some(GpuFuture::Fence(
            Box::new(GpuFuture::Present(
                Box::new(GpuFuture::Execute(Box::new(time), 21)),
                0,
            )),
            22,
        ))
    );
}

/// A finish that fails with the out-of-date present error leaves the
/// returned device usable: a later begin succeeds after a resize.
#[test]
fn device_stays_usable_after_out_of_date_present() {
    let device = Device::new(1, 1, 1);
    let mut swapchain = test_swapchain();
    let pass = color_pass();

    let frame = Frame::begin(device, &swapchain, acquired(1, 9), &Vec::new()).unwrap();
    let viewport = swapchain.default_viewport();
    let frame = frame
        .begin_pass(
            &pass,
            Framebuffer { image_index: 1, attachment_count: 1 },
            viewport,
            vec![ClearValue::Float([0, 0, 0, 0])],
        )
        .finish_pass();

    let out_of_date = FrameFinishError::Flush(FlushError::OutOfDate);
    let (device, error) = match frame.finish(Err(out_of_date)) {
        Err(pair) => pair,
        Ok(_) => panic!("a flush failure must not finish the frame"),
    };
    assert_eq!(error, FrameFinishError::Flush(FlushError::OutOfDate));

    // the caller resizes and retries: the next frame begins cleanly and
    // waits only on its own image's signal
    swapchain.resize((640, 480), Ok(2), Ok(())).unwrap();
    let frame = Frame::begin(device, &swapchain, acquired(0, 17), &Vec::new()).unwrap();
    assert_eq!(
        frame.time,
        GpuFuture::Join(Box::new(GpuFuture::Now), Box::new(GpuFuture::Signal(17)))
    );
    assert_eq!(frame.viewport, Viewport { width: 640, height: 480, inverse_depth: false });
}

#[test]
fn submission_failure_returns_the_device_with_the_error() {
    let device = Device::new(1, 1, 1);
    let swapchain = test_swapchain();

    let frame = Frame::begin(device, &swapchain, acquired(0, 9), &Vec::new()).unwrap();
    let commands_error = FrameFinishError::Commands(
        gaclen::frame::CommandBufferExecError::AccessError,
    );
    let (device, error) = match frame.finish(Err(commands_error)) {
        Err(pair) => pair,
        Ok(_) => panic!("a submission failure must not finish the frame"),
    };
    assert_eq!(
        error,
        FrameFinishError::Commands(gaclen::frame::CommandBufferExecError::AccessError)
    );
    assert!(device.before_frame.is_none());
}

/// Two begin-pass/finish-pass pairs in one frame record their commands in
/// call order, each pass with its own clears and viewport.
#[test]
fn two_passes_record_in_call_order() {
    let device = Device::new(1, 1, 1);
    let swapchain = test_swapchain();
    let shadow = GraphicalPass::start()
        .vertex_input(vec![7])
        .vertex_shader(Shader { id: 1, inputs: vec![7], specialization_kind: 0 }, no_constants())
        .fragment_shader(Shader { id: 2, inputs: vec![], specialization_kind: 0 }, no_constants())
        .cull_back()
        .add_depth_attachment(Format { code: 124, depth: true }, LoadOp::Clear, StoreOp::Store)
        .unwrap()
        .build()
        .unwrap();
    let albedo = color_pass();

    let shadow_framebuffer = Framebuffer { image_index: 0, attachment_count: 1 };
    let shadow_viewport = Viewport { width: 2048, height: 2048, inverse_depth: false };
    let shadow_clears = vec![ClearValue::Depth(0x3f800000)];
    let albedo_framebuffer = Framebuffer { image_index: 0, attachment_count: 1 };
    let albedo_viewport = swapchain.default_viewport();
    let albedo_clears = vec![ClearValue::Float([1, 2, 3, 4])];

    let vertices = VertexBuffer { id: 31, layout: vec![7] };

    let frame = Frame::begin(device, &swapchain, acquired(0, 9), &Vec::new()).unwrap();
    let frame = frame
        .begin_pass(&shadow, shadow_framebuffer, shadow_viewport, shadow_clears.clone())
        .draw(vertices.clone(), 41, 51)
        .finish_pass();
    let frame = frame
        .begin_pass(&albedo, albedo_framebuffer, albedo_viewport, albedo_clears.clone())
        .draw_indexed(vertices.clone(), IndexBuffer { id: 32 }, 42, 52)
        .finish_pass();

    assert_eq!(frame.commands.len(), 6);
    assert_eq!(
        frame.commands[0],
        Command::BeginPass {
            framebuffer: shadow_framebuffer,
            clear_values: shadow_clears,
            viewport: shadow_viewport,
        }
    );
    assert_eq!(
        frame.commands[1],
        Command::Draw {
            vertex_shader: 1,
            fragment_shader: 2,
            vertex_buffer: vertices.clone(),
            descriptor_sets: 41,
            push_constants: 51,
        }
    );
    assert_eq!(frame.commands[2], Command::EndPass);
    assert_eq!(
        frame.commands[3],
        Command::BeginPass {
            framebuffer: albedo_framebuffer,
            clear_values: albedo_clears,
            viewport: albedo_viewport,
        }
    );
    assert_eq!(
        frame.commands[4],
        Command::DrawIndexed {
            vertex_shader: 1,
            fragment_shader: 2,
            vertex_buffer: vertices,
            index_buffer: IndexBuffer { id: 32 },
            descriptor_sets: 42,
            push_constants: 52,
        }
    );
    assert_eq!(frame.commands[5], Command::EndPass);

    // the frame is still submittable after both passes
    assert!(frame.finish(Ok(SubmitInfo { submission: 21, fence: 22 })).is_ok());
}

#[test]
fn images_for_a_frame_follow_its_acquired_index() {
    let device = Device::new(1, 1, 1);
    let swapchain = test_swapchain();
    let frame = Frame::begin(device, &swapchain, acquired(1, 9), &Vec::new()).unwrap();
    let color = swapchain.get_color_image_for(&frame);
    let depth = swapchain.get_depth_image_for(&frame);
    assert_eq!(color, swapchain.images[1]);
    assert_eq!(depth, swapchain.depths[1]);
    assert_eq!(depth.format, Format { code: 124, depth: true });
}
