//! Frames: the drawing state machine and its recorded commands.
//!
//! A [`Device`] begins a [`Frame`], which records commands; each render
//! pass narrows the frame to a [`PassInFrame`] on which only draws and
//! `finish_pass` are legal.  Every transition consumes the source value, so
//! draws outside a pass, concurrent passes, or two frames in flight from
//! one device are impossible to express.
//!
//! Commands are recorded as data, in call order.  The GPU receives nothing
//! until the frame is finished: the caller then builds and submits the
//! recorded commands, chained after the frame's accumulated future, and
//! reports the outcome.

use vstd::prelude::*;
use crate::builder::GraphicalPass;
use crate::device::Device;
use crate::format::ClearValue;
use crate::format::Viewport;
use crate::swapchain::Swapchain;
use crate::sync::GpuFuture;

verus! {

/// Error acquiring the next presentable image.
#[derive(Clone, Copy, Debug, PartialEq, Eq, Structural)]
pub enum AcquireError {
    /// The wait for an image timed out.
    Timeout,
    /// The surface is no longer available.
    SurfaceLost,
    /// The device was lost.
    DeviceLost,
    /// The swapchain no longer matches the surface and must be recreated.
    OutOfDate,
    /// The backend ran out of memory.
    OutOfMemory,
}

/// Error flushing submitted work to the GPU.
#[derive(Clone, Copy, Debug, PartialEq, Eq, Structural)]
pub enum FlushError {
    /// A resource was accessed in a conflicting way.
    AccessError,
    /// The backend ran out of memory.
    OutOfMemory,
    /// The device was lost.
    DeviceLost,
    /// The surface is no longer available.
    SurfaceLost,
    /// The swapchain no longer matches the surface; recoverable by
    /// resizing the swapchain and retrying.
    OutOfDate,
    /// The flush timed out.
    Timeout,
}

/// Error executing a recorded command buffer.
#[derive(Clone, Copy, Debug, PartialEq, Eq, Structural)]
pub enum CommandBufferExecError {
    /// A resource was accessed in a conflicting way.
    AccessError,
    /// A one-time-submit buffer was submitted twice.
    OneTimeSubmitAlreadySubmitted,
    /// The buffer is exclusive and already in use.
    ExclusiveAlreadyInUse,
}

/// Error finishing a frame.
///
/// A submission failure is fatal to the recording; a flush failure with
/// [`FlushError::OutOfDate`] is recoverable by resizing the swapchain.
#[derive(Clone, Copy, Debug, PartialEq, Eq, Structural)]
pub enum FrameFinishError {
    /// Error during flushing of commands to the GPU.
    Flush(FlushError),
    /// Error during attempted execution of GPU commands.
    Commands(CommandBufferExecError),
}

/// What a successful image acquisition reports.
#[derive(Clone, Copy, Debug, PartialEq, Eq, Structural)]
pub struct AcquiredImage {
    /// The index of the acquired image in the swapchain's ring.
    pub image_index: usize,
    /// Whether the backend flagged the swapchain as suboptimal.
    pub suboptimal: bool,
    /// The identifier of the image's ready signal.
    pub signal: u64,
}

/// What a successful submission reports: the caller's identifiers for the
/// submitted command buffer and the fence signalled on its completion.
#[derive(Clone, Copy, Debug, PartialEq, Eq, Structural)]
pub struct SubmitInfo {
    /// The identifier of the submitted work.
    pub submission: u64,
    /// The identifier of the fence signalled when the work completes.
    pub fence: u64,
}

/// A vertex buffer: the caller's handle plus the element layout it was
/// created with, as format codes per field.
#[derive(Clone, Debug, PartialEq, Eq)]
pub struct VertexBuffer {
    /// The caller's handle for the buffer.
    pub id: u64,
    /// The layout of one element, as format codes per field.
    pub layout: Vec<u64>,
}

/// An index buffer, by the caller's handle.
#[derive(Clone, Copy, Debug, PartialEq, Eq, Structural)]
pub struct IndexBuffer {
    /// The caller's handle for the buffer.
    pub id: u64,
}

/// A concrete binding of image views to a render pass's attachment slots,
/// for one image index of the swapchain's ring.
#[derive(Clone, Copy, Debug, PartialEq, Eq, Structural)]
pub struct Framebuffer {
    /// The image index this framebuffer binds.
    pub image_index: usize,
    /// How many attachment slots are bound, in the render pass's derived
    /// attachment order.
    pub attachment_count: usize,
}

/// One recorded command.
#[derive(Debug, PartialEq, Eq)]
pub enum Command {
    /// Begin a render pass against a framebuffer, with one clear value per
    /// attachment in attachment order, and install the pass viewport.
    BeginPass {
        /// The framebuffer drawn into.
        framebuffer: Framebuffer,
        /// One clear value per attachment, in attachment order.
        clear_values: Vec<ClearValue>,
        /// The viewport installed for the pass.
        viewport: Viewport,
    },
    /// Draw vertices with the bound pipeline.
    Draw {
        /// The vertex shader of the pipeline drawn with.
        vertex_shader: u64,
        /// The fragment shader of the pipeline drawn with.
        fragment_shader: u64,
        /// The vertex buffer drawn from.
        vertex_buffer: VertexBuffer,
        /// The caller's handle for the descriptor sets.
        descriptor_sets: u64,
        /// The caller's handle for the push constants.
        push_constants: u64,
    },
    /// Draw indexed vertices with the bound pipeline.
    DrawIndexed {
        /// The vertex shader of the pipeline drawn with.
        vertex_shader: u64,
        /// The fragment shader of the pipeline drawn with.
        fragment_shader: u64,
        /// The vertex buffer drawn from.
        vertex_buffer: VertexBuffer,
        /// The index buffer drawn from.
        index_buffer: IndexBuffer,
        /// The caller's handle for the descriptor sets.
        descriptor_sets: u64,
        /// The caller's handle for the push constants.
        push_constants: u64,
    },
    /// End the current render pass.
    EndPass,
}

/// The pass structure of a recorded command list: `None` when malformed
/// (a draw outside a pass, an unmatched begin or end), otherwise whether a
/// pass is still open after the last command.
pub open spec fn pass_depth(cmds: Seq<Command>) -> Option<bool>
    decreases cmds.len(),
{
    if cmds.len() == 0 {
        Some(false)
    } else {
        match pass_depth(cmds.drop_last()) {
            None => None,
            Some(open) => match cmds.last() {
                Command::BeginPass { .. } => if open {
                    None
                } else {
                    Some(true)
                },
                Command::Draw { .. } => if open {
                    Some(true)
                } else {
                    None
                },
                Command::DrawIndexed { .. } => if open {
                    Some(true)
                } else {
                    None
                },
                Command::EndPass => if open {
                    Some(false)
                } else {
                    None
                },
            },
        }
    }
}

/// Whether a recorded command list can be built and submitted: it is
/// well-formed and every begun pass has been ended.
pub open spec fn submittable(cmds: Seq<Command>) -> bool {
    pass_depth(cmds) == Some(false)
}

/// The future a frame starts from: the prior in-flight work with its
/// completed parts pruned, joined with the acquired image's ready signal.
pub open spec fn spec_begin_time(
    before_frame: Option<GpuFuture>,
    completed: Seq<u64>,
    signal: u64,
) -> GpuFuture {
    let prior = match before_frame {
        Some(f) => f.spec_cleanup(completed),
        None => GpuFuture::Now,
    };
    GpuFuture::Join(Box::new(prior), Box::new(GpuFuture::Signal(signal)))
}

/// The future a finished frame leaves in the device: the submission
/// scheduled after the frame's accumulated work, then presentation of the
/// frame's image, then the signalled fence.
pub open spec fn spec_submitted_future(time: GpuFuture, image_index: usize, info: SubmitInfo)
    -> GpuFuture {
    GpuFuture::Fence(
        Box::new(
            GpuFuture::Present(
                Box::new(GpuFuture::Execute(Box::new(time), info.submission)),
                image_index,
            ),
        ),
        info.fence,
    )
}

/// A frame in the process of being drawn.  It owns the device for the
/// duration of the frame; finishing (or dropping) the frame releases it.
#[derive(Debug)]
pub struct Frame {
    /// The device drawing the frame, locked for the frame's duration.
    pub device: Device,
    /// The index of the acquired image in the swapchain's ring.
    pub swapchain_index: usize,
    /// The accumulated GPU work this frame's submission must wait for.
    pub time: GpuFuture,
    /// The viewport currently installed.
    pub viewport: Viewport,
    /// The commands recorded so far, in call order.
    pub commands: Vec<Command>,
}

/// A frame narrowed to recording one render pass with one graphical pass
/// configuration; only draws and `finish_pass` are legal.
pub struct PassInFrame<'a> {
    /// The frame being drawn.
    pub frame: Frame,
    /// The pass configuration drawn with.
    pub pass: &'a GraphicalPass,
}

impl Frame {
    /// A frame between passes: the wrapped device has no pending work of
    /// its own, and every begun pass has been ended.
    pub open spec fn wf(self) -> bool {
        &&& self.device.before_frame is None
        &&& pass_depth(self.commands@) == Some(false)
    }

    /// Begin drawing a frame: consume the device, apply the outcome of
    /// acquiring the next swapchain image, prune completed work from the
    /// device's pending future, chain the image's ready signal after it,
    /// and open a fresh command recording.
    ///
    /// On an acquire failure the unchanged device is returned with the
    /// error: no state is lost, and the caller can resize and retry.
    pub fn begin(
        device: Device,
        swapchain: &Swapchain,
        acquire: Result<AcquiredImage, AcquireError>,
        completed: &Vec<u64>,
    ) -> (r: Result<Frame, (Device, AcquireError)>)
        requires
            acquire matches Ok(a) ==> a.image_index < swapchain.images@.len(),
        ensures
            acquire matches Err(e) ==> r == Err::<Frame, (Device, AcquireError)>((device, e)),
            acquire matches Ok(a) ==> (r matches Ok(frame) && {
                &&& frame.device.graphics_queue == device.graphics_queue
                &&& frame.device.transfer_queue == device.transfer_queue
                &&& frame.device.compute_queue == device.compute_queue
                &&& frame.device.before_frame is None
                &&& frame.swapchain_index == a.image_index
                &&& frame.swapchain_index < swapchain.images@.len()
                &&& frame.time == spec_begin_time(device.before_frame, completed@, a.signal)
                &&& frame.viewport == swapchain.default_viewport
                &&& frame.commands@.len() == 0
                &&& frame.wf()
            }),
    {
        let mut device = device;
        let acquired = match acquire {
            Ok(acquired) => acquired,
            Err(err) => { return Err((device, err)) },
        };
        let image_signal = GpuFuture::Signal(acquired.signal);
        let time = match device.before_frame.take() {
            Some(pending) => pending.cleanup_finished(completed).join(image_signal),
            None => GpuFuture::Now.join(image_signal),
        };
        Ok(
            Frame {
                device,
                swapchain_index: acquired.image_index,
                time,
                viewport: swapchain.default_viewport(),
                commands: Vec::new(),
            },
        )
    }

    /// Begin recording a render pass with the given pass configuration:
    /// record the pass begin against the framebuffer with one clear value
    /// per attachment, in attachment order, and install the pass viewport.
    pub fn begin_pass<'a>(
        self,
        pass: &'a GraphicalPass,
        framebuffer: Framebuffer,
        viewport: Viewport,
        clear_values: Vec<ClearValue>,
    ) -> (r: PassInFrame<'a>)
        requires
            clear_values@.len() == pass.render_pass.attachments@.len(),
            framebuffer.attachment_count == pass.render_pass.attachments@.len(),
        ensures
            r.pass == pass,
            r.frame.commands@ == self.commands@.push(
                Command::BeginPass { framebuffer, clear_values, viewport },
            ),
            r.frame.viewport == viewport,
            r.frame.device == self.device,
            r.frame.time == self.time,
            r.frame.swapchain_index == self.swapchain_index,
            self.wf() ==> r.wf(),
    {
        let mut frame = self;
        let ghost before = frame.commands@;
        frame.commands.push(Command::BeginPass { framebuffer, clear_values, viewport });
        frame.viewport = viewport;
        proof {
            assert(frame.commands@.drop_last() =~= before);
        }
        PassInFrame { frame, pass }
    }

    /// Finish the frame, applying the outcome of building, submitting and
    /// flushing the recorded commands.
    ///
    /// On success the device is returned carrying the new in-flight
    /// future: the submission chained after the frame's accumulated work,
    /// then presentation of the frame's image, then the signalled fence.
    /// On failure the device is returned together with the specific error,
    /// ready for another frame; the caller distinguishes the recoverable
    /// [`FlushError::OutOfDate`] from fatal submission failures.
    pub fn finish(self, submitted: Result<SubmitInfo, FrameFinishError>) -> (r: Result<
        Device,
        (Device, FrameFinishError),
    >)
        ensures
            self.wf() ==> submittable(self.commands@),
            submitted matches Err(e) ==> r == Err::<Device, (Device, FrameFinishError)>(
                (self.device, e),
            ),
            submitted matches Ok(info) ==> (r matches Ok(d) && {
                &&& d.graphics_queue == self.device.graphics_queue
                &&& d.transfer_queue == self.device.transfer_queue
                &&& d.compute_queue == self.device.compute_queue
                &&& d.before_frame == Some(
                    spec_submitted_future(self.time, self.swapchain_index, info),
                )
            }),
    {
        let info = match submitted {
            Ok(info) => info,
            Err(err) => { return Err((self.device, err)) },
        };
        let after_frame = self.time.then_execute(info.submission).then_swapchain_present(
            self.swapchain_index,
        ).then_signal_fence(info.fence);
        let device = Device { before_frame: Some(after_frame), ..self.device };
        Ok(device)
    }
}

impl<'a> PassInFrame<'a> {
    /// A frame in the middle of one render pass: the wrapped device has no
    /// pending work of its own, and exactly one pass is open.
    pub open spec fn wf(self) -> bool {
        &&& self.frame.device.before_frame is None
        &&& pass_depth(self.frame.commands@) == Some(true)
    }

    /// The draw command recorded for the given buffers against this pass's
    /// pipeline.
    pub open spec fn spec_draw_command(
        self,
        vertex_buffer: VertexBuffer,
        descriptor_sets: u64,
        push_constants: u64,
    ) -> Command {
        Command::Draw {
            vertex_shader: self.pass.pipeline.vertex_shader.shader.id,
            fragment_shader: self.pass.pipeline.fragment_shader.shader.id,
            vertex_buffer,
            descriptor_sets,
            push_constants,
        }
    }

    /// The indexed draw command recorded for the given buffers against
    /// this pass's pipeline.
    pub open spec fn spec_draw_indexed_command(
        self,
        vertex_buffer: VertexBuffer,
        index_buffer: IndexBuffer,
        descriptor_sets: u64,
        push_constants: u64,
    ) -> Command {
        Command::DrawIndexed {
            vertex_shader: self.pass.pipeline.vertex_shader.shader.id,
            fragment_shader: self.pass.pipeline.fragment_shader.shader.id,
            vertex_buffer,
            index_buffer,
            descriptor_sets,
            push_constants,
        }
    }

    /// Record a draw of the vertex buffer with this pass's pipeline, the
    /// given descriptor sets and push constants.
    ///
    /// The vertex buffer's element layout must match the layout the
    /// pipeline was validated with.
    pub fn draw(self, vertex_buffer: VertexBuffer, descriptor_sets: u64, push_constants: u64) -> (r:
        PassInFrame<'a>)
        requires
            vertex_buffer.layout@ == self.pass.pipeline.vertex_input@,
        ensures
            r.pass == self.pass,
            r.frame.commands@ == self.frame.commands@.push(
                self.spec_draw_command(vertex_buffer, descriptor_sets, push_constants),
            ),
            r.frame.viewport == self.frame.viewport,
            r.frame.device == self.frame.device,
            r.frame.time == self.frame.time,
            r.frame.swapchain_index == self.frame.swapchain_index,
            self.wf() ==> r.wf(),
    {
        let mut frame = self.frame;
        let ghost before = frame.commands@;
        frame.commands.push(
            Command::Draw {
                vertex_shader: self.pass.pipeline.vertex_shader.shader.id,
                fragment_shader: self.pass.pipeline.fragment_shader.shader.id,
                vertex_buffer,
                descriptor_sets,
                push_constants,
            },
        );
        proof {
            assert(frame.commands@.drop_last() =~= before);
        }
        PassInFrame { frame, pass: self.pass }
    }

    /// Record an indexed draw of the vertex and index buffers with this
    /// pass's pipeline, the given descriptor sets and push constants.
    ///
    /// The vertex buffer's element layout must match the layout the
    /// pipeline was validated with.
    pub fn draw_indexed(
        self,
        vertex_buffer: VertexBuffer,
        index_buffer: IndexBuffer,
        descriptor_sets: u64,
        push_constants: u64,
    ) -> (r: PassInFrame<'a>)
        requires
            vertex_buffer.layout@ == self.pass.pipeline.vertex_input@,
        ensures
            r.pass == self.pass,
            r.frame.commands@ == self.frame.commands@.push(
                self.spec_draw_indexed_command(
                    vertex_buffer,
                    index_buffer,
                    descriptor_sets,
                    push_constants,
                ),
            ),
            r.frame.viewport == self.frame.viewport,
            r.frame.device == self.frame.device,
            r.frame.time == self.frame.time,
            r.frame.swapchain_index == self.frame.swapchain_index,
            self.wf() ==> r.wf(),
    {
        let mut frame = self.frame;
        let ghost before = frame.commands@;
        frame.commands.push(
            Command::DrawIndexed {
                vertex_shader: self.pass.pipeline.vertex_shader.shader.id,
                fragment_shader: self.pass.pipeline.fragment_shader.shader.id,
                vertex_buffer,
                index_buffer,
                descriptor_sets,
                push_constants,
            },
        );
        proof {
            assert(frame.commands@.drop_last() =~= before);
        }
        PassInFrame { frame, pass: self.pass }
    }

    /// End the render pass and release the frame, ready to begin the next
    /// pass or to finish; passes are repeatable within one frame.
    pub fn finish_pass(self) -> (r: Frame)
        ensures
            r.commands@ == self.frame.commands@.push(Command::EndPass),
            r.viewport == self.frame.viewport,
            r.device == self.frame.device,
            r.time == self.frame.time,
            r.swapchain_index == self.frame.swapchain_index,
            self.wf() ==> r.wf(),
    {
        let mut frame = self.frame;
        let ghost before = frame.commands@;
        frame.commands.push(Command::EndPass);
        proof {
            assert(frame.commands@.drop_last() =~= before);
        }
        frame
    }
}

/// A pass that is begun and immediately ended still leaves the recording
/// submittable: a frame with zero draws produces a submittable command
/// buffer.
pub proof fn lemma_empty_pass_still_submittable(
    cmds: Seq<Command>,
    framebuffer: Framebuffer,
    clear_values: Vec<ClearValue>,
    viewport: Viewport,
)
    requires
        submittable(cmds),
    ensures
        submittable(
            cmds.push(Command::BeginPass { framebuffer, clear_values, viewport }).push(
                Command::EndPass,
            ),
        ),
{
    let begun = cmds.push(Command::BeginPass { framebuffer, clear_values, viewport });
    let ended = begun.push(Command::EndPass);
    assert(begun.drop_last() =~= cmds);
    assert(pass_depth(begun) == Some(true));
    assert(ended.drop_last() =~= begun);
    assert(pass_depth(ended) == Some(false));
}

/// Whether every command in the list is a draw.
pub open spec fn all_draws(cmds: Seq<Command>) -> bool {
    forall|i: int|
        0 <= i < cmds.len() ==> (#[trigger] cmds[i] matches Command::Draw { .. } || cmds[i]
            matches Command::DrawIndexed { .. })
}

/// Draws recorded inside an open pass keep the pass open and the recording
/// well-formed.
pub proof fn lemma_draws_keep_pass_open(cmds: Seq<Command>, draws: Seq<Command>)
    requires
        pass_depth(cmds) == Some(true),
        all_draws(draws),
    ensures
        pass_depth(cmds + draws) == Some(true),
    decreases draws.len(),
{
    if draws.len() == 0 {
        assert(cmds + draws =~= cmds);
    } else {
        lemma_draws_keep_pass_open(cmds, draws.drop_last());
        assert((cmds + draws).drop_last() =~= cmds + draws.drop_last());
        assert((cmds + draws).last() == draws.last());
    }
}

/// Two consecutive begin-pass/finish-pass pairs in one frame — for
/// instance a shadow pass and then an albedo pass — record their commands
/// in call order, each pass with its own clear values and viewport around
/// its own draws, and the whole recording stays submittable.
pub proof fn lemma_two_pass_recording(
    cmds: Seq<Command>,
    framebuffer1: Framebuffer,
    clear_values1: Vec<ClearValue>,
    viewport1: Viewport,
    draws1: Seq<Command>,
    framebuffer2: Framebuffer,
    clear_values2: Vec<ClearValue>,
    viewport2: Viewport,
    draws2: Seq<Command>,
)
    requires
        submittable(cmds),
        all_draws(draws1),
        all_draws(draws2),
    ensures
        ({
            let begin1 = Command::BeginPass {
                framebuffer: framebuffer1,
                clear_values: clear_values1,
                viewport: viewport1,
            };
            let begin2 = Command::BeginPass {
                framebuffer: framebuffer2,
                clear_values: clear_values2,
                viewport: viewport2,
            };
            let pass1 = seq![begin1] + draws1 + seq![Command::EndPass];
            let pass2 = seq![begin2] + draws2 + seq![Command::EndPass];
            let recorded = cmds + pass1 + pass2;
            &&& submittable(recorded)
            &&& recorded.len() == cmds.len() + draws1.len() + draws2.len() + 4
            &&& recorded[cmds.len() as int] == begin1
            &&& recorded.subrange(
                cmds.len() + 1int,
                cmds.len() + 1int + draws1.len(),
            ) == draws1
            &&& recorded[cmds.len() + 1int + draws1.len()] == Command::EndPass
            &&& recorded[cmds.len() + 2int + draws1.len()] == begin2
            &&& recorded.subrange(
                cmds.len() + 3int + draws1.len(),
                cmds.len() + 3int + draws1.len() + draws2.len(),
            ) == draws2
            &&& recorded.last() == Command::EndPass
        }),
{
    let begin1 = Command::BeginPass {
        framebuffer: framebuffer1,
        clear_values: clear_values1,
        viewport: viewport1,
    };
    let begin2 = Command::BeginPass {
        framebuffer: framebuffer2,
        clear_values: clear_values2,
        viewport: viewport2,
    };
    let pass1 = seq![begin1] + draws1 + seq![Command::EndPass];
    let pass2 = seq![begin2] + draws2 + seq![Command::EndPass];
    let recorded = cmds + pass1 + pass2;

    let opened1 = cmds.push(begin1);
    assert(opened1.drop_last() =~= cmds);
    assert(pass_depth(opened1) == Some(true));
    lemma_draws_keep_pass_open(opened1, draws1);
    let drawn1 = opened1 + draws1;
    let closed1 = drawn1.push(Command::EndPass);
    assert(closed1.drop_last() =~= drawn1);
    assert(pass_depth(closed1) == Some(false));
    assert(closed1 =~= cmds + pass1);

    let opened2 = closed1.push(begin2);
    assert(opened2.drop_last() =~= closed1);
    assert(pass_depth(opened2) == Some(true));
    lemma_draws_keep_pass_open(opened2, draws2);
    let drawn2 = opened2 + draws2;
    let closed2 = drawn2.push(Command::EndPass);
    assert(closed2.drop_last() =~= drawn2);
    assert(pass_depth(closed2) == Some(false));
    assert(closed2 =~= recorded);

    assert(recorded.subrange(cmds.len() + 1int, cmds.len() + 1int + draws1.len()) =~= draws1);
    assert(recorded.subrange(
        cmds.len() + 3int + draws1.len(),
        cmds.len() + 3int + draws1.len() + draws2.len(),
    ) =~= draws2);
}

/// Beginning a frame on a device with a pending future prunes completed
/// work first, and the future the frame starts from is ordered strictly
/// after both the pruned prior future and the newly acquired image's
/// signal; it waits on every unfinished piece of the prior work plus that
/// signal, and on nothing else.
pub proof fn lemma_begin_frame_after_prior_work(
    prior: GpuFuture,
    completed: Seq<u64>,
    signal: u64,
)
    ensures
        ({
            let started = spec_begin_time(Some(prior), completed, signal);
            let pruned = prior.spec_cleanup(completed);
            &&& started == GpuFuture::Join(
                Box::new(pruned),
                Box::new(GpuFuture::Signal(signal)),
            )
            &&& started.comes_after(pruned)
            &&& started.comes_after(GpuFuture::Signal(signal))
            &&& forall|id: u64|
                prior.ids().contains(id) && !completed.contains(id)
                    ==> #[trigger] started.ids().contains(id)
            &&& started.ids().contains(signal)
            &&& started.ids().subset_of(prior.ids().insert(signal))
        }),
{
    crate::sync::lemma_begin_frame_ordering(prior, completed, signal);
}

/// Consecutive frames chain: a frame's submitted work is scheduled
/// strictly after the frame's accumulated future, and so after the prior
/// frame's pruned submission chain and after its own image's ready signal
/// — after the prior frame's submission, not after its completion.
pub proof fn lemma_frames_chain_in_order(
    prior: GpuFuture,
    completed: Seq<u64>,
    signal: u64,
    image_index: usize,
    info: SubmitInfo,
)
    ensures
        ({
            let time = spec_begin_time(Some(prior), completed, signal);
            let submitted = spec_submitted_future(time, image_index, info);
            &&& submitted.comes_after(time)
            &&& submitted.comes_after(prior.spec_cleanup(completed))
            &&& submitted.comes_after(GpuFuture::Signal(signal))
        }),
{
    let time = spec_begin_time(Some(prior), completed, signal);
    let pruned = prior.spec_cleanup(completed);
    let submitted = spec_submitted_future(time, image_index, info);
    let executed = GpuFuture::Execute(Box::new(time), info.submission);
    let presented = GpuFuture::Present(Box::new(executed), image_index);
    assert(executed.comes_after(time));
    assert(presented.comes_after(executed));
    assert(submitted.comes_after(presented));
    crate::sync::lemma_comes_after_transitive(presented, executed, time);
    crate::sync::lemma_comes_after_transitive(submitted, presented, time);
    crate::sync::lemma_begin_frame_ordering(prior, completed, signal);
    crate::sync::lemma_comes_after_transitive(submitted, time, pruned);
    crate::sync::lemma_comes_after_transitive(submitted, time, GpuFuture::Signal(signal));
}

/// After a frame fails to present, the device carries no pending work, so
/// the next frame — begun after the caller resizes the swapchain — waits
/// only on its own image's ready signal: the device stays usable.
pub proof fn lemma_fresh_start_after_failed_finish(completed: Seq<u64>, signal: u64)
    ensures
        spec_begin_time(None, completed, signal) == GpuFuture::Join(
            Box::new(GpuFuture::Now),
            Box::new(GpuFuture::Signal(signal)),
        ),
        spec_begin_time(None, completed, signal).ids() =~= Set::empty().insert(signal),
{
    let started = spec_begin_time(None, completed, signal);
    assert(started.ids() =~= GpuFuture::Now.ids().union(GpuFuture::Signal(signal).ids()));
    assert(started.ids() =~= Set::empty().insert(signal));
}

} // verus!
