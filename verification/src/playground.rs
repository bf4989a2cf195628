//! The playground: everything that renders the cube, the requests of one
//! frame, and what happens on a resize and at shutdown.

use vstd::prelude::*;
use crate::baby::BabyVulkan;
use crate::buf::{Buffer, PUSH_CONSTANT_SIZE};
use crate::device::{
    push_destroy_ops,
    spec_destroy_ops,
    ClearValues,
    Command,
    DeviceOp,
    Extent2D,
    ObjectKind,
    QueueKind,
    Teardown,
    F32_0_2,
    F32_0_3,
    F32_HALF,
    F32_ONE,
    NO_TIMEOUT,
};
use crate::frame::{FrameEvent, FrameOutcome, FrameStep, Frames};
use crate::image::ImageConfig;
use crate::mesh::CUBE_INDEX_COUNT;
use crate::pipeline::VulkanPipeline;
use crate::render::{RenderPassConfig, VulkanRender};
use crate::swapchain::{SurfaceCapabilities, SurfaceFormat, SwapchainConfig, VulkanSwapchain};
use crate::texture::Texture;
use crate::uniform::{Uniform, UNIFORM_DATA_SIZE};
use crate::vk;

verus! {

/// The number of frame slots: double buffering.
pub const FRAME_BUFFER_COUNT: usize = 2;

/// What `VulkanPlayground::render` asks of the caller.
#[derive(Debug, PartialEq, Eq)]
pub enum RenderAction {
    /// Carry the requests out in order. Report `Completed` when all
    /// succeeded, `Failed` as soon as one fails.
    Run(Vec<DeviceOp>),
    /// Acquire the next image of `swapchain`, signaling `semaphore`.
    /// Report `Acquired`, `OutOfDate` or `Failed`.
    Acquire { swapchain: u64, timeout: u64, semaphore: u64 },
    /// Present image `image_index` of `swapchain` on `queue` once
    /// `wait_semaphore` is signaled. Report `Completed`, `OutOfDate` or
    /// `Failed`.
    Present { queue: QueueKind, swapchain: u64, wait_semaphore: u64, image_index: u32 },
    /// Rebuild swapchain, render target and pipeline for a window of
    /// `width` by `height`. Report `Completed` or `Failed`.
    Resize { width: u32, height: u32 },
    /// The frame is over; the next call starts a new one.
    Finished(FrameOutcome),
}

/// A `RenderAction` with its requests as a sequence.
pub enum RenderActionView {
    Run(Seq<DeviceOp>),
    Acquire { swapchain: u64, timeout: u64, semaphore: u64 },
    Present { queue: QueueKind, swapchain: u64, wait_semaphore: u64, image_index: u32 },
    Resize { width: u32, height: u32 },
    Finished(FrameOutcome),
}

impl View for RenderAction {
    type V = RenderActionView;

    open spec fn view(&self) -> RenderActionView {
        match *self {
            RenderAction::Run(ops) => RenderActionView::Run(ops@),
            RenderAction::Acquire { swapchain, timeout, semaphore } => RenderActionView::Acquire {
                swapchain,
                timeout,
                semaphore,
            },
            RenderAction::Present {
                queue,
                swapchain,
                wait_semaphore,
                image_index,
            } => RenderActionView::Present { queue, swapchain, wait_semaphore, image_index },
            RenderAction::Resize { width, height } => RenderActionView::Resize { width, height },
            RenderAction::Finished(outcome) => RenderActionView::Finished(outcome),
        }
    }
}

/// Everything that renders the cube.
pub struct VulkanPlayground {
    pub bvk: BabyVulkan,
    pub swappy: VulkanSwapchain,
    pub render: VulkanRender,
    pub uniform: Uniform<FRAME_BUFFER_COUNT>,
    pub pipeline: VulkanPipeline,
    pub vbo: Buffer,
    pub ibo: Buffer,
    pub texture: Texture,
    pub cmd_pool: u64,
    pub etc_fence: u64,
    pub frames: Frames<FRAME_BUFFER_COUNT>,
    /// Whether swapchain, render target and pipeline are alive. They are
    /// not between the two halves of a resize, nor after a resize that
    /// failed.
    pub presenting: bool,
}

impl VulkanPlayground {
    /// The playground's invariant: that of its frame ring.
    pub open spec fn wf(&self) -> bool {
        self.frames.wf()
    }

    /// The values that a frame starts from: the colour (0.2, 0.3, 0.5,
    /// 1.0), depth 1.0, stencil 0.
    pub open spec fn spec_clear_values() -> ClearValues {
        ClearValues {
            red: F32_0_2,
            green: F32_0_3,
            blue: F32_HALF,
            alpha: F32_ONE,
            depth: F32_ONE,
            stencil: 0,
        }
    }

    /// The event as the ring is told it. Without a swapchain to present
    /// to, whatever is reported counts as a failure; so does an acquired
    /// image for which the render target has no framebuffer.
    pub open spec fn spec_event(&self, event: FrameEvent) -> FrameEvent {
        if !self.presenting {
            FrameEvent::Failed
        } else {
            match event {
                FrameEvent::Acquired { image_index } => if image_index
                    < self.render.framebuffers@.len() {
                    event
                } else {
                    FrameEvent::Failed
                },
                _ => event,
            }
        }
    }

    /// The requests that record the frame of slot `slot` into the
    /// framebuffer of image `image_index`: reset and begin the command
    /// buffer for one submission; begin the render pass over the whole
    /// extent with the clear values; bind the pipeline; push the
    /// transform; bind vertex and index buffer; write the slot's uniform
    /// payload; bind the slot's descriptor set; draw the cube; end the
    /// render pass and the command buffer.
    pub open spec fn spec_record(&self, slot: int, image_index: int) -> Seq<DeviceOp> {
        let cmd_buf = self.frames.spec_cmd_bufs()[slot];
        seq![
            DeviceOp::ResetCommandBuffer { cmd_buf },
            DeviceOp::BeginCommandBuffer {
                cmd_buf,
                flags: vk::COMMAND_BUFFER_USAGE_ONE_TIME_SUBMIT,
            },
            DeviceOp::Record {
                cmd_buf,
                command: Command::BeginRenderPass {
                    render_pass: self.render.render_pass,
                    framebuffer: self.render.framebuffers@[image_index],
                    extent: self.swappy.extent,
                    clear: Self::spec_clear_values(),
                },
            },
            DeviceOp::Record {
                cmd_buf,
                command: Command::BindPipeline { pipeline: self.pipeline.pipeline },
            },
            DeviceOp::Record {
                cmd_buf,
                command: Command::PushConstants {
                    layout: self.pipeline.pipeline_layout,
                    stage_flags: vk::SHADER_STAGE_VERTEX,
                    offset: 0,
                    size: PUSH_CONSTANT_SIZE,
                },
            },
            DeviceOp::Record {
                cmd_buf,
                command: Command::BindVertexBuffer { buffer: self.vbo.buf, offset: 0 },
            },
            DeviceOp::Record {
                cmd_buf,
                command: Command::BindIndexBuffer {
                    buffer: self.ibo.buf,
                    offset: 0,
                    index_type: vk::INDEX_TYPE_UINT32,
                },
            },
            DeviceOp::WriteUniform {
                slot: slot as usize,
                buffer: self.uniform.uniform_bufs@[slot].buf,
                size: UNIFORM_DATA_SIZE,
            },
            DeviceOp::Record {
                cmd_buf,
                command: Command::BindDescriptorSet {
                    layout: self.pipeline.pipeline_layout,
                    set: self.uniform.descriptor_sets@[slot],
                },
            },
            DeviceOp::Record {
                cmd_buf,
                command: Command::DrawIndexed {
                    index_count: CUBE_INDEX_COUNT,
                    instance_count: 1,
                    first_index: 0,
                    vertex_offset: 0,
                    first_instance: 0,
                },
            },
            DeviceOp::Record { cmd_buf, command: Command::EndRenderPass },
            DeviceOp::EndCommandBuffer { cmd_buf },
        ]
    }

    /// The submission of slot `slot` to the graphics queue: it waits at
    /// colour output for the slot's image-available semaphore, and signals
    /// the slot's render-complete semaphore and its fence.
    pub open spec fn spec_submit(&self, slot: int) -> DeviceOp {
        DeviceOp::Submit {
            queue: QueueKind::Graphics,
            cmd_buf: self.frames.spec_cmd_bufs()[slot],
            wait_semaphore: self.frames.spec_present_semaphores()[slot],
            wait_stage: vk::PIPELINE_STAGE_COLOR_ATTACHMENT_OUTPUT,
            signal_semaphore: self.frames.spec_render_semaphores()[slot],
            fence: self.frames.spec_frame_fences()[slot],
        }
    }

    /// What the caller is asked to do for the ring's request `step`, for
    /// a window of `w` by `h`.
    pub open spec fn spec_action(&self, step: FrameStep, w: u32, h: u32) -> RenderActionView {
        match step {
            FrameStep::WaitFence { slot } => RenderActionView::Run(
                seq![
                    DeviceOp::WaitFence {
                        fence: self.frames.spec_frame_fences()[slot as int],
                        timeout: NO_TIMEOUT,
                    },
                ],
            ),
            FrameStep::ResetFence { slot } => RenderActionView::Run(
                seq![DeviceOp::ResetFence { fence: self.frames.spec_frame_fences()[slot as int] }],
            ),
            FrameStep::Acquire { slot } => RenderActionView::Acquire {
                swapchain: self.swappy.swapchain,
                timeout: NO_TIMEOUT,
                semaphore: self.frames.spec_present_semaphores()[slot as int],
            },
            FrameStep::Record { slot, image_index } => RenderActionView::Run(
                self.spec_record(slot as int, image_index as int),
            ),
            FrameStep::Submit { slot } => RenderActionView::Run(seq![self.spec_submit(slot as int)]),
            FrameStep::Present { slot, image_index } => RenderActionView::Present {
                queue: QueueKind::Present,
                swapchain: self.swappy.swapchain,
                wait_semaphore: self.frames.spec_render_semaphores()[slot as int],
                image_index,
            },
            FrameStep::Resize => RenderActionView::Resize { width: w, height: h },
            FrameStep::Finished(outcome) => RenderActionView::Finished(outcome),
        }
    }

    /// Whether `other` holds the same device objects as `self`.
    pub open spec fn same_objects(&self, other: &Self) -> bool {
        &&& self.bvk == other.bvk
        &&& self.swappy == other.swappy
        &&& self.render == other.render
        &&& self.uniform == other.uniform
        &&& self.pipeline == other.pipeline
        &&& self.vbo == other.vbo
        &&& self.ibo == other.ibo
        &&& self.texture == other.texture
        &&& self.cmd_pool == other.cmd_pool
        &&& self.etc_fence == other.etc_fence
        &&& self.frames.same_handles(&other.frames)
        &&& self.presenting == other.presenting
    }

    /// The playground over what was created.
    pub fn create(
        bvk: BabyVulkan,
        swappy: VulkanSwapchain,
        render: VulkanRender,
        uniform: Uniform<FRAME_BUFFER_COUNT>,
        pipeline: VulkanPipeline,
        vbo: Buffer,
        ibo: Buffer,
        texture: Texture,
        cmd_pool: u64,
        etc_fence: u64,
        frames: Frames<FRAME_BUFFER_COUNT>,
    ) -> (r: VulkanPlayground)
        requires
            frames.wf(),
        ensures
            r.wf(),
            r.bvk == bvk,
            r.swappy == swappy,
            r.render == render,
            r.uniform == uniform,
            r.pipeline == pipeline,
            r.vbo == vbo,
            r.ibo == ibo,
            r.texture == texture,
            r.cmd_pool == cmd_pool,
            r.etc_fence == etc_fence,
            r.frames == frames,
            r.presenting,
    {
        VulkanPlayground {
            bvk,
            swappy,
            render,
            uniform,
            pipeline,
            vbo,
            ibo,
            texture,
            cmd_pool,
            etc_fence,
            frames,
            presenting: true,
        }
    }

    /// The clear values of a frame.
    pub fn clear_values() -> (r: ClearValues)
        ensures
            r == Self::spec_clear_values(),
    {
        ClearValues {
            red: F32_0_2,
            green: F32_0_3,
            blue: F32_HALF,
            alpha: F32_ONE,
            depth: F32_ONE,
            stencil: 0,
        }
    }

    fn record(&self, slot: usize, image_index: u32) -> (r: Vec<DeviceOp>)
        requires
            slot < FRAME_BUFFER_COUNT,
            image_index < self.render.framebuffers@.len(),
        ensures
            r@ == self.spec_record(slot as int, image_index as int),
    {
        let cmd_buf = self.frames.cmd_buf(slot);
        let mut out: Vec<DeviceOp> = Vec::new();
        out.push(DeviceOp::ResetCommandBuffer { cmd_buf });
        out.push(
            DeviceOp::BeginCommandBuffer {
                cmd_buf,
                flags: vk::COMMAND_BUFFER_USAGE_ONE_TIME_SUBMIT,
            },
        );
        out.push(
            DeviceOp::Record {
                cmd_buf,
                command: Command::BeginRenderPass {
                    render_pass: self.render.render_pass,
                    framebuffer: self.render.framebuffers[image_index as usize],
                    extent: self.swappy.extent,
                    clear: Self::clear_values(),
                },
            },
        );
        out.push(
            DeviceOp::Record {
                cmd_buf,
                command: Command::BindPipeline { pipeline: self.pipeline.pipeline },
            },
        );
        out.push(
            DeviceOp::Record {
                cmd_buf,
                command: Command::PushConstants {
                    layout: self.pipeline.pipeline_layout,
                    stage_flags: vk::SHADER_STAGE_VERTEX,
                    offset: 0,
                    size: PUSH_CONSTANT_SIZE,
                },
            },
        );
        out.push(
            DeviceOp::Record {
                cmd_buf,
                command: Command::BindVertexBuffer { buffer: self.vbo.buf, offset: 0 },
            },
        );
        out.push(
            DeviceOp::Record {
                cmd_buf,
                command: Command::BindIndexBuffer {
                    buffer: self.ibo.buf,
                    offset: 0,
                    index_type: vk::INDEX_TYPE_UINT32,
                },
            },
        );
        out.push(
            DeviceOp::WriteUniform {
                slot,
                buffer: self.uniform.uniform_bufs[slot].buf,
                size: UNIFORM_DATA_SIZE,
            },
        );
        out.push(
            DeviceOp::Record {
                cmd_buf,
                command: Command::BindDescriptorSet {
                    layout: self.pipeline.pipeline_layout,
                    set: self.uniform.descriptor_sets[slot],
                },
            },
        );
        out.push(
            DeviceOp::Record {
                cmd_buf,
                command: Command::DrawIndexed {
                    index_count: CUBE_INDEX_COUNT,
                    instance_count: 1,
                    first_index: 0,
                    vertex_offset: 0,
                    first_instance: 0,
                },
            },
        );
        out.push(DeviceOp::Record { cmd_buf, command: Command::EndRenderPass });
        out.push(DeviceOp::EndCommandBuffer { cmd_buf });
        assert(out@ =~= self.spec_record(slot as int, image_index as int));
        out
    }

    /// One step of a frame for a window of `w` by `h`: takes what the
    /// device reported for the previous request and answers with the next
    /// one. The ring moves as `RingModel::step` says; no device object
    /// changes.
    pub fn render(&mut self, w: u32, h: u32, event: FrameEvent) -> (r: RenderAction)
        requires
            old(self).wf(),
        ensures
            final(self).wf(),
            final(self).same_objects(old(self)),
            final(self).frames@ == old(self).frames@.step(old(self).spec_event(event)).0,
            r@ == old(self).spec_action(
                old(self).frames@.step(old(self).spec_event(event)).1,
                w,
                h,
            ),
    {
        let event = if !self.presenting {
            FrameEvent::Failed
        } else {
            match event {
                FrameEvent::Acquired { image_index } => {
                    if (image_index as usize) < self.render.framebuffers.len() {
                        event
                    } else {
                        FrameEvent::Failed
                    }
                },
                _ => event,
            }
        };
        let step = self.frames.step(event);
        match step {
            FrameStep::WaitFence { slot } => {
                let mut ops: Vec<DeviceOp> = Vec::new();
                ops.push(
                    DeviceOp::WaitFence { fence: self.frames.frame_fence(slot), timeout: NO_TIMEOUT },
                );
                assert(ops@ =~= seq![
                    DeviceOp::WaitFence {
                        fence: self.frames.spec_frame_fences()[slot as int],
                        timeout: NO_TIMEOUT,
                    },
                ]);
                RenderAction::Run(ops)
            },
            FrameStep::ResetFence { slot } => {
                let mut ops: Vec<DeviceOp> = Vec::new();
                ops.push(DeviceOp::ResetFence { fence: self.frames.frame_fence(slot) });
                assert(ops@ =~= seq![
                    DeviceOp::ResetFence { fence: self.frames.spec_frame_fences()[slot as int] },
                ]);
                RenderAction::Run(ops)
            },
            FrameStep::Acquire { slot } => RenderAction::Acquire {
                swapchain: self.swappy.swapchain,
                timeout: NO_TIMEOUT,
                semaphore: self.frames.present_semaphore(slot),
            },
            FrameStep::Record { slot, image_index } => RenderAction::Run(
                self.record(slot, image_index),
            ),
            FrameStep::Submit { slot } => {
                let mut ops: Vec<DeviceOp> = Vec::new();
                ops.push(
                    DeviceOp::Submit {
                        queue: QueueKind::Graphics,
                        cmd_buf: self.frames.cmd_buf(slot),
                        wait_semaphore: self.frames.present_semaphore(slot),
                        wait_stage: vk::PIPELINE_STAGE_COLOR_ATTACHMENT_OUTPUT,
                        signal_semaphore: self.frames.render_semaphore(slot),
                        fence: self.frames.frame_fence(slot),
                    },
                );
                assert(ops@ =~= seq![self.spec_submit(slot as int)]);
                RenderAction::Run(ops)
            },
            FrameStep::Present { slot, image_index } => RenderAction::Present {
                queue: QueueKind::Present,
                swapchain: self.swappy.swapchain,
                wait_semaphore: self.frames.render_semaphore(slot),
                image_index,
            },
            FrameStep::Resize => RenderAction::Resize { width: w, height: h },
            FrameStep::Finished(outcome) => RenderAction::Finished(outcome),
        }
    }

    /// What is destroyed of swapchain, render target and pipeline: the
    /// pipeline, the render target and the swapchain, in that order, while
    /// they are alive; nothing once they are destroyed.
    pub open spec fn spec_presentation_teardown(&self) -> Seq<Teardown> {
        if self.presenting {
            self.pipeline.spec_destroy() + self.render.spec_destroy() + self.swappy.spec_destroy()
        } else {
            Seq::empty()
        }
    }

    /// What a resize asks for before anything is rebuilt: wait until the
    /// device is idle, then destroy pipeline, render target and swapchain.
    pub open spec fn spec_begin_resize(&self) -> Seq<DeviceOp> {
        seq![DeviceOp::WaitIdle] + spec_destroy_ops(self.spec_presentation_teardown())
    }

    fn presentation_teardown(&self) -> (r: Vec<Teardown>)
        ensures
            r@ == self.spec_presentation_teardown(),
    {
        let mut out: Vec<Teardown> = Vec::new();
        if self.presenting {
            let mut pipeline = self.pipeline.destroy();
            let mut render = self.render.destroy();
            let mut swappy = self.swappy.destroy();
            out.append(&mut pipeline);
            out.append(&mut render);
            out.append(&mut swappy);
        }
        assert(out@ =~= self.spec_presentation_teardown());
        out
    }

    /// Opens a resize: the requests that idle the device and destroy
    /// pipeline, render target and swapchain. From here on nothing is
    /// presented until `resize` has taken over what was rebuilt.
    pub fn begin_resize(&mut self) -> (r: Vec<DeviceOp>)
        ensures
            r@ == old(self).spec_begin_resize(),
            !final(self).presenting,
            *final(self) == old(self).spec_torn_down(),
    {
        let mut out: Vec<DeviceOp> = Vec::new();
        out.push(DeviceOp::WaitIdle);
        let steps = self.presentation_teardown();
        push_destroy_ops(&mut out, &steps);
        self.presenting = false;
        out
    }

    /// The playground after `begin_resize`: as it was, but presenting
    /// nothing.
    pub open spec fn spec_torn_down(self) -> VulkanPlayground {
        VulkanPlayground { presenting: false, ..self }
    }

    /// The playground after `resize`: as it was, but presenting with the
    /// given swapchain, render target and pipeline.
    pub open spec fn spec_rebuilt(
        self,
        swappy: VulkanSwapchain,
        render: VulkanRender,
        pipeline: VulkanPipeline,
    ) -> VulkanPlayground {
        VulkanPlayground { swappy, render, pipeline, presenting: true, ..self }
    }

    /// Extent and format of what is presented now.
    pub open spec fn spec_presentation(&self) -> Presentation {
        Presentation { extent: self.swappy.extent, format: self.swappy.format }
    }

    /// Closes a resize: takes over the rebuilt swapchain, render target
    /// and pipeline, in place of those that `begin_resize` had destroyed.
    /// The frame ring, the buffers, the texture and the descriptor sets
    /// stay as they are.
    pub fn resize(&mut self, swappy: VulkanSwapchain, render: VulkanRender, pipeline: VulkanPipeline)
        requires
            old(self).wf(),
            !old(self).presenting,
        ensures
            *final(self) == old(self).spec_rebuilt(swappy, render, pipeline),
            final(self).spec_presentation() == (Presentation {
                extent: swappy.extent,
                format: swappy.format,
            }),
            final(self).wf(),
            final(self).presenting,
            final(self).swappy == swappy,
            final(self).render == render,
            final(self).pipeline == pipeline,
            final(self).bvk == old(self).bvk,
            final(self).uniform == old(self).uniform,
            final(self).vbo == old(self).vbo,
            final(self).ibo == old(self).ibo,
            final(self).texture == old(self).texture,
            final(self).cmd_pool == old(self).cmd_pool,
            final(self).etc_fence == old(self).etc_fence,
            final(self).frames == old(self).frames,
    {
        self.swappy = swappy;
        self.render = render;
        self.pipeline = pipeline;
        self.presenting = true;
    }

    /// What is destroyed at shutdown, in order: vertex and index buffer;
    /// the texture; the uniforms; the ring's semaphores and fences and the
    /// upload fence; the command pool, with which the command buffers go;
    /// pipeline, render target and swapchain, unless a resize has
    /// destroyed them already; and last the device context.
    pub open spec fn spec_teardown(&self) -> Seq<Teardown> {
        seq![
            Teardown { kind: ObjectKind::Buffer, handle: self.vbo.buf },
            Teardown { kind: ObjectKind::Buffer, handle: self.ibo.buf },
        ] + self.texture.spec_destroy() + self.uniform.spec_destroy() + self.frames.spec_destroy()
            + seq![
            Teardown { kind: ObjectKind::Fence, handle: self.etc_fence },
            Teardown { kind: ObjectKind::CommandPool, handle: self.cmd_pool },
        ] + self.spec_presentation_teardown() + self.bvk.spec_destroy()
    }

    /// What shutdown asks for: wait until the device is idle, then
    /// destroy everything in the order of `spec_teardown`.
    pub open spec fn spec_shutdown(&self) -> Seq<DeviceOp> {
        seq![DeviceOp::WaitIdle] + spec_destroy_ops(self.spec_teardown())
    }

    /// The requests of the shutdown.
    pub fn shutdown(&self) -> (r: Vec<DeviceOp>)
        ensures
            r@ == self.spec_shutdown(),
    {
        let mut steps: Vec<Teardown> = Vec::new();
        steps.push(Teardown { kind: ObjectKind::Buffer, handle: self.vbo.buf });
        steps.push(Teardown { kind: ObjectKind::Buffer, handle: self.ibo.buf });
        let mut texture = self.texture.destroy();
        steps.append(&mut texture);
        let mut uniform = self.uniform.destroy();
        steps.append(&mut uniform);
        let mut frames = self.frames.destroy();
        steps.append(&mut frames);
        steps.push(Teardown { kind: ObjectKind::Fence, handle: self.etc_fence });
        steps.push(Teardown { kind: ObjectKind::CommandPool, handle: self.cmd_pool });
        let mut presentation = self.presentation_teardown();
        steps.append(&mut presentation);
        let mut bvk = self.bvk.destroy();
        steps.append(&mut bvk);
        assert(steps@ =~= self.spec_teardown());
        let mut out: Vec<DeviceOp> = Vec::new();
        out.push(DeviceOp::WaitIdle);
        push_destroy_ops(&mut out, &steps);
        assert(out@ =~= self.spec_shutdown());
        out
    }
}

/// What a rebuild for a new window size creates first: the swapchain,
/// and the depth buffer and render pass that fit it. Framebuffers and
/// pipeline follow from the handles that these give.
#[derive(Clone, Copy, Debug, PartialEq, Eq, Structural)]
pub struct ResizePlan {
    pub swapchain: SwapchainConfig,
    pub depth_image: ImageConfig,
    pub render_pass: RenderPassConfig,
}

/// What swapchain, render target and pipeline have in common: the extent
/// they cover and the format of the colour images.
#[derive(Clone, Copy, Debug, PartialEq, Eq, Structural)]
pub struct Presentation {
    pub extent: Extent2D,
    pub format: i32,
}

impl VulkanPlayground {
    /// The plan of a rebuild for a window of `w` by `h` on a surface that
    /// reports `caps`, `formats` and `modes`.
    pub open spec fn spec_plan_resize(
        caps: SurfaceCapabilities,
        formats: Seq<SurfaceFormat>,
        modes: Seq<i32>,
        w: u32,
        h: u32,
    ) -> Option<ResizePlan> {
        match VulkanSwapchain::spec_configure(caps, formats, modes, w, h) {
            Some(swapchain) => Some(
                ResizePlan {
                    swapchain,
                    depth_image: VulkanRender::spec_depth_image(swapchain.extent),
                    render_pass: VulkanRender::spec_render_pass(swapchain.format),
                },
            ),
            None => None,
        }
    }

    /// Plans the rebuild of swapchain and render target for a window of
    /// `w` by `h`. Fails where no swapchain can be configured.
    pub fn plan_resize(
        caps: &SurfaceCapabilities,
        formats: &Vec<SurfaceFormat>,
        modes: &Vec<i32>,
        w: u32,
        h: u32,
    ) -> (r: Option<ResizePlan>)
        requires
            caps.ordered(),
        ensures
            r == Self::spec_plan_resize(*caps, formats@, modes@, w, h),
    {
        match VulkanSwapchain::configure(caps, formats, modes, w, h) {
            Some(swapchain) => Some(
                ResizePlan {
                    swapchain,
                    depth_image: VulkanRender::depth_image_config(swapchain.extent),
                    render_pass: VulkanRender::render_pass_config(swapchain.format),
                },
            ),
            None => None,
        }
    }

    /// Extent and format of what is presented now.
    pub fn presentation(&self) -> (r: Presentation)
        ensures
            r == self.spec_presentation(),
    {
        Presentation { extent: self.swappy.extent, format: self.swappy.format }
    }

    /// Whether `swappy` is a swapchain as `VulkanSwapchain::create` makes
    /// it with the configuration of `plan`: of the plan's extent and
    /// format, whatever its handles.
    pub open spec fn made_from(plan: ResizePlan, swappy: VulkanSwapchain) -> bool {
        swappy.extent == plan.swapchain.extent && swappy.format == plan.swapchain.format
    }

    /// Extent and format that a resize to `w` by `h` leads to on a surface
    /// that reports `caps`, `formats` and `modes`; `None` where no
    /// swapchain can be configured.
    pub open spec fn spec_resized(
        caps: SurfaceCapabilities,
        formats: Seq<SurfaceFormat>,
        modes: Seq<i32>,
        w: u32,
        h: u32,
    ) -> Option<Presentation> {
        match Self::spec_plan_resize(caps, formats, modes, w, h) {
            Some(plan) => Some(
                Presentation { extent: plan.swapchain.extent, format: plan.swapchain.format },
            ),
            None => None,
        }
    }
}

/// After a resize with a swapchain made from a plan, the playground
/// presents with the plan's extent and format, whatever it presented
/// before, and everything but swapchain, render target and pipeline is
/// as it was.
pub proof fn lemma_resize_presents_plan(
    p: VulkanPlayground,
    plan: ResizePlan,
    swappy: VulkanSwapchain,
    render: VulkanRender,
    pipeline: VulkanPipeline,
)
    requires
        VulkanPlayground::made_from(plan, swappy),
    ensures
        ({
            let after = p.spec_torn_down().spec_rebuilt(swappy, render, pipeline);
            &&& after.spec_presentation() == (Presentation {
                extent: plan.swapchain.extent,
                format: plan.swapchain.format,
            })
            &&& after.presenting
            &&& after.frames == p.frames
            &&& after.uniform == p.uniform
            &&& after.vbo == p.vbo
            &&& after.ibo == p.ibo
            &&& after.texture == p.texture
            &&& after.bvk == p.bvk
        }),
{
}

/// Resizing twice in a row to the same size, on a surface that reports
/// the same, leaves the playground presenting with the same extent and
/// format as resizing once: those that the plan for that size gives. The
/// handles of the two rebuilds may differ; nothing else does.
pub proof fn lemma_resize_idempotent(
    p: VulkanPlayground,
    caps: SurfaceCapabilities,
    formats: Seq<SurfaceFormat>,
    modes: Seq<i32>,
    w: u32,
    h: u32,
    first: (VulkanSwapchain, VulkanRender, VulkanPipeline),
    second: (VulkanSwapchain, VulkanRender, VulkanPipeline),
)
    requires
        VulkanPlayground::spec_plan_resize(caps, formats, modes, w, h) matches Some(plan)
            && VulkanPlayground::made_from(plan, first.0) && VulkanPlayground::made_from(
            plan,
            second.0,
        ),
    ensures
        ({
            let once = p.spec_torn_down().spec_rebuilt(first.0, first.1, first.2);
            let twice = once.spec_torn_down().spec_rebuilt(second.0, second.1, second.2);
            &&& Some(once.spec_presentation()) == VulkanPlayground::spec_resized(
                caps,
                formats,
                modes,
                w,
                h,
            )
            &&& twice.spec_presentation() == once.spec_presentation()
            &&& twice.presenting == once.presenting
            &&& twice.frames == once.frames
            &&& twice.uniform == once.uniform
            &&& twice.vbo == once.vbo
            &&& twice.ibo == once.ibo
            &&& twice.texture == once.texture
            &&& twice.bvk == once.bvk
        }),
{
    let plan = VulkanPlayground::spec_plan_resize(caps, formats, modes, w, h)->Some_0;
    lemma_resize_presents_plan(p, plan, first.0, first.1, first.2);
}

/// A resize to the extent that a resize gave changes nothing: the plan
/// for a window of the chosen extent has that extent again.
pub proof fn lemma_resize_settles(
    caps: SurfaceCapabilities,
    formats: Seq<SurfaceFormat>,
    modes: Seq<i32>,
    w: u32,
    h: u32,
)
    requires
        caps.ordered(),
    ensures
        VulkanPlayground::spec_resized(caps, formats, modes, w, h) matches Some(once)
            ==> VulkanPlayground::spec_resized(
            caps,
            formats,
            modes,
            once.extent.width,
            once.extent.height,
        ) == Some(once),
{
}

/// Everything that a rebuild creates agrees on extent and format: the
/// depth buffer has the swapchain's extent, and the colour attachment of
/// the render pass has the swapchain's format.
pub proof fn lemma_resize_consistent(
    caps: SurfaceCapabilities,
    formats: Seq<SurfaceFormat>,
    modes: Seq<i32>,
    w: u32,
    h: u32,
)
    requires
        caps.ordered(),
    ensures
        VulkanPlayground::spec_plan_resize(caps, formats, modes, w, h) matches Some(plan) ==> {
            &&& caps.admits(plan.swapchain.extent)
            &&& plan.depth_image.extent.width == plan.swapchain.extent.width
            &&& plan.depth_image.extent.height == plan.swapchain.extent.height
            &&& plan.render_pass.color.format == plan.swapchain.format
            &&& plan.render_pass.depth.format == plan.depth_image.format
        },
{
}

/// A resize destroys before it rebuilds, and only after the device is
/// idle: the first request waits, every other destroys, and pipeline,
/// render target and swapchain go in that order.
pub proof fn lemma_resize_order(p: VulkanPlayground)
    requires
        p.presenting,
    ensures
        p.spec_begin_resize()[0] == DeviceOp::WaitIdle,
        forall|i: int| 1 <= i < p.spec_begin_resize().len() ==> p.spec_begin_resize()[i] is Destroy,
        p.spec_begin_resize().subrange(1, p.spec_begin_resize().len() as int) == spec_destroy_ops(
            p.pipeline.spec_destroy(),
        ) + spec_destroy_ops(p.render.spec_destroy()) + spec_destroy_ops(p.swappy.spec_destroy()),
{
    assert(p.spec_begin_resize().subrange(1, p.spec_begin_resize().len() as int) =~= spec_destroy_ops(
        p.pipeline.spec_destroy(),
    ) + spec_destroy_ops(p.render.spec_destroy()) + spec_destroy_ops(p.swappy.spec_destroy()));
}

/// Swapchain, render target and pipeline are destroyed once: what a
/// resize has destroyed, neither a second resize nor the shutdown
/// destroys again.
pub proof fn lemma_destroyed_once(p: VulkanPlayground)
    ensures
        ({
            let after = p.spec_torn_down();
            &&& after.spec_begin_resize() == seq![DeviceOp::WaitIdle]
            &&& after.spec_presentation_teardown() == Seq::<Teardown>::empty()
            &&& after.spec_teardown() == seq![
                Teardown { kind: ObjectKind::Buffer, handle: p.vbo.buf },
                Teardown { kind: ObjectKind::Buffer, handle: p.ibo.buf },
            ] + p.texture.spec_destroy() + p.uniform.spec_destroy() + p.frames.spec_destroy()
                + seq![
                Teardown { kind: ObjectKind::Fence, handle: p.etc_fence },
                Teardown { kind: ObjectKind::CommandPool, handle: p.cmd_pool },
            ] + p.bvk.spec_destroy()
        }),
{
    let after = p.spec_torn_down();
    assert(after.spec_begin_resize() =~= seq![DeviceOp::WaitIdle]);
    assert(after.spec_teardown() =~= seq![
        Teardown { kind: ObjectKind::Buffer, handle: p.vbo.buf },
        Teardown { kind: ObjectKind::Buffer, handle: p.ibo.buf },
    ] + p.texture.spec_destroy() + p.uniform.spec_destroy() + p.frames.spec_destroy() + seq![
        Teardown { kind: ObjectKind::Fence, handle: p.etc_fence },
        Teardown { kind: ObjectKind::CommandPool, handle: p.cmd_pool },
    ] + p.bvk.spec_destroy());
}

/// Nothing is acquired, recorded or presented without a live swapchain:
/// between the halves of a resize, and after a failed one, every call of
/// `render` ends the frame.
pub proof fn lemma_no_frame_without_swapchain(p: VulkanPlayground, event: FrameEvent, w: u32, h: u32)
    requires
        p.wf(),
        !p.presenting,
    ensures
        p.spec_action(p.frames@.step(p.spec_event(event)).1, w, h) is Finished,
        p.spec_action(p.frames@.step(p.spec_event(event)).1, w, h)->Finished_0
            == FrameOutcome::Fatal,
{
}

/// At shutdown the device is idle before anything is destroyed, and the
/// device context goes last: its surface, device, debug messenger and
/// instance are the final four requests.
pub proof fn lemma_shutdown_order(p: VulkanPlayground)
    ensures
        p.spec_shutdown()[0] == DeviceOp::WaitIdle,
        forall|i: int| 1 <= i < p.spec_shutdown().len() ==> p.spec_shutdown()[i] is Destroy,
        p.spec_shutdown().len() >= 5,
        p.spec_shutdown().subrange(p.spec_shutdown().len() - 4, p.spec_shutdown().len() as int)
            == spec_destroy_ops(p.bvk.spec_destroy()),
{
    let ops = p.spec_shutdown();
    assert(ops.subrange(ops.len() - 4, ops.len() as int) =~= spec_destroy_ops(
        p.bvk.spec_destroy(),
    ));
}

} // verus!
