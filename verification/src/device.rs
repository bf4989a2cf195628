//! Plain descriptions of what the host asks of the device.
//!
//! Nothing here touches a device. A handle is the raw 64-bit value of a
//! Vulkan object; a request names handles and plain parameters, and the
//! caller carries it out.

use vstd::prelude::*;

verus! {

/// The kind of device object that a handle names.
#[derive(Clone, Copy, Debug, PartialEq, Eq, Structural)]
pub enum ObjectKind {
    Instance,
    DebugMessenger,
    Surface,
    Device,
    Swapchain,
    ImageView,
    Image,
    Framebuffer,
    RenderPass,
    Buffer,
    Sampler,
    ShaderModule,
    Pipeline,
    PipelineLayout,
    DescriptorSetLayout,
    DescriptorPool,
    Semaphore,
    Fence,
    CommandPool,
}

/// One destruction request: destroy the object `handle` of kind `kind`.
#[derive(Clone, Copy, Debug, PartialEq, Eq, Structural)]
pub struct Teardown {
    pub kind: ObjectKind,
    pub handle: u64,
}

/// Which of the device context's three queues a submission goes to.
#[derive(Clone, Copy, Debug, PartialEq, Eq, Structural)]
pub enum QueueKind {
    Graphics,
    Present,
    Transfer,
}

/// Where the allocator is asked to place a resource.
#[derive(Clone, Copy, Debug, PartialEq, Eq, Structural)]
pub enum MemoryUsage {
    /// Host memory, written by the host and read by transfers.
    CpuOnly,
    /// Device-local memory.
    GpuOnly,
    /// Host-visible memory that the device reads every frame.
    CpuToGpu,
    /// Left to the allocator.
    Auto,
}

/// A width and a height, in pixels.
#[derive(Clone, Copy, Debug, PartialEq, Eq, Structural)]
pub struct Extent2D {
    pub width: u32,
    pub height: u32,
}

/// A width, a height and a depth, in texels.
#[derive(Clone, Copy, Debug, PartialEq, Eq, Structural)]
pub struct Extent3D {
    pub width: u32,
    pub height: u32,
    pub depth: u32,
}

/// The mip levels and array layers of an image that a view or a barrier covers.
#[derive(Clone, Copy, Debug, PartialEq, Eq, Structural)]
pub struct SubresourceRange {
    pub aspect_mask: u32,
    pub base_mip_level: u32,
    pub level_count: u32,
    pub base_array_layer: u32,
    pub layer_count: u32,
}

impl SubresourceRange {
    /// The first mip level and first array layer, alone, in the given aspect.
    pub open spec fn spec_single(aspect_mask: u32) -> SubresourceRange {
        SubresourceRange {
            aspect_mask,
            base_mip_level: 0,
            level_count: 1,
            base_array_layer: 0,
            layer_count: 1,
        }
    }

    /// The first mip level and first array layer, alone, in the given aspect.
    pub fn single(aspect_mask: u32) -> (r: SubresourceRange)
        ensures
            r == Self::spec_single(aspect_mask),
    {
        SubresourceRange {
            aspect_mask,
            base_mip_level: 0,
            level_count: 1,
            base_array_layer: 0,
            layer_count: 1,
        }
    }
}

/// A byte range copied from one buffer to another.
#[derive(Clone, Copy, Debug, PartialEq, Eq, Structural)]
pub struct BufferCopy {
    pub src_offset: u64,
    pub dst_offset: u64,
    pub size: u64,
}

/// A change of an image's layout between two pipeline stages.
#[derive(Clone, Copy, Debug, PartialEq, Eq, Structural)]
pub struct ImageBarrier {
    pub src_stage: u32,
    pub dst_stage: u32,
    pub src_access: u32,
    pub dst_access: u32,
    pub old_layout: i32,
    pub new_layout: i32,
    pub image: u64,
    pub range: SubresourceRange,
}

/// A tightly packed region of a buffer copied into an image.
#[derive(Clone, Copy, Debug, PartialEq, Eq, Structural)]
pub struct BufferImageCopy {
    pub buffer_offset: u64,
    pub buffer_row_length: u32,
    pub buffer_image_height: u32,
    pub aspect_mask: u32,
    pub mip_level: u32,
    pub base_array_layer: u32,
    pub layer_count: u32,
    pub image_extent: Extent3D,
}

/// The values that the attachments are cleared to. The colour channels and
/// the depth are IEEE-754 single-precision bit patterns.
#[derive(Clone, Copy, Debug, PartialEq, Eq, Structural)]
pub struct ClearValues {
    pub red: u32,
    pub green: u32,
    pub blue: u32,
    pub alpha: u32,
    pub depth: u32,
    pub stencil: u32,
}

/// A command recorded into a command buffer.
#[allow(inconsistent_fields)]
#[derive(Clone, Copy, Debug, PartialEq, Eq, Structural)]
pub enum Command {
    CopyBuffer { src: u64, dst: u64, region: BufferCopy },
    PipelineBarrier { barrier: ImageBarrier },
    CopyBufferToImage { buffer: u64, image: u64, layout: i32, region: BufferImageCopy },
    BeginRenderPass { render_pass: u64, framebuffer: u64, extent: Extent2D, clear: ClearValues },
    BindPipeline { pipeline: u64 },
    /// Push `size` bytes at `offset`; the caller supplies the bytes.
    PushConstants { layout: u64, stage_flags: u32, offset: u32, size: u32 },
    BindVertexBuffer { buffer: u64, offset: u64 },
    BindIndexBuffer { buffer: u64, offset: u64, index_type: i32 },
    BindDescriptorSet { layout: u64, set: u64 },
    DrawIndexed {
        index_count: u32,
        instance_count: u32,
        first_index: u32,
        vertex_offset: i32,
        first_instance: u32,
    },
    EndRenderPass,
}

/// A request to the device, made by the host.
#[derive(Clone, Copy, Debug, PartialEq, Eq, Structural)]
pub enum DeviceOp {
    /// Block until the device has no work left.
    WaitIdle,
    /// Block until `fence` signals, at most `timeout` nanoseconds.
    WaitFence { fence: u64, timeout: u64 },
    ResetFence { fence: u64 },
    ResetCommandBuffer { cmd_buf: u64 },
    BeginCommandBuffer { cmd_buf: u64, flags: u32 },
    Record { cmd_buf: u64, command: Command },
    EndCommandBuffer { cmd_buf: u64 },
    /// Write this frame's uniform payload of `size` bytes into `buffer`,
    /// the uniform buffer of frame slot `slot`.
    WriteUniform { slot: usize, buffer: u64, size: usize },
    /// Submit `cmd_buf` to `queue`. A semaphore of 0 stands for none.
    Submit {
        queue: QueueKind,
        cmd_buf: u64,
        wait_semaphore: u64,
        wait_stage: u32,
        signal_semaphore: u64,
        fence: u64,
    },
    Destroy(Teardown),
}

/// The bit patterns of the single-precision numbers that the crate names:
/// 0, 1, a half and its negative, and the shades of the mesh and of the
/// clear colour.
pub const F32_ZERO: u32 = 0x0000_0000;

pub const F32_ONE: u32 = 0x3F80_0000;

pub const F32_HALF: u32 = 0x3F00_0000;

pub const F32_MINUS_HALF: u32 = 0xBF00_0000;

pub const F32_0_85: u32 = 0x3F59_999A;

pub const F32_0_7: u32 = 0x3F33_3333;

pub const F32_0_55: u32 = 0x3F0C_CCCD;

pub const F32_0_4: u32 = 0x3ECC_CCCD;

pub const F32_0_25: u32 = 0x3E80_0000;

pub const F32_0_1: u32 = 0x3DCC_CCCD;

pub const F32_0_2: u32 = 0x3E4C_CCCD;

pub const F32_0_3: u32 = 0x3E99_999A;

impl DeviceOp {
    /// Whether a failure of this request within a frame leaves nothing to
    /// go on with: the fence wait, the fence reset, the reset of the
    /// command buffer and the submission. A failure of any other request
    /// is reported to the frame's state machine.
    pub open spec fn spec_failure_is_fatal(self) -> bool {
        self is WaitFence || self is ResetFence || self is ResetCommandBuffer || self is Submit
    }
}

/// Decides whether a failure of `op` within a frame stops the program at
/// once.
pub fn failure_is_fatal(op: &DeviceOp) -> (r: bool)
    ensures
        r == (op is WaitFence || op is ResetFence || op is ResetCommandBuffer || op is Submit),
        r == op.spec_failure_is_fatal(),
{
    match op {
        DeviceOp::WaitFence { .. } => true,
        DeviceOp::ResetFence { .. } => true,
        DeviceOp::ResetCommandBuffer { .. } => true,
        DeviceOp::Submit { .. } => true,
        _ => false,
    }
}

/// The handle that stands for no object.
pub const NULL_HANDLE: u64 = 0;

/// The timeout that waits without limit.
pub const NO_TIMEOUT: u64 = 0xFFFF_FFFF_FFFF_FFFF;

/// The results of a run of creation calls, in order, if every one of them
/// gave a handle.
pub open spec fn spec_collect(results: Seq<Option<u64>>) -> Option<Seq<u64>> {
    if forall|i: int| 0 <= i < results.len() ==> (#[trigger] results[i]) is Some {
        Some(Seq::new(results.len(), |i: int| results[i]->Some_0))
    } else {
        None
    }
}

/// All-or-nothing: the handles of `results` in order, or `None` as soon as
/// one creation failed.
pub fn collect_handles(results: &Vec<Option<u64>>) -> (r: Option<Vec<u64>>)
    ensures
        match r {
            Some(handles) => spec_collect(results@) == Some(handles@),
            None => spec_collect(results@) is None,
        },
{
    let mut out: Vec<u64> = Vec::new();
    let mut i: usize = 0;
    while i < results.len()
        invariant
            i <= results.len(),
            out@.len() == i,
            forall|k: int| 0 <= k < i ==> (#[trigger] results@[k]) == Some(out@[k]),
        decreases results.len() - i,
    {
        match results[i] {
            Some(h) => {
                out.push(h);
            },
            None => {
                assert(!(results@[i as int] is Some));
                return None;
            },
        }
        i = i + 1;
    }
    assert(out@ =~= Seq::new(results@.len(), |i: int| results@[i]->Some_0));
    Some(out)
}

/// One destruction request per handle, all of one kind, in order.
pub open spec fn spec_teardown_all(kind: ObjectKind, handles: Seq<u64>) -> Seq<Teardown> {
    Seq::new(handles.len(), |i: int| Teardown { kind, handle: handles[i] })
}

/// Appends to `out` one destruction request per handle, in order.
pub fn push_teardowns(out: &mut Vec<Teardown>, kind: ObjectKind, handles: &Vec<u64>)
    ensures
        final(out)@ == old(out)@ + spec_teardown_all(kind, handles@),
{
    let ghost before = out@;
    let mut i: usize = 0;
    while i < handles.len()
        invariant
            i <= handles.len(),
            out@.len() == before.len() + i,
            forall|k: int| 0 <= k < before.len() ==> out@[k] == before[k],
            forall|k: int|
                0 <= k < i ==> out@[before.len() + k] == (Teardown {
                    kind,
                    handle: #[trigger] handles@[k],
                }),
        decreases handles.len() - i,
    {
        out.push(Teardown { kind, handle: handles[i] });
        i = i + 1;
    }
    assert(out@ =~= before + spec_teardown_all(kind, handles@));
}

/// The requests that destroy `steps`, in order.
pub open spec fn spec_destroy_ops(steps: Seq<Teardown>) -> Seq<DeviceOp> {
    Seq::new(steps.len(), |i: int| DeviceOp::Destroy(steps[i]))
}

/// Appends to `out` one `Destroy` request per step, in order.
pub fn push_destroy_ops(out: &mut Vec<DeviceOp>, steps: &Vec<Teardown>)
    ensures
        final(out)@ == old(out)@ + spec_destroy_ops(steps@),
{
    let ghost before = out@;
    let mut i: usize = 0;
    while i < steps.len()
        invariant
            i <= steps.len(),
            out@.len() == before.len() + i,
            forall|k: int| 0 <= k < before.len() ==> out@[k] == before[k],
            forall|k: int|
                0 <= k < i ==> out@[before.len() + k] == DeviceOp::Destroy(#[trigger] steps@[k]),
        decreases steps.len() - i,
    {
        out.push(DeviceOp::Destroy(steps[i]));
        i = i + 1;
    }
    assert(out@ =~= before + spec_destroy_ops(steps@));
}

} // verus!
