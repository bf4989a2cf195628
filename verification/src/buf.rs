//! Vertices, buffers and push constants: their layout in memory, how a
//! buffer is filled from the host, and how one is copied to another on the
//! device.

use vstd::prelude::*;
use crate::bytes::{copy_into, spec_written};
use crate::device::{
    BufferCopy,
    Command,
    DeviceOp,
    MemoryUsage,
    ObjectKind,
    QueueKind,
    Teardown,
    NO_TIMEOUT,
    NULL_HANDLE,
};
use crate::vk;

verus! {

/// One vertex: position, colour and texture coordinate. Each component is
/// the bit pattern of an IEEE-754 single-precision number.
#[derive(Clone, Copy, Debug, PartialEq, Eq)]
pub struct Vertex {
    pub position: [u32; 3],
    pub color: [u32; 3],
    pub uv: [u32; 2],
}

/// The size of a vertex in bytes: eight components of four bytes.
pub const VERTEX_SIZE: u32 = 32;

/// How vertex data is stepped through: which binding, how many bytes per
/// element, per vertex or per instance.
#[derive(Clone, Copy, Debug, PartialEq, Eq, Structural)]
pub struct VertexInputBinding {
    pub binding: u32,
    pub stride: u32,
    pub input_rate: i32,
}

/// Where one attribute of a vertex lies and what its format is.
#[derive(Clone, Copy, Debug, PartialEq, Eq, Structural)]
pub struct VertexInputAttribute {
    pub binding: u32,
    pub location: u32,
    pub format: i32,
    pub offset: u32,
}

impl Vertex {
    /// The components of the vertex in memory order.
    pub open spec fn spec_words(self) -> Seq<u32> {
        self.position@ + self.color@ + self.uv@
    }

    /// The components of the vertex in memory order: position, colour,
    /// texture coordinate.
    pub fn words(&self) -> (r: [u32; 8])
        ensures
            r@ == self.spec_words(),
    {
        let r = [
            self.position[0],
            self.position[1],
            self.position[2],
            self.color[0],
            self.color[1],
            self.color[2],
            self.uv[0],
            self.uv[1],
        ];
        assert(r@ =~= self.spec_words());
        r
    }

    /// The vertex buffer binding: binding 0, one vertex per element.
    pub fn bindings() -> (r: VertexInputBinding)
        ensures
            r == (VertexInputBinding {
                binding: 0,
                stride: VERTEX_SIZE,
                input_rate: vk::VERTEX_INPUT_RATE_VERTEX,
            }),
    {
        VertexInputBinding {
            binding: 0,
            stride: VERTEX_SIZE,
            input_rate: vk::VERTEX_INPUT_RATE_VERTEX,
        }
    }

    /// The attributes of a vertex, by shader location.
    pub open spec fn spec_attributes() -> Seq<VertexInputAttribute> {
        seq![
            VertexInputAttribute {
                binding: 0,
                location: 0,
                format: vk::FORMAT_R32G32B32_SFLOAT,
                offset: 0,
            },
            VertexInputAttribute {
                binding: 0,
                location: 1,
                format: vk::FORMAT_R32G32B32_SFLOAT,
                offset: 12,
            },
            VertexInputAttribute {
                binding: 0,
                location: 2,
                format: vk::FORMAT_R32G32_SFLOAT,
                offset: 24,
            },
        ]
    }

    /// The attributes of a vertex: position at offset 0 and colour at
    /// offset 12, three components each, and the texture coordinate at
    /// offset 24, two components.
    pub fn attributes() -> (r: [VertexInputAttribute; 3])
        ensures
            r@ == Self::spec_attributes(),
    {
        let r = [
            VertexInputAttribute {
                binding: 0,
                location: 0,
                format: vk::FORMAT_R32G32B32_SFLOAT,
                offset: 0,
            },
            VertexInputAttribute {
                binding: 0,
                location: 1,
                format: vk::FORMAT_R32G32B32_SFLOAT,
                offset: 12,
            },
            VertexInputAttribute {
                binding: 0,
                location: 2,
                format: vk::FORMAT_R32G32_SFLOAT,
                offset: 24,
            },
        ];
        assert(r@ =~= Self::spec_attributes());
        r
    }
}

/// How a buffer is created.
#[derive(Clone, Copy, Debug, PartialEq, Eq, Structural)]
pub struct BufferConfig {
    pub size: u64,
    pub usage: u32,
    pub memory_usage: MemoryUsage,
}

/// A buffer: its handle and its size in bytes, fixed at creation.
#[derive(Clone, Copy, Debug, PartialEq, Eq, Structural)]
pub struct Buffer {
    pub buf: u64,
    pub size: usize,
}

impl BufferCopy {
    /// The copy of the first `size` bytes of one buffer to the start of
    /// another.
    pub open spec fn spec_whole(size: usize) -> BufferCopy {
        BufferCopy { src_offset: 0, dst_offset: 0, size: size as u64 }
    }

    /// Whether the region lies within a source of `src_len` bytes and a
    /// destination of `dst_len` bytes.
    pub open spec fn fits(self, src_len: nat, dst_len: nat) -> bool {
        &&& self.src_offset + self.size <= src_len
        &&& self.dst_offset + self.size <= dst_len
    }

    /// The destination's bytes after the copy: the region taken from the
    /// source, every other byte as it was.
    pub open spec fn apply(self, src: Seq<u8>, dst: Seq<u8>) -> Seq<u8> {
        Seq::new(
            dst.len(),
            |i: int|
                if self.dst_offset <= i < self.dst_offset + self.size {
                    src[self.src_offset + (i - self.dst_offset)]
                } else {
                    dst[i]
                },
        )
    }

    /// Carries the copy out on host memory. `false`, and nothing copied,
    /// where the region does not lie within both.
    pub fn perform(&self, src: &[u8], dst: &mut [u8]) -> (r: bool)
        ensures
            r == self.fits(src@.len(), old(dst)@.len()),
            final(dst)@ == if r {
                self.apply(src@, old(dst)@)
            } else {
                old(dst)@
            },
    {
        let src_len: u64 = src.len() as u64;
        let dst_len: u64 = dst.len() as u64;
        if self.size > src_len || self.src_offset > src_len - self.size || self.size > dst_len
            || self.dst_offset > dst_len - self.size {
            return false;
        }
        let from: usize = self.src_offset as usize;
        let to: usize = self.dst_offset as usize;
        let n: usize = self.size as usize;
        let mut i: usize = 0;
        while i < n
            invariant
                i <= n,
                from + n <= src@.len() <= usize::MAX,
                to + n <= dst@.len() <= usize::MAX,
                dst@.len() == old(dst)@.len(),
                from == self.src_offset,
                to == self.dst_offset,
                n == self.size,
                forall|k: int| 0 <= k < to ==> dst@[k] == old(dst)@[k],
                forall|k: int| to + i <= k < dst@.len() ==> dst@[k] == old(dst)@[k],
                forall|k: int| to <= k < to + i ==> dst@[k] == src@[from + (k - to)],
            decreases n - i,
        {
            dst[to + i] = src[from + i];
            i = i + 1;
        }
        assert(dst@ =~= self.apply(src@, old(dst)@));
        true
    }
}

impl Buffer {
    /// The buffer that stands for none: the null handle, no bytes.
    pub fn null() -> (r: Buffer)
        ensures
            r == (Buffer { buf: NULL_HANDLE, size: 0 }),
    {
        Buffer { buf: NULL_HANDLE, size: 0 }
    }

    /// How a buffer of `data_size` bytes is created.
    pub fn configure(data_size: usize, usage: u32, memory_usage: MemoryUsage) -> (r: BufferConfig)
        ensures
            r == (BufferConfig { size: data_size as u64, usage, memory_usage }),
    {
        BufferConfig { size: data_size as u64, usage, memory_usage }
    }

    /// The buffer of `data_size` bytes for what the allocator answered:
    /// the buffer under the handle that it gave, or none where it could
    /// not provide one.
    pub fn create(data_size: usize, buf: Option<u64>) -> (r: Option<Buffer>)
        ensures
            r == match buf {
                Some(handle) => Some(Buffer { buf: handle, size: data_size }),
                None => None,
            },
    {
        match buf {
            Some(handle) => Some(Buffer { buf: handle, size: data_size }),
            None => None,
        }
    }

    /// The size in bytes of `count` elements of `element_size` bytes each,
    /// where that fits the address space.
    pub fn data_size(count: usize, element_size: usize) -> (r: Option<usize>)
        ensures
            r is Some <==> count * element_size <= usize::MAX,
            r matches Some(n) ==> n == count * element_size,
    {
        count.checked_mul(element_size)
    }

    /// The buffer created under the handle `buf` for `data`, filled with
    /// it. `mapped` is the buffer's memory. Fails, and writes nothing, if
    /// the memory is not of the data's size.
    pub fn create_with_data(buf: u64, mapped: &mut [u8], data: &[u8]) -> (r: Option<Buffer>)
        ensures
            r is Some <==> old(mapped)@.len() == data@.len(),
            r matches Some(b) ==> b == (Buffer { buf, size: data@.len() as usize })
                && final(mapped)@ == data@,
            r is None ==> final(mapped)@ == old(mapped)@,
    {
        let b = Buffer { buf, size: data.len() };
        match b.map_copy_data(mapped, data) {
            Some(_) => {
                assert(mapped@ =~= data@);
                Some(b)
            },
            None => None,
        }
    }

    /// Writes `data` to the start of the buffer's memory `mapped`. Fails,
    /// and writes nothing, if `mapped` is not of the buffer's size or the
    /// data is longer than the buffer.
    pub fn map_copy_data(&self, mapped: &mut [u8], data: &[u8]) -> (r: Option<()>)
        ensures
            r is Some <==> old(mapped)@.len() == self.size && data@.len() <= self.size,
            final(mapped)@ == if r is Some {
                spec_written(old(mapped)@, data@)
            } else {
                old(mapped)@
            },
    {
        if mapped.len() != self.size || data.len() > self.size {
            return None;
        }
        copy_into(mapped, data);
        Some(())
    }

    /// The requests of a one-time upload of `src` to `dst`: record the
    /// copy of the whole buffer, submit it to the transfer queue, wait for
    /// the fence, and reset fence and command buffer for the next use.
    pub open spec fn spec_upload(src: Buffer, dst: Buffer, fence: u64, cmd_buf: u64) -> Seq<
        DeviceOp,
    > {
        seq![
            DeviceOp::BeginCommandBuffer {
                cmd_buf,
                flags: vk::COMMAND_BUFFER_USAGE_ONE_TIME_SUBMIT,
            },
            DeviceOp::Record {
                cmd_buf,
                command: Command::CopyBuffer {
                    src: src.buf,
                    dst: dst.buf,
                    region: BufferCopy::spec_whole(src.size),
                },
            },
            DeviceOp::EndCommandBuffer { cmd_buf },
            DeviceOp::Submit {
                queue: QueueKind::Transfer,
                cmd_buf,
                wait_semaphore: NULL_HANDLE,
                wait_stage: 0,
                signal_semaphore: NULL_HANDLE,
                fence,
            },
            DeviceOp::WaitFence { fence, timeout: NO_TIMEOUT },
            DeviceOp::ResetFence { fence },
            DeviceOp::ResetCommandBuffer { cmd_buf },
        ]
    }

    /// The requests that copy `src` to `dst` on the device. They are
    /// carried out in order; the first that fails ends the upload.
    pub fn upload_copy_data(src: &Buffer, dst: &Buffer, fence: u64, cmd_buf: u64) -> (r: Vec<
        DeviceOp,
    >)
        requires
            src.size == dst.size,
        ensures
            r@ == Self::spec_upload(*src, *dst, fence, cmd_buf),
    {
        let mut out: Vec<DeviceOp> = Vec::new();
        out.push(
            DeviceOp::BeginCommandBuffer {
                cmd_buf,
                flags: vk::COMMAND_BUFFER_USAGE_ONE_TIME_SUBMIT,
            },
        );
        out.push(
            DeviceOp::Record {
                cmd_buf,
                command: Command::CopyBuffer {
                    src: src.buf,
                    dst: dst.buf,
                    region: BufferCopy { src_offset: 0, dst_offset: 0, size: src.size as u64 },
                },
            },
        );
        out.push(DeviceOp::EndCommandBuffer { cmd_buf });
        out.push(
            DeviceOp::Submit {
                queue: QueueKind::Transfer,
                cmd_buf,
                wait_semaphore: NULL_HANDLE,
                wait_stage: 0,
                signal_semaphore: NULL_HANDLE,
                fence,
            },
        );
        out.push(DeviceOp::WaitFence { fence, timeout: NO_TIMEOUT });
        out.push(DeviceOp::ResetFence { fence });
        out.push(DeviceOp::ResetCommandBuffer { cmd_buf });
        assert(out@ =~= Self::spec_upload(*src, *dst, fence, cmd_buf));
        out
    }

    /// The destruction request of the buffer.
    pub fn destroy(&self) -> (r: Vec<Teardown>)
        ensures
            r@ == seq![Teardown { kind: ObjectKind::Buffer, handle: self.buf }],
    {
        let mut out: Vec<Teardown> = Vec::new();
        out.push(Teardown { kind: ObjectKind::Buffer, handle: self.buf });
        out
    }
}

/// An upload between buffers of one size copies the exact byte sequence.
/// Its requests record one copy, from the source to the destination, over
/// the whole buffer; carried out on the bytes of the two buffers, that
/// copy leaves the destination holding what the source holds, byte for
/// byte; and it is submitted before the fence is waited for, and the
/// fence and command buffer are reset only after that wait.
pub proof fn lemma_upload_copies_exactly(
    src: Buffer,
    dst: Buffer,
    fence: u64,
    cmd_buf: u64,
    src_bytes: Seq<u8>,
    dst_bytes: Seq<u8>,
)
    requires
        src.size == dst.size,
        src_bytes.len() == src.size,
        dst_bytes.len() == dst.size,
    ensures
        ({
            let ops = Buffer::spec_upload(src, dst, fence, cmd_buf);
            let region = BufferCopy::spec_whole(src.size);
            &&& ops[1] == (DeviceOp::Record {
                cmd_buf,
                command: Command::CopyBuffer { src: src.buf, dst: dst.buf, region },
            })
            &&& forall|i: int| 0 <= i < ops.len() && ops[i] is Record ==> i == 1
            &&& ops[3] is Submit
            &&& ops[4] == (DeviceOp::WaitFence { fence, timeout: NO_TIMEOUT })
            &&& forall|i: int|
                0 <= i < ops.len() && (ops[i] is ResetFence || ops[i] is ResetCommandBuffer) ==> i
                    > 4
            &&& region.fits(src_bytes.len(), dst_bytes.len())
            &&& region.apply(src_bytes, dst_bytes) == src_bytes
        }),
{
    assert(BufferCopy::spec_whole(src.size).apply(src_bytes, dst_bytes) =~= src_bytes);
}

/// The payload pushed to the vertex stage: the model-view-projection
/// matrix, sixteen single-precision bit patterns in column-major order.
#[derive(Clone, Copy, Debug, PartialEq, Eq)]
pub struct PushConstantData {
    pub mvp: [u32; 16],
}

/// The size of the push-constant payload in bytes.
pub const PUSH_CONSTANT_SIZE: u32 = 64;

/// A range of push-constant memory and the shader stages that read it.
#[derive(Clone, Copy, Debug, PartialEq, Eq, Structural)]
pub struct PushConstantRange {
    pub stage_flags: u32,
    pub offset: u32,
    pub size: u32,
}

impl PushConstantData {
    /// The push-constant range of the payload: all of it, from offset 0,
    /// for the vertex stage.
    pub open spec fn spec_push_constants() -> PushConstantRange {
        PushConstantRange {
            stage_flags: vk::SHADER_STAGE_VERTEX,
            offset: 0,
            size: PUSH_CONSTANT_SIZE,
        }
    }

    /// The push-constant range of the payload.
    pub fn push_constants() -> (r: PushConstantRange)
        ensures
            r == Self::spec_push_constants(),
    {
        PushConstantRange {
            stage_flags: vk::SHADER_STAGE_VERTEX,
            offset: 0,
            size: PUSH_CONSTANT_SIZE,
        }
    }
}

} // verus!
