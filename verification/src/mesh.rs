//! The cube: its vertices and indices, their bytes, and how they reach
//! the device.

use vstd::prelude::*;
use crate::buf::{Buffer, BufferConfig, Vertex};
use crate::bytes::{encode_words, spec_encode};
use crate::device::{
    DeviceOp,
    MemoryUsage,
    ObjectKind,
    Teardown,
    F32_0_1,
    F32_0_25,
    F32_0_4,
    F32_0_55,
    F32_0_7,
    F32_0_85,
    F32_HALF,
    F32_MINUS_HALF,
    F32_ONE,
    F32_ZERO,
};
use crate::vk;

verus! {

/// The number of vertices of the cube.
pub const CUBE_VERTEX_COUNT: usize = 8;

/// The number of indices of the cube: twelve triangles.
pub const CUBE_INDEX_COUNT: u32 = 36;

/// The vertex at `(x, y, z)` with the grey level `shade` and the texture
/// coordinate `(u, v)`.
pub open spec fn spec_vertex(x: u32, y: u32, z: u32, shade: u32, u: u32, v: u32) -> Vertex {
    Vertex { position: [x, y, z], color: [shade, shade, shade], uv: [u, v] }
}

fn vertex(x: u32, y: u32, z: u32, shade: u32, u: u32, v: u32) -> (r: Vertex)
    ensures
        r == spec_vertex(x, y, z, shade, u, v),
{
    Vertex { position: [x, y, z], color: [shade, shade, shade], uv: [u, v] }
}

/// The eight corners of the cube of edge 1 about the origin, the back
/// face first, each face counter-clockwise from its lower left corner,
/// shaded from white to black.
pub open spec fn spec_cube_vertices() -> Seq<Vertex> {
    seq![
        spec_vertex(F32_MINUS_HALF, F32_MINUS_HALF, F32_MINUS_HALF, F32_ONE, F32_ZERO, F32_ONE),
        spec_vertex(F32_MINUS_HALF, F32_HALF, F32_MINUS_HALF, F32_0_85, F32_ZERO, F32_ZERO),
        spec_vertex(F32_HALF, F32_HALF, F32_MINUS_HALF, F32_0_7, F32_ONE, F32_ZERO),
        spec_vertex(F32_HALF, F32_MINUS_HALF, F32_MINUS_HALF, F32_0_55, F32_ONE, F32_ONE),
        spec_vertex(F32_MINUS_HALF, F32_MINUS_HALF, F32_HALF, F32_0_4, F32_ZERO, F32_ONE),
        spec_vertex(F32_MINUS_HALF, F32_HALF, F32_HALF, F32_0_25, F32_ZERO, F32_ZERO),
        spec_vertex(F32_HALF, F32_HALF, F32_HALF, F32_0_1, F32_ONE, F32_ZERO),
        spec_vertex(F32_HALF, F32_MINUS_HALF, F32_HALF, F32_ZERO, F32_ONE, F32_ONE),
    ]
}

/// The indices of the cube's twelve triangles, two per face.
pub open spec fn spec_cube_indices() -> Seq<u32> {
    seq![
        0u32, 1, 2, 0, 2, 3,
        4, 5, 6, 4, 6, 7,
        4, 0, 1, 4, 1, 5,
        6, 2, 3, 6, 3, 7,
        4, 0, 3, 4, 3, 7,
        1, 5, 6, 1, 6, 2,
    ]
}

/// The vertices of the cube.
pub fn cube_vertices() -> (r: Vec<Vertex>)
    ensures
        r@ == spec_cube_vertices(),
{
    let mut out: Vec<Vertex> = Vec::new();
    out.push(vertex(F32_MINUS_HALF, F32_MINUS_HALF, F32_MINUS_HALF, F32_ONE, F32_ZERO, F32_ONE));
    out.push(vertex(F32_MINUS_HALF, F32_HALF, F32_MINUS_HALF, F32_0_85, F32_ZERO, F32_ZERO));
    out.push(vertex(F32_HALF, F32_HALF, F32_MINUS_HALF, F32_0_7, F32_ONE, F32_ZERO));
    out.push(vertex(F32_HALF, F32_MINUS_HALF, F32_MINUS_HALF, F32_0_55, F32_ONE, F32_ONE));
    out.push(vertex(F32_MINUS_HALF, F32_MINUS_HALF, F32_HALF, F32_0_4, F32_ZERO, F32_ONE));
    out.push(vertex(F32_MINUS_HALF, F32_HALF, F32_HALF, F32_0_25, F32_ZERO, F32_ZERO));
    out.push(vertex(F32_HALF, F32_HALF, F32_HALF, F32_0_1, F32_ONE, F32_ZERO));
    out.push(vertex(F32_HALF, F32_MINUS_HALF, F32_HALF, F32_ZERO, F32_ONE, F32_ONE));
    assert(out@ =~= spec_cube_vertices());
    out
}

/// The indices of the cube.
pub fn cube_indices() -> (r: Vec<u32>)
    ensures
        r@ == spec_cube_indices(),
{
    let out: Vec<u32> = vec![
        0, 1, 2, 0, 2, 3,
        4, 5, 6, 4, 6, 7,
        4, 0, 1, 4, 1, 5,
        6, 2, 3, 6, 3, 7,
        4, 0, 3, 4, 3, 7,
        1, 5, 6, 1, 6, 2,
    ];
    assert(out@ =~= spec_cube_indices());
    out
}

/// The triangles of the cube name vertices of the cube, and there are as
/// many indices as a frame draws.
pub proof fn lemma_cube_indices_in_range()
    ensures
        spec_cube_vertices().len() == CUBE_VERTEX_COUNT,
        spec_cube_indices().len() == CUBE_INDEX_COUNT,
        forall|k: int|
            0 <= k < spec_cube_indices().len() ==> (#[trigger] spec_cube_indices()[k])
                < CUBE_VERTEX_COUNT,
{
}

/// The bytes of `vertices`, vertex after vertex.
pub open spec fn spec_vertex_bytes(vertices: Seq<Vertex>) -> Seq<u8>
    decreases vertices.len(),
{
    if vertices.len() == 0 {
        Seq::empty()
    } else {
        spec_vertex_bytes(vertices.drop_last()) + spec_encode(vertices.last().spec_words())
    }
}

/// The bytes of `vertices` as they lie in a vertex buffer.
pub fn vertex_bytes(vertices: &Vec<Vertex>) -> (r: Vec<u8>)
    requires
        32 * vertices.len() <= usize::MAX,
    ensures
        r@ == spec_vertex_bytes(vertices@),
        r@.len() == 32 * vertices.len(),
{
    let mut out: Vec<u8> = Vec::new();
    let mut i: usize = 0;
    while i < vertices.len()
        invariant
            i <= vertices.len(),
            32 * vertices.len() <= usize::MAX,
            out@.len() == 32 * i,
            out@ == spec_vertex_bytes(vertices@.subrange(0, i as int)),
        decreases vertices.len() - i,
    {
        let words = vertices[i].words();
        encode_words(&mut out, words.as_slice());
        proof {
            let next = vertices@.subrange(0, i + 1);
            assert(next.drop_last() =~= vertices@.subrange(0, i as int));
            assert(next.last() == vertices@[i as int]);
        }
        i = i + 1;
    }
    assert(vertices@.subrange(0, vertices.len() as int) =~= vertices@);
    out
}

/// The bytes of `indices` as they lie in an index buffer.
pub fn index_bytes(indices: &Vec<u32>) -> (r: Vec<u8>)
    requires
        4 * indices.len() <= usize::MAX,
    ensures
        r@ == spec_encode(indices@),
{
    let mut out: Vec<u8> = Vec::new();
    encode_words(&mut out, indices.as_slice());
    assert(out@ =~= spec_encode(indices@));
    out
}

/// How a staging buffer of `size` bytes is created: host memory that
/// transfers read from.
pub fn staging_buffer(size: usize) -> (r: BufferConfig)
    ensures
        r == (BufferConfig {
            size: size as u64,
            usage: vk::BUFFER_USAGE_TRANSFER_SRC,
            memory_usage: MemoryUsage::CpuOnly,
        }),
{
    Buffer::configure(size, vk::BUFFER_USAGE_TRANSFER_SRC, MemoryUsage::CpuOnly)
}

/// How the vertex buffer of `size` bytes is created: device-local memory
/// that transfers write to.
pub fn vertex_buffer(size: usize) -> (r: BufferConfig)
    ensures
        r == (BufferConfig {
            size: size as u64,
            usage: vk::BUFFER_USAGE_VERTEX_BUFFER | vk::BUFFER_USAGE_TRANSFER_DST,
            memory_usage: MemoryUsage::GpuOnly,
        }),
{
    Buffer::configure(
        size,
        vk::BUFFER_USAGE_VERTEX_BUFFER | vk::BUFFER_USAGE_TRANSFER_DST,
        MemoryUsage::GpuOnly,
    )
}

/// How the index buffer of `size` bytes is created: device-local memory
/// that transfers write to.
pub fn index_buffer(size: usize) -> (r: BufferConfig)
    ensures
        r == (BufferConfig {
            size: size as u64,
            usage: vk::BUFFER_USAGE_INDEX_BUFFER | vk::BUFFER_USAGE_TRANSFER_DST,
            memory_usage: MemoryUsage::GpuOnly,
        }),
{
    Buffer::configure(
        size,
        vk::BUFFER_USAGE_INDEX_BUFFER | vk::BUFFER_USAGE_TRANSFER_DST,
        MemoryUsage::GpuOnly,
    )
}

/// The requests that move mesh data from its staging buffer to the
/// device: the upload of `staging` to `dst`, and the destruction of the
/// staging buffer once the upload's fence wait is over.
pub open spec fn spec_upload_mesh(staging: Buffer, dst: Buffer, fence: u64, cmd_buf: u64) -> Seq<
    DeviceOp,
> {
    Buffer::spec_upload(staging, dst, fence, cmd_buf).push(
        DeviceOp::Destroy(Teardown { kind: ObjectKind::Buffer, handle: staging.buf }),
    )
}

/// The requests that upload a staged mesh buffer and release the staging
/// buffer. They are carried out in order; the first that fails ends it.
pub fn upload_mesh(staging: &Buffer, dst: &Buffer, fence: u64, cmd_buf: u64) -> (r: Vec<DeviceOp>)
    requires
        staging.size == dst.size,
    ensures
        r@ == spec_upload_mesh(*staging, *dst, fence, cmd_buf),
{
    let mut out = Buffer::upload_copy_data(staging, dst, fence, cmd_buf);
    out.push(DeviceOp::Destroy(Teardown { kind: ObjectKind::Buffer, handle: staging.buf }));
    out
}

} // verus!
