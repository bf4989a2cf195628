//! Per-frame uniform buffers and the descriptor sets that bind them, with
//! the texture, to the pipeline.

use vstd::arithmetic::div_mod::{lemma_fundamental_div_mod, lemma_mod_multiples_basic};
use vstd::arithmetic::power2::{lemma_pow2_pos, pow2};
use vstd::bits::{lemma_usize_low_bits_mask_is_mod, low_bits_mask};
use vstd::prelude::*;
use crate::buf::{Buffer, BufferConfig};
use crate::bytes::{
    encode_words,
    lemma_decode_encode,
    lemma_written_reads_back,
    spec_decode,
    spec_encode,
    spec_written,
};
use crate::device::{MemoryUsage, ObjectKind, Teardown};
use crate::texture::Texture;
use crate::vk;

verus! {

/// One binding of a descriptor set layout.
#[derive(Clone, Copy, Debug, PartialEq, Eq, Structural)]
pub struct DescriptorSetLayoutBinding {
    pub binding: u32,
    pub descriptor_type: i32,
    pub descriptor_count: u32,
    pub stage_flags: u32,
}

/// The uniform payload of a frame: a colour, as four single-precision bit
/// patterns.
#[derive(Clone, Copy, Debug, PartialEq, Eq)]
pub struct UniformData {
    pub color: [u32; 4],
}

/// The size of the uniform payload in bytes.
pub const UNIFORM_DATA_SIZE: usize = 16;

impl UniformData {
    /// Binding 0: one uniform buffer, read by the vertex stage.
    pub open spec fn spec_binding() -> DescriptorSetLayoutBinding {
        DescriptorSetLayoutBinding {
            binding: 0,
            descriptor_type: vk::DESCRIPTOR_TYPE_UNIFORM_BUFFER,
            descriptor_count: 1,
            stage_flags: vk::SHADER_STAGE_VERTEX,
        }
    }

    /// The layout binding of the uniform buffer.
    pub fn binding() -> (r: DescriptorSetLayoutBinding)
        ensures
            r == Self::spec_binding(),
    {
        DescriptorSetLayoutBinding {
            binding: 0,
            descriptor_type: vk::DESCRIPTOR_TYPE_UNIFORM_BUFFER,
            descriptor_count: 1,
            stage_flags: vk::SHADER_STAGE_VERTEX,
        }
    }

    /// The payload's bytes.
    pub open spec fn spec_bytes(self) -> Seq<u8> {
        spec_encode(self.color@)
    }

    /// The payload's bytes, as they are written to the uniform buffer.
    pub fn to_bytes(&self) -> (r: Vec<u8>)
        ensures
            r@ == self.spec_bytes(),
            r@.len() == UNIFORM_DATA_SIZE,
    {
        let mut out: Vec<u8> = Vec::new();
        encode_words(&mut out, self.color.as_slice());
        assert(out@ =~= self.spec_bytes());
        out
    }
}

/// The texture as the shaders see it.
#[derive(Clone, Copy, Debug, PartialEq, Eq, Structural)]
pub struct UniformTexture {}

impl UniformTexture {
    /// Binding 1: one combined image sampler, read by the fragment stage.
    pub open spec fn spec_binding() -> DescriptorSetLayoutBinding {
        DescriptorSetLayoutBinding {
            binding: 1,
            descriptor_type: vk::DESCRIPTOR_TYPE_COMBINED_IMAGE_SAMPLER,
            descriptor_count: 1,
            stage_flags: vk::SHADER_STAGE_FRAGMENT,
        }
    }

    /// The layout binding of the texture.
    pub fn binding() -> (r: DescriptorSetLayoutBinding)
        ensures
            r == Self::spec_binding(),
    {
        DescriptorSetLayoutBinding {
            binding: 1,
            descriptor_type: vk::DESCRIPTOR_TYPE_COMBINED_IMAGE_SAMPLER,
            descriptor_count: 1,
            stage_flags: vk::SHADER_STAGE_FRAGMENT,
        }
    }
}

/// Whether `alignment` is a power of two.
pub open spec fn is_power_of_two(alignment: usize) -> bool {
    exists|k: nat| k < usize::BITS && alignment == #[trigger] pow2(k)
}

/// `size` rounded up with the mask of `alignment`; zero stays zero.
pub open spec fn spec_align(alignment: usize, size: usize) -> usize {
    if size > 0 {
        ((size + alignment - 1) as usize) & !((alignment - 1) as usize)
    } else {
        0
    }
}

/// The size of a uniform buffer for a payload of `size` bytes on a device
/// whose least uniform-buffer offset alignment is `alignment`.
pub fn align_uniform_buffer_size(alignment: usize, size: usize) -> (r: usize)
    requires
        size > 0 ==> alignment >= 1 && size + alignment - 1 <= usize::MAX,
    ensures
        r == spec_align(alignment, size),
{
    if size > 0 {
        (size + (alignment - 1)) & !(alignment - 1)
    } else {
        size
    }
}

/// For an alignment that is a power of two, as devices report it, the
/// aligned size is the least multiple of the alignment that holds the
/// payload.
pub proof fn lemma_align_rounds_up(alignment: usize, size: usize)
    requires
        is_power_of_two(alignment),
        size + alignment - 1 <= usize::MAX,
    ensures
        spec_align(alignment, size) % alignment == 0,
        size <= spec_align(alignment, size) < size + alignment,
{
    let k = choose|k: nat| k < usize::BITS && alignment == #[trigger] pow2(k);
    lemma_pow2_pos(k);
    if size > 0 {
        let t = (size + alignment - 1) as usize;
        let m = (alignment - 1) as usize;
        assert(t & !m == t - (t & m)) by (bit_vector);
        assert(m == low_bits_mask(k) as usize);
        lemma_usize_low_bits_mask_is_mod(t, k);
        assert(t & m == t % alignment);
        let a = alignment as int;
        let ti = t as int;
        let q = ti / a;
        lemma_fundamental_div_mod(ti, a);
        lemma_mod_multiples_basic(q, a);
        assert(ti - ti % a == q * a) by (nonlinear_arith)
            requires
                ti == a * q + ti % a,
        ;
        assert(spec_align(alignment, size) as int == q * a);
        assert((spec_align(alignment, size) as int) % a == 0);
    } else {
        assert(0int % (alignment as int) == 0);
    }
}

/// An aligned size is left as it is when it is aligned again.
pub proof fn lemma_align_idempotent(alignment: usize, size: usize)
    requires
        is_power_of_two(alignment),
        size + alignment - 1 <= usize::MAX,
        spec_align(alignment, size) + alignment - 1 <= usize::MAX,
    ensures
        spec_align(alignment, spec_align(alignment, size)) == spec_align(alignment, size),
{
    let k = choose|k: nat| k < usize::BITS && alignment == #[trigger] pow2(k);
    lemma_pow2_pos(k);
    lemma_align_rounds_up(alignment, size);
    let r = spec_align(alignment, size);
    if r > 0 {
        let m = (alignment - 1) as usize;
        let t = (r + alignment - 1) as usize;
        lemma_usize_low_bits_mask_is_mod(r, k);
        assert(r & m == 0);
        assert(t & !m == r) by (bit_vector)
            requires
                r & m == 0,
                t == r + m,
        ;
    }
}

/// The sizes of the descriptor pool.
#[derive(Clone, Copy, Debug, PartialEq, Eq, Structural)]
pub struct DescriptorPoolConfig {
    pub max_sets: u32,
    pub uniform_buffers: u32,
    pub image_samplers: u32,
}

/// One write to a descriptor set.
#[derive(Clone, Copy, Debug, PartialEq, Eq, Structural)]
pub enum DescriptorWrite {
    /// Point binding `binding` of `set` at `range` bytes of `buffer`.
    Buffer { set: u64, binding: u32, descriptor_type: i32, buffer: u64, offset: u64, range: u64 },
    /// Point binding `binding` of `set` at an image view and a sampler.
    Image {
        set: u64,
        binding: u32,
        descriptor_type: i32,
        image_layout: i32,
        image_view: u64,
        sampler: u64,
    },
}

/// The descriptor set layout, and per frame slot a uniform buffer and a
/// descriptor set that binds it, together with the texture.
#[derive(Clone, Copy, Debug, PartialEq, Eq)]
pub struct Uniform<const N: usize> {
    pub descriptor_set_layout: u64,
    pub uniform_bufs: [Buffer; N],
    pub descriptor_pool: u64,
    pub descriptor_sets: [u64; N],
}

impl<const N: usize> Uniform<N> {
    /// The bindings of the descriptor set layout: the uniform buffer and
    /// the texture.
    pub fn layout_bindings() -> (r: [DescriptorSetLayoutBinding; 2])
        ensures
            r@ == seq![UniformData::spec_binding(), UniformTexture::spec_binding()],
    {
        let r = [UniformData::binding(), UniformTexture::binding()];
        assert(r@ =~= seq![UniformData::spec_binding(), UniformTexture::spec_binding()]);
        r
    }

    /// How each of the uniform buffers is created: the payload's size
    /// aligned for the device, in host-visible memory that the device reads.
    pub fn buffer_config(alignment: usize) -> (r: BufferConfig)
        requires
            alignment >= 1,
            UNIFORM_DATA_SIZE + alignment - 1 <= usize::MAX,
        ensures
            r == (BufferConfig {
                size: spec_align(alignment, UNIFORM_DATA_SIZE) as u64,
                usage: vk::BUFFER_USAGE_UNIFORM_BUFFER,
                memory_usage: MemoryUsage::CpuToGpu,
            }),
    {
        Buffer::configure(
            align_uniform_buffer_size(alignment, UNIFORM_DATA_SIZE),
            vk::BUFFER_USAGE_UNIFORM_BUFFER,
            MemoryUsage::CpuToGpu,
        )
    }

    /// The descriptor pool: room for `N` sets, `N` uniform buffers and `N`
    /// combined image samplers.
    pub fn pool_config() -> (r: DescriptorPoolConfig)
        requires
            N <= u32::MAX,
        ensures
            r == (DescriptorPoolConfig {
                max_sets: N as u32,
                uniform_buffers: N as u32,
                image_samplers: N as u32,
            }),
    {
        DescriptorPoolConfig {
            max_sets: N as u32,
            uniform_buffers: N as u32,
            image_samplers: N as u32,
        }
    }

    /// The layouts that the `N` descriptor sets are allocated with: the
    /// one layout, `N` times.
    pub fn set_layouts(descriptor_set_layout: u64) -> (r: [u64; N])
        ensures
            r@ == Seq::new(N as nat, |i: int| descriptor_set_layout),
    {
        let r = [descriptor_set_layout;N];
        assert(r@ =~= Seq::new(N as nat, |i: int| descriptor_set_layout));
        r
    }

    /// The write that points binding 0 of `set` at the payload in `buffer`.
    pub open spec fn spec_buffer_write(set: u64, buffer: Buffer) -> DescriptorWrite {
        DescriptorWrite::Buffer {
            set,
            binding: 0,
            descriptor_type: vk::DESCRIPTOR_TYPE_UNIFORM_BUFFER,
            buffer: buffer.buf,
            offset: 0,
            range: UNIFORM_DATA_SIZE as u64,
        }
    }

    /// The write that points binding 1 of `set` at the texture, in the
    /// layout that shaders read from.
    pub open spec fn spec_image_write(set: u64, texture: Texture) -> DescriptorWrite {
        DescriptorWrite::Image {
            set,
            binding: 1,
            descriptor_type: vk::DESCRIPTOR_TYPE_COMBINED_IMAGE_SAMPLER,
            image_layout: vk::IMAGE_LAYOUT_SHADER_READ_ONLY_OPTIMAL,
            image_view: texture.image_view,
            sampler: texture.sampler,
        }
    }

    /// The writes that configure the sets: for each slot in order, its own
    /// uniform buffer and the shared texture.
    pub open spec fn spec_writes(&self, texture: Texture) -> Seq<DescriptorWrite> {
        Seq::new(
            2 * (N as nat),
            |k: int|
                if k % 2 == 0 {
                    Self::spec_buffer_write(self.descriptor_sets@[k / 2], self.uniform_bufs@[k / 2])
                } else {
                    Self::spec_image_write(self.descriptor_sets@[k / 2], texture)
                },
        )
    }

    /// The writes that configure the descriptor sets.
    pub fn writes(&self, texture: &Texture) -> (r: Vec<DescriptorWrite>)
        requires
            2 * N <= usize::MAX,
        ensures
            r@ == self.spec_writes(*texture),
    {
        let mut out: Vec<DescriptorWrite> = Vec::new();
        let mut i: usize = 0;
        while i < N
            invariant
                i <= N,
                2 * N <= usize::MAX,
                out@.len() == 2 * i,
                forall|k: int|
                    0 <= k < 2 * i ==> out@[k] == #[trigger] self.spec_writes(*texture)[k],
            decreases N - i,
        {
            out.push(
                DescriptorWrite::Buffer {
                    set: self.descriptor_sets[i],
                    binding: 0,
                    descriptor_type: vk::DESCRIPTOR_TYPE_UNIFORM_BUFFER,
                    buffer: self.uniform_bufs[i].buf,
                    offset: 0,
                    range: UNIFORM_DATA_SIZE as u64,
                },
            );
            out.push(
                DescriptorWrite::Image {
                    set: self.descriptor_sets[i],
                    binding: 1,
                    descriptor_type: vk::DESCRIPTOR_TYPE_COMBINED_IMAGE_SAMPLER,
                    image_layout: vk::IMAGE_LAYOUT_SHADER_READ_ONLY_OPTIMAL,
                    image_view: texture.image_view,
                    sampler: texture.sampler,
                },
            );
            i = i + 1;
        }
        assert(out@ =~= self.spec_writes(*texture));
        out
    }

    /// The uniforms over what was created: the layout, the `N` buffers,
    /// the pool, and the sets that the pool gave. Fails unless exactly `N`
    /// sets were allocated.
    pub fn create(
        descriptor_set_layout: u64,
        uniform_bufs: [Buffer; N],
        descriptor_pool: u64,
        sets: &Vec<u64>,
    ) -> (r: Option<Self>)
        ensures
            r is Some <==> sets@.len() == N,
            r matches Some(u) ==> {
                &&& u.descriptor_set_layout == descriptor_set_layout
                &&& u.uniform_bufs == uniform_bufs
                &&& u.descriptor_pool == descriptor_pool
                &&& u.descriptor_sets@ == sets@
            },
    {
        if sets.len() != N {
            return None;
        }
        let mut descriptor_sets = [0u64;N];
        let mut i: usize = 0;
        while i < N
            invariant
                i <= N,
                sets@.len() == N,
                forall|k: int| 0 <= k < i ==> descriptor_sets@[k] == sets@[k],
            decreases N - i,
        {
            descriptor_sets[i] = sets[i];
            i = i + 1;
        }
        assert(descriptor_sets@ =~= sets@);
        Some(Uniform { descriptor_set_layout, uniform_bufs, descriptor_pool, descriptor_sets })
    }

    /// Writes `data` into the memory `mapped` of the uniform buffer of
    /// slot `frame`. Fails, and writes nothing, if `mapped` is not of that
    /// buffer's size or the buffer is smaller than the payload.
    pub fn update(&self, frame: usize, mapped: &mut [u8], data: &UniformData) -> (r: Option<()>)
        requires
            frame < N,
        ensures
            r is Some <==> old(mapped)@.len() == self.uniform_bufs@[frame as int].size
                && UNIFORM_DATA_SIZE <= self.uniform_bufs@[frame as int].size,
            final(mapped)@ == if r is Some {
                spec_written(old(mapped)@, data.spec_bytes())
            } else {
                old(mapped)@
            },
    {
        let bytes = data.to_bytes();
        self.uniform_bufs[frame].map_copy_data(mapped, bytes.as_slice())
    }

    /// What `destroy` asks for: the uniform buffers in slot order, the
    /// descriptor set layout, and the pool, with which the sets go.
    pub open spec fn spec_destroy(&self) -> Seq<Teardown> {
        Seq::new(N as nat, |i: int| Teardown { kind: ObjectKind::Buffer, handle: self.uniform_bufs@[i].buf })
            + seq![
            Teardown { kind: ObjectKind::DescriptorSetLayout, handle: self.descriptor_set_layout },
            Teardown { kind: ObjectKind::DescriptorPool, handle: self.descriptor_pool },
        ]
    }

    /// The destruction requests of the uniforms.
    pub fn destroy(&self) -> (r: Vec<Teardown>)
        ensures
            r@ == self.spec_destroy(),
    {
        let mut out: Vec<Teardown> = Vec::new();
        let mut i: usize = 0;
        while i < N
            invariant
                i <= N,
                out@.len() == i,
                forall|k: int|
                    0 <= k < i ==> out@[k] == (Teardown {
                        kind: ObjectKind::Buffer,
                        handle: (#[trigger] self.uniform_bufs@[k]).buf,
                    }),
            decreases N - i,
        {
            out.push(Teardown { kind: ObjectKind::Buffer, handle: self.uniform_bufs[i].buf });
            i = i + 1;
        }
        out.push(
            Teardown { kind: ObjectKind::DescriptorSetLayout, handle: self.descriptor_set_layout },
        );
        out.push(Teardown { kind: ObjectKind::DescriptorPool, handle: self.descriptor_pool });
        assert(out@ =~= self.spec_destroy());
        out
    }
}

/// A payload written to a uniform buffer is read back from the buffer's
/// memory as it was written: the same bytes, and so the same values.
pub proof fn lemma_uniform_round_trip(mapped: Seq<u8>, data: UniformData)
    requires
        UNIFORM_DATA_SIZE <= mapped.len(),
    ensures
        ({
            let after = spec_written(mapped, data.spec_bytes());
            let read = after.subrange(0, UNIFORM_DATA_SIZE as int);
            &&& after.len() == mapped.len()
            &&& read == data.spec_bytes()
            &&& spec_decode(read) == data.color@
        }),
{
    lemma_written_reads_back(mapped, data.spec_bytes());
    lemma_decode_encode(data.color@);
}

} // verus!
