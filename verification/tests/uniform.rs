use vulkan_playground::buf::Buffer;
use vulkan_playground::bytes::decode_words;
use vulkan_playground::device::{MemoryUsage, ObjectKind, Teardown};
use vulkan_playground::frame::{FrameEvent, FrameOutcome, FrameStep, Frames};
use vulkan_playground::image::Image;
use vulkan_playground::texture::Texture;
use vulkan_playground::uniform::{
    align_uniform_buffer_size, DescriptorPoolConfig, DescriptorSetLayoutBinding, DescriptorWrite,
    Uniform, UniformData, UniformTexture, UNIFORM_DATA_SIZE,
};

#[test]
fn payload_of_16_bytes_aligns_to_256() {
    assert_eq!(align_uniform_buffer_size(256, 16), 256);
}

#[test]
fn empty_payload_aligns_to_zero() {
    assert_eq!(align_uniform_buffer_size(256, 0), 0);
    assert_eq!(align_uniform_buffer_size(0, 0), 0);
}

#[test]
fn payload_of_300_bytes_aligns_to_512() {
    assert_eq!(align_uniform_buffer_size(256, 300), 512);
}

#[test]
fn sizes_up_to_the_largest_are_aligned() {
    assert_eq!(align_uniform_buffer_size(1, usize::MAX), usize::MAX);
    assert_eq!(align_uniform_buffer_size(2, usize::MAX - 1), usize::MAX - 1);
    assert_eq!(align_uniform_buffer_size(256, usize::MAX - 255), usize::MAX - 255);
    assert_eq!(align_uniform_buffer_size(256, usize::MAX - 300), usize::MAX - 255);
    let top = 1usize << (usize::BITS - 1);
    assert_eq!(align_uniform_buffer_size(top, 16), top);
    assert_eq!(Uniform::<2>::buffer_config(top).size, 1u64 << (usize::BITS - 1));
}

#[test]
fn aligned_sizes_are_the_least_multiples() {
    assert_eq!(align_uniform_buffer_size(256, 256), 256);
    assert_eq!(align_uniform_buffer_size(256, 257), 512);
    assert_eq!(align_uniform_buffer_size(256, 1), 256);
    assert_eq!(align_uniform_buffer_size(1, 17), 17);
    assert_eq!(align_uniform_buffer_size(64, 16), 64);
    assert_eq!(align_uniform_buffer_size(16, 16), 16);
    for alignment in [1usize, 2, 4, 8, 16, 64, 256, 4096] {
        for size in 1usize..600 {
            let aligned = align_uniform_buffer_size(alignment, size);
            assert_eq!(aligned % alignment, 0);
            assert!(size <= aligned && aligned < size + alignment);
            assert_eq!(align_uniform_buffer_size(alignment, aligned), aligned);
        }
    }
}

#[test]
fn uniform_buffer_is_bound_to_the_vertex_stage() {
    assert_eq!(
        UniformData::binding(),
        DescriptorSetLayoutBinding {
            binding: 0,
            descriptor_type: 6,
            descriptor_count: 1,
            stage_flags: 0x1,
        }
    );
}

#[test]
fn texture_is_bound_to_the_fragment_stage() {
    assert_eq!(
        UniformTexture::binding(),
        DescriptorSetLayoutBinding {
            binding: 1,
            descriptor_type: 1,
            descriptor_count: 1,
            stage_flags: 0x10,
        }
    );
    assert_eq!(UniformTexture {}, UniformTexture {});
}

#[test]
fn layout_holds_both_bindings_in_order() {
    assert_eq!(
        Uniform::<2>::layout_bindings(),
        [UniformData::binding(), UniformTexture::binding()]
    );
}

#[test]
fn uniform_buffers_are_sized_by_the_device_alignment() {
    let config = Uniform::<2>::buffer_config(256);
    assert_eq!(config.size, 256);
    assert_eq!(config.usage, 0x10);
    assert_eq!(config.memory_usage, MemoryUsage::CpuToGpu);
    assert_eq!(Uniform::<2>::buffer_config(1).size, 16);
    assert_eq!(Uniform::<2>::buffer_config(64).size, 64);
}

#[test]
fn pool_has_room_for_one_set_per_slot() {
    assert_eq!(
        Uniform::<2>::pool_config(),
        DescriptorPoolConfig { max_sets: 2, uniform_buffers: 2, image_samplers: 2 }
    );
    assert_eq!(
        Uniform::<3>::pool_config(),
        DescriptorPoolConfig { max_sets: 3, uniform_buffers: 3, image_samplers: 3 }
    );
    assert_eq!(Uniform::<3>::set_layouts(77), [77, 77, 77]);
}

fn texture() -> Texture {
    Texture::create(Image { image: 5, format: 43 }, 6, 7)
}

fn uniforms() -> Uniform<2> {
    let bufs = [Buffer { buf: 100, size: 256 }, Buffer { buf: 101, size: 256 }];
    Uniform::create(50, bufs, 60, &vec![200, 201]).unwrap()
}

#[test]
fn uniforms_need_exactly_one_set_per_slot() {
    let bufs = [Buffer { buf: 100, size: 256 }, Buffer { buf: 101, size: 256 }];
    assert_eq!(Uniform::<2>::create(50, bufs, 60, &vec![200]), None);
    assert_eq!(Uniform::<2>::create(50, bufs, 60, &vec![200, 201, 202]), None);
    assert_eq!(Uniform::<2>::create(50, bufs, 60, &vec![]), None);
    let made = uniforms();
    assert_eq!(made.descriptor_set_layout, 50);
    assert_eq!(made.uniform_bufs, bufs);
    assert_eq!(made.descriptor_pool, 60);
    assert_eq!(made.descriptor_sets, [200, 201]);
}

#[test]
fn each_set_points_at_its_own_buffer_and_the_shared_texture() {
    let writes = uniforms().writes(&texture());
    assert_eq!(
        writes,
        vec![
            DescriptorWrite::Buffer {
                set: 200,
                binding: 0,
                descriptor_type: 6,
                buffer: 100,
                offset: 0,
                range: 16,
            },
            DescriptorWrite::Image {
                set: 200,
                binding: 1,
                descriptor_type: 1,
                image_layout: 5,
                image_view: 6,
                sampler: 7,
            },
            DescriptorWrite::Buffer {
                set: 201,
                binding: 0,
                descriptor_type: 6,
                buffer: 101,
                offset: 0,
                range: 16,
            },
            DescriptorWrite::Image {
                set: 201,
                binding: 1,
                descriptor_type: 1,
                image_layout: 5,
                image_view: 6,
                sampler: 7,
            },
        ]
    );
}

#[test]
fn uniforms_destroy_buffers_then_layout_then_pool() {
    assert_eq!(
        uniforms().destroy(),
        vec![
            Teardown { kind: ObjectKind::Buffer, handle: 100 },
            Teardown { kind: ObjectKind::Buffer, handle: 101 },
            Teardown { kind: ObjectKind::DescriptorSetLayout, handle: 50 },
            Teardown { kind: ObjectKind::DescriptorPool, handle: 60 },
        ]
    );
}

fn red(scale: f32) -> UniformData {
    UniformData {
        color: [
            (1.0f32 * scale).to_bits(),
            (0.0f32 * scale).to_bits(),
            (0.0f32 * scale).to_bits(),
            (1.0f32 * scale).to_bits(),
        ],
    }
}

#[test]
fn payload_is_sixteen_little_endian_bytes() {
    let data = UniformData { color: [0x0403_0201, 0x0807_0605, 0x0C0B_0A09, 0x100F_0E0D] };
    let bytes = data.to_bytes();
    assert_eq!(bytes.len(), UNIFORM_DATA_SIZE);
    assert_eq!(bytes, (1..=16).collect::<Vec<u8>>());
    let one = UniformData { color: [1.0f32.to_bits(); 4] }.to_bytes();
    assert_eq!(&one[0..4], &1.0f32.to_le_bytes());
}

#[test]
fn update_writes_the_payload_and_keeps_the_rest() {
    let uniform = uniforms();
    let mut mapped = vec![0xAAu8; 256];
    let data = red(1.5);
    assert_eq!(uniform.update(1, &mut mapped, &data), Some(()));
    assert_eq!(&mapped[..16], data.to_bytes().as_slice());
    assert!(mapped[16..].iter().all(|b| *b == 0xAA));
}

#[test]
fn update_refuses_memory_of_the_wrong_size() {
    let uniform = uniforms();
    let mut mapped = vec![0xAAu8; 255];
    assert_eq!(uniform.update(0, &mut mapped, &red(1.0)), None);
    assert!(mapped.iter().all(|b| *b == 0xAA));
    let small = Uniform::<1>::create(1, [Buffer { buf: 2, size: 8 }], 3, &vec![4]).unwrap();
    let mut mapped = vec![0u8; 8];
    assert_eq!(small.update(0, &mut mapped, &red(1.0)), None);
    assert_eq!(mapped, vec![0u8; 8]);
}

#[test]
fn payload_reads_back_after_the_frame_has_completed() {
    let uniform = uniforms();
    let mut frames: Frames<2> = Frames::create([1, 2], [3, 4], [5, 6], [7, 8], true);
    let mut memory = vec![vec![0u8; 256], vec![0u8; 256]];
    let mut written: Vec<Option<UniformData>> = vec![None, None];
    let mut event = FrameEvent::Start;
    let mut frame_number = 0;
    loop {
        match frames.step(event) {
            FrameStep::WaitFence { slot } => {
                // The fence signals: what was written for this slot's
                // previous frame is still there, byte for byte.
                if let Some(data) = written[slot] {
                    assert_eq!(&memory[slot][..16], data.to_bytes().as_slice());
                    assert_eq!(decode_words(&memory[slot][..16]), data.color.to_vec());
                }
                event = FrameEvent::Completed;
            }
            FrameStep::Record { slot, .. } => {
                let data = red(1.0 + frame_number as f32);
                assert_eq!(uniform.update(slot, &mut memory[slot], &data), Some(()));
                written[slot] = Some(data);
                event = FrameEvent::Completed;
            }
            FrameStep::Acquire { .. } => event = FrameEvent::Acquired { image_index: 0 },
            FrameStep::Finished(outcome) => {
                assert_eq!(outcome, FrameOutcome::Presented);
                frame_number += 1;
                if frame_number == 6 {
                    break;
                }
                event = FrameEvent::Start;
            }
            _ => event = FrameEvent::Completed,
        }
    }
    assert_eq!(&memory[0][..16], red(5.0).to_bytes().as_slice());
    assert_eq!(&memory[1][..16], red(6.0).to_bytes().as_slice());
}
