//! Textures: a sampled image filled from decoded pixels through a staging
//! buffer.

use vstd::prelude::*;
use crate::baby::{BabyVulkan, ImageViewConfig};
use crate::buf::{Buffer, BufferConfig};
use crate::device::{
    BufferImageCopy,
    Command,
    DeviceOp,
    Extent3D,
    ImageBarrier,
    MemoryUsage,
    ObjectKind,
    QueueKind,
    SubresourceRange,
    Teardown,
    NO_TIMEOUT,
    NULL_HANDLE,
};
use crate::image::{Image, ImageConfig};
use crate::vk;

verus! {

/// How the texture sampler is created.
#[derive(Clone, Copy, Debug, PartialEq, Eq, Structural)]
pub struct SamplerConfig {
    pub mag_filter: i32,
    pub min_filter: i32,
    pub address_mode_u: i32,
    pub address_mode_v: i32,
    pub address_mode_w: i32,
    pub border_color: i32,
    pub unnormalized_coordinates: bool,
}

/// What the creation of a texture needs: the staging buffer for the
/// pixels, the image, and the sampler.
#[derive(Clone, Copy, Debug, PartialEq, Eq, Structural)]
pub struct TexturePlan {
    pub extent: Extent3D,
    pub staging: BufferConfig,
    pub image: ImageConfig,
    pub sampler: SamplerConfig,
}

/// A texture: its image, a view of it, and its sampler.
#[derive(Clone, Copy, Debug, PartialEq, Eq, Structural)]
pub struct Texture {
    pub image: Image,
    pub image_view: u64,
    pub sampler: u64,
}

/// The number of bytes of one RGBA8 pixel.
pub const BYTES_PER_PIXEL: usize = 4;

impl Texture {
    /// Whether a decoder's result is a picture: both dimensions positive,
    /// and `width * height * 4` bytes of pixels.
    pub open spec fn decoded(width: i32, height: i32, pixels_len: usize) -> bool {
        &&& width > 0
        &&& height > 0
        &&& pixels_len == width * height * BYTES_PER_PIXEL
    }

    /// The number of bytes of the RGBA8 pixels of a picture of `width` by
    /// `height`, where both are positive and the number fits the address
    /// space.
    pub fn pixels_len(width: i32, height: i32) -> (r: Option<usize>)
        ensures
            r is Some <==> width > 0 && height > 0 && width * height * 4 <= usize::MAX,
            r matches Some(n) ==> n == width * height * 4,
    {
        if width <= 0 || height <= 0 {
            return None;
        }
        let w: u64 = width as u64;
        let h: u64 = height as u64;
        assert(w * h * 4 <= 0x7fff_ffff * 0x7fff_ffff * 4) by (nonlinear_arith)
            requires
                0 < w <= 0x7fff_ffff,
                0 < h <= 0x7fff_ffff,
        ;
        let bytes: u64 = w * h * 4;
        if bytes > usize::MAX as u64 {
            None
        } else {
            Some(bytes as usize)
        }
    }

    /// The sampler: linear filtering, repeating in all three directions.
    pub open spec fn spec_sampler() -> SamplerConfig {
        SamplerConfig {
            mag_filter: vk::FILTER_LINEAR,
            min_filter: vk::FILTER_LINEAR,
            address_mode_u: vk::SAMPLER_ADDRESS_MODE_REPEAT,
            address_mode_v: vk::SAMPLER_ADDRESS_MODE_REPEAT,
            address_mode_w: vk::SAMPLER_ADDRESS_MODE_REPEAT,
            border_color: vk::BORDER_COLOR_INT_OPAQUE_BLACK,
            unnormalized_coordinates: false,
        }
    }

    /// The plan for a picture of `width` by `height`: a host-visible
    /// staging buffer of the pixels' size, a sampled sRGB image of the
    /// picture's extent that transfers can write, and the sampler.
    pub open spec fn spec_plan(width: i32, height: i32, pixels_len: usize) -> TexturePlan {
        let extent = Extent3D { width: width as u32, height: height as u32, depth: 1 };
        TexturePlan {
            extent,
            staging: BufferConfig {
                size: pixels_len as u64,
                usage: vk::BUFFER_USAGE_TRANSFER_SRC,
                memory_usage: MemoryUsage::CpuOnly,
            },
            image: Image::spec_configure(
                vk::FORMAT_R8G8B8A8_SRGB,
                vk::IMAGE_USAGE_SAMPLED | vk::IMAGE_USAGE_TRANSFER_DST,
                extent,
            ),
            sampler: Self::spec_sampler(),
        }
    }

    /// Plans the texture for what the decoder returned: a width, a height
    /// and `pixels_len` bytes of RGBA8 pixels. Fails if that is no picture.
    pub fn plan(width: i32, height: i32, pixels_len: usize) -> (r: Option<TexturePlan>)
        ensures
            r is Some <==> Self::decoded(width, height, pixels_len),
            r matches Some(p) ==> p == Self::spec_plan(width, height, pixels_len),
    {
        if width <= 0 || height <= 0 {
            return None;
        }
        let w: u64 = width as u64;
        let h: u64 = height as u64;
        assert(w * h * 4 <= 0x7fff_ffff * 0x7fff_ffff * 4) by (nonlinear_arith)
            requires
                0 < w <= 0x7fff_ffff,
                0 < h <= 0x7fff_ffff,
        ;
        let expected: u64 = w * h * 4;
        if pixels_len as u64 != expected {
            return None;
        }
        let extent = Extent3D { width: width as u32, height: height as u32, depth: 1 };
        Some(
            TexturePlan {
                extent,
                staging: Buffer::configure(
                    pixels_len,
                    vk::BUFFER_USAGE_TRANSFER_SRC,
                    MemoryUsage::CpuOnly,
                ),
                image: Image::configure(
                    vk::FORMAT_R8G8B8A8_SRGB,
                    vk::IMAGE_USAGE_SAMPLED | vk::IMAGE_USAGE_TRANSFER_DST,
                    extent,
                ),
                sampler: SamplerConfig {
                    mag_filter: vk::FILTER_LINEAR,
                    min_filter: vk::FILTER_LINEAR,
                    address_mode_u: vk::SAMPLER_ADDRESS_MODE_REPEAT,
                    address_mode_v: vk::SAMPLER_ADDRESS_MODE_REPEAT,
                    address_mode_w: vk::SAMPLER_ADDRESS_MODE_REPEAT,
                    border_color: vk::BORDER_COLOR_INT_OPAQUE_BLACK,
                    unnormalized_coordinates: false,
                },
            },
        )
    }

    /// The barrier that takes the image from undefined contents to the
    /// layout that transfers write to.
    pub open spec fn spec_to_transfer(image: u64) -> ImageBarrier {
        ImageBarrier {
            src_stage: vk::PIPELINE_STAGE_TOP_OF_PIPE,
            dst_stage: vk::PIPELINE_STAGE_TRANSFER,
            src_access: vk::ACCESS_NONE,
            dst_access: vk::ACCESS_NONE,
            old_layout: vk::IMAGE_LAYOUT_UNDEFINED,
            new_layout: vk::IMAGE_LAYOUT_TRANSFER_DST_OPTIMAL,
            image,
            range: SubresourceRange::spec_single(vk::IMAGE_ASPECT_COLOR),
        }
    }

    /// The barrier that takes the image from the transfer layout to the
    /// layout that fragment shaders read from.
    pub open spec fn spec_to_shader(image: u64) -> ImageBarrier {
        ImageBarrier {
            src_stage: vk::PIPELINE_STAGE_TRANSFER,
            dst_stage: vk::PIPELINE_STAGE_FRAGMENT_SHADER,
            src_access: vk::ACCESS_NONE,
            dst_access: vk::ACCESS_NONE,
            old_layout: vk::IMAGE_LAYOUT_TRANSFER_DST_OPTIMAL,
            new_layout: vk::IMAGE_LAYOUT_SHADER_READ_ONLY_OPTIMAL,
            image,
            range: SubresourceRange::spec_single(vk::IMAGE_ASPECT_COLOR),
        }
    }

    /// The copy of the tightly packed pixels of the staging buffer into
    /// the whole first mip level of the image.
    pub open spec fn spec_pixels(extent: Extent3D) -> BufferImageCopy {
        BufferImageCopy {
            buffer_offset: 0,
            buffer_row_length: 0,
            buffer_image_height: 0,
            aspect_mask: vk::IMAGE_ASPECT_COLOR,
            mip_level: 0,
            base_array_layer: 0,
            layer_count: 1,
            image_extent: extent,
        }
    }

    /// The requests of the upload: record the transition to the transfer
    /// layout, the copy from the staging buffer and the transition to the
    /// shader layout; submit to the transfer queue and wait for the fence;
    /// reset fence and command buffer; and only now destroy the staging
    /// buffer.
    pub open spec fn spec_upload(
        staging: Buffer,
        image: Image,
        extent: Extent3D,
        fence: u64,
        cmd_buf: u64,
    ) -> Seq<DeviceOp> {
        seq![
            DeviceOp::BeginCommandBuffer {
                cmd_buf,
                flags: vk::COMMAND_BUFFER_USAGE_ONE_TIME_SUBMIT,
            },
            DeviceOp::Record {
                cmd_buf,
                command: Command::PipelineBarrier { barrier: Self::spec_to_transfer(image.image) },
            },
            DeviceOp::Record {
                cmd_buf,
                command: Command::CopyBufferToImage {
                    buffer: staging.buf,
                    image: image.image,
                    layout: vk::IMAGE_LAYOUT_TRANSFER_DST_OPTIMAL,
                    region: Self::spec_pixels(extent),
                },
            },
            DeviceOp::Record {
                cmd_buf,
                command: Command::PipelineBarrier { barrier: Self::spec_to_shader(image.image) },
            },
            DeviceOp::EndCommandBuffer { cmd_buf },
            DeviceOp::Submit {
                queue: QueueKind::Transfer,
                cmd_buf,
                wait_semaphore: NULL_HANDLE,
                wait_stage: 0,
                signal_semaphore: NULL_HANDLE,
                fence,
            },
            DeviceOp::WaitFence { fence, timeout: NO_TIMEOUT },
            DeviceOp::ResetFence { fence },
            DeviceOp::ResetCommandBuffer { cmd_buf },
            DeviceOp::Destroy(Teardown { kind: ObjectKind::Buffer, handle: staging.buf }),
        ]
    }

    /// The requests that move the pixels from the staging buffer into the
    /// image. They are carried out in order; the first that fails ends the
    /// upload.
    pub fn upload(staging: &Buffer, image: &Image, extent: Extent3D, fence: u64, cmd_buf: u64) -> (r:
        Vec<DeviceOp>)
        ensures
            r@ == Self::spec_upload(*staging, *image, extent, fence, cmd_buf),
    {
        let range = SubresourceRange::single(vk::IMAGE_ASPECT_COLOR);
        let mut out: Vec<DeviceOp> = Vec::new();
        out.push(
            DeviceOp::BeginCommandBuffer {
                cmd_buf,
                flags: vk::COMMAND_BUFFER_USAGE_ONE_TIME_SUBMIT,
            },
        );
        out.push(
            DeviceOp::Record {
                cmd_buf,
                command: Command::PipelineBarrier {
                    barrier: ImageBarrier {
                        src_stage: vk::PIPELINE_STAGE_TOP_OF_PIPE,
                        dst_stage: vk::PIPELINE_STAGE_TRANSFER,
                        src_access: vk::ACCESS_NONE,
                        dst_access: vk::ACCESS_NONE,
                        old_layout: vk::IMAGE_LAYOUT_UNDEFINED,
                        new_layout: vk::IMAGE_LAYOUT_TRANSFER_DST_OPTIMAL,
                        image: image.image,
                        range,
                    },
                },
            },
        );
        out.push(
            DeviceOp::Record {
                cmd_buf,
                command: Command::CopyBufferToImage {
                    buffer: staging.buf,
                    image: image.image,
                    layout: vk::IMAGE_LAYOUT_TRANSFER_DST_OPTIMAL,
                    region: BufferImageCopy {
                        buffer_offset: 0,
                        buffer_row_length: 0,
                        buffer_image_height: 0,
                        aspect_mask: vk::IMAGE_ASPECT_COLOR,
                        mip_level: 0,
                        base_array_layer: 0,
                        layer_count: 1,
                        image_extent: extent,
                    },
                },
            },
        );
        out.push(
            DeviceOp::Record {
                cmd_buf,
                command: Command::PipelineBarrier {
                    barrier: ImageBarrier {
                        src_stage: vk::PIPELINE_STAGE_TRANSFER,
                        dst_stage: vk::PIPELINE_STAGE_FRAGMENT_SHADER,
                        src_access: vk::ACCESS_NONE,
                        dst_access: vk::ACCESS_NONE,
                        old_layout: vk::IMAGE_LAYOUT_TRANSFER_DST_OPTIMAL,
                        new_layout: vk::IMAGE_LAYOUT_SHADER_READ_ONLY_OPTIMAL,
                        image: image.image,
                        range,
                    },
                },
            },
        );
        out.push(DeviceOp::EndCommandBuffer { cmd_buf });
        out.push(
            DeviceOp::Submit {
                queue: QueueKind::Transfer,
                cmd_buf,
                wait_semaphore: NULL_HANDLE,
                wait_stage: 0,
                signal_semaphore: NULL_HANDLE,
                fence,
            },
        );
        out.push(DeviceOp::WaitFence { fence, timeout: NO_TIMEOUT });
        out.push(DeviceOp::ResetFence { fence });
        out.push(DeviceOp::ResetCommandBuffer { cmd_buf });
        out.push(DeviceOp::Destroy(Teardown { kind: ObjectKind::Buffer, handle: staging.buf }));
        assert(out@ =~= Self::spec_upload(*staging, *image, extent, fence, cmd_buf));
        out
    }

    /// The configuration of the texture's view: the colour aspect of the
    /// image, in the image's format.
    pub fn view_config(image: &Image) -> (r: ImageViewConfig)
        ensures
            r == BabyVulkan::spec_image_view(image.image, image.format, vk::IMAGE_ASPECT_COLOR),
    {
        BabyVulkan::create_image_view(image.image, image.format, vk::IMAGE_ASPECT_COLOR)
    }

    /// The texture of `image`, with its view and its sampler.
    pub fn create(image: Image, image_view: u64, sampler: u64) -> (r: Texture)
        ensures
            r == (Texture { image, image_view, sampler }),
    {
        Texture { image, image_view, sampler }
    }

    /// What `destroy` asks for: sampler, view, image.
    pub open spec fn spec_destroy(&self) -> Seq<Teardown> {
        seq![
            Teardown { kind: ObjectKind::Sampler, handle: self.sampler },
            Teardown { kind: ObjectKind::ImageView, handle: self.image_view },
            Teardown { kind: ObjectKind::Image, handle: self.image.image },
        ]
    }

    /// The destruction requests of the texture.
    pub fn destroy(&self) -> (r: Vec<Teardown>)
        ensures
            r@ == self.spec_destroy(),
    {
        let mut out: Vec<Teardown> = Vec::new();
        out.push(Teardown { kind: ObjectKind::Sampler, handle: self.sampler });
        out.push(Teardown { kind: ObjectKind::ImageView, handle: self.image_view });
        out.push(Teardown { kind: ObjectKind::Image, handle: self.image.image });
        assert(out@ =~= self.spec_destroy());
        out
    }
}

/// In an upload the staging buffer is destroyed after the fence wait, and
/// the wait comes after the submission of the copy.
pub proof fn lemma_staging_outlives_copy(
    staging: Buffer,
    image: Image,
    extent: Extent3D,
    fence: u64,
    cmd_buf: u64,
)
    ensures
        ({
            let ops = Texture::spec_upload(staging, image, extent, fence, cmd_buf);
            forall|i: int, j: int, k: int|
                0 <= i < ops.len() && 0 <= j < ops.len() && 0 <= k < ops.len() && ops[i] is Submit
                    && ops[j] is WaitFence && ops[k] is Destroy ==> i < j < k
        }),
{
}

} // verus!
