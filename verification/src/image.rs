//! Device-local images.

use vstd::prelude::*;
use crate::device::{Extent3D, MemoryUsage, ObjectKind, Teardown};
use crate::vk;

verus! {

/// How an image is created.
#[derive(Clone, Copy, Debug, PartialEq, Eq, Structural)]
pub struct ImageConfig {
    pub format: i32,
    pub usage: u32,
    pub extent: Extent3D,
    pub image_type: i32,
    pub mip_levels: u32,
    pub array_layers: u32,
    pub samples: u32,
    pub tiling: i32,
    pub memory_usage: MemoryUsage,
    pub required_flags: u32,
}

/// An image: its handle and its format.
#[derive(Clone, Copy, Debug, PartialEq, Eq, Structural)]
pub struct Image {
    pub image: u64,
    pub format: i32,
}

impl Image {
    /// The configuration of a two-dimensional image in device-local
    /// memory: one mip level, one layer, one sample, optimal tiling.
    pub open spec fn spec_configure(format: i32, usage: u32, extent: Extent3D) -> ImageConfig {
        ImageConfig {
            format,
            usage,
            extent,
            image_type: vk::IMAGE_TYPE_2D,
            mip_levels: 1,
            array_layers: 1,
            samples: vk::SAMPLE_COUNT_1,
            tiling: vk::IMAGE_TILING_OPTIMAL,
            memory_usage: MemoryUsage::Auto,
            required_flags: vk::MEMORY_PROPERTY_DEVICE_LOCAL,
        }
    }

    /// How an image of the given format, usage and extent is created.
    pub fn configure(format: i32, usage: u32, extent: Extent3D) -> (r: ImageConfig)
        ensures
            r == Self::spec_configure(format, usage, extent),
    {
        ImageConfig {
            format,
            usage,
            extent,
            image_type: vk::IMAGE_TYPE_2D,
            mip_levels: 1,
            array_layers: 1,
            samples: vk::SAMPLE_COUNT_1,
            tiling: vk::IMAGE_TILING_OPTIMAL,
            memory_usage: MemoryUsage::Auto,
            required_flags: vk::MEMORY_PROPERTY_DEVICE_LOCAL,
        }
    }

    /// The image that was created with `config` under the handle `image`.
    pub fn create(config: &ImageConfig, image: u64) -> (r: Image)
        ensures
            r == (Image { image, format: config.format }),
    {
        Image { image, format: config.format }
    }

    /// The destruction request of the image.
    pub fn destroy(&self) -> (r: Vec<Teardown>)
        ensures
            r@ == seq![Teardown { kind: ObjectKind::Image, handle: self.image }],
    {
        let mut out: Vec<Teardown> = Vec::new();
        out.push(Teardown { kind: ObjectKind::Image, handle: self.image });
        out
    }
}

} // verus!
