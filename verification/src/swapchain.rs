//! The presentation surface: how extent, format and present mode of a
//! swapchain are chosen from what the surface reports.

use vstd::prelude::*;
use crate::baby::{BabyVulkan, ImageViewConfig};
use crate::device::{
    collect_handles,
    push_teardowns,
    spec_collect,
    spec_teardown_all,
    Extent2D,
    ObjectKind,
    Teardown,
};
use crate::vk;

verus! {

/// What the surface reports of its limits.
#[derive(Clone, Copy, Debug, PartialEq, Eq, Structural)]
pub struct SurfaceCapabilities {
    pub min_image_count: u32,
    /// The surface's current size. A surface whose size is set by the
    /// swapchain reports an extent outside its own limits here.
    pub current_extent: Extent2D,
    pub min_image_extent: Extent2D,
    pub max_image_extent: Extent2D,
    pub current_transform: u32,
}

/// A pixel format and colour space that the surface supports.
#[derive(Clone, Copy, Debug, PartialEq, Eq, Structural)]
pub struct SurfaceFormat {
    pub format: i32,
    pub color_space: i32,
}

/// The four present modes of the core swapchain extension.
#[derive(Clone, Copy, Debug, PartialEq, Eq, Structural)]
pub enum PresentMode {
    Immediate,
    Mailbox,
    Fifo,
    FifoRelaxed,
}

impl PresentMode {
    /// The mode's numeric code.
    pub open spec fn spec_raw(self) -> i32 {
        match self {
            PresentMode::Immediate => vk::PRESENT_MODE_IMMEDIATE,
            PresentMode::Mailbox => vk::PRESENT_MODE_MAILBOX,
            PresentMode::Fifo => vk::PRESENT_MODE_FIFO,
            PresentMode::FifoRelaxed => vk::PRESENT_MODE_FIFO_RELAXED,
        }
    }

    /// The mode's numeric code.
    pub fn raw(self) -> (r: i32)
        ensures
            r == self.spec_raw(),
    {
        match self {
            PresentMode::Immediate => vk::PRESENT_MODE_IMMEDIATE,
            PresentMode::Mailbox => vk::PRESENT_MODE_MAILBOX,
            PresentMode::Fifo => vk::PRESENT_MODE_FIFO,
            PresentMode::FifoRelaxed => vk::PRESENT_MODE_FIFO_RELAXED,
        }
    }
}

/// Everything that the creation of a swapchain is given.
#[derive(Clone, Copy, Debug, PartialEq, Eq, Structural)]
pub struct SwapchainConfig {
    pub extent: Extent2D,
    pub format: i32,
    pub color_space: i32,
    pub present_mode: PresentMode,
    pub min_image_count: u32,
    pub pre_transform: u32,
    pub image_array_layers: u32,
    pub image_usage: u32,
    pub composite_alpha: u32,
    pub clipped: bool,
}

/// `v` brought into the range from `lo` to `hi`.
pub open spec fn spec_clamp(v: u32, lo: u32, hi: u32) -> u32 {
    if v < lo {
        lo
    } else if v > hi {
        hi
    } else {
        v
    }
}

/// `v` brought into the range from `lo` to `hi`.
pub fn clamp(v: u32, lo: u32, hi: u32) -> (r: u32)
    requires
        lo <= hi,
    ensures
        r == spec_clamp(v, lo, hi),
        lo <= r <= hi,
{
    if v < lo {
        lo
    } else if v > hi {
        hi
    } else {
        v
    }
}

/// Whether `modes` holds the code `mode`.
pub fn supports(modes: &Vec<i32>, mode: i32) -> (r: bool)
    ensures
        r == modes@.contains(mode),
{
    let mut i: usize = 0;
    while i < modes.len()
        invariant
            i <= modes.len(),
            forall|k: int| 0 <= k < i ==> modes@[k] != mode,
        decreases modes.len() - i,
    {
        if modes[i] == mode {
            return true;
        }
        i = i + 1;
    }
    false
}

impl SurfaceCapabilities {
    /// Whether `e` lies within the surface's limits, in both dimensions.
    pub open spec fn admits(self, e: Extent2D) -> bool {
        &&& self.min_image_extent.width <= e.width <= self.max_image_extent.width
        &&& self.min_image_extent.height <= e.height <= self.max_image_extent.height
    }

    /// Whether the lower limit is at most the upper one, in both dimensions.
    pub open spec fn ordered(self) -> bool {
        &&& self.min_image_extent.width <= self.max_image_extent.width
        &&& self.min_image_extent.height <= self.max_image_extent.height
    }

    /// Whether the lower limit is at most the upper one, in both dimensions.
    pub fn is_ordered(&self) -> (r: bool)
        ensures
            r == self.ordered(),
    {
        self.min_image_extent.width <= self.max_image_extent.width && self.min_image_extent.height
            <= self.max_image_extent.height
    }
}

/// A swapchain: its format and extent, its handle, and one view per image.
#[derive(Debug, PartialEq, Eq)]
pub struct VulkanSwapchain {
    pub format: i32,
    pub extent: Extent2D,
    pub swapchain: u64,
    pub swapchain_image_views: Vec<u64>,
}

impl VulkanSwapchain {
    /// The extent of a swapchain for a window of `w` by `h`: the surface's
    /// current extent where that lies within the surface's limits, else
    /// the window's size clamped into them.
    pub open spec fn spec_choose_extent(caps: SurfaceCapabilities, w: u32, h: u32) -> Extent2D {
        if caps.admits(caps.current_extent) {
            caps.current_extent
        } else {
            Extent2D {
                width: spec_clamp(w, caps.min_image_extent.width, caps.max_image_extent.width),
                height: spec_clamp(h, caps.min_image_extent.height, caps.max_image_extent.height),
            }
        }
    }

    /// The format of a swapchain: the first that the surface reports.
    pub open spec fn spec_choose_format(formats: Seq<SurfaceFormat>) -> Option<SurfaceFormat> {
        if formats.len() > 0 {
            Some(formats[0])
        } else {
            None
        }
    }

    /// The present mode of a swapchain: the first of relaxed FIFO, FIFO,
    /// mailbox and immediate that the surface supports.
    pub open spec fn spec_choose_present_mode(modes: Seq<i32>) -> Option<PresentMode> {
        if modes.contains(vk::PRESENT_MODE_FIFO_RELAXED) {
            Some(PresentMode::FifoRelaxed)
        } else if modes.contains(vk::PRESENT_MODE_FIFO) {
            Some(PresentMode::Fifo)
        } else if modes.contains(vk::PRESENT_MODE_MAILBOX) {
            Some(PresentMode::Mailbox)
        } else if modes.contains(vk::PRESENT_MODE_IMMEDIATE) {
            Some(PresentMode::Immediate)
        } else {
            None
        }
    }

    /// The configuration of a swapchain: the chosen extent, format and
    /// present mode, the least number of images that the surface needs,
    /// identity transform, opaque alpha, one layer, colour-attachment
    /// usage, clipped. `None` where the surface reports no format or none
    /// of the four present modes.
    pub open spec fn spec_configure(
        caps: SurfaceCapabilities,
        formats: Seq<SurfaceFormat>,
        modes: Seq<i32>,
        w: u32,
        h: u32,
    ) -> Option<SwapchainConfig> {
        match (Self::spec_choose_format(formats), Self::spec_choose_present_mode(modes)) {
            (Some(format), Some(present_mode)) => Some(
                SwapchainConfig {
                    extent: Self::spec_choose_extent(caps, w, h),
                    format: format.format,
                    color_space: format.color_space,
                    present_mode,
                    min_image_count: caps.min_image_count,
                    pre_transform: vk::SURFACE_TRANSFORM_IDENTITY,
                    image_array_layers: 1,
                    image_usage: vk::IMAGE_USAGE_COLOR_ATTACHMENT,
                    composite_alpha: vk::COMPOSITE_ALPHA_OPAQUE,
                    clipped: true,
                },
            ),
            _ => None,
        }
    }

    /// Chooses the extent of a swapchain for a window of `w` by `h`.
    pub fn choose_extent(caps: &SurfaceCapabilities, w: u32, h: u32) -> (r: Extent2D)
        requires
            caps.ordered(),
        ensures
            r == Self::spec_choose_extent(*caps, w, h),
            caps.admits(r),
    {
        let extent = caps.current_extent;
        if extent.width >= caps.min_image_extent.width && extent.width
            <= caps.max_image_extent.width && extent.height >= caps.min_image_extent.height
            && extent.height <= caps.max_image_extent.height {
            extent
        } else {
            Extent2D {
                width: clamp(w, caps.min_image_extent.width, caps.max_image_extent.width),
                height: clamp(h, caps.min_image_extent.height, caps.max_image_extent.height),
            }
        }
    }

    /// Chooses the format of a swapchain.
    pub fn choose_format(formats: &Vec<SurfaceFormat>) -> (r: Option<SurfaceFormat>)
        ensures
            r == Self::spec_choose_format(formats@),
    {
        if formats.len() > 0 {
            Some(formats[0])
        } else {
            None
        }
    }

    /// Chooses the present mode of a swapchain among the supported codes.
    pub fn choose_present_mode(modes: &Vec<i32>) -> (r: Option<PresentMode>)
        ensures
            r == Self::spec_choose_present_mode(modes@),
    {
        if supports(modes, vk::PRESENT_MODE_FIFO_RELAXED) {
            Some(PresentMode::FifoRelaxed)
        } else if supports(modes, vk::PRESENT_MODE_FIFO) {
            Some(PresentMode::Fifo)
        } else if supports(modes, vk::PRESENT_MODE_MAILBOX) {
            Some(PresentMode::Mailbox)
        } else if supports(modes, vk::PRESENT_MODE_IMMEDIATE) {
            Some(PresentMode::Immediate)
        } else {
            None
        }
    }

    /// Configures a swapchain for a window of `w` by `h` from what the
    /// surface reports.
    pub fn configure(
        caps: &SurfaceCapabilities,
        formats: &Vec<SurfaceFormat>,
        modes: &Vec<i32>,
        w: u32,
        h: u32,
    ) -> (r: Option<SwapchainConfig>)
        requires
            caps.ordered(),
        ensures
            r == Self::spec_configure(*caps, formats@, modes@, w, h),
    {
        let extent = Self::choose_extent(caps, w, h);
        let format = match Self::choose_format(formats) {
            Some(f) => f,
            None => {
                return None;
            },
        };
        let present_mode = match Self::choose_present_mode(modes) {
            Some(m) => m,
            None => {
                return None;
            },
        };
        Some(
            SwapchainConfig {
                extent,
                format: format.format,
                color_space: format.color_space,
                present_mode,
                min_image_count: caps.min_image_count,
                pre_transform: vk::SURFACE_TRANSFORM_IDENTITY,
                image_array_layers: 1,
                image_usage: vk::IMAGE_USAGE_COLOR_ATTACHMENT,
                composite_alpha: vk::COMPOSITE_ALPHA_OPAQUE,
                clipped: true,
            },
        )
    }

    /// One colour view per swapchain image, in the swapchain's format.
    pub open spec fn spec_image_views(images: Seq<u64>, format: i32) -> Seq<ImageViewConfig> {
        Seq::new(
            images.len(),
            |i: int| BabyVulkan::spec_image_view(images[i], format, vk::IMAGE_ASPECT_COLOR),
        )
    }

    /// The configurations of the views of the swapchain's images.
    pub fn image_view_configs(images: &Vec<u64>, format: i32) -> (r: Vec<ImageViewConfig>)
        ensures
            r@ == Self::spec_image_views(images@, format),
    {
        let mut out: Vec<ImageViewConfig> = Vec::new();
        let mut i: usize = 0;
        while i < images.len()
            invariant
                i <= images.len(),
                out@.len() == i,
                forall|k: int|
                    0 <= k < i ==> out@[k] == BabyVulkan::spec_image_view(
                        #[trigger] images@[k],
                        format,
                        vk::IMAGE_ASPECT_COLOR,
                    ),
            decreases images.len() - i,
        {
            out.push(BabyVulkan::create_image_view(images[i], format, vk::IMAGE_ASPECT_COLOR));
            i = i + 1;
        }
        assert(out@ =~= Self::spec_image_views(images@, format));
        out
    }

    /// The swapchain made with `config`, whose handle is `swapchain` and
    /// whose image views were created with the results `views`: all of it
    /// or, if one view could not be created, nothing.
    pub fn create(config: &SwapchainConfig, swapchain: u64, views: &Vec<Option<u64>>) -> (r: Option<
        VulkanSwapchain,
    >)
        ensures
            match r {
                Some(s) => {
                    &&& spec_collect(views@) == Some(s.swapchain_image_views@)
                    &&& s.format == config.format
                    &&& s.extent == config.extent
                    &&& s.swapchain == swapchain
                },
                None => spec_collect(views@) is None,
            },
    {
        match collect_handles(views) {
            Some(swapchain_image_views) => Some(
                VulkanSwapchain {
                    format: config.format,
                    extent: config.extent,
                    swapchain,
                    swapchain_image_views,
                },
            ),
            None => None,
        }
    }

    /// What `destroy` asks for: every image view, in order, and last the
    /// swapchain.
    pub open spec fn spec_destroy(&self) -> Seq<Teardown> {
        spec_teardown_all(ObjectKind::ImageView, self.swapchain_image_views@).push(
            Teardown { kind: ObjectKind::Swapchain, handle: self.swapchain },
        )
    }

    /// The destruction requests of the swapchain.
    pub fn destroy(&self) -> (r: Vec<Teardown>)
        ensures
            r@ == self.spec_destroy(),
    {
        let mut out: Vec<Teardown> = Vec::new();
        push_teardowns(&mut out, ObjectKind::ImageView, &self.swapchain_image_views);
        out.push(Teardown { kind: ObjectKind::Swapchain, handle: self.swapchain });
        assert(out@ =~= self.spec_destroy());
        out
    }
}

/// The chosen extent lies within the surface's limits, whatever the
/// window's size.
pub proof fn lemma_extent_admitted(caps: SurfaceCapabilities, w: u32, h: u32)
    requires
        caps.ordered(),
    ensures
        caps.admits(VulkanSwapchain::spec_choose_extent(caps, w, h)),
{
}

/// A window whose size lies within the limits of a surface without a size
/// of its own gets a swapchain of exactly its size.
pub proof fn lemma_extent_kept(caps: SurfaceCapabilities, w: u32, h: u32)
    requires
        !caps.admits(caps.current_extent),
        caps.admits(Extent2D { width: w, height: h }),
    ensures
        VulkanSwapchain::spec_choose_extent(caps, w, h) == (Extent2D { width: w, height: h }),
{
}

/// Choosing an extent for a window that already has the chosen extent
/// changes nothing.
pub proof fn lemma_extent_idempotent(caps: SurfaceCapabilities, w: u32, h: u32)
    requires
        caps.ordered(),
    ensures
        ({
            let e = VulkanSwapchain::spec_choose_extent(caps, w, h);
            VulkanSwapchain::spec_choose_extent(caps, e.width, e.height) == e
        }),
{
}

/// The chosen present mode is supported, and no mode that is preferred to
/// it is. The four codes ascend in the order of preference, from immediate
/// to relaxed FIFO.
pub proof fn lemma_present_mode_preferred(modes: Seq<i32>)
    ensures
        match VulkanSwapchain::spec_choose_present_mode(modes) {
            Some(mode) => {
                &&& modes.contains(mode.spec_raw())
                &&& forall|m: i32| modes.contains(m) && 0 <= m <= 3 ==> m <= mode.spec_raw()
            },
            None => forall|m: i32| modes.contains(m) ==> !(0 <= m <= 3),
        },
{
}

} // verus!
