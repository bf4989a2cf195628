//! The render target: depth buffer, render pass and framebuffers of a
//! swapchain. It is built for one swapchain and goes when that one goes.

use vstd::prelude::*;
use crate::baby::{BabyVulkan, ImageViewConfig};
use crate::device::{
    collect_handles,
    push_teardowns,
    spec_collect,
    spec_teardown_all,
    Extent2D,
    Extent3D,
    ObjectKind,
    Teardown,
};
use crate::image::{Image, ImageConfig};
use crate::swapchain::VulkanSwapchain;
use crate::vk;

verus! {

/// One attachment of a render pass: what happens to its contents at the
/// start and the end of the pass, and the layouts it is in.
#[derive(Clone, Copy, Debug, PartialEq, Eq, Structural)]
pub struct AttachmentDescription {
    pub format: i32,
    pub samples: u32,
    pub load_op: i32,
    pub store_op: i32,
    pub stencil_load_op: i32,
    pub stencil_store_op: i32,
    pub initial_layout: i32,
    pub final_layout: i32,
}

/// The use of an attachment in a subpass.
#[derive(Clone, Copy, Debug, PartialEq, Eq, Structural)]
pub struct AttachmentReference {
    pub attachment: u32,
    pub layout: i32,
}

/// What one subpass must be through with before another may go on.
#[derive(Clone, Copy, Debug, PartialEq, Eq, Structural)]
pub struct SubpassDependency {
    pub src_subpass: u32,
    pub dst_subpass: u32,
    pub src_stage_mask: u32,
    pub dst_stage_mask: u32,
    pub src_access_mask: u32,
    pub dst_access_mask: u32,
}

/// A render pass of two attachments, colour at index 0 and depth at
/// index 1, one graphics subpass that uses both, and two dependencies on
/// what came before the pass.
#[derive(Clone, Copy, Debug, PartialEq, Eq, Structural)]
pub struct RenderPassConfig {
    pub color: AttachmentDescription,
    pub depth: AttachmentDescription,
    pub bind_point: i32,
    pub color_ref: AttachmentReference,
    pub depth_ref: AttachmentReference,
    pub color_dependency: SubpassDependency,
    pub depth_dependency: SubpassDependency,
}

/// A framebuffer: a swapchain image's view paired with the depth view.
#[derive(Clone, Copy, Debug, PartialEq, Eq, Structural)]
pub struct FramebufferConfig {
    pub render_pass: u64,
    pub color_view: u64,
    pub depth_view: u64,
    pub width: u32,
    pub height: u32,
    pub layers: u32,
}

/// The render target of a swapchain.
#[derive(Debug, PartialEq, Eq)]
pub struct VulkanRender {
    pub render_pass: u64,
    pub framebuffers: Vec<u64>,
    pub depth_image: Image,
    pub depth_view: u64,
}

impl VulkanRender {
    /// The depth buffer: a 32-bit float depth image of the swapchain's
    /// extent, used as depth attachment.
    pub open spec fn spec_depth_image(extent: Extent2D) -> ImageConfig {
        Image::spec_configure(
            vk::FORMAT_D32_SFLOAT,
            vk::IMAGE_USAGE_DEPTH_STENCIL_ATTACHMENT,
            Extent3D { width: extent.width, height: extent.height, depth: 1 },
        )
    }

    /// How the depth buffer for a swapchain of `extent` is created.
    pub fn depth_image_config(extent: Extent2D) -> (r: ImageConfig)
        ensures
            r == Self::spec_depth_image(extent),
    {
        Image::configure(
            vk::FORMAT_D32_SFLOAT,
            vk::IMAGE_USAGE_DEPTH_STENCIL_ATTACHMENT,
            Extent3D { width: extent.width, height: extent.height, depth: 1 },
        )
    }

    /// How the view of the depth buffer is created.
    pub fn depth_view_config(depth_image: &Image) -> (r: ImageViewConfig)
        ensures
            r == BabyVulkan::spec_image_view(
                depth_image.image,
                depth_image.format,
                vk::IMAGE_ASPECT_DEPTH,
            ),
    {
        BabyVulkan::create_image_view(depth_image.image, depth_image.format, vk::IMAGE_ASPECT_DEPTH)
    }

    /// The colour attachment: cleared at the start, stored at the end,
    /// from undefined contents to the layout that presentation reads.
    pub open spec fn spec_color_attachment(format: i32) -> AttachmentDescription {
        AttachmentDescription {
            format,
            samples: vk::SAMPLE_COUNT_1,
            load_op: vk::ATTACHMENT_LOAD_OP_CLEAR,
            store_op: vk::ATTACHMENT_STORE_OP_STORE,
            stencil_load_op: vk::ATTACHMENT_LOAD_OP_DONT_CARE,
            stencil_store_op: vk::ATTACHMENT_STORE_OP_DONT_CARE,
            initial_layout: vk::IMAGE_LAYOUT_UNDEFINED,
            final_layout: vk::IMAGE_LAYOUT_PRESENT_SRC_KHR,
        }
    }

    /// The depth attachment: cleared at the start, stored at the end, from
    /// undefined contents to the depth attachment layout.
    pub open spec fn spec_depth_attachment() -> AttachmentDescription {
        AttachmentDescription {
            format: vk::FORMAT_D32_SFLOAT,
            samples: vk::SAMPLE_COUNT_1,
            load_op: vk::ATTACHMENT_LOAD_OP_CLEAR,
            store_op: vk::ATTACHMENT_STORE_OP_STORE,
            stencil_load_op: vk::ATTACHMENT_LOAD_OP_DONT_CARE,
            stencil_store_op: vk::ATTACHMENT_STORE_OP_DONT_CARE,
            initial_layout: vk::IMAGE_LAYOUT_UNDEFINED,
            final_layout: vk::IMAGE_LAYOUT_DEPTH_STENCIL_ATTACHMENT_OPTIMAL,
        }
    }

    /// The dependency of the subpass on earlier work, at the stages
    /// `stages`, before it writes with the access `access`.
    pub open spec fn spec_dependency(stages: u32, access: u32) -> SubpassDependency {
        SubpassDependency {
            src_subpass: vk::SUBPASS_EXTERNAL,
            dst_subpass: 0,
            src_stage_mask: stages,
            dst_stage_mask: stages,
            src_access_mask: vk::ACCESS_NONE,
            dst_access_mask: access,
        }
    }

    /// The render pass for a swapchain of the given format. The two
    /// dependencies hold the subpass back until the previous frame is
    /// through colour output and through the depth tests.
    pub open spec fn spec_render_pass(format: i32) -> RenderPassConfig {
        RenderPassConfig {
            color: Self::spec_color_attachment(format),
            depth: Self::spec_depth_attachment(),
            bind_point: vk::PIPELINE_BIND_POINT_GRAPHICS,
            color_ref: AttachmentReference {
                attachment: 0,
                layout: vk::IMAGE_LAYOUT_COLOR_ATTACHMENT_OPTIMAL,
            },
            depth_ref: AttachmentReference {
                attachment: 1,
                layout: vk::IMAGE_LAYOUT_DEPTH_STENCIL_ATTACHMENT_OPTIMAL,
            },
            color_dependency: Self::spec_dependency(
                vk::PIPELINE_STAGE_COLOR_ATTACHMENT_OUTPUT,
                vk::ACCESS_COLOR_ATTACHMENT_WRITE,
            ),
            depth_dependency: Self::spec_dependency(
                vk::PIPELINE_STAGE_EARLY_FRAGMENT_TESTS | vk::PIPELINE_STAGE_LATE_FRAGMENT_TESTS,
                vk::ACCESS_DEPTH_STENCIL_ATTACHMENT_WRITE,
            ),
        }
    }

    /// How the render pass for a swapchain of the given format is created.
    pub fn render_pass_config(format: i32) -> (r: RenderPassConfig)
        ensures
            r == Self::spec_render_pass(format),
    {
        let depth_stages: u32 = vk::PIPELINE_STAGE_EARLY_FRAGMENT_TESTS
            | vk::PIPELINE_STAGE_LATE_FRAGMENT_TESTS;
        RenderPassConfig {
            color: AttachmentDescription {
                format,
                samples: vk::SAMPLE_COUNT_1,
                load_op: vk::ATTACHMENT_LOAD_OP_CLEAR,
                store_op: vk::ATTACHMENT_STORE_OP_STORE,
                stencil_load_op: vk::ATTACHMENT_LOAD_OP_DONT_CARE,
                stencil_store_op: vk::ATTACHMENT_STORE_OP_DONT_CARE,
                initial_layout: vk::IMAGE_LAYOUT_UNDEFINED,
                final_layout: vk::IMAGE_LAYOUT_PRESENT_SRC_KHR,
            },
            depth: AttachmentDescription {
                format: vk::FORMAT_D32_SFLOAT,
                samples: vk::SAMPLE_COUNT_1,
                load_op: vk::ATTACHMENT_LOAD_OP_CLEAR,
                store_op: vk::ATTACHMENT_STORE_OP_STORE,
                stencil_load_op: vk::ATTACHMENT_LOAD_OP_DONT_CARE,
                stencil_store_op: vk::ATTACHMENT_STORE_OP_DONT_CARE,
                initial_layout: vk::IMAGE_LAYOUT_UNDEFINED,
                final_layout: vk::IMAGE_LAYOUT_DEPTH_STENCIL_ATTACHMENT_OPTIMAL,
            },
            bind_point: vk::PIPELINE_BIND_POINT_GRAPHICS,
            color_ref: AttachmentReference {
                attachment: 0,
                layout: vk::IMAGE_LAYOUT_COLOR_ATTACHMENT_OPTIMAL,
            },
            depth_ref: AttachmentReference {
                attachment: 1,
                layout: vk::IMAGE_LAYOUT_DEPTH_STENCIL_ATTACHMENT_OPTIMAL,
            },
            color_dependency: SubpassDependency {
                src_subpass: vk::SUBPASS_EXTERNAL,
                dst_subpass: 0,
                src_stage_mask: vk::PIPELINE_STAGE_COLOR_ATTACHMENT_OUTPUT,
                dst_stage_mask: vk::PIPELINE_STAGE_COLOR_ATTACHMENT_OUTPUT,
                src_access_mask: vk::ACCESS_NONE,
                dst_access_mask: vk::ACCESS_COLOR_ATTACHMENT_WRITE,
            },
            depth_dependency: SubpassDependency {
                src_subpass: vk::SUBPASS_EXTERNAL,
                dst_subpass: 0,
                src_stage_mask: depth_stages,
                dst_stage_mask: depth_stages,
                src_access_mask: vk::ACCESS_NONE,
                dst_access_mask: vk::ACCESS_DEPTH_STENCIL_ATTACHMENT_WRITE,
            },
        }
    }

    /// One framebuffer per image view of the swapchain, in order, each
    /// with the shared depth view, of the swapchain's extent.
    pub open spec fn spec_framebuffers(
        render_pass: u64,
        swappy: VulkanSwapchain,
        depth_view: u64,
    ) -> Seq<FramebufferConfig> {
        Seq::new(
            swappy.swapchain_image_views@.len(),
            |i: int|
                FramebufferConfig {
                    render_pass,
                    color_view: swappy.swapchain_image_views@[i],
                    depth_view,
                    width: swappy.extent.width,
                    height: swappy.extent.height,
                    layers: 1,
                },
        )
    }

    /// How the framebuffers of `swappy` are created.
    pub fn framebuffer_configs(render_pass: u64, swappy: &VulkanSwapchain, depth_view: u64) -> (r: Vec<
        FramebufferConfig,
    >)
        ensures
            r@ == Self::spec_framebuffers(render_pass, *swappy, depth_view),
    {
        let mut out: Vec<FramebufferConfig> = Vec::new();
        let mut i: usize = 0;
        while i < swappy.swapchain_image_views.len()
            invariant
                i <= swappy.swapchain_image_views@.len(),
                out@.len() == i,
                forall|k: int|
                    0 <= k < i ==> out@[k] == #[trigger] Self::spec_framebuffers(
                        render_pass,
                        *swappy,
                        depth_view,
                    )[k],
            decreases swappy.swapchain_image_views.len() - i,
        {
            out.push(
                FramebufferConfig {
                    render_pass,
                    color_view: swappy.swapchain_image_views[i],
                    depth_view,
                    width: swappy.extent.width,
                    height: swappy.extent.height,
                    layers: 1,
                },
            );
            i = i + 1;
        }
        assert(out@ =~= Self::spec_framebuffers(render_pass, *swappy, depth_view));
        out
    }

    /// The render target over what was created, all of it or, if one
    /// framebuffer could not be created, nothing.
    pub fn create(
        render_pass: u64,
        depth_image: Image,
        depth_view: u64,
        framebuffers: &Vec<Option<u64>>,
    ) -> (r: Option<VulkanRender>)
        ensures
            match r {
                Some(t) => {
                    &&& spec_collect(framebuffers@) == Some(t.framebuffers@)
                    &&& t.render_pass == render_pass
                    &&& t.depth_image == depth_image
                    &&& t.depth_view == depth_view
                },
                None => spec_collect(framebuffers@) is None,
            },
    {
        match collect_handles(framebuffers) {
            Some(framebuffers) => Some(
                VulkanRender { render_pass, framebuffers, depth_image, depth_view },
            ),
            None => None,
        }
    }

    /// What `destroy` asks for: the depth view, the depth image, every
    /// framebuffer in order, and last the render pass.
    pub open spec fn spec_destroy(&self) -> Seq<Teardown> {
        seq![
            Teardown { kind: ObjectKind::ImageView, handle: self.depth_view },
            Teardown { kind: ObjectKind::Image, handle: self.depth_image.image },
        ] + spec_teardown_all(ObjectKind::Framebuffer, self.framebuffers@).push(
            Teardown { kind: ObjectKind::RenderPass, handle: self.render_pass },
        )
    }

    /// The destruction requests of the render target.
    pub fn destroy(&self) -> (r: Vec<Teardown>)
        ensures
            r@ == self.spec_destroy(),
    {
        let mut out: Vec<Teardown> = Vec::new();
        out.push(Teardown { kind: ObjectKind::ImageView, handle: self.depth_view });
        out.push(Teardown { kind: ObjectKind::Image, handle: self.depth_image.image });
        push_teardowns(&mut out, ObjectKind::Framebuffer, &self.framebuffers);
        out.push(Teardown { kind: ObjectKind::RenderPass, handle: self.render_pass });
        assert(out@ =~= self.spec_destroy());
        out
    }
}

} // verus!
