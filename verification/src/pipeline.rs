//! The graphics pipeline: two shader stages and a fixed set of states,
//! built against one render pass and rebuilt whenever that changes.

use vstd::prelude::*;
use crate::buf::{PushConstantRange, VertexInputAttribute, VertexInputBinding};
use crate::bytes::{decode_words, spec_decode};
use crate::device::{Extent2D, ObjectKind, Teardown, F32_ONE, F32_ZERO};
use crate::render::VulkanRender;
use crate::swapchain::VulkanSwapchain;
use crate::vk;

verus! {

/// The two programmable stages.
#[derive(Clone, Copy, Debug, PartialEq, Eq, Structural)]
pub enum ShaderStage {
    Vertex,
    Fragment,
}

/// The states of the pipeline that do not depend on its inputs. The line
/// width and the depth range of the viewport are single-precision bit
/// patterns.
#[derive(Clone, Copy, Debug, PartialEq, Eq, Structural)]
pub struct FixedState {
    pub topology: i32,
    pub primitive_restart: bool,
    pub polygon_mode: i32,
    pub cull_mode: u32,
    pub front_face: i32,
    pub line_width: u32,
    pub rasterizer_discard: bool,
    pub depth_bias: bool,
    pub rasterization_samples: u32,
    pub sample_shading: bool,
    pub alpha_to_coverage: bool,
    pub alpha_to_one: bool,
    pub blend_enable: bool,
    pub color_write_mask: u32,
    pub logic_op_enable: bool,
    pub logic_op: i32,
    pub depth_test: bool,
    pub depth_write: bool,
    pub depth_compare_op: i32,
    pub viewport_min_depth: u32,
    pub viewport_max_depth: u32,
}

/// How the pipeline layout is created.
#[derive(Debug, PartialEq, Eq)]
pub struct PipelineLayoutConfig {
    pub push_constants: Vec<PushConstantRange>,
    pub set_layouts: Vec<u64>,
}

/// How the pipeline is created.
#[derive(Debug, PartialEq, Eq)]
pub struct PipelineConfig {
    pub vert_shader: u64,
    pub frag_shader: u64,
    pub bindings: Vec<VertexInputBinding>,
    pub attributes: Vec<VertexInputAttribute>,
    pub fixed: FixedState,
    /// The one viewport and the one scissor rectangle cover this extent
    /// from the origin.
    pub extent: Extent2D,
    pub layout: u64,
    pub render_pass: u64,
    pub subpass: u32,
}

/// A pipeline: its handle, its layout and its two shader modules.
#[derive(Clone, Copy, Debug, PartialEq, Eq, Structural)]
pub struct VulkanPipeline {
    pub pipeline: u64,
    pub pipeline_layout: u64,
    pub vert_shader: u64,
    pub frag_shader: u64,
}

impl ShaderStage {
    /// The stage's flag bit.
    pub fn flag(self) -> (r: u32)
        ensures
            r == match self {
                ShaderStage::Vertex => vk::SHADER_STAGE_VERTEX,
                ShaderStage::Fragment => vk::SHADER_STAGE_FRAGMENT,
            },
    {
        match self {
            ShaderStage::Vertex => vk::SHADER_STAGE_VERTEX,
            ShaderStage::Fragment => vk::SHADER_STAGE_FRAGMENT,
        }
    }

    /// The file that holds the stage's compiled shader.
    pub fn path(self) -> (r: &'static str)
        ensures
            r@ == match self {
                ShaderStage::Vertex => "./vertex.spv"@,
                ShaderStage::Fragment => "./fragment.spv"@,
            },
    {
        match self {
            ShaderStage::Vertex => "./vertex.spv",
            ShaderStage::Fragment => "./fragment.spv",
        }
    }
}

impl VulkanPipeline {
    /// The fixed states: triangle lists without restart; filled polygons,
    /// no culling, counter-clockwise front faces; one sample per pixel;
    /// no blending, all four channels written; and, for the depth
    /// attachment of the render pass, a depth test that lets the nearer
    /// fragment through and writes its depth.
    pub open spec fn spec_fixed() -> FixedState {
        FixedState {
            topology: vk::PRIMITIVE_TOPOLOGY_TRIANGLE_LIST,
            primitive_restart: false,
            polygon_mode: vk::POLYGON_MODE_FILL,
            cull_mode: vk::CULL_MODE_NONE,
            front_face: vk::FRONT_FACE_COUNTER_CLOCKWISE,
            line_width: F32_ONE,
            rasterizer_discard: false,
            depth_bias: false,
            rasterization_samples: vk::SAMPLE_COUNT_1,
            sample_shading: false,
            alpha_to_coverage: false,
            alpha_to_one: false,
            blend_enable: false,
            color_write_mask: vk::COLOR_COMPONENT_RGBA,
            logic_op_enable: false,
            logic_op: vk::LOGIC_OP_COPY,
            depth_test: true,
            depth_write: true,
            depth_compare_op: vk::COMPARE_OP_LESS,
            viewport_min_depth: F32_ZERO,
            viewport_max_depth: F32_ONE,
        }
    }

    /// The fixed states of the pipeline.
    pub fn fixed_state() -> (r: FixedState)
        ensures
            r == Self::spec_fixed(),
    {
        FixedState {
            topology: vk::PRIMITIVE_TOPOLOGY_TRIANGLE_LIST,
            primitive_restart: false,
            polygon_mode: vk::POLYGON_MODE_FILL,
            cull_mode: vk::CULL_MODE_NONE,
            front_face: vk::FRONT_FACE_COUNTER_CLOCKWISE,
            line_width: F32_ONE,
            rasterizer_discard: false,
            depth_bias: false,
            rasterization_samples: vk::SAMPLE_COUNT_1,
            sample_shading: false,
            alpha_to_coverage: false,
            alpha_to_one: false,
            blend_enable: false,
            color_write_mask: vk::COLOR_COMPONENT_RGBA,
            logic_op_enable: false,
            logic_op: vk::LOGIC_OP_COPY,
            depth_test: true,
            depth_write: true,
            depth_compare_op: vk::COMPARE_OP_LESS,
            viewport_min_depth: F32_ZERO,
            viewport_max_depth: F32_ONE,
        }
    }

    /// Whether `code` can be a compiled shader: a sequence of 32-bit
    /// words, and not an empty one.
    pub open spec fn spec_well_formed(code: Seq<u8>) -> bool {
        code.len() > 0 && code.len() % 4 == 0
    }

    /// The words of a compiled shader, as the shader module is created
    /// from them: four bytes each, least significant first. A binary that
    /// is empty, or whose length is no multiple of four, is corrupt, and no
    /// module is made of it.
    pub fn create_shader_module(code: &[u8]) -> (r: Option<Vec<u32>>)
        ensures
            r is Some <==> Self::spec_well_formed(code@),
            r matches Some(words) ==> words@ == spec_decode(code@) && 4 * words@.len()
                == code@.len(),
    {
        if code.len() == 0 || code.len() % 4 != 0 {
            None
        } else {
            Some(decode_words(code))
        }
    }

    /// The pipeline layout: the given push-constant ranges and descriptor
    /// set layouts, in the given order.
    pub fn layout_config(push_constants: &[PushConstantRange], set_layouts: &[u64]) -> (r:
        PipelineLayoutConfig)
        ensures
            r.push_constants@ == push_constants@,
            r.set_layouts@ == set_layouts@,
    {
        let mut ranges: Vec<PushConstantRange> = Vec::new();
        let mut i: usize = 0;
        while i < push_constants.len()
            invariant
                i <= push_constants@.len(),
                ranges@ == push_constants@.subrange(0, i as int),
            decreases push_constants.len() - i,
        {
            ranges.push(push_constants[i]);
            assert(ranges@ =~= push_constants@.subrange(0, i + 1));
            i = i + 1;
        }
        let mut layouts: Vec<u64> = Vec::new();
        let mut j: usize = 0;
        while j < set_layouts.len()
            invariant
                j <= set_layouts@.len(),
                layouts@ == set_layouts@.subrange(0, j as int),
            decreases set_layouts.len() - j,
        {
            layouts.push(set_layouts[j]);
            assert(layouts@ =~= set_layouts@.subrange(0, j + 1));
            j = j + 1;
        }
        assert(ranges@ =~= push_constants@);
        assert(layouts@ =~= set_layouts@);
        PipelineLayoutConfig { push_constants: ranges, set_layouts: layouts }
    }

    /// The pipeline for subpass 0 of `render_pass`: the two shader
    /// modules, the given vertex bindings and attributes, the fixed
    /// states, and one viewport and scissor of `extent`.
    pub fn configure(
        render_pass: u64,
        extent: Extent2D,
        bindings: &[VertexInputBinding],
        attributes: &[VertexInputAttribute],
        vert_shader: u64,
        frag_shader: u64,
        layout: u64,
    ) -> (r: PipelineConfig)
        ensures
            r.vert_shader == vert_shader,
            r.frag_shader == frag_shader,
            r.bindings@ == bindings@,
            r.attributes@ == attributes@,
            r.fixed == Self::spec_fixed(),
            r.extent == extent,
            r.layout == layout,
            r.render_pass == render_pass,
            r.subpass == 0,
    {
        let mut b: Vec<VertexInputBinding> = Vec::new();
        let mut i: usize = 0;
        while i < bindings.len()
            invariant
                i <= bindings@.len(),
                b@ == bindings@.subrange(0, i as int),
            decreases bindings.len() - i,
        {
            b.push(bindings[i]);
            assert(b@ =~= bindings@.subrange(0, i + 1));
            i = i + 1;
        }
        let mut a: Vec<VertexInputAttribute> = Vec::new();
        let mut j: usize = 0;
        while j < attributes.len()
            invariant
                j <= attributes@.len(),
                a@ == attributes@.subrange(0, j as int),
            decreases attributes.len() - j,
        {
            a.push(attributes[j]);
            assert(a@ =~= attributes@.subrange(0, j + 1));
            j = j + 1;
        }
        assert(b@ =~= bindings@);
        assert(a@ =~= attributes@);
        PipelineConfig {
            vert_shader,
            frag_shader,
            bindings: b,
            attributes: a,
            fixed: Self::fixed_state(),
            extent,
            layout,
            render_pass,
            subpass: 0,
        }
    }

    /// The pipeline for the render target `render` of the swapchain
    /// `swappy`: built against the render target's pass, with a viewport
    /// and scissor of the swapchain's extent.
    pub fn configure_for(
        swappy: &VulkanSwapchain,
        render: &VulkanRender,
        bindings: &[VertexInputBinding],
        attributes: &[VertexInputAttribute],
        vert_shader: u64,
        frag_shader: u64,
        layout: u64,
    ) -> (r: PipelineConfig)
        ensures
            r.extent == swappy.extent,
            r.render_pass == render.render_pass,
            r.vert_shader == vert_shader,
            r.frag_shader == frag_shader,
            r.bindings@ == bindings@,
            r.attributes@ == attributes@,
            r.fixed == Self::spec_fixed(),
            r.layout == layout,
            r.subpass == 0,
    {
        Self::configure(
            render.render_pass,
            swappy.extent,
            bindings,
            attributes,
            vert_shader,
            frag_shader,
            layout,
        )
    }

    /// The pipeline over what was created.
    pub fn create(pipeline: u64, pipeline_layout: u64, vert_shader: u64, frag_shader: u64) -> (r:
        VulkanPipeline)
        ensures
            r == (VulkanPipeline { pipeline, pipeline_layout, vert_shader, frag_shader }),
    {
        VulkanPipeline { pipeline, pipeline_layout, vert_shader, frag_shader }
    }

    /// What `destroy` asks for: the two shader modules, the pipeline, and
    /// last its layout.
    pub open spec fn spec_destroy(&self) -> Seq<Teardown> {
        seq![
            Teardown { kind: ObjectKind::ShaderModule, handle: self.vert_shader },
            Teardown { kind: ObjectKind::ShaderModule, handle: self.frag_shader },
            Teardown { kind: ObjectKind::Pipeline, handle: self.pipeline },
            Teardown { kind: ObjectKind::PipelineLayout, handle: self.pipeline_layout },
        ]
    }

    /// The destruction requests of the pipeline.
    pub fn destroy(&self) -> (r: Vec<Teardown>)
        ensures
            r@ == self.spec_destroy(),
    {
        let mut out: Vec<Teardown> = Vec::new();
        out.push(Teardown { kind: ObjectKind::ShaderModule, handle: self.vert_shader });
        out.push(Teardown { kind: ObjectKind::ShaderModule, handle: self.frag_shader });
        out.push(Teardown { kind: ObjectKind::Pipeline, handle: self.pipeline });
        out.push(Teardown { kind: ObjectKind::PipelineLayout, handle: self.pipeline_layout });
        assert(out@ =~= self.spec_destroy());
        out
    }
}

} // verus!
