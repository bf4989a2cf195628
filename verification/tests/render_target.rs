use vulkan_playground::baby::BabyVulkan;
use vulkan_playground::device::{Extent2D, Extent3D, MemoryUsage, ObjectKind, Teardown};
use vulkan_playground::image::{Image, ImageConfig};
use vulkan_playground::pipeline::{FixedState, ShaderStage, VulkanPipeline};
use vulkan_playground::buf::{PushConstantData, Vertex};
use vulkan_playground::render::{
    AttachmentDescription, AttachmentReference, FramebufferConfig, SubpassDependency, VulkanRender,
};
use vulkan_playground::swapchain::VulkanSwapchain;
use vulkan_playground::vk;

fn swapchain() -> VulkanSwapchain {
    VulkanSwapchain {
        format: 50,
        extent: Extent2D { width: 800, height: 600 },
        swapchain: 9,
        swapchain_image_views: vec![1, 2, 3],
    }
}

#[test]
fn image_is_two_dimensional_and_device_local() {
    let extent = Extent3D { width: 4, height: 5, depth: 1 };
    assert_eq!(
        Image::configure(43, 0x6, extent),
        ImageConfig {
            format: 43,
            usage: 0x6,
            extent,
            image_type: 1,
            mip_levels: 1,
            array_layers: 1,
            samples: 1,
            tiling: 0,
            memory_usage: MemoryUsage::Auto,
            required_flags: 0x1,
        }
    );
    let made = Image::create(&Image::configure(43, 0x6, extent), 12);
    assert_eq!(made, Image { image: 12, format: 43 });
    assert_eq!(made.destroy(), vec![Teardown { kind: ObjectKind::Image, handle: 12 }]);
}

#[test]
fn depth_buffer_is_a_float_image_of_the_swapchain_extent() {
    let config = VulkanRender::depth_image_config(swapchain().extent);
    assert_eq!(config.format, vk::FORMAT_D32_SFLOAT);
    assert_eq!(config.usage, vk::IMAGE_USAGE_DEPTH_STENCIL_ATTACHMENT);
    assert_eq!(config.extent, Extent3D { width: 800, height: 600, depth: 1 });
    assert_eq!(config.required_flags, vk::MEMORY_PROPERTY_DEVICE_LOCAL);
    let image = Image::create(&config, 20);
    assert_eq!(
        VulkanRender::depth_view_config(&image),
        BabyVulkan::create_image_view(20, 126, vk::IMAGE_ASPECT_DEPTH)
    );
}

#[test]
fn render_pass_clears_and_stores_colour_and_depth() {
    let pass = VulkanRender::render_pass_config(50);
    assert_eq!(
        pass.color,
        AttachmentDescription {
            format: 50,
            samples: 1,
            load_op: 1,
            store_op: 0,
            stencil_load_op: 2,
            stencil_store_op: 1,
            initial_layout: 0,
            final_layout: 1000001002,
        }
    );
    assert_eq!(
        pass.depth,
        AttachmentDescription {
            format: 126,
            samples: 1,
            load_op: 1,
            store_op: 0,
            stencil_load_op: 2,
            stencil_store_op: 1,
            initial_layout: 0,
            final_layout: 3,
        }
    );
    assert_eq!(pass.bind_point, 0);
    assert_eq!(pass.color_ref, AttachmentReference { attachment: 0, layout: 2 });
    assert_eq!(pass.depth_ref, AttachmentReference { attachment: 1, layout: 3 });
}

#[test]
fn render_pass_depends_on_the_previous_frame_at_colour_output_and_depth_tests() {
    let pass = VulkanRender::render_pass_config(50);
    assert_eq!(
        pass.color_dependency,
        SubpassDependency {
            src_subpass: u32::MAX,
            dst_subpass: 0,
            src_stage_mask: 0x400,
            dst_stage_mask: 0x400,
            src_access_mask: 0,
            dst_access_mask: 0x100,
        }
    );
    assert_eq!(
        pass.depth_dependency,
        SubpassDependency {
            src_subpass: u32::MAX,
            dst_subpass: 0,
            src_stage_mask: 0x300,
            dst_stage_mask: 0x300,
            src_access_mask: 0,
            dst_access_mask: 0x400,
        }
    );
}

#[test]
fn one_framebuffer_pairs_each_view_with_the_depth_view() {
    let configs = VulkanRender::framebuffer_configs(70, &swapchain(), 30);
    assert_eq!(configs.len(), 3);
    for (i, config) in configs.iter().enumerate() {
        assert_eq!(
            *config,
            FramebufferConfig {
                render_pass: 70,
                color_view: 1 + i as u64,
                depth_view: 30,
                width: 800,
                height: 600,
                layers: 1,
            }
        );
    }
}

fn target() -> VulkanRender {
    VulkanRender::create(70, Image { image: 20, format: 126 }, 30, &vec![Some(41), Some(42)])
        .unwrap()
}

#[test]
fn render_target_creation_is_all_or_nothing() {
    let made = target();
    assert_eq!(made.render_pass, 70);
    assert_eq!(made.framebuffers, vec![41, 42]);
    assert_eq!(made.depth_image, Image { image: 20, format: 126 });
    assert_eq!(made.depth_view, 30);
    let failed =
        VulkanRender::create(70, Image { image: 20, format: 126 }, 30, &vec![Some(41), None]);
    assert_eq!(failed, None);
}

#[test]
fn render_target_destroys_view_image_framebuffers_pass() {
    assert_eq!(
        target().destroy(),
        vec![
            Teardown { kind: ObjectKind::ImageView, handle: 30 },
            Teardown { kind: ObjectKind::Image, handle: 20 },
            Teardown { kind: ObjectKind::Framebuffer, handle: 41 },
            Teardown { kind: ObjectKind::Framebuffer, handle: 42 },
            Teardown { kind: ObjectKind::RenderPass, handle: 70 },
        ]
    );
}

#[test]
fn pipeline_has_the_fixed_states() {
    assert_eq!(
        VulkanPipeline::fixed_state(),
        FixedState {
            topology: 3,
            primitive_restart: false,
            polygon_mode: 0,
            cull_mode: 0,
            front_face: 0,
            line_width: 1.0f32.to_bits(),
            rasterizer_discard: false,
            depth_bias: false,
            rasterization_samples: 1,
            sample_shading: false,
            alpha_to_coverage: false,
            alpha_to_one: false,
            blend_enable: false,
            color_write_mask: 0xF,
            logic_op_enable: false,
            logic_op: 3,
            depth_test: true,
            depth_write: true,
            depth_compare_op: 1,
            viewport_min_depth: 0.0f32.to_bits(),
            viewport_max_depth: 1.0f32.to_bits(),
        }
    );
}

#[test]
fn pipeline_is_configured_for_extent_and_render_pass() {
    let extent = Extent2D { width: 800, height: 600 };
    let bindings = [Vertex::bindings()];
    let attributes = Vertex::attributes();
    let config = VulkanPipeline::configure(70, extent, &bindings, &attributes, 1, 2, 3);
    assert_eq!(config.vert_shader, 1);
    assert_eq!(config.frag_shader, 2);
    assert_eq!(config.bindings, bindings.to_vec());
    assert_eq!(config.attributes, attributes.to_vec());
    assert_eq!(config.fixed, VulkanPipeline::fixed_state());
    assert_eq!(config.extent, extent);
    assert_eq!(config.layout, 3);
    assert_eq!(config.render_pass, 70);
    assert_eq!(config.subpass, 0);
}

#[test]
fn pipeline_layout_combines_ranges_and_set_layouts() {
    let ranges = [PushConstantData::push_constants()];
    let layout = VulkanPipeline::layout_config(&ranges, &[50, 51]);
    assert_eq!(layout.push_constants, ranges.to_vec());
    assert_eq!(layout.set_layouts, vec![50, 51]);
    let empty = VulkanPipeline::layout_config(&[], &[]);
    assert!(empty.push_constants.is_empty() && empty.set_layouts.is_empty());
}

#[test]
fn shader_code_is_read_as_little_endian_words() {
    let code = [0x03, 0x02, 0x23, 0x07, 0x00, 0x00, 0x01, 0x00];
    assert_eq!(
        VulkanPipeline::create_shader_module(&code),
        Some(vec![0x0723_0203, 0x0001_0000])
    );
    assert_eq!(VulkanPipeline::create_shader_module(&code[..4]), Some(vec![0x0723_0203]));
}

#[test]
fn shader_code_that_is_no_sequence_of_words_is_refused() {
    let code = [0x03, 0x02, 0x23, 0x07, 0x00, 0x00, 0x01, 0x00, 0xFF];
    assert_eq!(VulkanPipeline::create_shader_module(&code), None);
    assert_eq!(VulkanPipeline::create_shader_module(&code[..7]), None);
    assert_eq!(VulkanPipeline::create_shader_module(&code[..6]), None);
    assert_eq!(VulkanPipeline::create_shader_module(&code[..5]), None);
    assert_eq!(VulkanPipeline::create_shader_module(&code[..3]), None);
    assert_eq!(VulkanPipeline::create_shader_module(&code[..1]), None);
    assert_eq!(VulkanPipeline::create_shader_module(&[]), None);
}

#[test]
fn pipeline_follows_its_swapchain_and_render_target() {
    let swappy = swapchain();
    let render = target();
    let bindings = [Vertex::bindings()];
    let attributes = Vertex::attributes();
    let config = VulkanPipeline::configure_for(&swappy, &render, &bindings, &attributes, 1, 2, 3);
    assert_eq!(config.extent, Extent2D { width: 800, height: 600 });
    assert_eq!(config.render_pass, 70);
    let direct = VulkanPipeline::configure(70, swappy.extent, &bindings, &attributes, 1, 2, 3);
    assert_eq!(config, direct);
}

#[test]
fn shader_stages_have_flags_and_files() {
    assert_eq!(ShaderStage::Vertex.flag(), 0x1);
    assert_eq!(ShaderStage::Fragment.flag(), 0x10);
    assert_eq!(ShaderStage::Vertex.path(), "./vertex.spv");
    assert_eq!(ShaderStage::Fragment.path(), "./fragment.spv");
}

#[test]
fn pipeline_destroys_shaders_pipeline_layout() {
    let pipeline = VulkanPipeline::create(1, 2, 3, 4);
    assert_eq!(
        pipeline,
        VulkanPipeline { pipeline: 1, pipeline_layout: 2, vert_shader: 3, frag_shader: 4 }
    );
    assert_eq!(
        pipeline.destroy(),
        vec![
            Teardown { kind: ObjectKind::ShaderModule, handle: 3 },
            Teardown { kind: ObjectKind::ShaderModule, handle: 4 },
            Teardown { kind: ObjectKind::Pipeline, handle: 1 },
            Teardown { kind: ObjectKind::PipelineLayout, handle: 2 },
        ]
    );
}
