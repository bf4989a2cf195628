use ash::vk as avk;
use vulkan_playground::vk;

#[test]
fn result_codes_match_the_bindings() {
    assert_eq!(vk::SUCCESS, avk::Result::SUCCESS.as_raw());
    assert_eq!(vk::SUBOPTIMAL_KHR, avk::Result::SUBOPTIMAL_KHR.as_raw());
    assert_eq!(vk::ERROR_OUT_OF_DATE_KHR, avk::Result::ERROR_OUT_OF_DATE_KHR.as_raw());
}

#[test]
fn api_version_and_external_subpass_match_the_bindings() {
    assert_eq!(vk::API_VERSION_1_2, avk::API_VERSION_1_2);
    assert_eq!(vk::API_VERSION_1_2, avk::make_api_version(0, 1, 2, 0));
    assert_eq!(vk::SUBPASS_EXTERNAL, avk::SUBPASS_EXTERNAL);
}

#[test]
fn formats_match_the_bindings() {
    assert_eq!(vk::FORMAT_R8G8B8A8_SRGB, avk::Format::R8G8B8A8_SRGB.as_raw());
    assert_eq!(vk::FORMAT_R32G32_SFLOAT, avk::Format::R32G32_SFLOAT.as_raw());
    assert_eq!(vk::FORMAT_R32G32B32_SFLOAT, avk::Format::R32G32B32_SFLOAT.as_raw());
    assert_eq!(vk::FORMAT_D32_SFLOAT, avk::Format::D32_SFLOAT.as_raw());
}

#[test]
fn present_modes_match_the_bindings() {
    assert_eq!(vk::PRESENT_MODE_IMMEDIATE, avk::PresentModeKHR::IMMEDIATE.as_raw());
    assert_eq!(vk::PRESENT_MODE_MAILBOX, avk::PresentModeKHR::MAILBOX.as_raw());
    assert_eq!(vk::PRESENT_MODE_FIFO, avk::PresentModeKHR::FIFO.as_raw());
    assert_eq!(vk::PRESENT_MODE_FIFO_RELAXED, avk::PresentModeKHR::FIFO_RELAXED.as_raw());
}

#[test]
fn queue_aspect_and_usage_bits_match_the_bindings() {
    assert_eq!(vk::QUEUE_GRAPHICS, avk::QueueFlags::GRAPHICS.as_raw());
    assert_eq!(vk::QUEUE_TRANSFER, avk::QueueFlags::TRANSFER.as_raw());
    assert_eq!(vk::IMAGE_ASPECT_COLOR, avk::ImageAspectFlags::COLOR.as_raw());
    assert_eq!(vk::IMAGE_ASPECT_DEPTH, avk::ImageAspectFlags::DEPTH.as_raw());
    assert_eq!(vk::IMAGE_USAGE_TRANSFER_DST, avk::ImageUsageFlags::TRANSFER_DST.as_raw());
    assert_eq!(vk::IMAGE_USAGE_SAMPLED, avk::ImageUsageFlags::SAMPLED.as_raw());
    assert_eq!(vk::IMAGE_USAGE_COLOR_ATTACHMENT, avk::ImageUsageFlags::COLOR_ATTACHMENT.as_raw());
    assert_eq!(
        vk::IMAGE_USAGE_DEPTH_STENCIL_ATTACHMENT,
        avk::ImageUsageFlags::DEPTH_STENCIL_ATTACHMENT.as_raw()
    );
    assert_eq!(vk::BUFFER_USAGE_TRANSFER_SRC, avk::BufferUsageFlags::TRANSFER_SRC.as_raw());
    assert_eq!(vk::BUFFER_USAGE_TRANSFER_DST, avk::BufferUsageFlags::TRANSFER_DST.as_raw());
    assert_eq!(vk::BUFFER_USAGE_UNIFORM_BUFFER, avk::BufferUsageFlags::UNIFORM_BUFFER.as_raw());
    assert_eq!(vk::BUFFER_USAGE_INDEX_BUFFER, avk::BufferUsageFlags::INDEX_BUFFER.as_raw());
    assert_eq!(vk::BUFFER_USAGE_VERTEX_BUFFER, avk::BufferUsageFlags::VERTEX_BUFFER.as_raw());
    assert_eq!(
        vk::MEMORY_PROPERTY_DEVICE_LOCAL,
        avk::MemoryPropertyFlags::DEVICE_LOCAL.as_raw()
    );
}

#[test]
fn layouts_stages_and_access_bits_match_the_bindings() {
    assert_eq!(vk::IMAGE_LAYOUT_UNDEFINED, avk::ImageLayout::UNDEFINED.as_raw());
    assert_eq!(
        vk::IMAGE_LAYOUT_COLOR_ATTACHMENT_OPTIMAL,
        avk::ImageLayout::COLOR_ATTACHMENT_OPTIMAL.as_raw()
    );
    assert_eq!(
        vk::IMAGE_LAYOUT_DEPTH_STENCIL_ATTACHMENT_OPTIMAL,
        avk::ImageLayout::DEPTH_STENCIL_ATTACHMENT_OPTIMAL.as_raw()
    );
    assert_eq!(
        vk::IMAGE_LAYOUT_SHADER_READ_ONLY_OPTIMAL,
        avk::ImageLayout::SHADER_READ_ONLY_OPTIMAL.as_raw()
    );
    assert_eq!(
        vk::IMAGE_LAYOUT_TRANSFER_DST_OPTIMAL,
        avk::ImageLayout::TRANSFER_DST_OPTIMAL.as_raw()
    );
    assert_eq!(vk::IMAGE_LAYOUT_PRESENT_SRC_KHR, avk::ImageLayout::PRESENT_SRC_KHR.as_raw());
    assert_eq!(vk::PIPELINE_STAGE_TOP_OF_PIPE, avk::PipelineStageFlags::TOP_OF_PIPE.as_raw());
    assert_eq!(
        vk::PIPELINE_STAGE_FRAGMENT_SHADER,
        avk::PipelineStageFlags::FRAGMENT_SHADER.as_raw()
    );
    assert_eq!(
        vk::PIPELINE_STAGE_EARLY_FRAGMENT_TESTS,
        avk::PipelineStageFlags::EARLY_FRAGMENT_TESTS.as_raw()
    );
    assert_eq!(
        vk::PIPELINE_STAGE_LATE_FRAGMENT_TESTS,
        avk::PipelineStageFlags::LATE_FRAGMENT_TESTS.as_raw()
    );
    assert_eq!(
        vk::PIPELINE_STAGE_COLOR_ATTACHMENT_OUTPUT,
        avk::PipelineStageFlags::COLOR_ATTACHMENT_OUTPUT.as_raw()
    );
    assert_eq!(vk::PIPELINE_STAGE_TRANSFER, avk::PipelineStageFlags::TRANSFER.as_raw());
    assert_eq!(vk::ACCESS_NONE, avk::AccessFlags::empty().as_raw());
    assert_eq!(
        vk::ACCESS_COLOR_ATTACHMENT_WRITE,
        avk::AccessFlags::COLOR_ATTACHMENT_WRITE.as_raw()
    );
    assert_eq!(
        vk::ACCESS_DEPTH_STENCIL_ATTACHMENT_WRITE,
        avk::AccessFlags::DEPTH_STENCIL_ATTACHMENT_WRITE.as_raw()
    );
}

#[test]
fn descriptor_and_attachment_codes_match_the_bindings() {
    assert_eq!(vk::SHADER_STAGE_VERTEX, avk::ShaderStageFlags::VERTEX.as_raw());
    assert_eq!(vk::SHADER_STAGE_FRAGMENT, avk::ShaderStageFlags::FRAGMENT.as_raw());
    assert_eq!(
        vk::DESCRIPTOR_TYPE_COMBINED_IMAGE_SAMPLER,
        avk::DescriptorType::COMBINED_IMAGE_SAMPLER.as_raw()
    );
    assert_eq!(vk::DESCRIPTOR_TYPE_UNIFORM_BUFFER, avk::DescriptorType::UNIFORM_BUFFER.as_raw());
    assert_eq!(vk::ATTACHMENT_LOAD_OP_CLEAR, avk::AttachmentLoadOp::CLEAR.as_raw());
    assert_eq!(vk::ATTACHMENT_LOAD_OP_DONT_CARE, avk::AttachmentLoadOp::DONT_CARE.as_raw());
    assert_eq!(vk::ATTACHMENT_STORE_OP_STORE, avk::AttachmentStoreOp::STORE.as_raw());
    assert_eq!(vk::ATTACHMENT_STORE_OP_DONT_CARE, avk::AttachmentStoreOp::DONT_CARE.as_raw());
    assert_eq!(vk::SAMPLE_COUNT_1, avk::SampleCountFlags::TYPE_1.as_raw());
    assert_eq!(vk::PIPELINE_BIND_POINT_GRAPHICS, avk::PipelineBindPoint::GRAPHICS.as_raw());
}

#[test]
fn command_and_fence_codes_match_the_bindings() {
    assert_eq!(
        vk::COMMAND_BUFFER_USAGE_ONE_TIME_SUBMIT,
        avk::CommandBufferUsageFlags::ONE_TIME_SUBMIT.as_raw()
    );
    assert_eq!(
        vk::COMMAND_POOL_CREATE_RESET_COMMAND_BUFFER,
        avk::CommandPoolCreateFlags::RESET_COMMAND_BUFFER.as_raw()
    );
    assert_eq!(vk::COMMAND_BUFFER_LEVEL_PRIMARY, avk::CommandBufferLevel::PRIMARY.as_raw());
    assert_eq!(vk::FENCE_CREATE_SIGNALED, avk::FenceCreateFlags::SIGNALED.as_raw());
}

#[test]
fn sampler_image_and_pipeline_codes_match_the_bindings() {
    assert_eq!(vk::FILTER_LINEAR, avk::Filter::LINEAR.as_raw());
    assert_eq!(vk::SAMPLER_ADDRESS_MODE_REPEAT, avk::SamplerAddressMode::REPEAT.as_raw());
    assert_eq!(vk::BORDER_COLOR_INT_OPAQUE_BLACK, avk::BorderColor::INT_OPAQUE_BLACK.as_raw());
    assert_eq!(vk::IMAGE_TYPE_2D, avk::ImageType::TYPE_2D.as_raw());
    assert_eq!(vk::IMAGE_VIEW_TYPE_2D, avk::ImageViewType::TYPE_2D.as_raw());
    assert_eq!(vk::IMAGE_TILING_OPTIMAL, avk::ImageTiling::OPTIMAL.as_raw());
    assert_eq!(vk::COMPONENT_SWIZZLE_IDENTITY, avk::ComponentSwizzle::IDENTITY.as_raw());
    assert_eq!(
        vk::PRIMITIVE_TOPOLOGY_TRIANGLE_LIST,
        avk::PrimitiveTopology::TRIANGLE_LIST.as_raw()
    );
    assert_eq!(vk::POLYGON_MODE_FILL, avk::PolygonMode::FILL.as_raw());
    assert_eq!(vk::CULL_MODE_NONE, avk::CullModeFlags::NONE.as_raw());
    assert_eq!(vk::FRONT_FACE_COUNTER_CLOCKWISE, avk::FrontFace::COUNTER_CLOCKWISE.as_raw());
    assert_eq!(vk::COLOR_COMPONENT_RGBA, avk::ColorComponentFlags::RGBA.as_raw());
    assert_eq!(vk::LOGIC_OP_COPY, avk::LogicOp::COPY.as_raw());
    assert_eq!(vk::INDEX_TYPE_UINT32, avk::IndexType::UINT32.as_raw());
    assert_eq!(vk::VERTEX_INPUT_RATE_VERTEX, avk::VertexInputRate::VERTEX.as_raw());
    assert_eq!(vk::COMPARE_OP_LESS, avk::CompareOp::LESS.as_raw());
}

#[test]
fn surface_and_debug_bits_match_the_bindings() {
    assert_eq!(vk::COMPOSITE_ALPHA_OPAQUE, avk::CompositeAlphaFlagsKHR::OPAQUE.as_raw());
    assert_eq!(vk::SURFACE_TRANSFORM_IDENTITY, avk::SurfaceTransformFlagsKHR::IDENTITY.as_raw());
    assert_eq!(
        vk::DEBUG_SEVERITY_WARNING,
        avk::DebugUtilsMessageSeverityFlagsEXT::WARNING.as_raw()
    );
    assert_eq!(vk::DEBUG_SEVERITY_ERROR, avk::DebugUtilsMessageSeverityFlagsEXT::ERROR.as_raw());
    assert_eq!(vk::DEBUG_TYPE_GENERAL, avk::DebugUtilsMessageTypeFlagsEXT::GENERAL.as_raw());
    assert_eq!(vk::DEBUG_TYPE_VALIDATION, avk::DebugUtilsMessageTypeFlagsEXT::VALIDATION.as_raw());
    assert_eq!(
        vk::DEBUG_TYPE_PERFORMANCE,
        avk::DebugUtilsMessageTypeFlagsEXT::PERFORMANCE.as_raw()
    );
}
