//! The numeric codes of the Vulkan API that this crate uses.
//!
//! Enumerants are `i32`, flag bits are `u32`, as in the C headers.

use vstd::prelude::*;

verus! {

// VkResult
pub const SUCCESS: i32 = 0;
pub const SUBOPTIMAL_KHR: i32 = 1000001003;
pub const ERROR_OUT_OF_DATE_KHR: i32 = -1000001004;

/// Version 1.2.0 of the API, packed as major in bits 22 up, minor in bits 12 to 21.
pub const API_VERSION_1_2: u32 = 0x0040_2000;

/// The subpass index that stands for everything outside the render pass.
pub const SUBPASS_EXTERNAL: u32 = 0xFFFF_FFFF;

// VkFormat
pub const FORMAT_R8G8B8A8_SRGB: i32 = 43;
pub const FORMAT_R32G32_SFLOAT: i32 = 103;
pub const FORMAT_R32G32B32_SFLOAT: i32 = 106;
pub const FORMAT_D32_SFLOAT: i32 = 126;

// VkPresentModeKHR
pub const PRESENT_MODE_IMMEDIATE: i32 = 0;
pub const PRESENT_MODE_MAILBOX: i32 = 1;
pub const PRESENT_MODE_FIFO: i32 = 2;
pub const PRESENT_MODE_FIFO_RELAXED: i32 = 3;

// VkQueueFlagBits
pub const QUEUE_GRAPHICS: u32 = 0x1;
pub const QUEUE_TRANSFER: u32 = 0x4;

// VkImageAspectFlagBits
pub const IMAGE_ASPECT_COLOR: u32 = 0x1;
pub const IMAGE_ASPECT_DEPTH: u32 = 0x2;

// VkImageUsageFlagBits
pub const IMAGE_USAGE_TRANSFER_DST: u32 = 0x2;
pub const IMAGE_USAGE_SAMPLED: u32 = 0x4;
pub const IMAGE_USAGE_COLOR_ATTACHMENT: u32 = 0x10;
pub const IMAGE_USAGE_DEPTH_STENCIL_ATTACHMENT: u32 = 0x20;

// VkBufferUsageFlagBits
pub const BUFFER_USAGE_TRANSFER_SRC: u32 = 0x1;
pub const BUFFER_USAGE_TRANSFER_DST: u32 = 0x2;
pub const BUFFER_USAGE_UNIFORM_BUFFER: u32 = 0x10;
pub const BUFFER_USAGE_INDEX_BUFFER: u32 = 0x40;
pub const BUFFER_USAGE_VERTEX_BUFFER: u32 = 0x80;

// VkMemoryPropertyFlagBits
pub const MEMORY_PROPERTY_DEVICE_LOCAL: u32 = 0x1;

// VkImageLayout
pub const IMAGE_LAYOUT_UNDEFINED: i32 = 0;
pub const IMAGE_LAYOUT_COLOR_ATTACHMENT_OPTIMAL: i32 = 2;
pub const IMAGE_LAYOUT_DEPTH_STENCIL_ATTACHMENT_OPTIMAL: i32 = 3;
pub const IMAGE_LAYOUT_SHADER_READ_ONLY_OPTIMAL: i32 = 5;
pub const IMAGE_LAYOUT_TRANSFER_DST_OPTIMAL: i32 = 7;
pub const IMAGE_LAYOUT_PRESENT_SRC_KHR: i32 = 1000001002;

// VkPipelineStageFlagBits
pub const PIPELINE_STAGE_TOP_OF_PIPE: u32 = 0x1;
pub const PIPELINE_STAGE_FRAGMENT_SHADER: u32 = 0x80;
pub const PIPELINE_STAGE_EARLY_FRAGMENT_TESTS: u32 = 0x100;
pub const PIPELINE_STAGE_LATE_FRAGMENT_TESTS: u32 = 0x200;
pub const PIPELINE_STAGE_COLOR_ATTACHMENT_OUTPUT: u32 = 0x400;
pub const PIPELINE_STAGE_TRANSFER: u32 = 0x1000;

// VkAccessFlagBits
pub const ACCESS_NONE: u32 = 0;
pub const ACCESS_COLOR_ATTACHMENT_WRITE: u32 = 0x100;
pub const ACCESS_DEPTH_STENCIL_ATTACHMENT_WRITE: u32 = 0x400;

// VkShaderStageFlagBits
pub const SHADER_STAGE_VERTEX: u32 = 0x1;
pub const SHADER_STAGE_FRAGMENT: u32 = 0x10;

// VkDescriptorType
pub const DESCRIPTOR_TYPE_COMBINED_IMAGE_SAMPLER: i32 = 1;
pub const DESCRIPTOR_TYPE_UNIFORM_BUFFER: i32 = 6;

// VkAttachmentLoadOp, VkAttachmentStoreOp
pub const ATTACHMENT_LOAD_OP_CLEAR: i32 = 1;
pub const ATTACHMENT_LOAD_OP_DONT_CARE: i32 = 2;
pub const ATTACHMENT_STORE_OP_STORE: i32 = 0;
pub const ATTACHMENT_STORE_OP_DONT_CARE: i32 = 1;

// VkSampleCountFlagBits
pub const SAMPLE_COUNT_1: u32 = 0x1;

// VkPipelineBindPoint
pub const PIPELINE_BIND_POINT_GRAPHICS: i32 = 0;

// Command buffers, pools and fences
pub const COMMAND_BUFFER_USAGE_ONE_TIME_SUBMIT: u32 = 0x1;
pub const COMMAND_POOL_CREATE_RESET_COMMAND_BUFFER: u32 = 0x2;
pub const COMMAND_BUFFER_LEVEL_PRIMARY: i32 = 0;
pub const FENCE_CREATE_SIGNALED: u32 = 0x1;

// Samplers
pub const FILTER_LINEAR: i32 = 1;
pub const SAMPLER_ADDRESS_MODE_REPEAT: i32 = 0;
pub const BORDER_COLOR_INT_OPAQUE_BLACK: i32 = 3;

// Images and views
pub const IMAGE_TYPE_2D: i32 = 1;
pub const IMAGE_VIEW_TYPE_2D: i32 = 1;
pub const IMAGE_TILING_OPTIMAL: i32 = 0;
pub const COMPONENT_SWIZZLE_IDENTITY: i32 = 0;

// Fixed-function pipeline state
pub const PRIMITIVE_TOPOLOGY_TRIANGLE_LIST: i32 = 3;
pub const POLYGON_MODE_FILL: i32 = 0;
pub const CULL_MODE_NONE: u32 = 0;
pub const FRONT_FACE_COUNTER_CLOCKWISE: i32 = 0;
pub const COLOR_COMPONENT_RGBA: u32 = 0xF;
pub const LOGIC_OP_COPY: i32 = 3;
pub const INDEX_TYPE_UINT32: i32 = 1;
pub const VERTEX_INPUT_RATE_VERTEX: i32 = 0;
pub const COMPARE_OP_LESS: i32 = 1;

// Surfaces
pub const COMPOSITE_ALPHA_OPAQUE: u32 = 0x1;
pub const SURFACE_TRANSFORM_IDENTITY: u32 = 0x1;

// VK_EXT_debug_utils
pub const DEBUG_SEVERITY_WARNING: u32 = 0x100;
pub const DEBUG_SEVERITY_ERROR: u32 = 0x1000;
pub const DEBUG_TYPE_GENERAL: u32 = 0x1;
pub const DEBUG_TYPE_VALIDATION: u32 = 0x2;
pub const DEBUG_TYPE_PERFORMANCE: u32 = 0x4;

} // verus!
