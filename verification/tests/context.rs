use vulkan_playground::baby::{
    get_dbg_info, BabyVulkan, CommandBufferConfig, CommandPoolConfig, DebugConfig, DeviceConfig,
    Extension, ImageViewConfig, Layer, QueueFamilies, QueueFamilyInfo,
};
use vulkan_playground::device::{ObjectKind, QueueKind, SubresourceRange, Teardown};
use vulkan_playground::vk;

const COMPUTE: u32 = 0x2;

fn family(flags: u32, present: bool) -> QueueFamilyInfo {
    QueueFamilyInfo { flags, present: Some(present) }
}

#[test]
fn one_family_may_fill_all_three_roles() {
    let families = vec![family(vk::QUEUE_GRAPHICS | COMPUTE | vk::QUEUE_TRANSFER, true)];
    assert_eq!(
        QueueFamilies::create(&families),
        Some(QueueFamilies { graphics: 0, present: 0, transfer: 0 })
    );
}

#[test]
fn each_role_takes_the_first_family_that_fills_it() {
    let families = vec![
        family(COMPUTE, false),
        family(vk::QUEUE_TRANSFER, false),
        family(vk::QUEUE_GRAPHICS | vk::QUEUE_TRANSFER, false),
        family(vk::QUEUE_GRAPHICS, true),
        family(vk::QUEUE_GRAPHICS | vk::QUEUE_TRANSFER, true),
    ];
    assert_eq!(
        QueueFamilies::create(&families),
        Some(QueueFamilies { graphics: 2, present: 3, transfer: 1 })
    );
}

#[test]
fn device_without_one_of_the_roles_is_unsuitable() {
    assert_eq!(QueueFamilies::create(&vec![]), None);
    assert_eq!(QueueFamilies::create(&vec![family(vk::QUEUE_GRAPHICS, true)]), None);
    assert_eq!(QueueFamilies::create(&vec![family(vk::QUEUE_TRANSFER, true)]), None);
    assert_eq!(
        QueueFamilies::create(&vec![family(vk::QUEUE_GRAPHICS | vk::QUEUE_TRANSFER, false)]),
        None
    );
}

#[test]
fn failed_presentation_query_makes_the_device_unsuitable() {
    let families = vec![
        family(vk::QUEUE_GRAPHICS | vk::QUEUE_TRANSFER, true),
        QueueFamilyInfo { flags: COMPUTE, present: None },
    ];
    assert_eq!(QueueFamilies::create(&families), None);
}

#[test]
fn family_flags_are_tested_bit_by_bit() {
    let info = family(vk::QUEUE_GRAPHICS | COMPUTE, false);
    assert!(info.has(vk::QUEUE_GRAPHICS));
    assert!(info.has(COMPUTE));
    assert!(info.has(vk::QUEUE_GRAPHICS | COMPUTE));
    assert!(!info.has(vk::QUEUE_TRANSFER));
    assert!(!info.has(vk::QUEUE_GRAPHICS | vk::QUEUE_TRANSFER));
    assert!(info.has(0));
}

#[test]
fn flags_agree_with_the_bindings() {
    for flags in 0u32..32 {
        let info = family(flags, false);
        let theirs = ash::vk::QueueFlags::from_raw(flags);
        assert_eq!(
            info.has(vk::QUEUE_GRAPHICS),
            theirs.contains(ash::vk::QueueFlags::GRAPHICS)
        );
        assert_eq!(
            info.has(vk::QUEUE_TRANSFER),
            theirs.contains(ash::vk::QueueFlags::TRANSFER)
        );
    }
}

#[test]
fn first_suitable_device_is_selected() {
    let gpus = vec![
        vec![family(vk::QUEUE_GRAPHICS, true)],
        vec![],
        vec![family(vk::QUEUE_TRANSFER, false), family(vk::QUEUE_GRAPHICS, true)],
        vec![family(vk::QUEUE_GRAPHICS | vk::QUEUE_TRANSFER, true)],
    ];
    assert_eq!(
        BabyVulkan::select_gpu(&gpus),
        Some((2, QueueFamilies { graphics: 1, present: 1, transfer: 0 }))
    );
}

#[test]
fn no_suitable_device_gives_none() {
    assert_eq!(BabyVulkan::select_gpu(&vec![]), None);
    let gpus = vec![
        vec![family(vk::QUEUE_GRAPHICS, true)],
        vec![QueueFamilyInfo { flags: 0x7, present: None }],
    ];
    assert_eq!(BabyVulkan::select_gpu(&gpus), None);
}

#[test]
fn debug_messenger_reports_warnings_and_errors_of_all_categories() {
    assert_eq!(
        get_dbg_info(),
        DebugConfig { message_severity: 0x1100, message_type: 0x7 }
    );
}

#[test]
fn instance_asks_for_validation_and_the_surface_extensions() {
    let config = BabyVulkan::instance_config();
    assert_eq!(config.api_version, 1 << 22 | 2 << 12);
    assert_eq!(config.layer, Layer::KhronosValidation);
    assert_eq!(
        config.extensions,
        [Extension::DebugUtils, Extension::Surface, Extension::XlibSurface]
    );
    assert_eq!(config.debug, get_dbg_info());
}

fn context() -> BabyVulkan {
    BabyVulkan {
        instance: 1,
        debug: 2,
        surface: 3,
        gpu: 4,
        queue_families: QueueFamilies { graphics: 5, present: 6, transfer: 7 },
        dev: 8,
        graphics_queue: 9,
        present_queue: 10,
        transfer_queue: 11,
    }
}

#[test]
fn device_has_one_graphics_queue_and_the_swapchain_extension() {
    assert_eq!(
        BabyVulkan::device_config(&context().queue_families),
        DeviceConfig {
            queue_family_index: 5,
            queue_priority: 1.0f32.to_bits(),
            extension: Extension::Swapchain,
        }
    );
}

#[test]
fn queues_are_found_by_kind() {
    let bvk = context();
    assert_eq!(bvk.queue(QueueKind::Graphics), 9);
    assert_eq!(bvk.queue(QueueKind::Present), 10);
    assert_eq!(bvk.queue(QueueKind::Transfer), 11);
    assert_eq!(bvk.queue_family(QueueKind::Graphics), 5);
    assert_eq!(bvk.queue_family(QueueKind::Present), 6);
    assert_eq!(bvk.queue_family(QueueKind::Transfer), 7);
}

#[test]
fn image_view_covers_one_level_and_layer_with_identity_swizzle() {
    assert_eq!(
        BabyVulkan::create_image_view(33, 44, vk::IMAGE_ASPECT_DEPTH),
        ImageViewConfig {
            image: 33,
            format: 44,
            view_type: 1,
            swizzle_r: 0,
            swizzle_g: 0,
            swizzle_b: 0,
            swizzle_a: 0,
            range: SubresourceRange {
                aspect_mask: 2,
                base_mip_level: 0,
                level_count: 1,
                base_array_layer: 0,
                layer_count: 1,
            },
        }
    );
}

#[test]
fn command_pool_resets_buffers_on_the_graphics_family() {
    assert_eq!(
        context().create_command_pool(),
        CommandPoolConfig { flags: 0x2, queue_family_index: 5 }
    );
    assert_eq!(
        BabyVulkan::create_primary_command_buffer(70),
        CommandBufferConfig { pool: 70, count: 1, level: 0 }
    );
}

#[test]
fn fences_are_created_signaled_on_request() {
    assert_eq!(BabyVulkan::create_fence(true), 1);
    assert_eq!(BabyVulkan::create_fence(false), 0);
    assert_eq!(BabyVulkan::create_semaphore(), 0);
}

#[test]
fn context_is_torn_down_surface_device_debug_instance() {
    assert_eq!(
        context().destroy(),
        vec![
            Teardown { kind: ObjectKind::Surface, handle: 3 },
            Teardown { kind: ObjectKind::Device, handle: 8 },
            Teardown { kind: ObjectKind::DebugMessenger, handle: 2 },
            Teardown { kind: ObjectKind::Instance, handle: 1 },
        ]
    );
}
