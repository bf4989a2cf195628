//! The device context: which physical device and queue families are used,
//! how instance, debug messenger and logical device are configured, and in
//! which order they are torn down.

use vstd::prelude::*;
use crate::device::{ObjectKind, QueueKind, SubresourceRange, Teardown, F32_ONE};
use crate::vk;

verus! {

/// What the selection needs to know of one queue family of a physical
/// device: its capability flags, and whether it can present to the surface
/// (`None` where that query failed).
#[derive(Clone, Copy, Debug, PartialEq, Eq)]
pub struct QueueFamilyInfo {
    pub flags: u32,
    pub present: Option<bool>,
}

impl QueueFamilyInfo {
    /// Whether every bit of `bits` is set in the family's flags.
    pub open spec fn spec_has(self, bits: u32) -> bool {
        self.flags & bits == bits
    }

    /// Whether every bit of `bits` is set in the family's flags.
    pub fn has(&self, bits: u32) -> (r: bool)
        ensures
            r == self.spec_has(bits),
    {
        self.flags & bits == bits
    }

    /// Whether the family is known to present to the surface.
    pub open spec fn spec_presents(self) -> bool {
        self.present == Some(true)
    }
}

/// The queue family indices chosen for graphics, presentation and transfer.
/// They may coincide.
#[derive(Clone, Copy, Debug, PartialEq, Eq, Structural)]
pub struct QueueFamilies {
    pub graphics: u32,
    pub present: u32,
    pub transfer: u32,
}

impl QueueFamilies {
    /// Whether the presentation query succeeded for every family.
    pub open spec fn all_known(families: Seq<QueueFamilyInfo>) -> bool {
        forall|i: int| 0 <= i < families.len() ==> (#[trigger] families[i]).present is Some
    }

    /// Whether `i` is the first family with all of `bits`.
    pub open spec fn first_with(families: Seq<QueueFamilyInfo>, bits: u32, i: int) -> bool {
        &&& 0 <= i < families.len()
        &&& families[i].spec_has(bits)
        &&& forall|j: int| 0 <= j < i ==> !(#[trigger] families[j]).spec_has(bits)
    }

    /// Whether `i` is the first family that presents to the surface.
    pub open spec fn first_presenting(families: Seq<QueueFamilyInfo>, i: int) -> bool {
        &&& 0 <= i < families.len()
        &&& families[i].spec_presents()
        &&& forall|j: int| 0 <= j < i ==> !(#[trigger] families[j]).spec_presents()
    }

    /// Whether a device with these families can be used: every query
    /// succeeded, and some family does graphics, some transfer, and some
    /// presents.
    pub open spec fn suitable(families: Seq<QueueFamilyInfo>) -> bool {
        &&& Self::all_known(families)
        &&& exists|i: int| 0 <= i < families.len() && (#[trigger] families[i]).spec_has(vk::QUEUE_GRAPHICS)
        &&& exists|i: int| 0 <= i < families.len() && (#[trigger] families[i]).spec_has(vk::QUEUE_TRANSFER)
        &&& exists|i: int| 0 <= i < families.len() && (#[trigger] families[i]).spec_presents()
    }

    /// Whether `self` holds, for each role, the first family that fills it.
    pub open spec fn selects(self, families: Seq<QueueFamilyInfo>) -> bool {
        &&& Self::first_with(families, vk::QUEUE_GRAPHICS, self.graphics as int)
        &&& Self::first_with(families, vk::QUEUE_TRANSFER, self.transfer as int)
        &&& Self::first_presenting(families, self.present as int)
    }

    /// Chooses, for each role, the first family that fills it. Fails if a
    /// presentation query failed or a role stays unfilled.
    pub fn create(families: &Vec<QueueFamilyInfo>) -> (r: Option<QueueFamilies>)
        requires
            families.len() <= u32::MAX,
        ensures
            r is Some <==> Self::suitable(families@),
            r matches Some(q) ==> q.selects(families@),
    {
        let mut graphics: Option<u32> = None;
        let mut present: Option<u32> = None;
        let mut transfer: Option<u32> = None;
        let mut idx: u32 = 0;
        while (idx as usize) < families.len()
            invariant
                idx <= families.len() <= u32::MAX,
                forall|j: int| 0 <= j < idx ==> (#[trigger] families@[j]).present is Some,
                match graphics {
                    Some(g) => g < idx && Self::first_with(families@, vk::QUEUE_GRAPHICS, g as int),
                    None => forall|j: int|
                        0 <= j < idx ==> !(#[trigger] families@[j]).spec_has(vk::QUEUE_GRAPHICS),
                },
                match transfer {
                    Some(t) => t < idx && Self::first_with(families@, vk::QUEUE_TRANSFER, t as int),
                    None => forall|j: int|
                        0 <= j < idx ==> !(#[trigger] families@[j]).spec_has(vk::QUEUE_TRANSFER),
                },
                match present {
                    Some(p) => p < idx && Self::first_presenting(families@, p as int),
                    None => forall|j: int|
                        0 <= j < idx ==> !(#[trigger] families@[j]).spec_presents(),
                },
            decreases families.len() - idx,
        {
            let family = &families[idx as usize];
            if family.has(vk::QUEUE_GRAPHICS) && graphics.is_none() {
                graphics = Some(idx);
            }
            if family.has(vk::QUEUE_TRANSFER) && transfer.is_none() {
                transfer = Some(idx);
            }
            match family.present {
                None => {
                    assert(!Self::all_known(families@));
                    return None;
                },
                Some(supported) => {
                    if supported && present.is_none() {
                        present = Some(idx);
                    }
                },
            }
            idx = idx + 1;
        }
        match (graphics, present, transfer) {
            (Some(g), Some(p), Some(t)) => {
                Some(QueueFamilies { graphics: g, present: p, transfer: t })
            },
            _ => None,
        }
    }
}

/// For each role there is one first family: two selections from the same
/// families are the same selection.
pub proof fn lemma_selection_unique(families: Seq<QueueFamilyInfo>, a: QueueFamilies, b: QueueFamilies)
    requires
        a.selects(families),
        b.selects(families),
    ensures
        a == b,
{
    assert(a.graphics == b.graphics) by {
        if a.graphics < b.graphics {
            assert(families[a.graphics as int].spec_has(vk::QUEUE_GRAPHICS));
        } else if b.graphics < a.graphics {
            assert(families[b.graphics as int].spec_has(vk::QUEUE_GRAPHICS));
        }
    }
    assert(a.transfer == b.transfer) by {
        if a.transfer < b.transfer {
            assert(families[a.transfer as int].spec_has(vk::QUEUE_TRANSFER));
        } else if b.transfer < a.transfer {
            assert(families[b.transfer as int].spec_has(vk::QUEUE_TRANSFER));
        }
    }
    assert(a.present == b.present) by {
        if a.present < b.present {
            assert(families[a.present as int].spec_presents());
        } else if b.present < a.present {
            assert(families[b.present as int].spec_presents());
        }
    }
}

/// An instance layer.
#[derive(Clone, Copy, Debug, PartialEq, Eq, Structural)]
pub enum Layer {
    KhronosValidation,
}

/// An instance or device extension.
#[derive(Clone, Copy, Debug, PartialEq, Eq, Structural)]
pub enum Extension {
    DebugUtils,
    Surface,
    XlibSurface,
    Swapchain,
}

/// Which messages the debug messenger reports.
#[derive(Clone, Copy, Debug, PartialEq, Eq, Structural)]
pub struct DebugConfig {
    pub message_severity: u32,
    pub message_type: u32,
}

/// How the instance is created.
#[derive(Clone, Copy, Debug, PartialEq, Eq)]
pub struct InstanceConfig {
    pub api_version: u32,
    pub layer: Layer,
    pub extensions: [Extension; 3],
    pub debug: DebugConfig,
}

/// How the logical device is created: one queue of the graphics family,
/// at the priority given as an IEEE-754 single-precision bit pattern.
#[derive(Clone, Copy, Debug, PartialEq, Eq, Structural)]
pub struct DeviceConfig {
    pub queue_family_index: u32,
    pub queue_priority: u32,
    pub extension: Extension,
}

/// How an image view is created.
#[derive(Clone, Copy, Debug, PartialEq, Eq, Structural)]
pub struct ImageViewConfig {
    pub image: u64,
    pub format: i32,
    pub view_type: i32,
    pub swizzle_r: i32,
    pub swizzle_g: i32,
    pub swizzle_b: i32,
    pub swizzle_a: i32,
    pub range: SubresourceRange,
}

/// How the command pool is created.
#[derive(Clone, Copy, Debug, PartialEq, Eq, Structural)]
pub struct CommandPoolConfig {
    pub flags: u32,
    pub queue_family_index: u32,
}

/// How a command buffer is allocated.
#[derive(Clone, Copy, Debug, PartialEq, Eq, Structural)]
pub struct CommandBufferConfig {
    pub pool: u64,
    pub count: u32,
    pub level: i32,
}

/// The debug messenger's configuration: warnings and errors, of the
/// general, performance and validation categories.
pub open spec fn spec_dbg_info() -> DebugConfig {
    DebugConfig {
        message_severity: vk::DEBUG_SEVERITY_WARNING | vk::DEBUG_SEVERITY_ERROR,
        message_type: vk::DEBUG_TYPE_GENERAL | vk::DEBUG_TYPE_PERFORMANCE
            | vk::DEBUG_TYPE_VALIDATION,
    }
}

/// The debug messenger's configuration: warnings and errors, of the
/// general, performance and validation categories.
pub fn get_dbg_info() -> (r: DebugConfig)
    ensures
        r == spec_dbg_info(),
{
    DebugConfig {
        message_severity: vk::DEBUG_SEVERITY_WARNING | vk::DEBUG_SEVERITY_ERROR,
        message_type: vk::DEBUG_TYPE_GENERAL | vk::DEBUG_TYPE_PERFORMANCE
            | vk::DEBUG_TYPE_VALIDATION,
    }
}

/// The handles of the device context. It is created first and destroyed
/// last, after every object made from it.
#[derive(Clone, Copy, Debug, PartialEq, Eq, Structural)]
pub struct BabyVulkan {
    pub instance: u64,
    pub debug: u64,
    pub surface: u64,
    pub gpu: u64,
    pub queue_families: QueueFamilies,
    pub dev: u64,
    pub graphics_queue: u64,
    pub present_queue: u64,
    pub transfer_queue: u64,
}

impl BabyVulkan {
    /// The first physical device whose queue families are suitable, with
    /// the families chosen on it.
    pub open spec fn spec_select(gpus: Seq<Vec<QueueFamilyInfo>>, i: int) -> bool {
        &&& 0 <= i < gpus.len()
        &&& QueueFamilies::suitable(gpus[i]@)
        &&& forall|j: int| 0 <= j < i ==> !QueueFamilies::suitable((#[trigger] gpus[j])@)
    }

    /// Picks the first physical device that has a graphics, a transfer and
    /// a presenting queue family; `None` if there is none.
    pub fn select_gpu(gpus: &Vec<Vec<QueueFamilyInfo>>) -> (r: Option<(usize, QueueFamilies)>)
        requires
            forall|i: int| 0 <= i < gpus.len() ==> (#[trigger] gpus[i]).len() <= u32::MAX,
        ensures
            r is None <==> forall|i: int|
                0 <= i < gpus.len() ==> !QueueFamilies::suitable((#[trigger] gpus[i])@),
            r matches Some((i, q)) ==> Self::spec_select(gpus@, i as int) && q.selects(
                gpus[i as int]@,
            ),
    {
        let mut i: usize = 0;
        while i < gpus.len()
            invariant
                i <= gpus.len(),
                forall|k: int| 0 <= k < gpus.len() ==> (#[trigger] gpus[k]).len() <= u32::MAX,
                forall|j: int| 0 <= j < i ==> !QueueFamilies::suitable((#[trigger] gpus[j])@),
            decreases gpus.len() - i,
        {
            match QueueFamilies::create(&gpus[i]) {
                Some(q) => {
                    return Some((i, q));
                },
                None => {},
            }
            i = i + 1;
        }
        None
    }

    /// The instance's configuration.
    pub open spec fn spec_instance_config() -> InstanceConfig {
        InstanceConfig {
            api_version: vk::API_VERSION_1_2,
            layer: Layer::KhronosValidation,
            extensions: [Extension::DebugUtils, Extension::Surface, Extension::XlibSurface],
            debug: spec_dbg_info(),
        }
    }

    /// The instance's configuration: API version 1.2, the validation
    /// layer, the debug, surface and Xlib surface extensions, and the debug
    /// messenger's configuration for messages during instance creation.
    pub fn instance_config() -> (r: InstanceConfig)
        ensures
            r == Self::spec_instance_config(),
    {
        InstanceConfig {
            api_version: vk::API_VERSION_1_2,
            layer: Layer::KhronosValidation,
            extensions: [Extension::DebugUtils, Extension::Surface, Extension::XlibSurface],
            debug: get_dbg_info(),
        }
    }

    /// The logical device's configuration: one queue of the graphics
    /// family at priority 1.0, and the swapchain extension.
    pub fn device_config(queue_families: &QueueFamilies) -> (r: DeviceConfig)
        ensures
            r == (DeviceConfig {
                queue_family_index: queue_families.graphics,
                queue_priority: F32_ONE,
                extension: Extension::Swapchain,
            }),
    {
        DeviceConfig {
            queue_family_index: queue_families.graphics,
            queue_priority: F32_ONE,
            extension: Extension::Swapchain,
        }
    }

    /// The family that the queue of kind `kind` is taken from.
    pub fn queue_family(&self, kind: QueueKind) -> (r: u32)
        ensures
            r == match kind {
                QueueKind::Graphics => self.queue_families.graphics,
                QueueKind::Present => self.queue_families.present,
                QueueKind::Transfer => self.queue_families.transfer,
            },
    {
        match kind {
            QueueKind::Graphics => self.queue_families.graphics,
            QueueKind::Present => self.queue_families.present,
            QueueKind::Transfer => self.queue_families.transfer,
        }
    }

    /// The queue of kind `kind`.
    pub fn queue(&self, kind: QueueKind) -> (r: u64)
        ensures
            r == match kind {
                QueueKind::Graphics => self.graphics_queue,
                QueueKind::Present => self.present_queue,
                QueueKind::Transfer => self.transfer_queue,
            },
    {
        match kind {
            QueueKind::Graphics => self.graphics_queue,
            QueueKind::Present => self.present_queue,
            QueueKind::Transfer => self.transfer_queue,
        }
    }

    /// The configuration of a two-dimensional view of `image`.
    pub open spec fn spec_image_view(image: u64, format: i32, aspect: u32) -> ImageViewConfig {
        ImageViewConfig {
            image,
            format,
            view_type: vk::IMAGE_VIEW_TYPE_2D,
            swizzle_r: vk::COMPONENT_SWIZZLE_IDENTITY,
            swizzle_g: vk::COMPONENT_SWIZZLE_IDENTITY,
            swizzle_b: vk::COMPONENT_SWIZZLE_IDENTITY,
            swizzle_a: vk::COMPONENT_SWIZZLE_IDENTITY,
            range: SubresourceRange::spec_single(aspect),
        }
    }

    /// The configuration of a two-dimensional view of `image` in `format`:
    /// identity swizzle, the first mip level and array layer of `aspect`.
    pub fn create_image_view(image: u64, format: i32, aspect: u32) -> (r: ImageViewConfig)
        ensures
            r == Self::spec_image_view(image, format, aspect),
    {
        ImageViewConfig {
            image,
            format,
            view_type: vk::IMAGE_VIEW_TYPE_2D,
            swizzle_r: vk::COMPONENT_SWIZZLE_IDENTITY,
            swizzle_g: vk::COMPONENT_SWIZZLE_IDENTITY,
            swizzle_b: vk::COMPONENT_SWIZZLE_IDENTITY,
            swizzle_a: vk::COMPONENT_SWIZZLE_IDENTITY,
            range: SubresourceRange::single(aspect),
        }
    }

    /// The command pool's configuration: resettable command buffers on the
    /// graphics family.
    pub fn create_command_pool(&self) -> (r: CommandPoolConfig)
        ensures
            r == (CommandPoolConfig {
                flags: vk::COMMAND_POOL_CREATE_RESET_COMMAND_BUFFER,
                queue_family_index: self.queue_families.graphics,
            }),
    {
        CommandPoolConfig {
            flags: vk::COMMAND_POOL_CREATE_RESET_COMMAND_BUFFER,
            queue_family_index: self.queue_families.graphics,
        }
    }

    /// The allocation of one primary command buffer from `pool`.
    pub fn create_primary_command_buffer(pool: u64) -> (r: CommandBufferConfig)
        ensures
            r == (CommandBufferConfig { pool, count: 1, level: vk::COMMAND_BUFFER_LEVEL_PRIMARY }),
    {
        CommandBufferConfig { pool, count: 1, level: vk::COMMAND_BUFFER_LEVEL_PRIMARY }
    }

    /// The creation flags of a semaphore: none.
    pub fn create_semaphore() -> (r: u32)
        ensures
            r == 0,
    {
        0
    }

    /// The creation flags of a fence: the signaled bit, or none.
    pub fn create_fence(signaled: bool) -> (r: u32)
        ensures
            r == if signaled {
                vk::FENCE_CREATE_SIGNALED
            } else {
                0
            },
    {
        if signaled {
            vk::FENCE_CREATE_SIGNALED
        } else {
            0
        }
    }

    /// What `destroy` asks for: surface, device, debug messenger, instance.
    pub open spec fn spec_destroy(&self) -> Seq<Teardown> {
        seq![
            Teardown { kind: ObjectKind::Surface, handle: self.surface },
            Teardown { kind: ObjectKind::Device, handle: self.dev },
            Teardown { kind: ObjectKind::DebugMessenger, handle: self.debug },
            Teardown { kind: ObjectKind::Instance, handle: self.instance },
        ]
    }

    /// The destruction requests of the context, in dependency order.
    pub fn destroy(&self) -> (r: Vec<Teardown>)
        ensures
            r@ == self.spec_destroy(),
    {
        let mut out: Vec<Teardown> = Vec::new();
        out.push(Teardown { kind: ObjectKind::Surface, handle: self.surface });
        out.push(Teardown { kind: ObjectKind::Device, handle: self.dev });
        out.push(Teardown { kind: ObjectKind::DebugMessenger, handle: self.debug });
        out.push(Teardown { kind: ObjectKind::Instance, handle: self.instance });
        assert(out@ =~= self.spec_destroy());
        out
    }
}

} // verus!
