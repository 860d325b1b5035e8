//! Choosing the physical device and queue family, and what the renderer makes of a
//! surface's capabilities: its format, image count, resolution and present mode.
use crate::handle::ResourceId;
use crate::image::{format_raw, supported_format_raw, Format, ImageError};
use crate::manager::{Resource, ResourceManager, ResourceManagerError, MAX_FRAMES_IN_FLIGHT};
use crate::render_graph::Rect2D;
use vstd::prelude::*;

verus! {

/// The most descriptors a bindless binding holds.
pub const MAX_BINDLESS_RESOURCES: u32 = 1024;

pub const FORMAT_UNDEFINED: i32 = 0;
pub const FORMAT_B8G8R8_UNORM: i32 = 30;

pub const PRESENT_MODE_IMMEDIATE: i32 = 0;
pub const PRESENT_MODE_MAILBOX: i32 = 1;
pub const PRESENT_MODE_FIFO: i32 = 2;
pub const PRESENT_MODE_FIFO_RELAXED: i32 = 3;

pub enum DeviceError {
    NoSuitableDevice,
    ImageCreateError(ImageError),
    ResourceManagerError(ResourceManagerError),
    ResourceNotInCache,
}

/// The kinds of physical device.
#[derive(Debug, Clone, Copy, PartialEq, Eq, Structural)]
pub enum PhysicalDeviceType {
    Other,
    IntegratedGpu,
    DiscreteGpu,
    VirtualGpu,
    Cpu,
}

impl PhysicalDeviceType {
    /// The kind with Vulkan number `raw`; numbers of no known kind count as `Other`.
    pub fn from_raw(raw: i32) -> (ty: PhysicalDeviceType)
        ensures
            ty == (if raw == 1 {
                PhysicalDeviceType::IntegratedGpu
            } else if raw == 2 {
                PhysicalDeviceType::DiscreteGpu
            } else if raw == 3 {
                PhysicalDeviceType::VirtualGpu
            } else if raw == 4 {
                PhysicalDeviceType::Cpu
            } else {
                PhysicalDeviceType::Other
            }),
    {
        if raw == 1 {
            PhysicalDeviceType::IntegratedGpu
        } else if raw == 2 {
            PhysicalDeviceType::DiscreteGpu
        } else if raw == 3 {
            PhysicalDeviceType::VirtualGpu
        } else if raw == 4 {
            PhysicalDeviceType::Cpu
        } else {
            PhysicalDeviceType::Other
        }
    }
}

/// How much a device of this kind is preferred: discrete over integrated over virtual
/// over anything else.
pub open spec fn device_score(ty: PhysicalDeviceType) -> u32 {
    match ty {
        PhysicalDeviceType::IntegratedGpu => 200,
        PhysicalDeviceType::DiscreteGpu => 1000,
        PhysicalDeviceType::VirtualGpu => 1,
        _ => 0,
    }
}

pub fn score(ty: PhysicalDeviceType) -> (s: u32)
    ensures
        s == device_score(ty),
{
    match ty {
        PhysicalDeviceType::IntegratedGpu => 200,
        PhysicalDeviceType::DiscreteGpu => 1000,
        PhysicalDeviceType::VirtualGpu => 1,
        _ => 0,
    }
}

/// What a queue family of a device supports: graphics commands, and presenting to the
/// surface.
#[derive(Debug, Clone, Copy, PartialEq, Eq, Structural)]
pub struct QueueFamilySupport {
    pub graphics: bool,
    pub surface: bool,
}

/// A physical device as the selection sees it: its kind and its queue families in order.
pub struct PhysicalDeviceCandidate {
    pub device_type: PhysicalDeviceType,
    pub queue_families: Vec<QueueFamilySupport>,
}

pub open spec fn family_suitable(f: QueueFamilySupport) -> bool {
    f.graphics && f.surface
}

/// `index` is the first queue family of `families` that supports graphics and the surface.
pub open spec fn first_suitable_family(families: Seq<QueueFamilySupport>, index: int) -> bool {
    &&& 0 <= index < families.len()
    &&& family_suitable(families[index])
    &&& forall|j: int| 0 <= j < index ==> !family_suitable(#[trigger] families[j])
}

/// A device is usable when one of its queue families supports graphics and the surface.
pub open spec fn device_usable(d: PhysicalDeviceCandidate) -> bool {
    exists|j: int| 0 <= j < d.queue_families@.len() && family_suitable(#[trigger] d.queue_families@[j])
}

/// `(device, family)` is the choice among `devices`: the first usable device with the
/// highest score, and its first suitable queue family.
pub open spec fn is_device_choice(devices: Seq<PhysicalDeviceCandidate>, device: int, family: int) -> bool {
    &&& 0 <= device < devices.len()
    &&& device_usable(devices[device])
    &&& first_suitable_family(devices[device].queue_families@, family)
    &&& forall|e: int| 0 <= e < devices.len() && device_usable(#[trigger] devices[e])
            ==> device_score(devices[e].device_type) <= device_score(devices[device].device_type)
    &&& forall|e: int| 0 <= e < device && device_usable(#[trigger] devices[e])
            ==> device_score(devices[e].device_type) < device_score(devices[device].device_type)
}

/// The first queue family that supports graphics and the surface, if there is one.
pub fn suitable_queue_family(families: &Vec<QueueFamilySupport>) -> (index: Option<usize>)
    ensures
        match index {
            Some(i) => first_suitable_family(families@, i as int),
            None => forall|j: int| 0 <= j < families@.len() ==> !family_suitable(#[trigger] families@[j]),
        },
{
    let mut i: usize = 0;
    while i < families.len()
        invariant
            i <= families@.len(),
            forall|j: int| 0 <= j < i ==> !family_suitable(#[trigger] families@[j]),
        decreases families@.len() - i,
    {
        if families[i].graphics && families[i].surface {
            return Some(i);
        }
        i += 1;
    }
    None
}

/// Picks the device to render with and the queue family to use on it: among the
/// devices with a queue family for graphics and the surface, the first one of the
/// highest score; an error where no device has such a family.
pub fn select_physical_device(devices: &Vec<PhysicalDeviceCandidate>) -> (choice: Result<(usize, u32), DeviceError>)
    requires
        forall|d: int| 0 <= d < devices@.len() ==> #[trigger] devices@[d].queue_families@.len() <= u32::MAX,
    ensures
        match choice {
            Ok((d, q)) => is_device_choice(devices@, d as int, q as int),
            Err(e) => e is NoSuitableDevice && forall|d: int| 0 <= d < devices@.len() ==> !device_usable(#[trigger] devices@[d]),
        },
{
    let mut best: Option<(usize, u32, u32)> = None;
    let mut d: usize = 0;
    while d < devices.len()
        invariant
            d <= devices@.len(),
            forall|k: int| 0 <= k < devices@.len() ==> #[trigger] devices@[k].queue_families@.len() <= u32::MAX,
            match best {
                Some((b, q, s)) => b < d && s == device_score(devices@[b as int].device_type)
                    && is_device_choice(devices@.take(d as int), b as int, q as int),
                None => forall|k: int| 0 <= k < d ==> !device_usable(#[trigger] devices@[k]),
            },
        decreases devices@.len() - d,
    {
        let ghost prefix = devices@.take(d as int);
        let ghost next = devices@.take(d as int + 1);
        assert forall|k: int| 0 <= k < d implies #[trigger] next[k] == prefix[k] by {}
        match suitable_queue_family(&devices[d].queue_families) {
            Some(q) => {
                let s = score(devices[d].device_type);
                assert(device_usable(devices@[d as int]));
                match best {
                    Some((b, bq, bs)) => {
                        if s > bs {
                            best = Some((d, q as u32, s));
                        }
                    },
                    None => {
                        best = Some((d, q as u32, s));
                    },
                }
            },
            None => {
                assert(!device_usable(devices@[d as int]));
            },
        }
        d += 1;
        assert(devices@.take(d as int) == next);
    }
    assert(devices@.take(d as int) == devices@);
    match best {
        Some((b, q, _)) => Ok((b, q)),
        None => Err(DeviceError::NoSuitableDevice),
    }
}

/// A discrete GPU that can render to the surface is always chosen over any other kind
/// of device, and an integrated GPU over anything but a discrete one.
pub proof fn discrete_gpu_preferred(devices: Seq<PhysicalDeviceCandidate>, device: int, family: int, e: int)
    requires
        is_device_choice(devices, device, family),
        0 <= e < devices.len(),
        device_usable(devices[e]),
    ensures
        devices[e].device_type == PhysicalDeviceType::DiscreteGpu ==> devices[device].device_type == PhysicalDeviceType::DiscreteGpu,
        devices[e].device_type == PhysicalDeviceType::IntegratedGpu ==> devices[device].device_type == PhysicalDeviceType::DiscreteGpu
            || devices[device].device_type == PhysicalDeviceType::IntegratedGpu,
{
    assert(device_score(devices[e].device_type) <= device_score(devices[device].device_type));
}

/// A surface format: a format number and a color space number.
#[derive(Debug, Clone, Copy, PartialEq, Eq, Structural)]
pub struct SurfaceFormat {
    pub format: i32,
    pub color_space: i32,
}

#[derive(Debug, Clone, Copy, PartialEq, Eq, Structural)]
pub struct Extent2D {
    pub width: u32,
    pub height: u32,
}

/// What a surface allows: image counts (a maximum of zero means no limit), its current
/// extent and transforms.
#[derive(Debug, Clone, Copy, PartialEq, Eq, Structural)]
pub struct SurfaceCapabilities {
    pub min_image_count: u32,
    pub max_image_count: u32,
    pub current_extent: Extent2D,
    pub supported_transforms: u32,
    pub current_transform: u32,
}

/// The surface format to render with: the first one reported, with an undefined format
/// read as 8-bit BGR.
pub open spec fn surface_format_choice(first: SurfaceFormat) -> SurfaceFormat {
    if first.format == FORMAT_UNDEFINED {
        SurfaceFormat { format: FORMAT_B8G8R8_UNORM, color_space: first.color_space }
    } else {
        first
    }
}

pub fn choose_surface_format(formats: &Vec<SurfaceFormat>) -> (format: SurfaceFormat)
    requires
        formats@.len() > 0,
    ensures
        format == surface_format_choice(formats@[0]),
{
    let first = formats[0];
    if first.format == FORMAT_UNDEFINED {
        SurfaceFormat { format: FORMAT_B8G8R8_UNORM, color_space: first.color_space }
    } else {
        first
    }
}

/// One image more than the surface's minimum, but no more than its maximum where it
/// has one.
pub open spec fn image_count_choice(caps: SurfaceCapabilities) -> int {
    if caps.max_image_count > 0 && caps.min_image_count + 1 > caps.max_image_count {
        caps.max_image_count as int
    } else {
        caps.min_image_count + 1
    }
}

pub fn desired_image_count(caps: &SurfaceCapabilities) -> (count: u32)
    requires
        caps.min_image_count < u32::MAX,
    ensures
        count == image_count_choice(*caps),
{
    let mut count = caps.min_image_count + 1;
    if caps.max_image_count > 0 && count > caps.max_image_count {
        count = caps.max_image_count;
    }
    count
}

/// The surface's current extent, or the window's size where the surface leaves it to
/// the swapchain (a current width of `u32::MAX`).
pub open spec fn resolution_choice(caps: SurfaceCapabilities, backbuffer: Extent2D) -> Extent2D {
    if caps.current_extent.width == u32::MAX {
        backbuffer
    } else {
        caps.current_extent
    }
}

pub fn surface_resolution(caps: &SurfaceCapabilities, backbuffer: Extent2D) -> (extent: Extent2D)
    ensures
        extent == resolution_choice(*caps, backbuffer),
{
    if caps.current_extent.width == u32::MAX {
        backbuffer
    } else {
        caps.current_extent
    }
}

/// The present modes to try in order: relaxed FIFO then FIFO without vsync, mailbox
/// then immediate with it.
pub open spec fn present_mode_preference(vsync: bool) -> Seq<i32> {
    if !vsync {
        seq![PRESENT_MODE_FIFO_RELAXED, PRESENT_MODE_FIFO]
    } else {
        seq![PRESENT_MODE_MAILBOX, PRESENT_MODE_IMMEDIATE]
    }
}

/// The first preferred mode the surface supports, else FIFO, which every surface has.
pub open spec fn present_mode_choice(vsync: bool, available: Seq<i32>) -> i32 {
    let pref = present_mode_preference(vsync);
    if available.contains(pref[0]) {
        pref[0]
    } else if available.contains(pref[1]) {
        pref[1]
    } else {
        PRESENT_MODE_FIFO
    }
}

fn contains_mode(modes: &Vec<i32>, mode: i32) -> (found: bool)
    ensures
        found == modes@.contains(mode),
{
    let mut i: usize = 0;
    while i < modes.len()
        invariant
            i <= modes@.len(),
            forall|j: int| 0 <= j < i ==> modes@[j] != mode,
        decreases modes@.len() - i,
    {
        if modes[i] == mode {
            assert(modes@[i as int] == mode);
            return true;
        }
        i += 1;
    }
    false
}

pub fn choose_present_mode(vsync: bool, available: &Vec<i32>) -> (mode: i32)
    ensures
        mode == present_mode_choice(vsync, available@),
{
    let (first, second) = if !vsync {
        (PRESENT_MODE_FIFO_RELAXED, PRESENT_MODE_FIFO)
    } else {
        (PRESENT_MODE_MAILBOX, PRESENT_MODE_IMMEDIATE)
    };
    if contains_mode(available, first) {
        first
    } else if contains_mode(available, second) {
        second
    } else {
        PRESENT_MODE_FIFO
    }
}

/// What the swapchain is built from.
#[derive(Debug, Clone, Copy, PartialEq, Eq, Structural)]
pub struct SurfaceData {
    pub surface_format: SurfaceFormat,
    pub surface_capabilities: SurfaceCapabilities,
    pub surface_resolution: Extent2D,
    pub present_mode: i32,
    pub desired_image_count: u32,
}

/// Decides the surface data from what the surface reports: its formats, capabilities
/// and present modes, with the window's size for a surface that leaves the size open.
pub fn surface_data(
    formats: &Vec<SurfaceFormat>,
    capabilities: SurfaceCapabilities,
    backbuffer_resolution: Extent2D,
    present_modes: &Vec<i32>,
    vsync: bool,
) -> (data: SurfaceData)
    requires
        formats@.len() > 0,
        capabilities.min_image_count < u32::MAX,
    ensures
        data == (SurfaceData {
            surface_format: surface_format_choice(formats@[0]),
            surface_capabilities: capabilities,
            surface_resolution: resolution_choice(capabilities, backbuffer_resolution),
            present_mode: present_mode_choice(vsync, present_modes@),
            desired_image_count: image_count_choice(capabilities) as u32,
        }),
{
    let surface_format = choose_surface_format(formats);
    let desired_image_count = desired_image_count(&capabilities);
    let surface_resolution = surface_resolution(&capabilities, backbuffer_resolution);
    let present_mode = choose_present_mode(vsync, present_modes);
    SurfaceData {
        surface_format,
        surface_capabilities: capabilities,
        surface_resolution,
        present_mode,
        desired_image_count,
    }
}

impl SurfaceData {
    pub fn size(&self) -> (extent: Extent2D)
        ensures
            extent == self.surface_resolution,
    {
        self.surface_resolution
    }

    /// The image format of the surface, which must be one images are created with.
    pub fn format(&self) -> (format: Format)
        requires
            supported_format_raw(self.surface_format.format),
        ensures
            format_raw(format) == self.surface_format.format,
    {
        Format::from_raw(self.surface_format.format)
    }

    /// The whole surface as a rectangle at the origin.
    pub fn surface_rect(&self) -> (rect: Rect2D)
        ensures
            rect == (Rect2D { x: 0, y: 0, width: self.surface_resolution.width, height: self.surface_resolution.height }),
    {
        Rect2D::from_width_height(self.surface_resolution.width, self.surface_resolution.height)
    }
}

/// Puts a newly built shader under `id`, queueing the old one for destruction in frame
/// slot `current_frame_index`; an error where `id` holds no shader.
pub fn recreate_shader<G, S, I, B, M, P>(
    manager: &mut ResourceManager<G, S, I, B, M, P>,
    id: ResourceId<S>,
    new: S,
    current_frame_index: usize,
) -> (res: Result<(), DeviceError>)
    requires
        old(manager).wf(),
        current_frame_index < MAX_FRAMES_IN_FLIGHT,
    ensures
        final(manager).wf(),
        final(manager).consume_slot() == old(manager).consume_slot(),
        final(manager).shaders.next_index() == old(manager).shaders.next_index(),
        final(manager).same_graphics_pipelines(*old(manager)),
        final(manager).same_images(*old(manager)),
        final(manager).same_buffers(*old(manager)),
        final(manager).same_samplers(*old(manager)),
        old(manager).shaders@.contains_key(id.index()) ==> res is Ok
            && final(manager).shaders@ == old(manager).shaders@.insert(id.index(), new)
            && final(manager).queue(current_frame_index as int) == old(manager).queue(current_frame_index as int).push(
            Resource::Shader(old(manager).shaders@[id.index()])),
        !old(manager).shaders@.contains_key(id.index()) ==> (res matches Err(DeviceError::ResourceNotInCache))
            && final(manager).shaders@ == old(manager).shaders@
            && final(manager).queue(current_frame_index as int) == old(manager).queue(current_frame_index as int),
        forall|slot: int| 0 <= slot < MAX_FRAMES_IN_FLIGHT && slot != current_frame_index ==> #[trigger] final(manager).queue(slot) == old(manager).queue(slot),
{
    if manager.shaders.contains(id) {
        manager.replace_shader(id, new, current_frame_index);
        Ok(())
    } else {
        Err(DeviceError::ResourceNotInCache)
    }
}

} // verus!
