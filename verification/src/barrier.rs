//! Image layout transitions: which pipeline stages and memory accesses a barrier
//! between two image layouts has to wait for and to make visible.
//!
//! Stage and access masks are the raw bit values of the Vulkan flags; the image
//! layouts are the ones the renderer moves images through.
use vstd::prelude::*;

verus! {

pub const STAGE_TOP_OF_PIPE: u32 = 0x1;
pub const STAGE_VERTEX_SHADER: u32 = 0x8;
pub const STAGE_FRAGMENT_SHADER: u32 = 0x80;
pub const STAGE_EARLY_FRAGMENT_TESTS: u32 = 0x100;
pub const STAGE_LATE_FRAGMENT_TESTS: u32 = 0x200;
pub const STAGE_COLOR_ATTACHMENT_OUTPUT: u32 = 0x400;
pub const STAGE_COMPUTE_SHADER: u32 = 0x800;
pub const STAGE_TRANSFER: u32 = 0x1000;
pub const STAGE_BOTTOM_OF_PIPE: u32 = 0x2000;
pub const STAGE_HOST: u32 = 0x4000;
pub const STAGE_ALL_COMMANDS: u32 = 0x10000;

/// The early and late fragment tests, where depth attachments are read and written.
pub const STAGES_DEPTH_TESTS: u32 = 0x300;
/// The shader stages that sample images: vertex, fragment and compute.
pub const STAGES_SAMPLING: u32 = 0x888;
/// The depth tests and the sampling stages together.
pub const STAGES_DEPTH_TESTS_AND_SAMPLING: u32 = 0xb88;

pub const ACCESS_NONE: u32 = 0x0;
pub const ACCESS_INPUT_ATTACHMENT_READ: u32 = 0x10;
pub const ACCESS_SHADER_READ: u32 = 0x20;
pub const ACCESS_COLOR_ATTACHMENT_READ: u32 = 0x80;
pub const ACCESS_COLOR_ATTACHMENT_WRITE: u32 = 0x100;
pub const ACCESS_DEPTH_STENCIL_ATTACHMENT_READ: u32 = 0x200;
pub const ACCESS_DEPTH_STENCIL_ATTACHMENT_WRITE: u32 = 0x400;
pub const ACCESS_TRANSFER_READ: u32 = 0x800;
pub const ACCESS_TRANSFER_WRITE: u32 = 0x1000;
pub const ACCESS_HOST_WRITE: u32 = 0x4000;
pub const ACCESS_MEMORY_READ: u32 = 0x8000;
pub const ACCESS_MEMORY_WRITE: u32 = 0x10000;

/// Memory read and write.
pub const ACCESS_MEMORY_READ_WRITE: u32 = 0x18000;
/// Color attachment read and write.
pub const ACCESS_COLOR_ATTACHMENT_READ_WRITE: u32 = 0x180;
/// Depth-stencil attachment read and write.
pub const ACCESS_DEPTH_STENCIL_ATTACHMENT_READ_WRITE: u32 = 0x600;
/// Depth-stencil attachment read, shader read and input attachment read.
pub const ACCESS_DEPTH_READ_ONLY: u32 = 0x230;
/// Shader read and input attachment read.
pub const ACCESS_SHADER_READ_ONLY: u32 = 0x30;

pub const ASPECT_COLOR: u32 = 0x1;
pub const ASPECT_DEPTH: u32 = 0x2;

/// The queue family index that leaves ownership unchanged.
pub const QUEUE_FAMILY_IGNORED: u32 = 0xffff_ffff;
/// All mip levels from the base one on.
pub const REMAINING_MIP_LEVELS: u32 = 0xffff_ffff;
/// All array layers from the base one on.
pub const REMAINING_ARRAY_LAYERS: u32 = 0xffff_ffff;

/// The layouts an image moves through.
#[derive(Debug, Clone, Copy, PartialEq, Eq, Structural)]
pub enum ImageLayout {
    Undefined,
    General,
    ColorAttachmentOptimal,
    DepthStencilAttachmentOptimal,
    DepthStencilReadOnlyOptimal,
    ShaderReadOnlyOptimal,
    TransferSrcOptimal,
    TransferDstOptimal,
    Preinitialized,
    PresentSrc,
}

/// The Vulkan number of a layout.
pub open spec fn layout_raw(layout: ImageLayout) -> i32 {
    match layout {
        ImageLayout::Undefined => 0,
        ImageLayout::General => 1,
        ImageLayout::ColorAttachmentOptimal => 2,
        ImageLayout::DepthStencilAttachmentOptimal => 3,
        ImageLayout::DepthStencilReadOnlyOptimal => 4,
        ImageLayout::ShaderReadOnlyOptimal => 5,
        ImageLayout::TransferSrcOptimal => 6,
        ImageLayout::TransferDstOptimal => 7,
        ImageLayout::Preinitialized => 8,
        ImageLayout::PresentSrc => 1000001002,
    }
}

impl ImageLayout {
    pub fn as_raw(&self) -> (raw: i32)
        ensures
            raw == layout_raw(*self),
    {
        match self {
            ImageLayout::Undefined => 0,
            ImageLayout::General => 1,
            ImageLayout::ColorAttachmentOptimal => 2,
            ImageLayout::DepthStencilAttachmentOptimal => 3,
            ImageLayout::DepthStencilReadOnlyOptimal => 4,
            ImageLayout::ShaderReadOnlyOptimal => 5,
            ImageLayout::TransferSrcOptimal => 6,
            ImageLayout::TransferDstOptimal => 7,
            ImageLayout::Preinitialized => 8,
            ImageLayout::PresentSrc => 1000001002,
        }
    }

    /// The layout with Vulkan number `raw`, if it is one of these.
    pub fn from_raw(raw: i32) -> (layout: Option<ImageLayout>)
        ensures
            match layout {
                Some(l) => layout_raw(l) == raw,
                None => forall|l: ImageLayout| layout_raw(l) != raw,
            },
    {
        if raw == 0 {
            Some(ImageLayout::Undefined)
        } else if raw == 1 {
            Some(ImageLayout::General)
        } else if raw == 2 {
            Some(ImageLayout::ColorAttachmentOptimal)
        } else if raw == 3 {
            Some(ImageLayout::DepthStencilAttachmentOptimal)
        } else if raw == 4 {
            Some(ImageLayout::DepthStencilReadOnlyOptimal)
        } else if raw == 5 {
            Some(ImageLayout::ShaderReadOnlyOptimal)
        } else if raw == 6 {
            Some(ImageLayout::TransferSrcOptimal)
        } else if raw == 7 {
            Some(ImageLayout::TransferDstOptimal)
        } else if raw == 8 {
            Some(ImageLayout::Preinitialized)
        } else if raw == 1000001002 {
            Some(ImageLayout::PresentSrc)
        } else {
            None
        }
    }
}

/// The write accesses among the access flags: memory, color attachment, depth-stencil
/// attachment, transfer and host writes.
pub const ACCESS_WRITES: u32 = 0x15500;

/// What a barrier out of `layout` waits for: the stages that last used the image in
/// that layout and the writes they made (stage mask, access mask).
pub open spec fn source_scope(layout: ImageLayout) -> (u32, u32) {
    match layout {
        ImageLayout::Undefined => (STAGE_TOP_OF_PIPE, ACCESS_NONE),
        ImageLayout::General => (STAGE_ALL_COMMANDS, ACCESS_MEMORY_WRITE),
        ImageLayout::ColorAttachmentOptimal => (STAGE_COLOR_ATTACHMENT_OUTPUT, ACCESS_COLOR_ATTACHMENT_WRITE),
        ImageLayout::DepthStencilAttachmentOptimal => (STAGES_DEPTH_TESTS, ACCESS_DEPTH_STENCIL_ATTACHMENT_WRITE),
        ImageLayout::DepthStencilReadOnlyOptimal => (STAGES_DEPTH_TESTS_AND_SAMPLING, ACCESS_NONE),
        ImageLayout::ShaderReadOnlyOptimal => (STAGES_SAMPLING, ACCESS_NONE),
        ImageLayout::TransferSrcOptimal => (STAGE_TRANSFER, ACCESS_NONE),
        ImageLayout::TransferDstOptimal => (STAGE_TRANSFER, ACCESS_TRANSFER_WRITE),
        ImageLayout::Preinitialized => (STAGE_HOST, ACCESS_HOST_WRITE),
        ImageLayout::PresentSrc => (STAGE_TOP_OF_PIPE, ACCESS_NONE),
    }
}

/// Whether an image can be moved into `layout`: every layout but `Undefined` and
/// `Preinitialized`, which only an image's creation gives it.
pub open spec fn is_target_layout(layout: ImageLayout) -> bool {
    !(layout is Undefined) && !(layout is Preinitialized)
}

/// What waits on a barrier into `layout`: the stages that next use the image in that
/// layout and the accesses they make (stage mask, access mask).
pub open spec fn destination_scope(layout: ImageLayout) -> (u32, u32)
    recommends
        is_target_layout(layout),
{
    match layout {
        ImageLayout::General => (STAGE_ALL_COMMANDS, ACCESS_MEMORY_READ_WRITE),
        ImageLayout::ColorAttachmentOptimal => (STAGE_COLOR_ATTACHMENT_OUTPUT, ACCESS_COLOR_ATTACHMENT_READ_WRITE),
        ImageLayout::DepthStencilAttachmentOptimal => (STAGES_DEPTH_TESTS, ACCESS_DEPTH_STENCIL_ATTACHMENT_READ_WRITE),
        ImageLayout::DepthStencilReadOnlyOptimal => (STAGES_DEPTH_TESTS_AND_SAMPLING, ACCESS_DEPTH_READ_ONLY),
        ImageLayout::ShaderReadOnlyOptimal => (STAGES_SAMPLING, ACCESS_SHADER_READ_ONLY),
        ImageLayout::TransferSrcOptimal => (STAGE_TRANSFER, ACCESS_TRANSFER_READ),
        ImageLayout::TransferDstOptimal => (STAGE_TRANSFER, ACCESS_TRANSFER_WRITE),
        _ => (STAGE_BOTTOM_OF_PIPE, ACCESS_NONE),
    }
}

/// The access masks that only make writes available: none, or exactly one kind of write.
pub open spec fn is_write_access(access: u32) -> bool {
    ||| access == ACCESS_NONE
    ||| access == ACCESS_MEMORY_WRITE
    ||| access == ACCESS_COLOR_ATTACHMENT_WRITE
    ||| access == ACCESS_DEPTH_STENCIL_ATTACHMENT_WRITE
    ||| access == ACCESS_TRANSFER_WRITE
    ||| access == ACCESS_HOST_WRITE
}

/// Leaving a layout waits on exactly what entering it let happen: for every layout an
/// image is moved into and used in, a barrier out of it waits on the same stages that a
/// barrier into it held back, and on the writes among the accesses those stages were
/// allowed, no more and no fewer. An image that was never written (undefined, or just
/// presented) leaves nothing to wait for, and one the host filled waits on host writes.
pub proof fn leaving_a_layout_waits_for_its_writes(layout: ImageLayout)
    ensures
        is_target_layout(layout) && !(layout is PresentSrc) ==> source_scope(layout).0 == destination_scope(layout).0
            && source_scope(layout).1 == destination_scope(layout).1 & ACCESS_WRITES,
        (layout is Undefined || layout is PresentSrc) ==> source_scope(layout).1 == ACCESS_NONE,
        layout is Preinitialized ==> source_scope(layout) == (STAGE_HOST, ACCESS_HOST_WRITE),
{
    assert(0x18000u32 & 0x15500u32 == 0x10000u32) by (bit_vector);
    assert(0x180u32 & 0x15500u32 == 0x100u32) by (bit_vector);
    assert(0x600u32 & 0x15500u32 == 0x400u32) by (bit_vector);
    assert(0x230u32 & 0x15500u32 == 0u32) by (bit_vector);
    assert(0x30u32 & 0x15500u32 == 0u32) by (bit_vector);
    assert(0x800u32 & 0x15500u32 == 0u32) by (bit_vector);
    assert(0x1000u32 & 0x15500u32 == 0x1000u32) by (bit_vector);
}

fn source_masks(layout: ImageLayout) -> (scope: (u32, u32))
    ensures
        scope == source_scope(layout),
{
    match layout {
        ImageLayout::Undefined => (STAGE_TOP_OF_PIPE, ACCESS_NONE),
        ImageLayout::General => (STAGE_ALL_COMMANDS, ACCESS_MEMORY_WRITE),
        ImageLayout::ColorAttachmentOptimal => (STAGE_COLOR_ATTACHMENT_OUTPUT, ACCESS_COLOR_ATTACHMENT_WRITE),
        ImageLayout::DepthStencilAttachmentOptimal => (STAGES_DEPTH_TESTS, ACCESS_DEPTH_STENCIL_ATTACHMENT_WRITE),
        ImageLayout::DepthStencilReadOnlyOptimal => (STAGES_DEPTH_TESTS_AND_SAMPLING, ACCESS_NONE),
        ImageLayout::ShaderReadOnlyOptimal => (STAGES_SAMPLING, ACCESS_NONE),
        ImageLayout::TransferSrcOptimal => (STAGE_TRANSFER, ACCESS_NONE),
        ImageLayout::TransferDstOptimal => (STAGE_TRANSFER, ACCESS_TRANSFER_WRITE),
        ImageLayout::Preinitialized => (STAGE_HOST, ACCESS_HOST_WRITE),
        ImageLayout::PresentSrc => (STAGE_TOP_OF_PIPE, ACCESS_NONE),
    }
}

fn destination_masks(layout: ImageLayout) -> (scope: (u32, u32))
    requires
        is_target_layout(layout),
    ensures
        scope == destination_scope(layout),
{
    match layout {
        ImageLayout::General => (STAGE_ALL_COMMANDS, ACCESS_MEMORY_READ_WRITE),
        ImageLayout::ColorAttachmentOptimal => (STAGE_COLOR_ATTACHMENT_OUTPUT, ACCESS_COLOR_ATTACHMENT_READ_WRITE),
        ImageLayout::DepthStencilAttachmentOptimal => (STAGES_DEPTH_TESTS, ACCESS_DEPTH_STENCIL_ATTACHMENT_READ_WRITE),
        ImageLayout::DepthStencilReadOnlyOptimal => (STAGES_DEPTH_TESTS_AND_SAMPLING, ACCESS_DEPTH_READ_ONLY),
        ImageLayout::ShaderReadOnlyOptimal => (STAGES_SAMPLING, ACCESS_SHADER_READ_ONLY),
        ImageLayout::TransferSrcOptimal => (STAGE_TRANSFER, ACCESS_TRANSFER_READ),
        ImageLayout::TransferDstOptimal => (STAGE_TRANSFER, ACCESS_TRANSFER_WRITE),
        _ => (STAGE_BOTTOM_OF_PIPE, ACCESS_NONE),
    }
}

/// Which mip levels and array layers of an image a barrier covers.
#[derive(Debug, Clone, Copy, PartialEq, Eq, Structural)]
pub struct ImageBarrierDescription {
    pub base_mip_level: u32,
    pub level_count: u32,
    pub base_array_layer: u32,
    pub layer_count: u32,
}

impl Default for ImageBarrierDescription {
    /// The whole image: every mip level and every array layer.
    fn default() -> (desc: Self)
        ensures
            desc == (ImageBarrierDescription {
                base_mip_level: 0,
                level_count: REMAINING_MIP_LEVELS,
                base_array_layer: 0,
                layer_count: REMAINING_ARRAY_LAYERS,
            }),
    {
        ImageBarrierDescription {
            base_mip_level: 0,
            level_count: REMAINING_MIP_LEVELS,
            base_array_layer: 0,
            layer_count: REMAINING_ARRAY_LAYERS,
        }
    }
}

/// One image memory barrier, with the image given by its raw handle.
#[derive(Debug, Clone, Copy, PartialEq, Eq, Structural)]
pub struct ImageMemoryBarrier {
    pub image: u64,
    pub src_access: u32,
    pub dst_access: u32,
    pub old_layout: ImageLayout,
    pub new_layout: ImageLayout,
    pub src_queue_family: u32,
    pub dst_queue_family: u32,
    pub aspect_mask: u32,
    pub base_mip_level: u32,
    pub level_count: u32,
    pub base_array_layer: u32,
    pub layer_count: u32,
}

/// A pipeline barrier with one image memory barrier in it.
#[derive(Debug, Clone, Copy, PartialEq, Eq, Structural)]
pub struct PipelineBarrier {
    pub src_stage: u32,
    pub dst_stage: u32,
    pub image_barrier: ImageMemoryBarrier,
}

/// The barrier that moves the subresources `desc` of `image` from `old_layout` to
/// `new_layout`: it waits for the source scope of the old layout and blocks the
/// destination scope of the new one, without a queue family transfer.
pub open spec fn layout_transition(
    image: u64,
    aspect_mask: u32,
    old_layout: ImageLayout,
    new_layout: ImageLayout,
    desc: ImageBarrierDescription,
) -> PipelineBarrier {
    PipelineBarrier {
        src_stage: source_scope(old_layout).0,
        dst_stage: destination_scope(new_layout).0,
        image_barrier: ImageMemoryBarrier {
            image,
            src_access: source_scope(old_layout).1,
            dst_access: destination_scope(new_layout).1,
            old_layout,
            new_layout,
            src_queue_family: QUEUE_FAMILY_IGNORED,
            dst_queue_family: QUEUE_FAMILY_IGNORED,
            aspect_mask,
            base_mip_level: desc.base_mip_level,
            level_count: desc.level_count,
            base_array_layer: desc.base_array_layer,
            layer_count: desc.layer_count,
        },
    }
}

/// The pipeline barrier that a command list records to move `image` from `old_layout`
/// to `new_layout`. An image is never moved into `Undefined` or `Preinitialized`.
pub fn set_image_memory_barrier(
    image: u64,
    aspect_mask: u32,
    old_layout: ImageLayout,
    new_layout: ImageLayout,
    desc: ImageBarrierDescription,
) -> (barrier: PipelineBarrier)
    requires
        is_target_layout(new_layout),
    ensures
        barrier == layout_transition(image, aspect_mask, old_layout, new_layout, desc),
{
    let (src_stage, src_access) = source_masks(old_layout);
    let (dst_stage, dst_access) = destination_masks(new_layout);
    PipelineBarrier {
        src_stage,
        dst_stage,
        image_barrier: ImageMemoryBarrier {
            image,
            src_access,
            dst_access,
            old_layout,
            new_layout,
            src_queue_family: QUEUE_FAMILY_IGNORED,
            dst_queue_family: QUEUE_FAMILY_IGNORED,
            aspect_mask,
            base_mip_level: desc.base_mip_level,
            level_count: desc.level_count,
            base_array_layer: desc.base_array_layer,
            layer_count: desc.layer_count,
        },
    }
}

/// A barrier only ever waits for writes: reads leave nothing to make available, so the
/// source access of every layout is empty or a single kind of write. Every transition
/// also blocks some stage.
pub proof fn transition_source_is_writes_only(
    image: u64,
    aspect_mask: u32,
    old_layout: ImageLayout,
    new_layout: ImageLayout,
    desc: ImageBarrierDescription,
)
    requires
        is_target_layout(new_layout),
    ensures
        is_write_access(layout_transition(image, aspect_mask, old_layout, new_layout, desc).image_barrier.src_access),
        layout_transition(image, aspect_mask, old_layout, new_layout, desc).dst_stage != 0,
        layout_transition(image, aspect_mask, old_layout, new_layout, desc).src_stage != 0,
{
}

/// The two moves of an image that is filled from a staging buffer: into transfer
/// destination for the copy, then to shader read-only for sampling; both over the whole
/// color aspect.
pub fn image_upload_transitions(image: u64) -> (barriers: (PipelineBarrier, PipelineBarrier))
    ensures
        barriers.0 == layout_transition(
            image,
            ASPECT_COLOR,
            ImageLayout::Undefined,
            ImageLayout::TransferDstOptimal,
            ImageBarrierDescription {
                base_mip_level: 0,
                level_count: REMAINING_MIP_LEVELS,
                base_array_layer: 0,
                layer_count: REMAINING_ARRAY_LAYERS,
            },
        ),
        barriers.1 == layout_transition(
            image,
            ASPECT_COLOR,
            ImageLayout::TransferDstOptimal,
            ImageLayout::ShaderReadOnlyOptimal,
            ImageBarrierDescription {
                base_mip_level: 0,
                level_count: REMAINING_MIP_LEVELS,
                base_array_layer: 0,
                layer_count: REMAINING_ARRAY_LAYERS,
            },
        ),
{
    let before = set_image_memory_barrier(
        image,
        ASPECT_COLOR,
        ImageLayout::Undefined,
        ImageLayout::TransferDstOptimal,
        ImageBarrierDescription::default(),
    );
    let after = set_image_memory_barrier(
        image,
        ASPECT_COLOR,
        ImageLayout::TransferDstOptimal,
        ImageLayout::ShaderReadOnlyOptimal,
        ImageBarrierDescription::default(),
    );
    (before, after)
}

/// An image memory barrier over the first `level_count` mip levels from
/// `base_mip_level` and all array layers from the first, without a queue family
/// transfer.
pub fn image_barrier(
    image: u64,
    src_access: u32,
    dst_access: u32,
    old_layout: ImageLayout,
    new_layout: ImageLayout,
    aspect_mask: u32,
    base_mip_level: u32,
    level_count: u32,
) -> (barrier: ImageMemoryBarrier)
    ensures
        barrier == (ImageMemoryBarrier {
            image,
            src_access,
            dst_access,
            old_layout,
            new_layout,
            src_queue_family: QUEUE_FAMILY_IGNORED,
            dst_queue_family: QUEUE_FAMILY_IGNORED,
            aspect_mask,
            base_mip_level,
            level_count,
            base_array_layer: 0,
            layer_count: REMAINING_ARRAY_LAYERS,
        }),
{
    ImageMemoryBarrier {
        image,
        src_access,
        dst_access,
        old_layout,
        new_layout,
        src_queue_family: QUEUE_FAMILY_IGNORED,
        dst_queue_family: QUEUE_FAMILY_IGNORED,
        aspect_mask,
        base_mip_level,
        level_count,
        base_array_layer: 0,
        layer_count: REMAINING_ARRAY_LAYERS,
    }
}

/// A barrier over the first mip level and array layer of the color aspect, with queue
/// family indices left at zero.
pub open spec fn first_color_subresource_barrier(
    image: u64,
    src_stage: u32,
    dst_stage: u32,
    src_access: u32,
    dst_access: u32,
    old_layout: ImageLayout,
    new_layout: ImageLayout,
) -> PipelineBarrier {
    PipelineBarrier {
        src_stage,
        dst_stage,
        image_barrier: ImageMemoryBarrier {
            image,
            src_access,
            dst_access,
            old_layout,
            new_layout,
            src_queue_family: 0,
            dst_queue_family: 0,
            aspect_mask: ASPECT_COLOR,
            base_mip_level: 0,
            level_count: 1,
            base_array_layer: 0,
            layer_count: 1,
        },
    }
}

fn color_subresource_barrier(
    image: u64,
    src_stage: u32,
    dst_stage: u32,
    src_access: u32,
    dst_access: u32,
    old_layout: ImageLayout,
    new_layout: ImageLayout,
) -> (barrier: PipelineBarrier)
    ensures
        barrier == first_color_subresource_barrier(
            image,
            src_stage,
            dst_stage,
            src_access,
            dst_access,
            old_layout,
            new_layout,
        ),
{
    PipelineBarrier {
        src_stage,
        dst_stage,
        image_barrier: ImageMemoryBarrier {
            image,
            src_access,
            dst_access,
            old_layout,
            new_layout,
            src_queue_family: 0,
            dst_queue_family: 0,
            aspect_mask: ASPECT_COLOR,
            base_mip_level: 0,
            level_count: 1,
            base_array_layer: 0,
            layer_count: 1,
        },
    }
}

/// Before drawing into a freshly acquired drawable: from `Undefined` to color
/// attachment, making the color attachment writes wait.
pub fn transition_undefined_to_color(image: u64) -> (barrier: PipelineBarrier)
    ensures
        barrier == first_color_subresource_barrier(
            image,
            STAGE_TOP_OF_PIPE,
            STAGE_COLOR_ATTACHMENT_OUTPUT,
            ACCESS_NONE,
            ACCESS_COLOR_ATTACHMENT_WRITE,
            ImageLayout::Undefined,
            ImageLayout::ColorAttachmentOptimal,
        ),
{
    color_subresource_barrier(
        image,
        STAGE_TOP_OF_PIPE,
        STAGE_COLOR_ATTACHMENT_OUTPUT,
        ACCESS_NONE,
        ACCESS_COLOR_ATTACHMENT_WRITE,
        ImageLayout::Undefined,
        ImageLayout::ColorAttachmentOptimal,
    )
}

/// Before presenting: from color attachment to present, after the color writes.
pub fn transition_color_to_present(image: u64) -> (barrier: PipelineBarrier)
    ensures
        barrier == first_color_subresource_barrier(
            image,
            STAGE_COLOR_ATTACHMENT_OUTPUT,
            STAGE_BOTTOM_OF_PIPE,
            ACCESS_COLOR_ATTACHMENT_WRITE,
            ACCESS_NONE,
            ImageLayout::ColorAttachmentOptimal,
            ImageLayout::PresentSrc,
        ),
{
    color_subresource_barrier(
        image,
        STAGE_COLOR_ATTACHMENT_OUTPUT,
        STAGE_BOTTOM_OF_PIPE,
        ACCESS_COLOR_ATTACHMENT_WRITE,
        ACCESS_NONE,
        ImageLayout::ColorAttachmentOptimal,
        ImageLayout::PresentSrc,
    )
}

/// Before an upload: into transfer destination, making the transfer writes wait.
pub fn image_barrier_start(image: u64) -> (barrier: PipelineBarrier)
    ensures
        barrier == first_color_subresource_barrier(
            image,
            STAGE_BOTTOM_OF_PIPE,
            STAGE_TRANSFER,
            ACCESS_NONE,
            ACCESS_TRANSFER_WRITE,
            ImageLayout::Undefined,
            ImageLayout::TransferDstOptimal,
        ),
{
    color_subresource_barrier(
        image,
        STAGE_BOTTOM_OF_PIPE,
        STAGE_TRANSFER,
        ACCESS_NONE,
        ACCESS_TRANSFER_WRITE,
        ImageLayout::Undefined,
        ImageLayout::TransferDstOptimal,
    )
}

/// After an upload: from transfer destination to shader read-only, so the fragment
/// shader reads what the transfer wrote.
pub fn image_barrier_end(image: u64) -> (barrier: PipelineBarrier)
    ensures
        barrier == first_color_subresource_barrier(
            image,
            STAGE_TRANSFER,
            STAGE_FRAGMENT_SHADER,
            ACCESS_TRANSFER_WRITE,
            ACCESS_SHADER_READ,
            ImageLayout::TransferDstOptimal,
            ImageLayout::ShaderReadOnlyOptimal,
        ),
{
    color_subresource_barrier(
        image,
        STAGE_TRANSFER,
        STAGE_FRAGMENT_SHADER,
        ACCESS_TRANSFER_WRITE,
        ACCESS_SHADER_READ,
        ImageLayout::TransferDstOptimal,
        ImageLayout::ShaderReadOnlyOptimal,
    )
}

} // verus!
