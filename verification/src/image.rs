//! Images: their formats, layouts and usages, and the Vulkan numbers and flags each
//! stands for.
use crate::barrier::{ImageLayout, ASPECT_COLOR, ASPECT_DEPTH};
use crate::memory::{find_memory_type_index, memory_type_fits, required_properties, MemoryType, MAX_MEMORY_TYPES};
use vstd::prelude::*;

verus! {

pub const IMAGE_USAGE_TRANSFER_DST: u32 = 0x2;
pub const IMAGE_USAGE_SAMPLED: u32 = 0x4;
pub const IMAGE_USAGE_STORAGE: u32 = 0x8;
pub const IMAGE_USAGE_DEPTH_STENCIL_ATTACHMENT: u32 = 0x20;

#[derive(Debug, Clone, Copy, PartialEq, Eq, Structural)]
pub enum ImageError {
    NoSuitableMemoryType,
    NotMemoryMappable,
}

impl ImageError {
    pub fn message(&self) -> (text: &'static str)
        ensures
            text@ == (match self {
                ImageError::NoSuitableMemoryType => "No suitable memory type found"@,
                ImageError::NotMemoryMappable => "Buffer is not mappable from CPU memory"@,
            }),
    {
        match self {
            ImageError::NoSuitableMemoryType => "No suitable memory type found",
            ImageError::NotMemoryMappable => "Buffer is not mappable from CPU memory",
        }
    }
}

/// The pixel formats images are created with.
#[allow(non_camel_case_types)]
#[derive(Debug, Clone, Copy, PartialEq, Eq, Structural)]
pub enum Format {
    R8G8B8A8_UNORM,
    R8G8B8A8_SRGB,
    B8G8R8A8_UNORM,
    D32_SFLOAT,
    D16_UNORM,
    R32G32B32A32_SFLOAT,
    R32G32B32_SFLOAT,
    R32G32_SFLOAT,
    R32_SFLOAT,
    R16G16B16A16_SFLOAT,
    R16G16_SFLOAT,
}

/// The Vulkan number of a format.
pub open spec fn format_raw(format: Format) -> i32 {
    match format {
        Format::R8G8B8A8_UNORM => 37,
        Format::R8G8B8A8_SRGB => 43,
        Format::B8G8R8A8_UNORM => 44,
        Format::D32_SFLOAT => 126,
        Format::D16_UNORM => 124,
        Format::R32G32B32A32_SFLOAT => 109,
        Format::R32G32B32_SFLOAT => 106,
        Format::R32G32_SFLOAT => 103,
        Format::R32_SFLOAT => 100,
        Format::R16G16B16A16_SFLOAT => 97,
        Format::R16G16_SFLOAT => 83,
    }
}

/// The Vulkan numbers of the formats images are created with: those of the variants of
/// [`Format`].
pub open spec fn supported_format_raw(raw: i32) -> bool {
    raw == 37 || raw == 43 || raw == 44 || raw == 126 || raw == 124 || raw == 109 || raw == 106
        || raw == 103 || raw == 100 || raw == 97 || raw == 83
}

/// Every format's number is supported, and a supported number is the number of a format.
pub proof fn supported_formats_are_the_variants(raw: i32)
    ensures
        supported_format_raw(raw) <==> exists|f: Format| format_raw(f) == raw,
{
    if supported_format_raw(raw) {
        let f = if raw == 37 {
            Format::R8G8B8A8_UNORM
        } else if raw == 43 {
            Format::R8G8B8A8_SRGB
        } else if raw == 44 {
            Format::B8G8R8A8_UNORM
        } else if raw == 126 {
            Format::D32_SFLOAT
        } else if raw == 124 {
            Format::D16_UNORM
        } else if raw == 109 {
            Format::R32G32B32A32_SFLOAT
        } else if raw == 106 {
            Format::R32G32B32_SFLOAT
        } else if raw == 103 {
            Format::R32G32_SFLOAT
        } else if raw == 100 {
            Format::R32_SFLOAT
        } else if raw == 97 {
            Format::R16G16B16A16_SFLOAT
        } else {
            Format::R16G16_SFLOAT
        };
        assert(format_raw(f) == raw);
    }
}

impl Default for Format {
    fn default() -> (format: Self)
        ensures
            format == Format::R8G8B8A8_UNORM,
    {
        Format::R8G8B8A8_UNORM
    }
}

impl Format {
    pub fn as_raw(&self) -> (raw: i32)
        ensures
            raw == format_raw(*self),
    {
        match self {
            Format::R8G8B8A8_UNORM => 37,
            Format::R8G8B8A8_SRGB => 43,
            Format::B8G8R8A8_UNORM => 44,
            Format::D32_SFLOAT => 126,
            Format::D16_UNORM => 124,
            Format::R32G32B32A32_SFLOAT => 109,
            Format::R32G32B32_SFLOAT => 106,
            Format::R32G32_SFLOAT => 103,
            Format::R32_SFLOAT => 100,
            Format::R16G16B16A16_SFLOAT => 97,
            Format::R16G16_SFLOAT => 83,
        }
    }

    /// Whether `raw` is the Vulkan number of a format images are created with.
    pub fn is_supported_raw(raw: i32) -> (supported: bool)
        ensures
            supported == supported_format_raw(raw),
    {
        raw == 37 || raw == 43 || raw == 44 || raw == 126 || raw == 124 || raw == 109 || raw == 106
            || raw == 103 || raw == 100 || raw == 97 || raw == 83
    }

    /// The format with Vulkan number `raw`, which must be one images are created with.
    pub fn from_raw(raw: i32) -> (format: Format)
        requires
            supported_format_raw(raw),
        ensures
            format_raw(format) == raw,
    {
        if raw == 37 {
            Format::R8G8B8A8_UNORM
        } else if raw == 43 {
            Format::R8G8B8A8_SRGB
        } else if raw == 44 {
            Format::B8G8R8A8_UNORM
        } else if raw == 126 {
            Format::D32_SFLOAT
        } else if raw == 124 {
            Format::D16_UNORM
        } else if raw == 109 {
            Format::R32G32B32A32_SFLOAT
        } else if raw == 106 {
            Format::R32G32B32_SFLOAT
        } else if raw == 103 {
            Format::R32G32_SFLOAT
        } else if raw == 100 {
            Format::R32_SFLOAT
        } else if raw == 97 {
            Format::R16G16B16A16_SFLOAT
        } else {
            Format::R16G16_SFLOAT
        }
    }
}

/// The vertex attribute formats that shader reflection reports.
#[allow(non_camel_case_types)]
#[derive(Debug, Clone, Copy, PartialEq, Eq, Structural)]
pub enum ReflectFormat {
    Undefined,
    R32_UINT,
    R32_SINT,
    R32_SFLOAT,
    R32G32_UINT,
    R32G32_SINT,
    R32G32_SFLOAT,
    R32G32B32_UINT,
    R32G32B32_SINT,
    R32G32B32_SFLOAT,
    R32G32B32A32_UINT,
    R32G32B32A32_SINT,
    R32G32B32A32_SFLOAT,
}

/// The Vulkan number of a reflected format: the format of the same name.
pub open spec fn reflect_format_raw(fmt: ReflectFormat) -> i32 {
    match fmt {
        ReflectFormat::Undefined => 0,
        ReflectFormat::R32_UINT => 98,
        ReflectFormat::R32_SINT => 99,
        ReflectFormat::R32_SFLOAT => 100,
        ReflectFormat::R32G32_UINT => 101,
        ReflectFormat::R32G32_SINT => 102,
        ReflectFormat::R32G32_SFLOAT => 103,
        ReflectFormat::R32G32B32_UINT => 104,
        ReflectFormat::R32G32B32_SINT => 105,
        ReflectFormat::R32G32B32_SFLOAT => 106,
        ReflectFormat::R32G32B32A32_UINT => 107,
        ReflectFormat::R32G32B32A32_SINT => 108,
        ReflectFormat::R32G32B32A32_SFLOAT => 109,
    }
}

pub fn reflect_format_to_vk(fmt: ReflectFormat) -> (raw: i32)
    ensures
        raw == reflect_format_raw(fmt),
{
    match fmt {
        ReflectFormat::Undefined => 0,
        ReflectFormat::R32_UINT => 98,
        ReflectFormat::R32_SINT => 99,
        ReflectFormat::R32_SFLOAT => 100,
        ReflectFormat::R32G32_UINT => 101,
        ReflectFormat::R32G32_SINT => 102,
        ReflectFormat::R32G32_SFLOAT => 103,
        ReflectFormat::R32G32B32_UINT => 104,
        ReflectFormat::R32G32B32_SINT => 105,
        ReflectFormat::R32G32B32_SFLOAT => 106,
        ReflectFormat::R32G32B32A32_UINT => 107,
        ReflectFormat::R32G32B32A32_SINT => 108,
        ReflectFormat::R32G32B32A32_SFLOAT => 109,
    }
}

/// The layouts the renderer names when it hands an image to a descriptor or an
/// attachment.
#[derive(Debug, Clone, Copy, PartialEq, Eq, Structural)]
pub enum Layout {
    Undefined,
    General,
    ColorAttachment,
    DepthAttachment,
    Present,
    TransferDst,
    ShaderReadOnly,
    DepthStencilReadOnly,
}

impl Default for Layout {
    fn default() -> (layout: Self)
        ensures
            layout == Layout::ColorAttachment,
    {
        Layout::ColorAttachment
    }
}

/// The image layout a [`Layout`] stands for.
pub open spec fn layout_image_layout(layout: Layout) -> ImageLayout {
    match layout {
        Layout::Undefined => ImageLayout::Undefined,
        Layout::General => ImageLayout::General,
        Layout::ColorAttachment => ImageLayout::ColorAttachmentOptimal,
        Layout::DepthAttachment => ImageLayout::DepthStencilAttachmentOptimal,
        Layout::Present => ImageLayout::PresentSrc,
        Layout::TransferDst => ImageLayout::TransferDstOptimal,
        Layout::ShaderReadOnly => ImageLayout::ShaderReadOnlyOptimal,
        Layout::DepthStencilReadOnly => ImageLayout::DepthStencilReadOnlyOptimal,
    }
}

impl Layout {
    pub fn image_layout(&self) -> (layout: ImageLayout)
        ensures
            layout == layout_image_layout(*self),
    {
        match self {
            Layout::Undefined => ImageLayout::Undefined,
            Layout::General => ImageLayout::General,
            Layout::ColorAttachment => ImageLayout::ColorAttachmentOptimal,
            Layout::DepthAttachment => ImageLayout::DepthStencilAttachmentOptimal,
            Layout::Present => ImageLayout::PresentSrc,
            Layout::TransferDst => ImageLayout::TransferDstOptimal,
            Layout::ShaderReadOnly => ImageLayout::ShaderReadOnlyOptimal,
            Layout::DepthStencilReadOnly => ImageLayout::DepthStencilReadOnlyOptimal,
        }
    }
}

/// What an image is for.
#[derive(Debug, Clone, Copy, PartialEq, Eq, Structural)]
pub enum ImageUsage {
    Depth,
    DepthSampled,
    Texture,
    StorageTexture,
}

impl Default for ImageUsage {
    fn default() -> (usage: Self)
        ensures
            usage == ImageUsage::Texture,
    {
        ImageUsage::Texture
    }
}

/// The Vulkan usage flags of an image usage.
pub open spec fn usage_flags(usage: ImageUsage) -> u32 {
    match usage {
        ImageUsage::Depth => IMAGE_USAGE_DEPTH_STENCIL_ATTACHMENT,
        ImageUsage::DepthSampled => IMAGE_USAGE_DEPTH_STENCIL_ATTACHMENT | IMAGE_USAGE_SAMPLED,
        ImageUsage::Texture => IMAGE_USAGE_TRANSFER_DST | IMAGE_USAGE_SAMPLED,
        ImageUsage::StorageTexture => IMAGE_USAGE_STORAGE,
    }
}

/// The aspect of an image of this usage: depth for depth images, color otherwise.
pub open spec fn usage_aspect(usage: ImageUsage) -> u32 {
    match usage {
        ImageUsage::Depth | ImageUsage::DepthSampled => ASPECT_DEPTH,
        _ => ASPECT_COLOR,
    }
}

impl ImageUsage {
    pub fn is_depth(&self) -> (depth: bool)
        ensures
            depth == (*self == ImageUsage::Depth || *self == ImageUsage::DepthSampled),
    {
        match self {
            ImageUsage::Depth | ImageUsage::DepthSampled => true,
            _ => false,
        }
    }

    pub fn usage_flags(&self) -> (flags: u32)
        ensures
            flags == usage_flags(*self),
    {
        match self {
            ImageUsage::Depth => IMAGE_USAGE_DEPTH_STENCIL_ATTACHMENT,
            ImageUsage::DepthSampled => IMAGE_USAGE_DEPTH_STENCIL_ATTACHMENT | IMAGE_USAGE_SAMPLED,
            ImageUsage::Texture => IMAGE_USAGE_TRANSFER_DST | IMAGE_USAGE_SAMPLED,
            ImageUsage::StorageTexture => IMAGE_USAGE_STORAGE,
        }
    }

    pub fn aspect_flags(&self) -> (aspect: u32)
        ensures
            aspect == usage_aspect(*self),
    {
        match self {
            ImageUsage::Depth | ImageUsage::DepthSampled => ASPECT_DEPTH,
            _ => ASPECT_COLOR,
        }
    }
}

/// How an image is created: its debug name, format, usage and memory.
#[derive(Debug, Clone, Copy)]
pub struct ImageDescription {
    pub name: Option<&'static str>,
    pub format: Format,
    pub usage: ImageUsage,
    pub memory_ty: MemoryType,
}

impl Default for ImageDescription {
    /// An unnamed texture in the default format, in GPU-only memory.
    fn default() -> (desc: Self)
        ensures
            desc.name.is_none(),
            desc.format == Format::R8G8B8A8_UNORM,
            desc.usage == ImageUsage::Texture,
            desc.memory_ty == MemoryType::GpuOnly,
    {
        ImageDescription {
            name: None,
            format: Format::default(),
            usage: ImageUsage::default(),
            memory_ty: MemoryType::GpuOnly,
        }
    }
}

/// An image: its Vulkan image and view by raw handle, its size, its description, and
/// whether its memory is mapped for the CPU.
pub struct Image {
    pub raw: u64,
    pub view: u64,
    pub width: u32,
    pub height: u32,
    pub desc: ImageDescription,
    pub mapped: bool,
}

impl Image {
    /// The width and height.
    pub fn dims(&self) -> (size: (u32, u32))
        ensures
            size == (self.width, self.height),
    {
        (self.width, self.height)
    }

    pub fn format(&self) -> (format: Format)
        ensures
            format == self.desc.format,
    {
        self.desc.format
    }

    /// This image, in `image_layout`, sampled by `sampler`, at array element `index`
    /// (element zero when none is given).
    pub fn bind_info(&self, sampler: u64, image_layout: Layout, index: Option<u32>) -> (info: BindImageInfo)
        ensures
            info == (BindImageInfo {
                image_layout: layout_image_layout(image_layout),
                image_view: self.view,
                sampler,
                index: match index {
                    Some(i) => i,
                    None => 0,
                },
            }),
    {
        BindImageInfo {
            image_layout: image_layout.image_layout(),
            image_view: self.view,
            sampler,
            index: match index {
                Some(i) => i,
                None => 0,
            },
        }
    }

    /// Where a copy of data into the image's memory at `offset` starts: only mapped
    /// memory can be written from the CPU.
    pub fn mem_copy_offset(&self, offset: u64) -> (dst: Result<u64, ImageError>)
        ensures
            self.mapped ==> dst == Ok::<u64, ImageError>(offset),
            !self.mapped ==> dst == Err::<u64, ImageError>(ImageError::NotMemoryMappable),
    {
        if self.mapped {
            Ok(offset)
        } else {
            Err(ImageError::NotMemoryMappable)
        }
    }
}

/// A copy from a buffer into a whole single-layer image, in the image's aspect.
#[derive(Debug, Clone, Copy, PartialEq, Eq, Structural)]
pub struct BufferImageCopy {
    pub aspect_mask: u32,
    pub layer_count: u32,
    pub width: u32,
    pub height: u32,
    pub depth: u32,
}

/// An image as a descriptor names it: its layout, view and sampler, and the array
/// element it goes to.
#[derive(Debug, Clone, Copy, PartialEq, Eq, Structural)]
pub struct BindImageInfo {
    pub image_layout: ImageLayout,
    pub image_view: u64,
    pub sampler: u64,
    pub index: u32,
}

/// How the image of a 2D image is created and viewed, as Vulkan values: one mip level,
/// one layer, optimal tiling; mapped for the CPU when its memory is CPU visible.
#[derive(Debug, Clone, Copy, PartialEq, Eq, Structural)]
pub struct ImageSettings {
    pub format: i32,
    pub width: u32,
    pub height: u32,
    pub mip_levels: u32,
    pub array_layers: u32,
    pub usage: u32,
    pub view_aspect: u32,
    pub mapped: bool,
}

impl Image {
    /// The copy that fills this image from a buffer.
    pub fn copy_from_buffer_region(&self) -> (region: BufferImageCopy)
        ensures
            region == (BufferImageCopy {
                aspect_mask: usage_aspect(self.desc.usage),
                layer_count: 1,
                width: self.width,
                height: self.height,
                depth: 1,
            }),
    {
        BufferImageCopy { aspect_mask: self.desc.usage.aspect_flags(), layer_count: 1, width: self.width, height: self.height, depth: 1 }
    }
}

/// How an image of `width` by `height` pixels and description `desc` is created.
pub fn image_settings(width: u32, height: u32, desc: &ImageDescription) -> (settings: ImageSettings)
    ensures
        settings == (ImageSettings {
            format: format_raw(desc.format),
            width,
            height,
            mip_levels: 1,
            array_layers: 1,
            usage: usage_flags(desc.usage),
            view_aspect: usage_aspect(desc.usage),
            mapped: desc.memory_ty == MemoryType::CpuVisible,
        }),
{
    ImageSettings {
        format: desc.format.as_raw(),
        width,
        height,
        mip_levels: 1,
        array_layers: 1,
        usage: desc.usage.usage_flags(),
        view_aspect: desc.usage.aspect_flags(),
        mapped: desc.memory_ty.is_cpu_visible(),
    }
}

/// The memory type an image of `desc` is allocated from: the first one its memory
/// requirements allow that has the properties of its memory type; an error where there
/// is none.
pub fn image_memory_type_index(type_bits: u32, properties: &Vec<u32>, desc: &ImageDescription) -> (index: Result<u32, ImageError>)
    requires
        properties@.len() <= MAX_MEMORY_TYPES,
    ensures
        match index {
            Ok(i) => memory_type_fits(type_bits, properties@, required_properties(desc.memory_ty), i as int)
                && forall|j: int| 0 <= j < i ==> !memory_type_fits(type_bits, properties@, required_properties(desc.memory_ty), j),
            Err(e) => e == ImageError::NoSuitableMemoryType
                && forall|j: int| 0 <= j < properties@.len() ==> !memory_type_fits(type_bits, properties@, required_properties(desc.memory_ty), j),
        },
{
    match find_memory_type_index(type_bits, properties, desc.memory_ty.property_flags()) {
        Some(i) => Ok(i),
        None => Err(ImageError::NoSuitableMemoryType),
    }
}

} // verus!
