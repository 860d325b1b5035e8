use cinder::barrier::image_upload_transitions;
use cinder::buffer::{buffer_settings, buffer_with_data_size, Buffer};
use cinder::debug_label::label_bytes;
use cinder::image::{image_settings, Image};
use ash::vk;
use cinder::buffer::{buffer_memory_type_index, BufferDescription, BufferError, BufferUsage};
use cinder::image::{
    image_memory_type_index, reflect_format_to_vk, Format, ImageDescription, ImageError,
    ImageUsage, Layout, ReflectFormat,
};
use cinder::barrier::ImageLayout;
use cinder::memory::{find_memory_type_index, MemoryType};
use cinder::sampler::{sampler_settings, AddressMode, Filter, SamplerDescription};

#[test]
fn memory_type_flags() {
    assert!(MemoryType::CpuVisible.is_cpu_visible());
    assert!(!MemoryType::GpuOnly.is_cpu_visible());
    assert_eq!(MemoryType::default(), MemoryType::CpuVisible);
    assert_eq!(
        MemoryType::CpuVisible.property_flags(),
        (vk::MemoryPropertyFlags::HOST_VISIBLE | vk::MemoryPropertyFlags::HOST_COHERENT).as_raw()
    );
    assert_eq!(
        MemoryType::GpuOnly.property_flags(),
        vk::MemoryPropertyFlags::DEVICE_LOCAL.as_raw()
    );
}

#[test]
fn first_allowed_memory_type_with_properties() {
    let props = vec![0x1, 0x6, 0x7, 0x6];
    assert_eq!(find_memory_type_index(0b1111, &props, 0x6), Some(1));
    assert_eq!(find_memory_type_index(0b1100, &props, 0x6), Some(2));
    assert_eq!(find_memory_type_index(0b0001, &props, 0x6), None);
    assert_eq!(find_memory_type_index(0b1111, &props, 0x8), None);
    assert_eq!(find_memory_type_index(0b1111, &vec![], 0x0), None);
}

#[test]
fn image_and_buffer_memory_errors() {
    let props = vec![0x1];
    let desc = ImageDescription::default();
    assert_eq!(image_memory_type_index(0b1, &props, &desc), Ok(0));
    let cpu = ImageDescription { memory_ty: MemoryType::CpuVisible, ..ImageDescription::default() };
    assert_eq!(image_memory_type_index(0b1, &props, &cpu), Err(ImageError::NoSuitableMemoryType));
    let bdesc = BufferDescription::default();
    assert_eq!(buffer_memory_type_index(0b1, &props, &bdesc), Err(BufferError::NoSuitableMemoryType));
    assert_eq!(buffer_memory_type_index(0b11, &vec![0x1, 0x6], &bdesc), Ok(1));
    assert_eq!(ImageError::NoSuitableMemoryType.message(), "No suitable memory type found");
    assert_eq!(BufferError::NotMemoryMappable.message(), "Buffer is not mappable from CPU memory");
}

#[test]
fn format_numbers() {
    let formats = [
        (Format::R8G8B8A8_UNORM, vk::Format::R8G8B8A8_UNORM),
        (Format::R8G8B8A8_SRGB, vk::Format::R8G8B8A8_SRGB),
        (Format::B8G8R8A8_UNORM, vk::Format::B8G8R8A8_UNORM),
        (Format::D32_SFLOAT, vk::Format::D32_SFLOAT),
        (Format::D16_UNORM, vk::Format::D16_UNORM),
        (Format::R32G32B32A32_SFLOAT, vk::Format::R32G32B32A32_SFLOAT),
        (Format::R32G32B32_SFLOAT, vk::Format::R32G32B32_SFLOAT),
        (Format::R32G32_SFLOAT, vk::Format::R32G32_SFLOAT),
        (Format::R32_SFLOAT, vk::Format::R32_SFLOAT),
        (Format::R16G16B16A16_SFLOAT, vk::Format::R16G16B16A16_SFLOAT),
        (Format::R16G16_SFLOAT, vk::Format::R16G16_SFLOAT),
    ];
    for (f, raw) in formats {
        assert_eq!(f.as_raw(), raw.as_raw());
        assert!(Format::is_supported_raw(raw.as_raw()));
        assert_eq!(Format::from_raw(raw.as_raw()), f);
    }
    assert!(!Format::is_supported_raw(vk::Format::B8G8R8_UNORM.as_raw()));
    assert!(!Format::is_supported_raw(vk::Format::UNDEFINED.as_raw()));
    assert_eq!(Format::default(), Format::R8G8B8A8_UNORM);
    assert_eq!(reflect_format_to_vk(ReflectFormat::R32G32B32_SFLOAT), vk::Format::R32G32B32_SFLOAT.as_raw());
    assert_eq!(reflect_format_to_vk(ReflectFormat::R32_UINT), vk::Format::R32_UINT.as_raw());
    assert_eq!(reflect_format_to_vk(ReflectFormat::Undefined), 0);
}

#[test]
fn usage_flags_and_aspects() {
    assert!(ImageUsage::Depth.is_depth());
    assert!(ImageUsage::DepthSampled.is_depth());
    assert!(!ImageUsage::Texture.is_depth());
    assert!(!ImageUsage::StorageTexture.is_depth());
    assert_eq!(
        ImageUsage::Texture.usage_flags(),
        (vk::ImageUsageFlags::TRANSFER_DST | vk::ImageUsageFlags::SAMPLED).as_raw()
    );
    assert_eq!(
        ImageUsage::DepthSampled.usage_flags(),
        (vk::ImageUsageFlags::DEPTH_STENCIL_ATTACHMENT | vk::ImageUsageFlags::SAMPLED).as_raw()
    );
    assert_eq!(ImageUsage::StorageTexture.usage_flags(), vk::ImageUsageFlags::STORAGE.as_raw());
    assert_eq!(ImageUsage::Depth.aspect_flags(), vk::ImageAspectFlags::DEPTH.as_raw());
    assert_eq!(ImageUsage::StorageTexture.aspect_flags(), vk::ImageAspectFlags::COLOR.as_raw());
    let d = ImageDescription::default();
    assert_eq!(d.usage, ImageUsage::Texture);
    assert_eq!(d.memory_ty, MemoryType::GpuOnly);
    assert!(d.name.is_none());
}

#[test]
fn image_layouts_named() {
    assert_eq!(Layout::default(), Layout::ColorAttachment);
    assert_eq!(Layout::DepthStencilReadOnly.image_layout(), ImageLayout::DepthStencilReadOnlyOptimal);
    assert_eq!(Layout::Present.image_layout(), ImageLayout::PresentSrc);
}

#[test]
fn buffer_usage_bits() {
    assert_eq!(BufferUsage::VERTEX, vk::BufferUsageFlags::VERTEX_BUFFER.as_raw());
    assert_eq!(BufferUsage::INDEX, vk::BufferUsageFlags::INDEX_BUFFER.as_raw());
    assert_eq!(BufferUsage::UNIFORM, vk::BufferUsageFlags::UNIFORM_BUFFER.as_raw());
    assert_eq!(BufferUsage::STORAGE, vk::BufferUsageFlags::STORAGE_BUFFER.as_raw());
    assert_eq!(BufferUsage::TRANSFER_SRC, vk::BufferUsageFlags::TRANSFER_SRC.as_raw());
    assert_eq!(BufferUsage::TRANSFER_DST, vk::BufferUsageFlags::TRANSFER_DST.as_raw());
    let u = BufferUsage::from_bits_truncate(BufferUsage::VERTEX | 0x100);
    assert_eq!(u.bits(), 0x80);
    let both = u.union(BufferUsage::from_bits_truncate(BufferUsage::TRANSFER_DST));
    assert_eq!(both.bits(), 0x82);
    assert!(both.contains(u));
    assert!(!u.contains(both));
    assert_eq!(BufferUsage::default().bits(), 0);
    assert_eq!(BufferDescription::default().memory_ty, MemoryType::CpuVisible);
}

#[test]
fn sampler_defaults_and_settings() {
    let d = SamplerDescription::default();
    assert_eq!(d.filter, Filter::Linear);
    assert_eq!(d.address_mode, AddressMode::Repeat);
    let s = sampler_settings(&SamplerDescription {
        address_mode: AddressMode::ClampToEdge,
        ..SamplerDescription::default()
    });
    assert_eq!(s.mag_filter, vk::Filter::LINEAR.as_raw());
    assert_eq!(s.min_filter, vk::Filter::LINEAR.as_raw());
    assert_eq!(s.address_mode_u, vk::SamplerAddressMode::CLAMP_TO_EDGE.as_raw());
    assert_eq!(s.address_mode_w, vk::SamplerAddressMode::CLAMP_TO_EDGE.as_raw());
    assert_eq!(AddressMode::MirroredRepeat.as_raw(), vk::SamplerAddressMode::MIRRORED_REPEAT.as_raw());
    assert_eq!(AddressMode::ClampToBorder.as_raw(), vk::SamplerAddressMode::CLAMP_TO_BORDER.as_raw());
    assert_eq!(Filter::Nearest.as_raw(), vk::Filter::NEAREST.as_raw());
}

#[test]
fn image_creation_and_copies() {
    let desc = ImageDescription {
        name: Some("shadow map"),
        format: Format::D32_SFLOAT,
        usage: ImageUsage::DepthSampled,
        memory_ty: MemoryType::GpuOnly,
    };
    let s = image_settings(1024, 512, &desc);
    assert_eq!(s.format, vk::Format::D32_SFLOAT.as_raw());
    assert_eq!((s.width, s.height, s.mip_levels, s.array_layers), (1024, 512, 1, 1));
    assert_eq!(s.view_aspect, vk::ImageAspectFlags::DEPTH.as_raw());
    assert!(!s.mapped);
    let image = Image { raw: 1, view: 2, width: 1024, height: 512, desc, mapped: false };
    assert_eq!(image.dims(), (1024, 512));
    assert_eq!(image.format(), Format::D32_SFLOAT);
    let region = image.copy_from_buffer_region();
    assert_eq!(region.aspect_mask, vk::ImageAspectFlags::DEPTH.as_raw());
    assert_eq!((region.width, region.height, region.depth, region.layer_count), (1024, 512, 1, 1));
    assert_eq!(image.mem_copy_offset(8), Err(ImageError::NotMemoryMappable));
    let mapped = Image { mapped: true, ..image };
    assert_eq!(mapped.mem_copy_offset(8), Ok(8));
}

#[test]
fn buffers() {
    let b = Buffer { raw: 3, size_bytes: 256, num_elements: Some(64), mapped: false };
    let info = b.bind_info();
    assert_eq!((info.buffer, info.offset, info.range), (3, 0, 256));
    assert_eq!(b.size_bytes(), 256);
    assert_eq!(b.num_elements(), Some(64));
    assert_eq!(b.mem_copy_offset(0), Err(BufferError::NotMemoryMappable));
    let desc = BufferDescription { usage: BufferUsage::from_bits_truncate(BufferUsage::TRANSFER_SRC), ..BufferDescription::default() };
    assert_eq!(buffer_settings(64, &desc), (64, 1, true));
    assert_eq!(buffer_with_data_size(12, 5), (60, Some(5)));
}

#[test]
fn debug_labels_are_nul_terminated() {
    assert_eq!(label_bytes("Device"), b"Device\0".to_vec());
    assert_eq!(label_bytes(""), vec![0]);
    let long = "x".repeat(80);
    let bytes = label_bytes(&long);
    assert_eq!(bytes.len(), 81);
    assert_eq!(bytes[80], 0);
}

#[test]
fn image_upload_moves() {
    let (before, after) = image_upload_transitions(5);
    assert_eq!(before.image_barrier.old_layout, ImageLayout::Undefined);
    assert_eq!(before.image_barrier.new_layout, ImageLayout::TransferDstOptimal);
    assert_eq!(after.image_barrier.old_layout, ImageLayout::TransferDstOptimal);
    assert_eq!(after.image_barrier.new_layout, ImageLayout::ShaderReadOnlyOptimal);
    assert_eq!(after.image_barrier.aspect_mask, vk::ImageAspectFlags::COLOR.as_raw());
}
