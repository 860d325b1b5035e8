use ash::vk;
use cinder::barrier::ImageLayout;
use cinder::bind_group::{
    descriptor_writes, layout_bindings, BindGroupBindInfo, BindGroupBindingData, BindGroupType,
    BindGroupWriteData,
};
use cinder::buffer::Buffer;
use cinder::image::{Format, Image, ImageDescription, ImageUsage, Layout};
use cinder::memory::MemoryType;
use cinder::shader::ShaderStage;

fn texture() -> Image {
    let desc = ImageDescription {
        name: Some("albedo"),
        format: Format::R8G8B8A8_UNORM,
        usage: ImageUsage::Texture,
        memory_ty: MemoryType::GpuOnly,
    };
    Image { raw: 10, view: 11, width: 4, height: 4, desc, mapped: false }
}

#[test]
fn layout_bindings_follow_layout_data() {
    let data = vec![
        BindGroupBindingData::new(0, BindGroupType::ImageSampler, 1024, ShaderStage::Fragment),
        BindGroupBindingData::new(1, BindGroupType::UniformBuffer, 1, ShaderStage::Vertex),
    ];
    let bindings = layout_bindings(&data);
    assert_eq!(bindings.len(), 2);
    assert_eq!(bindings[0].binding, 0);
    assert_eq!(bindings[0].descriptor_type, vk::DescriptorType::COMBINED_IMAGE_SAMPLER.as_raw());
    assert_eq!(bindings[0].descriptor_count, 1024);
    assert_eq!(bindings[0].stage_flags, vk::ShaderStageFlags::FRAGMENT.as_raw());
    let bindless = vk::DescriptorBindingFlags::UPDATE_AFTER_BIND
        | vk::DescriptorBindingFlags::PARTIALLY_BOUND
        | vk::DescriptorBindingFlags::VARIABLE_DESCRIPTOR_COUNT;
    assert_eq!(bindings[0].binding_flags, bindless.as_raw());
    assert_eq!(bindings[1].binding, 1);
    assert_eq!(bindings[1].descriptor_type, vk::DescriptorType::UNIFORM_BUFFER.as_raw());
    assert_eq!(bindings[1].stage_flags, vk::ShaderStageFlags::VERTEX.as_raw());
    assert_eq!(bindings[1].binding_flags, 0);
}

#[test]
fn image_bind_info_uses_view_and_index() {
    let image = texture();
    let info = image.bind_info(7, Layout::ShaderReadOnly, Some(3));
    assert_eq!(info.image_layout, ImageLayout::ShaderReadOnlyOptimal);
    assert_eq!((info.image_view, info.sampler, info.index), (11, 7, 3));
    let first = image.bind_info(7, Layout::General, None);
    assert_eq!(first.image_layout, ImageLayout::General);
    assert_eq!(first.index, 0);
}

#[test]
fn descriptor_writes_by_kind() {
    let image = texture();
    let buffer = Buffer { raw: 20, size_bytes: 64, num_elements: None, mapped: true };
    let infos = vec![
        BindGroupBindInfo { group: 5, dst_binding: 0, data: BindGroupWriteData::Uniform(buffer.bind_info()) },
        BindGroupBindInfo { group: 5, dst_binding: 1, data: BindGroupWriteData::Storage(buffer.bind_info()) },
        BindGroupBindInfo {
            group: 6,
            dst_binding: 2,
            data: BindGroupWriteData::SampledImage(image.bind_info(7, Layout::ShaderReadOnly, Some(9))),
        },
        BindGroupBindInfo {
            group: 6,
            dst_binding: 3,
            data: BindGroupWriteData::StorageImage(image.bind_info(0, Layout::General, Some(2))),
        },
    ];
    let writes = descriptor_writes(&infos);
    assert_eq!(writes.len(), 4);
    assert_eq!(writes[0].descriptor_type, vk::DescriptorType::UNIFORM_BUFFER.as_raw());
    assert_eq!((writes[0].dst_set, writes[0].dst_binding, writes[0].dst_array_element), (5, 0, 0));
    assert_eq!(writes[1].descriptor_type, vk::DescriptorType::STORAGE_BUFFER.as_raw());
    assert_eq!(writes[1].dst_array_element, 0);
    assert_eq!(writes[2].descriptor_type, vk::DescriptorType::COMBINED_IMAGE_SAMPLER.as_raw());
    assert_eq!((writes[2].dst_set, writes[2].dst_binding, writes[2].dst_array_element), (6, 2, 9));
    assert_eq!(writes[3].descriptor_type, vk::DescriptorType::STORAGE_IMAGE.as_raw());
    assert_eq!(writes[3].dst_array_element, 2);
    assert_eq!(writes[3].data, infos[3].data);
}
