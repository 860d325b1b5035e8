use ash::vk;
use cinder::bind_group::{
    bindless_bind_group_flags, descriptor_pool_max_sets, descriptor_pool_sizes, BindGroupBindingData,
    BindGroupType,
};
use cinder::pipeline::get_pipeline_layout;
use cinder::shader::{
    BlockMember, DescriptorIndexingLimits, LocalSize, PushConstant, ReflectDescriptorType,
    ReflectedBinding, ReflectedSet, Shader, ShaderDesc, ShaderError, ShaderReflection, ShaderStage,
    VertexAttributes, SHADER_STAGE_FRAGMENT, SHADER_STAGE_VERTEX,
};

fn limits() -> DescriptorIndexingLimits {
    DescriptorIndexingLimits {
        max_samplers: 100,
        max_storage_images: 200,
        max_uniform_buffers: 300,
        max_storage_buffers: 400,
    }
}

fn binding(binding: u32, descriptor_type: ReflectDescriptorType, runtime_array: bool) -> ReflectedBinding {
    ReflectedBinding { binding, descriptor_type, runtime_array }
}

fn shader(stage: u32, sets: Vec<ReflectedSet>, blocks: Vec<Vec<BlockMember>>) -> Shader {
    Shader {
        module: 1,
        reflect_data: ShaderReflection {
            stage,
            descriptor_sets: sets,
            push_constant_blocks: blocks,
            vertex_attributes: VertexAttributes { stride: 0, atts: vec![] },
            entry_point_local_sizes: vec![LocalSize { x: 8, y: 4, z: 1 }],
        },
        desc: ShaderDesc::default(),
    }
}

#[test]
fn stage_flags_match_vulkan() {
    assert_eq!(ShaderStage::Vertex.flags(), vk::ShaderStageFlags::VERTEX.as_raw());
    assert_eq!(ShaderStage::Fragment.flags(), vk::ShaderStageFlags::FRAGMENT.as_raw());
    assert_eq!(ShaderStage::Compute.flags(), vk::ShaderStageFlags::COMPUTE.as_raw());
    assert_eq!(ShaderStage::from_reflect(SHADER_STAGE_FRAGMENT), ShaderStage::Fragment);
}

#[test]
fn push_constant_block_sizes_add_up() {
    let s = shader(
        SHADER_STAGE_VERTEX,
        vec![],
        vec![
            vec![BlockMember { offset: 16, size: 64 }, BlockMember { offset: 80, size: 16 }],
            vec![BlockMember { offset: 0, size: 4 }],
        ],
    );
    let pcs = s.push_constants();
    assert_eq!(pcs.len(), 2);
    assert_eq!(pcs[0], PushConstant { stage: ShaderStage::Vertex, offset: 16, size: 80 });
    assert_eq!(pcs[1], PushConstant { stage: ShaderStage::Vertex, offset: 0, size: 4 });
    assert_eq!(s.local_size(), LocalSize { x: 8, y: 4, z: 1 });
}

#[test]
fn bind_group_layouts_sorted_with_bindless_arrays() {
    let s = shader(
        SHADER_STAGE_FRAGMENT,
        vec![
            ReflectedSet {
                set: 2,
                bindings: vec![binding(0, ReflectDescriptorType::CombinedImageSampler, true)],
            },
            ReflectedSet {
                set: 0,
                bindings: vec![
                    binding(0, ReflectDescriptorType::UniformBuffer, false),
                    binding(1, ReflectDescriptorType::StorageBuffer, true),
                ],
            },
        ],
        vec![],
    );
    let layouts: Vec<(u32, Vec<BindGroupBindingData>)> = match s.bind_group_layouts(limits()) {
        Ok(l) => l.into_iter().collect(),
        Err(_) => panic!("supported bindings"),
    };
    assert_eq!(layouts.len(), 2);
    assert_eq!(layouts[0].0, 0);
    assert_eq!(
        layouts[0].1,
        vec![
            BindGroupBindingData {
                binding: 0,
                ty: BindGroupType::UniformBuffer,
                count: 1,
                shader_stage: ShaderStage::Fragment,
                flags: 0
            },
            BindGroupBindingData {
                binding: 1,
                ty: BindGroupType::StorageBuffer,
                count: 400,
                shader_stage: ShaderStage::Fragment,
                flags: bindless_bind_group_flags()
            },
        ]
    );
    assert_eq!(layouts[1].0, 2);
    assert_eq!(layouts[1].1[0].count, 100);
    assert_eq!(layouts[1].1[0].ty, BindGroupType::ImageSampler);
}

#[test]
fn later_set_with_same_number_replaces() {
    let s = shader(
        SHADER_STAGE_VERTEX,
        vec![
            ReflectedSet { set: 1, bindings: vec![binding(0, ReflectDescriptorType::UniformBuffer, false)] },
            ReflectedSet { set: 1, bindings: vec![binding(3, ReflectDescriptorType::StorageImage, true)] },
        ],
        vec![],
    );
    let layouts: Vec<(u32, Vec<BindGroupBindingData>)> = s.bind_group_layouts(limits()).ok().unwrap().into_iter().collect();
    assert_eq!(layouts.len(), 1);
    assert_eq!(layouts[0].1.len(), 1);
    assert_eq!(layouts[0].1[0].binding, 3);
    assert_eq!(layouts[0].1[0].count, 200);
}

#[test]
fn first_unsupported_binding_reported() {
    let s = shader(
        SHADER_STAGE_VERTEX,
        vec![
            ReflectedSet { set: 0, bindings: vec![binding(0, ReflectDescriptorType::UniformBuffer, false)] },
            ReflectedSet {
                set: 1,
                bindings: vec![
                    binding(0, ReflectDescriptorType::SampledImage, false),
                    binding(1, ReflectDescriptorType::Sampler, false),
                ],
            },
        ],
        vec![],
    );
    match s.bind_group_layouts(limits()) {
        Err(ShaderError::UnsupportedDescriptorType(t)) => assert_eq!(t, ReflectDescriptorType::SampledImage),
        _ => panic!("expected an unsupported descriptor type"),
    }
}

#[test]
fn pipeline_layout_merges_shaders() {
    let vertex = shader(
        SHADER_STAGE_VERTEX,
        vec![ReflectedSet { set: 0, bindings: vec![binding(0, ReflectDescriptorType::UniformBuffer, false)] }],
        vec![vec![BlockMember { offset: 0, size: 64 }]],
    );
    let fragment = shader(
        SHADER_STAGE_FRAGMENT,
        vec![
            ReflectedSet { set: 1, bindings: vec![binding(0, ReflectDescriptorType::CombinedImageSampler, true)] },
            ReflectedSet { set: 0, bindings: vec![binding(1, ReflectDescriptorType::StorageBuffer, false)] },
        ],
        vec![vec![BlockMember { offset: 64, size: 4 }], vec![BlockMember { offset: 68, size: 4 }]],
    );
    let shaders = vec![&vertex, &fragment];
    let data = get_pipeline_layout(&shaders, limits()).ok().unwrap();
    assert_eq!(data.push_constants.vertex.len(), 1);
    assert_eq!(data.push_constants.fragment.len(), 2);
    assert_eq!(data.push_constants.get(ShaderStage::Fragment, 1).unwrap().offset, 68);
    assert!(data.push_constants.get(ShaderStage::Compute, 0).is_none());
    assert_eq!(data.set_layouts.len(), 2);
    assert_eq!(data.set_layouts[0].0, 0);
    assert_eq!(data.set_layouts[0].1.len(), 2);
    assert_eq!(data.set_layouts[0].1[0].shader_stage, ShaderStage::Vertex);
    assert_eq!(data.set_layouts[0].1[1].shader_stage, ShaderStage::Fragment);
    assert_eq!(data.bind_group_counts(), vec![1, 100]);
    let ranges = data.push_constants.raw_ranges();
    assert_eq!(ranges.len(), 3);
    assert_eq!(ranges[0].stage_flags, vk::ShaderStageFlags::VERTEX.as_raw());
    assert_eq!(ranges[2].offset, 68);
}

#[test]
fn later_shader_of_a_stage_overwrites_push_constants() {
    let a = shader(
        SHADER_STAGE_VERTEX,
        vec![],
        vec![vec![BlockMember { offset: 0, size: 4 }], vec![BlockMember { offset: 4, size: 4 }]],
    );
    let b = shader(SHADER_STAGE_VERTEX, vec![], vec![vec![BlockMember { offset: 32, size: 8 }]]);
    let shaders = vec![&a, &b];
    let data = get_pipeline_layout(&shaders, limits()).ok().unwrap();
    assert_eq!(data.push_constants.vertex.len(), 2);
    assert_eq!(data.push_constants.vertex[0].offset, 32);
    assert_eq!(data.push_constants.vertex[1].offset, 4);
}

#[test]
fn pipeline_layout_reports_unsupported_binding() {
    let a = shader(
        SHADER_STAGE_VERTEX,
        vec![ReflectedSet { set: 0, bindings: vec![binding(0, ReflectDescriptorType::InputAttachment, false)] }],
        vec![],
    );
    let shaders = vec![&a];
    assert!(matches!(
        get_pipeline_layout(&shaders, limits()),
        Err(ShaderError::UnsupportedDescriptorType(ReflectDescriptorType::InputAttachment))
    ));
}

#[test]
fn descriptor_types_and_pool() {
    assert_eq!(BindGroupType::ImageSampler.descriptor_type(), vk::DescriptorType::COMBINED_IMAGE_SAMPLER.as_raw());
    assert_eq!(BindGroupType::StorageImage.descriptor_type(), vk::DescriptorType::STORAGE_IMAGE.as_raw());
    assert_eq!(BindGroupType::UniformBuffer.descriptor_type(), vk::DescriptorType::UNIFORM_BUFFER.as_raw());
    assert_eq!(BindGroupType::StorageBuffer.descriptor_type(), vk::DescriptorType::STORAGE_BUFFER.as_raw());
    assert_eq!(
        bindless_bind_group_flags(),
        (vk::DescriptorBindingFlags::PARTIALLY_BOUND
            | vk::DescriptorBindingFlags::VARIABLE_DESCRIPTOR_COUNT
            | vk::DescriptorBindingFlags::UPDATE_AFTER_BIND)
            .as_raw()
    );
    let d = BindGroupBindingData::new(2, BindGroupType::UniformBuffer, 1, ShaderStage::Vertex);
    assert_eq!(d.flags, 0);
    let sizes = descriptor_pool_sizes();
    assert_eq!(sizes.len(), 3);
    assert_eq!(sizes[0], (vk::DescriptorType::COMBINED_IMAGE_SAMPLER.as_raw(), 1024));
    assert_eq!(descriptor_pool_max_sets(&sizes), 3072);
}
