//! Bind groups (descriptor sets): the kinds of binding, the layout data of a binding,
//! and the pool they are allocated from.
use crate::buffer::BindBufferInfo;
use crate::device::MAX_BINDLESS_RESOURCES;
use crate::image::BindImageInfo;
use crate::shader::{stage_flags, ShaderStage};
use vstd::prelude::*;

verus! {

pub const DESCRIPTOR_TYPE_COMBINED_IMAGE_SAMPLER: i32 = 1;
pub const DESCRIPTOR_TYPE_STORAGE_IMAGE: i32 = 3;
pub const DESCRIPTOR_TYPE_UNIFORM_BUFFER: i32 = 6;
pub const DESCRIPTOR_TYPE_STORAGE_BUFFER: i32 = 7;

pub const BINDING_UPDATE_AFTER_BIND: u32 = 0x1;
pub const BINDING_PARTIALLY_BOUND: u32 = 0x4;
pub const BINDING_VARIABLE_DESCRIPTOR_COUNT: u32 = 0x8;
/// Partially bound, variable descriptor count and update after bind: the flags of a
/// bindless binding.
pub const BINDLESS_BINDING_FLAGS: u32 = 0xd;

/// The set number a bind group is bound at.
pub type BindGroupSet = u32;

/// The kinds of resource a binding holds.
#[derive(Debug, Clone, Copy, PartialEq, Eq, Structural)]
pub enum BindGroupType {
    ImageSampler,
    StorageImage,
    UniformBuffer,
    StorageBuffer,
}

/// The Vulkan descriptor type of a binding kind.
pub open spec fn descriptor_type_raw(ty: BindGroupType) -> i32 {
    match ty {
        BindGroupType::ImageSampler => DESCRIPTOR_TYPE_COMBINED_IMAGE_SAMPLER,
        BindGroupType::StorageImage => DESCRIPTOR_TYPE_STORAGE_IMAGE,
        BindGroupType::UniformBuffer => DESCRIPTOR_TYPE_UNIFORM_BUFFER,
        BindGroupType::StorageBuffer => DESCRIPTOR_TYPE_STORAGE_BUFFER,
    }
}

impl BindGroupType {
    pub fn descriptor_type(&self) -> (raw: i32)
        ensures
            raw == descriptor_type_raw(*self),
    {
        match self {
            BindGroupType::ImageSampler => DESCRIPTOR_TYPE_COMBINED_IMAGE_SAMPLER,
            BindGroupType::StorageImage => DESCRIPTOR_TYPE_STORAGE_IMAGE,
            BindGroupType::UniformBuffer => DESCRIPTOR_TYPE_UNIFORM_BUFFER,
            BindGroupType::StorageBuffer => DESCRIPTOR_TYPE_STORAGE_BUFFER,
        }
    }
}

/// The binding flags that make a binding bindless.
pub fn bindless_bind_group_flags() -> (flags: u32)
    ensures
        flags == BINDLESS_BINDING_FLAGS,
{
    BINDLESS_BINDING_FLAGS
}

/// One binding of a bind group layout.
#[derive(Debug, Clone, Copy, PartialEq, Eq, Structural)]
pub struct BindGroupBindingData {
    pub binding: u32,
    pub ty: BindGroupType,
    pub count: u32,
    pub shader_stage: ShaderStage,
    pub flags: u32,
}

/// The layout data of a binding: an array of more than one descriptor is bindless.
pub open spec fn binding_data(binding: u32, ty: BindGroupType, count: u32, shader_stage: ShaderStage) -> BindGroupBindingData {
    BindGroupBindingData {
        binding,
        ty,
        count,
        shader_stage,
        flags: if count > 1 { BINDLESS_BINDING_FLAGS } else { 0 },
    }
}

impl BindGroupBindingData {
    pub fn new(binding: u32, ty: BindGroupType, count: u32, shader_stage: ShaderStage) -> (data: Self)
        ensures
            data == binding_data(binding, ty, count, shader_stage),
    {
        BindGroupBindingData {
            binding,
            ty,
            count,
            shader_stage,
            flags: if count > 1 { bindless_bind_group_flags() } else { 0 },
        }
    }
}

/// A binding of a descriptor set layout as Vulkan takes it.
#[derive(Debug, Clone, Copy, PartialEq, Eq, Structural)]
pub struct LayoutBinding {
    pub binding: u32,
    pub descriptor_type: i32,
    pub descriptor_count: u32,
    pub stage_flags: u32,
    pub binding_flags: u32,
}

pub open spec fn layout_binding(d: BindGroupBindingData) -> LayoutBinding {
    LayoutBinding {
        binding: d.binding,
        descriptor_type: descriptor_type_raw(d.ty),
        descriptor_count: d.count,
        stage_flags: stage_flags(d.shader_stage),
        binding_flags: d.flags,
    }
}

/// The bindings of a bind group layout, in order.
pub fn layout_bindings(layout_data: &Vec<BindGroupBindingData>) -> (bindings: Vec<LayoutBinding>)
    ensures
        bindings@ == layout_data@.map_values(|d: BindGroupBindingData| layout_binding(d)),
{
    let mut bindings: Vec<LayoutBinding> = Vec::new();
    let mut i: usize = 0;
    while i < layout_data.len()
        invariant
            i <= layout_data@.len(),
            bindings@ =~= layout_data@.take(i as int).map_values(|d: BindGroupBindingData| layout_binding(d)),
        decreases layout_data@.len() - i,
    {
        let d = layout_data[i];
        bindings.push(LayoutBinding {
            binding: d.binding,
            descriptor_type: d.ty.descriptor_type(),
            descriptor_count: d.count,
            stage_flags: d.shader_stage.flags(),
            binding_flags: d.flags,
        });
        i += 1;
    }
    assert(layout_data@.take(layout_data@.len() as int) =~= layout_data@);
    bindings
}

/// What is written into a binding of a bind group.
#[derive(Debug, Clone, Copy, PartialEq, Eq, Structural)]
pub enum BindGroupWriteData {
    Storage(BindBufferInfo),
    Uniform(BindBufferInfo),
    SampledImage(BindImageInfo),
    StorageImage(BindImageInfo),
}

/// A write into binding `dst_binding` of the bind group `group` (a raw descriptor set
/// handle).
#[derive(Debug, Clone, Copy, PartialEq, Eq, Structural)]
pub struct BindGroupBindInfo {
    pub group: u64,
    pub dst_binding: u32,
    pub data: BindGroupWriteData,
}

/// A descriptor write as Vulkan takes it: the set, binding, descriptor type and first
/// array element, with the buffer or image it points to.
#[derive(Debug, Clone, Copy, PartialEq, Eq, Structural)]
pub struct DescriptorWrite {
    pub dst_set: u64,
    pub dst_binding: u32,
    pub dst_array_element: u32,
    pub descriptor_type: i32,
    pub data: BindGroupWriteData,
}

/// Buffers are written at array element zero with their buffer descriptor type; images
/// at their own index, as combined image samplers or storage images.
pub open spec fn descriptor_write(info: BindGroupBindInfo) -> DescriptorWrite {
    DescriptorWrite {
        dst_set: info.group,
        dst_binding: info.dst_binding,
        dst_array_element: match info.data {
            BindGroupWriteData::SampledImage(i) => i.index,
            BindGroupWriteData::StorageImage(i) => i.index,
            _ => 0,
        },
        descriptor_type: match info.data {
            BindGroupWriteData::Uniform(_) => DESCRIPTOR_TYPE_UNIFORM_BUFFER,
            BindGroupWriteData::Storage(_) => DESCRIPTOR_TYPE_STORAGE_BUFFER,
            BindGroupWriteData::SampledImage(_) => DESCRIPTOR_TYPE_COMBINED_IMAGE_SAMPLER,
            BindGroupWriteData::StorageImage(_) => DESCRIPTOR_TYPE_STORAGE_IMAGE,
        },
        data: info.data,
    }
}

/// The descriptor writes for `infos`, in order.
pub fn descriptor_writes(infos: &Vec<BindGroupBindInfo>) -> (writes: Vec<DescriptorWrite>)
    ensures
        writes@ == infos@.map_values(|i: BindGroupBindInfo| descriptor_write(i)),
{
    let mut writes: Vec<DescriptorWrite> = Vec::new();
    let mut k: usize = 0;
    while k < infos.len()
        invariant
            k <= infos@.len(),
            writes@ =~= infos@.take(k as int).map_values(|i: BindGroupBindInfo| descriptor_write(i)),
        decreases infos@.len() - k,
    {
        let info = infos[k];
        let (dst_array_element, descriptor_type) = match info.data {
            BindGroupWriteData::Uniform(_) => (0, DESCRIPTOR_TYPE_UNIFORM_BUFFER),
            BindGroupWriteData::Storage(_) => (0, DESCRIPTOR_TYPE_STORAGE_BUFFER),
            BindGroupWriteData::SampledImage(i) => (i.index, DESCRIPTOR_TYPE_COMBINED_IMAGE_SAMPLER),
            BindGroupWriteData::StorageImage(i) => (i.index, DESCRIPTOR_TYPE_STORAGE_IMAGE),
        };
        writes.push(DescriptorWrite {
            dst_set: info.group,
            dst_binding: info.dst_binding,
            dst_array_element,
            descriptor_type,
            data: info.data,
        });
        k += 1;
    }
    assert(infos@.take(infos@.len() as int) =~= infos@);
    writes
}

/// The descriptor pool: room for [`MAX_BINDLESS_RESOURCES`] descriptors of each of
/// image samplers, storage buffers and uniform buffers, as (descriptor type, count).
pub fn descriptor_pool_sizes() -> (sizes: Vec<(i32, u32)>)
    ensures
        sizes@ == seq![
            (DESCRIPTOR_TYPE_COMBINED_IMAGE_SAMPLER, MAX_BINDLESS_RESOURCES),
            (DESCRIPTOR_TYPE_STORAGE_BUFFER, MAX_BINDLESS_RESOURCES),
            (DESCRIPTOR_TYPE_UNIFORM_BUFFER, MAX_BINDLESS_RESOURCES),
        ],
{
    let mut sizes: Vec<(i32, u32)> = Vec::new();
    sizes.push((DESCRIPTOR_TYPE_COMBINED_IMAGE_SAMPLER, MAX_BINDLESS_RESOURCES));
    sizes.push((DESCRIPTOR_TYPE_STORAGE_BUFFER, MAX_BINDLESS_RESOURCES));
    sizes.push((DESCRIPTOR_TYPE_UNIFORM_BUFFER, MAX_BINDLESS_RESOURCES));
    sizes
}

/// The most sets the pool hands out: as many as it has descriptors in all.
pub fn descriptor_pool_max_sets(sizes: &Vec<(i32, u32)>) -> (max_sets: u32)
    requires
        MAX_BINDLESS_RESOURCES * sizes@.len() <= u32::MAX,
    ensures
        max_sets == MAX_BINDLESS_RESOURCES * sizes@.len(),
{
    MAX_BINDLESS_RESOURCES * (sizes.len() as u32)
}

} // verus!
