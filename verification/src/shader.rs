//! Shaders and what their reflection data tells the renderer: the shader stage, the
//! push constant ranges and the bind group layouts the shader expects.
//!
//! The reflection data is held as plain values: descriptor sets with their bindings,
//! push constant blocks with their members, and the vertex input attributes.
use crate::bind_group::{binding_data, BindGroupBindingData, BindGroupType};
use crate::image::ReflectFormat;
use crate::set_lists::{lists_view, put_list};
use std::collections::BTreeMap;
use vstd::prelude::*;

verus! {

pub const SHADER_STAGE_VERTEX: u32 = 0x1;
pub const SHADER_STAGE_FRAGMENT: u32 = 0x10;
pub const SHADER_STAGE_COMPUTE: u32 = 0x20;

#[derive(Debug, Clone, Copy, PartialEq, Eq, Structural)]
pub enum ShaderStage {
    Vertex,
    Fragment,
    Compute,
}

/// The Vulkan stage flag of a shader stage.
pub open spec fn stage_flags(stage: ShaderStage) -> u32 {
    match stage {
        ShaderStage::Vertex => SHADER_STAGE_VERTEX,
        ShaderStage::Fragment => SHADER_STAGE_FRAGMENT,
        ShaderStage::Compute => SHADER_STAGE_COMPUTE,
    }
}

/// The stage a reflected stage flag names, where it is one the renderer supports.
/// Reading a stage from reflection flags and writing it back as flags give the flags
/// again, and every stage is read back from its own flags: the three stages have three
/// different flags, and each is recognised as itself.
pub proof fn reflected_stage_round_trip(flags: u32, stage: ShaderStage)
    ensures
        reflected_stage(flags) is Some ==> stage_flags(reflected_stage(flags)->Some_0) == flags,
        reflected_stage(stage_flags(stage)) == Some(stage),
{
}

pub open spec fn reflected_stage(flags: u32) -> Option<ShaderStage> {
    if flags == SHADER_STAGE_VERTEX {
        Some(ShaderStage::Vertex)
    } else if flags == SHADER_STAGE_FRAGMENT {
        Some(ShaderStage::Fragment)
    } else if flags == SHADER_STAGE_COMPUTE {
        Some(ShaderStage::Compute)
    } else {
        None
    }
}

impl ShaderStage {
    pub fn flags(&self) -> (flags: u32)
        ensures
            flags == stage_flags(*self),
    {
        match self {
            ShaderStage::Vertex => SHADER_STAGE_VERTEX,
            ShaderStage::Fragment => SHADER_STAGE_FRAGMENT,
            ShaderStage::Compute => SHADER_STAGE_COMPUTE,
        }
    }

    /// The stage of a reflected stage flag; only vertex, fragment and compute shaders
    /// are supported.
    pub fn from_reflect(flags: u32) -> (stage: ShaderStage)
        requires
            reflected_stage(flags) is Some,
        ensures
            reflected_stage(flags) == Some(stage),
    {
        if flags == SHADER_STAGE_VERTEX {
            ShaderStage::Vertex
        } else if flags == SHADER_STAGE_FRAGMENT {
            ShaderStage::Fragment
        } else {
            ShaderStage::Compute
        }
    }
}

/// The descriptor types that reflection reports.
#[derive(Debug, Clone, Copy, PartialEq, Eq, Structural)]
pub enum ReflectDescriptorType {
    Undefined,
    Sampler,
    CombinedImageSampler,
    SampledImage,
    StorageImage,
    UniformTexelBuffer,
    StorageTexelBuffer,
    UniformBuffer,
    StorageBuffer,
    UniformBufferDynamic,
    StorageBufferDynamic,
    InputAttachment,
    AccelerationStructureNV,
}

#[derive(Debug, Clone, Copy)]
pub enum ShaderError {
    ReflectionError(&'static str),
    UnsupportedDescriptorType(ReflectDescriptorType),
}

#[derive(Debug, Clone, Copy)]
pub struct ShaderDesc {
    pub name: Option<&'static str>,
}

impl Default for ShaderDesc {
    fn default() -> (desc: Self)
        ensures
            desc.name.is_none(),
    {
        ShaderDesc { name: None }
    }
}

/// A reflected binding: its number, its descriptor type, and whether it is a runtime
/// sized array.
#[derive(Debug, Clone, Copy, PartialEq, Eq, Structural)]
pub struct ReflectedBinding {
    pub binding: u32,
    pub descriptor_type: ReflectDescriptorType,
    pub runtime_array: bool,
}

/// A reflected descriptor set and its bindings.
pub struct ReflectedSet {
    pub set: u32,
    pub bindings: Vec<ReflectedBinding>,
}

/// A member of a push constant block.
#[derive(Debug, Clone, Copy, PartialEq, Eq, Structural)]
pub struct BlockMember {
    pub offset: u32,
    pub size: u32,
}

/// A vertex input attribute: its format and its offset in bits.
#[derive(Debug, Clone, Copy, PartialEq, Eq, Structural)]
pub struct ReflectedAttribute {
    pub format: ReflectFormat,
    pub offset: u32,
}

/// The vertex input attributes in location order, and the stride of a vertex in bits.
pub struct VertexAttributes {
    pub stride: u32,
    pub atts: Vec<ReflectedAttribute>,
}

/// The local work group size of a compute entry point.
#[derive(Debug, Clone, Copy, PartialEq, Eq, Structural)]
pub struct LocalSize {
    pub x: u32,
    pub y: u32,
    pub z: u32,
}

/// What reflection reports of a shader module.
pub struct ShaderReflection {
    pub stage: u32,
    pub descriptor_sets: Vec<ReflectedSet>,
    pub push_constant_blocks: Vec<Vec<BlockMember>>,
    pub vertex_attributes: VertexAttributes,
    pub entry_point_local_sizes: Vec<LocalSize>,
}

/// The per-stage limits on descriptors in a runtime sized array, by kind.
#[derive(Debug, Clone, Copy, PartialEq, Eq, Structural)]
pub struct DescriptorIndexingLimits {
    pub max_samplers: u32,
    pub max_storage_images: u32,
    pub max_uniform_buffers: u32,
    pub max_storage_buffers: u32,
}

/// A push constant range: the stage that reads it, its offset and its size in bytes.
#[derive(Debug, Clone, Copy, PartialEq, Eq, Structural)]
pub struct PushConstant {
    pub stage: ShaderStage,
    pub offset: u32,
    pub size: u32,
}

/// A push constant range as Vulkan takes it: stage flags, offset and size.
#[derive(Debug, Clone, Copy, PartialEq, Eq, Structural)]
pub struct PushConstantRange {
    pub stage_flags: u32,
    pub offset: u32,
    pub size: u32,
}

impl PushConstant {
    pub fn to_raw(&self) -> (range: PushConstantRange)
        ensures
            range == (PushConstantRange { stage_flags: stage_flags(self.stage), offset: self.offset, size: self.size }),
    {
        PushConstantRange { stage_flags: self.stage.flags(), offset: self.offset, size: self.size }
    }
}

/// The binding kind a reflected descriptor type stands for, where it is supported.
pub open spec fn reflected_type(t: ReflectDescriptorType) -> Option<BindGroupType> {
    match t {
        ReflectDescriptorType::CombinedImageSampler => Some(BindGroupType::ImageSampler),
        ReflectDescriptorType::UniformBuffer => Some(BindGroupType::UniformBuffer),
        ReflectDescriptorType::StorageBuffer => Some(BindGroupType::StorageBuffer),
        ReflectDescriptorType::StorageImage => Some(BindGroupType::StorageImage),
        _ => None,
    }
}

/// How many descriptors a runtime sized array of kind `ty` gets: the device's limit
/// for that kind.
pub open spec fn array_limit(ty: BindGroupType, limits: DescriptorIndexingLimits) -> u32 {
    match ty {
        BindGroupType::ImageSampler => limits.max_samplers,
        BindGroupType::StorageImage => limits.max_storage_images,
        BindGroupType::UniformBuffer => limits.max_uniform_buffers,
        BindGroupType::StorageBuffer => limits.max_storage_buffers,
    }
}

pub open spec fn binding_supported(b: ReflectedBinding) -> bool {
    reflected_type(b.descriptor_type) is Some
}

/// The layout data of a supported binding: one descriptor, or the device's limit for a
/// runtime sized array.
pub open spec fn binding_layout(stage: ShaderStage, b: ReflectedBinding, limits: DescriptorIndexingLimits) -> BindGroupBindingData {
    let ty = reflected_type(b.descriptor_type)->Some_0;
    binding_data(b.binding, ty, if b.runtime_array { array_limit(ty, limits) } else { 1 }, stage)
}

/// The layout data of every binding of a set, in order.
pub open spec fn set_layout(stage: ShaderStage, bindings: Seq<ReflectedBinding>, limits: DescriptorIndexingLimits) -> Seq<BindGroupBindingData> {
    bindings.map_values(|b: ReflectedBinding| binding_layout(stage, b, limits))
}

/// The layouts of `sets` by set number; a later set with the same number replaces an
/// earlier one.
pub open spec fn layouts_of(stage: ShaderStage, sets: Seq<ReflectedSet>, limits: DescriptorIndexingLimits) -> Map<u32, Seq<BindGroupBindingData>>
    decreases sets.len(),
{
    if sets.len() == 0 {
        Map::empty()
    } else {
        layouts_of(stage, sets.drop_last(), limits).insert(sets.last().set, set_layout(stage, sets.last().bindings@, limits))
    }
}

pub open spec fn all_supported(sets: Seq<ReflectedSet>) -> bool {
    forall|i: int, j: int| 0 <= i < sets.len() && 0 <= j < sets[i].bindings@.len() ==> binding_supported(#[trigger] sets[i].bindings@[j])
}

/// Binding `j` of set `i` is the first unsupported one, taking sets in order and the
/// bindings of each in order.
pub open spec fn first_unsupported(sets: Seq<ReflectedSet>, i: int, j: int) -> bool {
    &&& 0 <= i < sets.len()
    &&& 0 <= j < sets[i].bindings@.len()
    &&& !binding_supported(sets[i].bindings@[j])
    &&& forall|a: int, b: int| 0 <= a < i && 0 <= b < sets[a].bindings@.len() ==> binding_supported(#[trigger] sets[a].bindings@[b])
    &&& forall|b: int| 0 <= b < j ==> binding_supported(#[trigger] sets[i].bindings@[b])
}

/// The total size of a push constant block: the sum of its members' sizes.
pub open spec fn block_size(members: Seq<BlockMember>) -> int
    decreases members.len(),
{
    if members.len() == 0 {
        0
    } else {
        block_size(members.drop_last()) + members.last().size
    }
}

/// The push constant range of a block: from its first member's offset, as large as its
/// members together.
pub open spec fn block_range(stage: ShaderStage, members: Seq<BlockMember>) -> PushConstant {
    PushConstant { stage, offset: members[0].offset, size: block_size(members) as u32 }
}

/// Every block has a member and its members' sizes add up within `u32`.
pub open spec fn blocks_valid(blocks: Seq<Vec<BlockMember>>) -> bool {
    forall|i: int| 0 <= i < blocks.len() ==> #[trigger] blocks[i]@.len() > 0 && block_size(blocks[i]@) <= u32::MAX
}

proof fn lemma_block_size_prefix(members: Seq<BlockMember>, k: int)
    requires
        0 <= k <= members.len(),
    ensures
        block_size(members.take(k)) <= block_size(members),
        block_size(members.take(k)) >= 0,
    decreases members.len() - k,
{
    if k == members.len() {
        assert(members.take(k) =~= members);
        lemma_block_size_nonneg(members);
    } else {
        lemma_block_size_prefix(members, k + 1);
        assert(members.take(k + 1).drop_last() =~= members.take(k));
        lemma_block_size_nonneg(members.take(k));
    }
}

proof fn lemma_block_size_nonneg(members: Seq<BlockMember>)
    ensures
        block_size(members) >= 0,
    decreases members.len(),
{
    if members.len() > 0 {
        lemma_block_size_nonneg(members.drop_last());
    }
}

fn block_push_constant(stage: ShaderStage, members: &Vec<BlockMember>) -> (pc: PushConstant)
    requires
        members@.len() > 0,
        block_size(members@) <= u32::MAX,
    ensures
        pc == block_range(stage, members@),
{
    let offset = members[0].offset;
    let mut size: u32 = 0;
    let mut i: usize = 0;
    while i < members.len()
        invariant
            i <= members@.len(),
            size == block_size(members@.take(i as int)),
            block_size(members@) <= u32::MAX,
        decreases members@.len() - i,
    {
        proof {
            assert(members@.take(i as int + 1).drop_last() =~= members@.take(i as int));
            lemma_block_size_prefix(members@, i as int + 1);
        }
        size = size + members[i].size;
        i += 1;
    }
    assert(members@.take(members@.len() as int) =~= members@);
    PushConstant { stage, offset, size }
}

/// A shader module with its reflection data.
pub struct Shader {
    pub module: u64,
    pub reflect_data: ShaderReflection,
    pub desc: ShaderDesc,
}

impl Shader {
    /// The reflected stage is one the renderer supports.
    pub open spec fn wf(self) -> bool {
        reflected_stage(self.reflect_data.stage) is Some
    }

    pub open spec fn spec_stage(self) -> ShaderStage {
        reflected_stage(self.reflect_data.stage)->Some_0
    }

    pub fn stage(&self) -> (stage: ShaderStage)
        requires
            self.wf(),
        ensures
            stage == self.spec_stage(),
    {
        ShaderStage::from_reflect(self.reflect_data.stage)
    }

    /// One push constant range per block, in block order.
    pub fn push_constants(&self) -> (pcs: Vec<PushConstant>)
        requires
            self.wf(),
            blocks_valid(self.reflect_data.push_constant_blocks@),
        ensures
            pcs@.len() == self.reflect_data.push_constant_blocks@.len(),
            forall|i: int| 0 <= i < pcs@.len() ==> #[trigger] pcs@[i] == block_range(self.spec_stage(), self.reflect_data.push_constant_blocks@[i]@),
    {
        let stage = self.stage();
        let blocks = &self.reflect_data.push_constant_blocks;
        let mut pcs: Vec<PushConstant> = Vec::new();
        let mut i: usize = 0;
        while i < blocks.len()
            invariant
                i <= blocks@.len(),
                blocks == &self.reflect_data.push_constant_blocks,
                blocks_valid(blocks@),
                stage == self.spec_stage(),
                pcs@.len() == i,
                forall|k: int| 0 <= k < i ==> #[trigger] pcs@[k] == block_range(stage, blocks@[k]@),
            decreases blocks@.len() - i,
        {
            assert(blocks@[i as int]@.len() > 0);
            let pc = block_push_constant(stage, &blocks[i]);
            pcs.push(pc);
            i += 1;
        }
        pcs
    }

    /// The bind group layouts of the shader by set number; an error naming the first
    /// binding of a kind the renderer does not support.
    pub fn bind_group_layouts(&self, limits: DescriptorIndexingLimits) -> (layouts: Result<BTreeMap<u32, Vec<BindGroupBindingData>>, ShaderError>)
        requires
            self.wf(),
        ensures
            layouts is Ok <==> all_supported(self.reflect_data.descriptor_sets@),
            match layouts {
                Ok(m) => lists_view(m@) == layouts_of(self.spec_stage(), self.reflect_data.descriptor_sets@, limits),
                Err(e) => exists|i: int, j: int| #[trigger] first_unsupported(self.reflect_data.descriptor_sets@, i, j)
                    && e == ShaderError::UnsupportedDescriptorType(self.reflect_data.descriptor_sets@[i].bindings@[j].descriptor_type),
            },
    {
        let stage = self.stage();
        let sets = &self.reflect_data.descriptor_sets;
        let mut result: BTreeMap<u32, Vec<BindGroupBindingData>> = BTreeMap::new();
        proof {
            assert(lists_view(result@) =~= layouts_of(stage, sets@.take(0), limits));
        }
        let mut i: usize = 0;
        while i < sets.len()
            invariant
                i <= sets@.len(),
                sets == &self.reflect_data.descriptor_sets,
                stage == self.spec_stage(),
                lists_view(result@) == layouts_of(stage, sets@.take(i as int), limits),
                all_supported(sets@.take(i as int)),
            decreases sets@.len() - i,
        {
            let bindings = &sets[i].bindings;
            let mut data: Vec<BindGroupBindingData> = Vec::new();
            let mut j: usize = 0;
            while j < bindings.len()
                invariant
                    j <= bindings@.len(),
                    i < sets@.len(),
                    sets == &self.reflect_data.descriptor_sets,
                    bindings == &sets@[i as int].bindings,
                    stage == self.spec_stage(),
                    all_supported(sets@.take(i as int)),
                    data@ == set_layout(stage, bindings@.take(j as int), limits),
                    forall|b: int| 0 <= b < j ==> binding_supported(#[trigger] bindings@[b]),
                decreases bindings@.len() - j,
            {
                let rb = bindings[j];
                let ty = match rb.descriptor_type {
                    ReflectDescriptorType::CombinedImageSampler => BindGroupType::ImageSampler,
                    ReflectDescriptorType::UniformBuffer => BindGroupType::UniformBuffer,
                    ReflectDescriptorType::StorageBuffer => BindGroupType::StorageBuffer,
                    ReflectDescriptorType::StorageImage => BindGroupType::StorageImage,
                    _ => {
                        proof {
                            assert(first_unsupported(sets@, i as int, j as int)) by {
                                assert forall|a: int, b: int| 0 <= a < i && 0 <= b < sets@[a].bindings@.len()
                                    implies binding_supported(#[trigger] sets@[a].bindings@[b]) by {
                                    assert(sets@.take(i as int)[a] == sets@[a]);
                                }
                            }
                        }
                        return Err(ShaderError::UnsupportedDescriptorType(rb.descriptor_type));
                    },
                };
                let count = if rb.runtime_array {
                    match ty {
                        BindGroupType::ImageSampler => limits.max_samplers,
                        BindGroupType::StorageImage => limits.max_storage_images,
                        BindGroupType::UniformBuffer => limits.max_uniform_buffers,
                        BindGroupType::StorageBuffer => limits.max_storage_buffers,
                    }
                } else {
                    1
                };
                data.push(BindGroupBindingData::new(rb.binding, ty, count, stage));
                proof {
                    assert(bindings@.take(j as int + 1).drop_last() =~= bindings@.take(j as int));
                    assert(set_layout(stage, bindings@.take(j as int + 1), limits) =~= set_layout(stage, bindings@.take(j as int), limits).push(
                        binding_layout(stage, rb, limits)));
                }
                j += 1;
            }
            proof {
                assert(bindings@.take(j as int) =~= bindings@);
                assert(sets@.take(i as int + 1).drop_last() =~= sets@.take(i as int));
                assert(sets@.take(i as int + 1).last() == sets@[i as int]);
                assert forall|a: int, b: int| 0 <= a < i + 1 && 0 <= b < sets@.take(i as int + 1)[a].bindings@.len()
                    implies binding_supported(#[trigger] sets@.take(i as int + 1)[a].bindings@[b]) by {
                    if a < i {
                        assert(sets@.take(i as int)[a] == sets@.take(i as int + 1)[a]);
                    }
                }
            }
            let ghost before = result@;
            let ghost data_view = data@;
            put_list(&mut result, sets[i].set, data);
            proof {
                assert(lists_view(result@) =~= lists_view(before).insert(sets@[i as int].set, data_view));
            }
            i += 1;
        }
        proof {
            assert(sets@.take(i as int) =~= sets@);
        }
        Ok(result)
    }

    /// The local work group size of the first entry point.
    pub fn local_size(&self) -> (size: LocalSize)
        requires
            self.reflect_data.entry_point_local_sizes@.len() > 0,
        ensures
            size == self.reflect_data.entry_point_local_sizes@[0],
    {
        self.reflect_data.entry_point_local_sizes[0]
    }
}

} // verus!
