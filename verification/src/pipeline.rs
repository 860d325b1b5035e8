//! Pipelines: the layout a pipeline is built with (push constant ranges and bind group
//! layouts gathered from its shaders), the vertex input it reads, and the fixed
//! function state it is created with.
use crate::bind_group::BindGroupBindingData;
use crate::image::{format_raw, reflect_format_raw, reflect_format_to_vk, Format};
use crate::shader::{
    block_range, blocks_valid, layouts_of, DescriptorIndexingLimits, PushConstant, PushConstantRange, Shader,
    ShaderError, ShaderStage, VertexAttributes, all_supported, first_unsupported, stage_flags,
};
use crate::set_lists::{
    append_list, entries_view, into_sorted_entries, list_or_empty, lists_in_key_order, lists_view, sorted_keys, take_list,
};
use std::collections::BTreeMap;
use vstd::prelude::*;

verus! {

pub const CULL_MODE_NONE: u32 = 0x0;
pub const CULL_MODE_FRONT: u32 = 0x1;
pub const CULL_MODE_BACK: u32 = 0x2;
pub const CULL_MODE_FRONT_AND_BACK: u32 = 0x3;

pub const COMPARE_OP_GREATER: i32 = 4;
pub const COMPARE_OP_ALWAYS: i32 = 7;

pub const VERTEX_INPUT_RATE_VERTEX: i32 = 0;

#[derive(Debug, Clone, Copy, PartialEq, Eq, Structural)]
pub enum PipelineError {
    InvalidPushConstant,
    InvalidPipelineHandle,
    NoBoundPipeline,
}

impl PipelineError {
    pub fn message(&self) -> (text: &'static str)
        ensures
            text@ == (match self {
                PipelineError::InvalidPushConstant => "invalid push constant"@,
                PipelineError::InvalidPipelineHandle => "invalid pipeline handle"@,
                PipelineError::NoBoundPipeline => "no bound pipeline"@,
            }),
    {
        match self {
            PipelineError::InvalidPushConstant => "invalid push constant",
            PipelineError::InvalidPipelineHandle => "invalid pipeline handle",
            PipelineError::NoBoundPipeline => "no bound pipeline",
        }
    }
}

/// Which faces are culled.
#[derive(Debug, Clone, Copy, PartialEq, Eq, Structural)]
pub enum CullMode {
    Back,
    Front,
    FrontAndBack,
    Disabled,
}

impl Default for CullMode {
    fn default() -> (mode: Self)
        ensures
            mode == CullMode::Disabled,
    {
        CullMode::Disabled
    }
}

/// Each cull mode sets the Vulkan bit of exactly the faces it names: the front-face bit
/// for front and front-and-back culling, the back-face bit for back and front-and-back
/// culling, and no other bit.
pub proof fn cull_mode_names_its_faces(mode: CullMode)
    ensures
        cull_mode_flags(mode) & CULL_MODE_FRONT_AND_BACK == cull_mode_flags(mode),
        (cull_mode_flags(mode) & CULL_MODE_FRONT != 0) <==> (mode is Front || mode is FrontAndBack),
        (cull_mode_flags(mode) & CULL_MODE_BACK != 0) <==> (mode is Back || mode is FrontAndBack),
{
    assert(CULL_MODE_FRONT == 1 && CULL_MODE_BACK == 2 && CULL_MODE_FRONT_AND_BACK == 3 && CULL_MODE_NONE == 0);
    assert(0u32 & 3u32 == 0u32 && 0u32 & 1u32 == 0u32 && 0u32 & 2u32 == 0u32) by (bit_vector);
    assert(1u32 & 3u32 == 1u32 && 1u32 & 1u32 == 1u32 && 1u32 & 2u32 == 0u32) by (bit_vector);
    assert(2u32 & 3u32 == 2u32 && 2u32 & 1u32 == 0u32 && 2u32 & 2u32 == 2u32) by (bit_vector);
    assert(3u32 & 3u32 == 3u32 && 3u32 & 1u32 == 1u32 && 3u32 & 2u32 == 2u32) by (bit_vector);
}

pub open spec fn cull_mode_flags(mode: CullMode) -> u32 {
    match mode {
        CullMode::Back => CULL_MODE_BACK,
        CullMode::Front => CULL_MODE_FRONT,
        CullMode::FrontAndBack => CULL_MODE_FRONT_AND_BACK,
        CullMode::Disabled => CULL_MODE_NONE,
    }
}

impl CullMode {
    pub fn flags(&self) -> (flags: u32)
        ensures
            flags == cull_mode_flags(*self),
    {
        match self {
            CullMode::Back => CULL_MODE_BACK,
            CullMode::Front => CULL_MODE_FRONT,
            CullMode::FrontAndBack => CULL_MODE_FRONT_AND_BACK,
            CullMode::Disabled => CULL_MODE_NONE,
        }
    }
}

pub const BLEND_FACTOR_ZERO: i32 = 0;
pub const BLEND_FACTOR_ONE: i32 = 1;
pub const BLEND_FACTOR_SRC_COLOR: i32 = 2;
pub const BLEND_FACTOR_ONE_MINUS_DST_COLOR: i32 = 5;
pub const BLEND_FACTOR_ONE_MINUS_SRC_ALPHA: i32 = 7;
pub const BLEND_OP_ADD: i32 = 0;
pub const COLOR_COMPONENTS_RGBA: u32 = 0xf;

/// How a color attachment is blended, as Vulkan numbers.
#[derive(Debug, Clone, Copy, PartialEq, Eq, Structural)]
pub struct ColorBlendState {
    pub blend_enable: bool,
    pub src_color_blend_factor: i32,
    pub dst_color_blend_factor: i32,
    pub color_blend_op: i32,
    pub src_alpha_blend_factor: i32,
    pub dst_alpha_blend_factor: i32,
    pub alpha_blend_op: i32,
    pub color_write_mask: u32,
}

impl ColorBlendState {
    /// No blending: the fragment's color is written as it is.
    pub fn add() -> (state: Self)
        ensures
            state == (ColorBlendState {
                blend_enable: false,
                src_color_blend_factor: BLEND_FACTOR_SRC_COLOR,
                dst_color_blend_factor: BLEND_FACTOR_ONE_MINUS_DST_COLOR,
                color_blend_op: BLEND_OP_ADD,
                src_alpha_blend_factor: BLEND_FACTOR_ZERO,
                dst_alpha_blend_factor: BLEND_FACTOR_ZERO,
                alpha_blend_op: BLEND_OP_ADD,
                color_write_mask: COLOR_COMPONENTS_RGBA,
            }),
    {
        ColorBlendState {
            blend_enable: false,
            src_color_blend_factor: BLEND_FACTOR_SRC_COLOR,
            dst_color_blend_factor: BLEND_FACTOR_ONE_MINUS_DST_COLOR,
            color_blend_op: BLEND_OP_ADD,
            src_alpha_blend_factor: BLEND_FACTOR_ZERO,
            dst_alpha_blend_factor: BLEND_FACTOR_ZERO,
            alpha_blend_op: BLEND_OP_ADD,
            color_write_mask: COLOR_COMPONENTS_RGBA,
        }
    }

    /// Premultiplied alpha: the color over what is there, scaled by one minus the
    /// source alpha.
    pub fn pma() -> (state: Self)
        ensures
            state == (ColorBlendState {
                blend_enable: true,
                src_color_blend_factor: BLEND_FACTOR_ONE,
                dst_color_blend_factor: BLEND_FACTOR_ONE_MINUS_SRC_ALPHA,
                color_blend_op: BLEND_OP_ADD,
                src_alpha_blend_factor: BLEND_FACTOR_ONE,
                dst_alpha_blend_factor: BLEND_FACTOR_ZERO,
                alpha_blend_op: BLEND_OP_ADD,
                color_write_mask: COLOR_COMPONENTS_RGBA,
            }),
    {
        ColorBlendState {
            blend_enable: true,
            src_color_blend_factor: BLEND_FACTOR_ONE,
            dst_color_blend_factor: BLEND_FACTOR_ONE_MINUS_SRC_ALPHA,
            color_blend_op: BLEND_OP_ADD,
            src_alpha_blend_factor: BLEND_FACTOR_ONE,
            dst_alpha_blend_factor: BLEND_FACTOR_ZERO,
            alpha_blend_op: BLEND_OP_ADD,
            color_write_mask: COLOR_COMPONENTS_RGBA,
        }
    }
}

impl Default for ColorBlendState {
    fn default() -> (state: Self)
        ensures
            state.blend_enable == false,
            state.src_color_blend_factor == BLEND_FACTOR_SRC_COLOR,
            state.dst_color_blend_factor == BLEND_FACTOR_ONE_MINUS_DST_COLOR,
            state.color_blend_op == BLEND_OP_ADD,
            state.src_alpha_blend_factor == BLEND_FACTOR_ZERO,
            state.dst_alpha_blend_factor == BLEND_FACTOR_ZERO,
            state.alpha_blend_op == BLEND_OP_ADD,
            state.color_write_mask == COLOR_COMPONENTS_RGBA,
    {
        ColorBlendState::add()
    }
}

/// The push constant ranges of a pipeline, by stage and by index within the stage.
pub struct StagePushConstants {
    pub vertex: Vec<PushConstant>,
    pub fragment: Vec<PushConstant>,
    pub compute: Vec<PushConstant>,
}

/// The ranges of one stage, as the push constants of each shader in turn overwrite
/// those at the same indices.
pub open spec fn overwrite_prefix(old: Seq<PushConstant>, new: Seq<PushConstant>) -> Seq<PushConstant> {
    if new.len() >= old.len() {
        new
    } else {
        new + old.skip(new.len() as int)
    }
}

/// The push constant ranges each shader of `shaders` declares.
pub open spec fn shader_ranges(s: Shader) -> Seq<PushConstant> {
    s.reflect_data.push_constant_blocks@.map_values(|b: Vec<crate::shader::BlockMember>| block_range(s.spec_stage(), b@))
}

/// The ranges of `stage` once every shader has put its ranges under (its stage, the
/// range's index): a later shader of the same stage replaces the ranges at the indices
/// it has.
pub open spec fn stage_ranges(shaders: Seq<&Shader>, stage: ShaderStage) -> Seq<PushConstant>
    decreases shaders.len(),
{
    if shaders.len() == 0 {
        Seq::empty()
    } else if shaders.last().spec_stage() == stage {
        overwrite_prefix(stage_ranges(shaders.drop_last(), stage), shader_ranges(*shaders.last()))
    } else {
        stage_ranges(shaders.drop_last(), stage)
    }
}

impl StagePushConstants {
    pub open spec fn ranges(self, stage: ShaderStage) -> Seq<PushConstant> {
        match stage {
            ShaderStage::Vertex => self.vertex@,
            ShaderStage::Fragment => self.fragment@,
            ShaderStage::Compute => self.compute@,
        }
    }

    /// The range under (`stage`, `idx`), if there is one.
    pub fn get(&self, stage: ShaderStage, idx: u32) -> (pc: Option<PushConstant>)
        ensures
            (idx as int) < self.ranges(stage).len() ==> pc == Some(self.ranges(stage)[idx as int]),
            (idx as int) >= self.ranges(stage).len() ==> pc is None,
    {
        let list = match stage {
            ShaderStage::Vertex => &self.vertex,
            ShaderStage::Fragment => &self.fragment,
            ShaderStage::Compute => &self.compute,
        };
        let i = idx as usize;
        if i < list.len() {
            Some(list[i])
        } else {
            None
        }
    }

    /// Every range as Vulkan takes it: vertex ranges first, then fragment, then compute.
    pub fn raw_ranges(&self) -> (ranges: Vec<PushConstantRange>)
        ensures
            ranges@ == (self.vertex@ + self.fragment@ + self.compute@).map_values(
                |pc: PushConstant| PushConstantRange { stage_flags: stage_flags(pc.stage), offset: pc.offset, size: pc.size },
            ),
    {
        let ghost all = self.vertex@ + self.fragment@ + self.compute@;
        let mut ranges: Vec<PushConstantRange> = Vec::new();
        let mut i: usize = 0;
        while i < self.vertex.len()
            invariant
                i <= self.vertex@.len(),
                all == self.vertex@ + self.fragment@ + self.compute@,
                ranges@ == all.take(i as int).map_values(
                    |pc: PushConstant| PushConstantRange { stage_flags: stage_flags(pc.stage), offset: pc.offset, size: pc.size },
                ),
            decreases self.vertex@.len() - i,
        {
            ranges.push(self.vertex[i].to_raw());
            proof {
                assert(all.take(i as int + 1) =~= all.take(i as int).push(all[i as int]));
            }
            i += 1;
        }
        let mut j: usize = 0;
        while j < self.fragment.len()
            invariant
                j <= self.fragment@.len(),
                all == self.vertex@ + self.fragment@ + self.compute@,
                ranges@ == all.take(self.vertex@.len() + j).map_values(
                    |pc: PushConstant| PushConstantRange { stage_flags: stage_flags(pc.stage), offset: pc.offset, size: pc.size },
                ),
            decreases self.fragment@.len() - j,
        {
            ranges.push(self.fragment[j].to_raw());
            proof {
                let n = self.vertex@.len() + j;
                assert(all[n] == self.fragment@[j as int]);
                assert(all.take(n + 1) =~= all.take(n).push(all[n]));
            }
            j += 1;
        }
        let mut k: usize = 0;
        while k < self.compute.len()
            invariant
                k <= self.compute@.len(),
                all == self.vertex@ + self.fragment@ + self.compute@,
                ranges@ == all.take(self.vertex@.len() + self.fragment@.len() + k).map_values(
                    |pc: PushConstant| PushConstantRange { stage_flags: stage_flags(pc.stage), offset: pc.offset, size: pc.size },
                ),
            decreases self.compute@.len() - k,
        {
            ranges.push(self.compute[k].to_raw());
            proof {
                let n = self.vertex@.len() + self.fragment@.len() + k;
                assert(all[n] == self.compute@[k as int]);
                assert(all.take(n + 1) =~= all.take(n).push(all[n]));
            }
            k += 1;
        }
        proof {
            assert(all.take(all.len() as int) =~= all);
        }
        ranges
    }
}

fn overwrite_ranges(list: &mut Vec<PushConstant>, new: &Vec<PushConstant>)
    ensures
        final(list)@ == overwrite_prefix(old(list)@, new@),
{
    let ghost old_list = list@;
    let mut i: usize = 0;
    while i < new.len()
        invariant
            i <= new@.len(),
            list@.len() == if old_list.len() >= i { old_list.len() } else { i as nat },
            forall|k: int| 0 <= k < i ==> #[trigger] list@[k] == new@[k],
            forall|k: int| i <= k < list@.len() ==> #[trigger] list@[k] == old_list[k],
        decreases new@.len() - i,
    {
        if i < list.len() {
            list.set(i, new[i]);
        } else {
            list.push(new[i]);
        }
        i += 1;
    }
    proof {
        assert(list@ =~= overwrite_prefix(old_list, new@));
    }
}

/// The lists of `acc` with those of `m` appended, set by set.
pub open spec fn merge_lists(
    acc: Map<u32, Seq<BindGroupBindingData>>,
    m: Map<u32, Seq<BindGroupBindingData>>,
) -> Map<u32, Seq<BindGroupBindingData>> {
    Map::new(|k: u32| acc.contains_key(k) || m.contains_key(k), |k: u32| list_or_empty(acc, k) + list_or_empty(m, k))
}

/// The bind group layouts of a set of shaders by set number: each set lists the bindings
/// of every shader that uses it, shader by shader.
pub open spec fn merged_layouts(layouts: Seq<Map<u32, Seq<BindGroupBindingData>>>) -> Map<u32, Seq<BindGroupBindingData>>
    decreases layouts.len(),
{
    if layouts.len() == 0 {
        Map::empty()
    } else {
        merge_lists(merged_layouts(layouts.drop_last()), layouts.last())
    }
}

proof fn lemma_take_push_contains(s: Seq<u32>, q: int, k: u32)
    requires
        0 <= q < s.len(),
    ensures
        s.take(q + 1).contains(k) <==> (s.take(q).contains(k) || k == s[q]),
{
    if s.take(q + 1).contains(k) {
        let a = choose|a: int| 0 <= a < q + 1 && #[trigger] s.take(q + 1)[a] == k;
        if a < q {
            assert(s.take(q)[a] == k);
        }
    }
    if s.take(q).contains(k) {
        let a = choose|a: int| 0 <= a < q && #[trigger] s.take(q)[a] == k;
        assert(s.take(q + 1)[a] == k);
    }
    if k == s[q] {
        assert(s.take(q + 1)[q] == k);
    }
}

/// `acc` with the lists of `m` under the keys of `done` appended.
spec fn merge_done(
    acc: Map<u32, Seq<BindGroupBindingData>>,
    m: Map<u32, Seq<BindGroupBindingData>>,
    done: Seq<u32>,
) -> Map<u32, Seq<BindGroupBindingData>> {
    Map::new(
        |k: u32| acc.contains_key(k) || (done.contains(k) && m.contains_key(k)),
        |k: u32| list_or_empty(acc, k) + if done.contains(k) { list_or_empty(m, k) } else { Seq::empty() },
    )
}

/// What a pipeline layout is made of: the push constant ranges and, in increasing set
/// order, each set number with the bindings of its bind group.
pub struct PipelineLayoutData {
    pub push_constants: StagePushConstants,
    pub set_layouts: Vec<(u32, Vec<BindGroupBindingData>)>,
}

/// The shaders can be gathered into a pipeline layout: supported stages, push constant
/// blocks with members whose sizes fit.
pub open spec fn shaders_valid(shaders: Seq<&Shader>) -> bool {
    forall|i: int| 0 <= i < shaders.len() ==> (#[trigger] shaders[i]).wf() && blocks_valid(shaders[i].reflect_data.push_constant_blocks@)
}

/// The bind group layouts of each shader, by set number.
pub open spec fn shader_layouts(shaders: Seq<&Shader>, limits: DescriptorIndexingLimits) -> Seq<Map<u32, Seq<BindGroupBindingData>>> {
    shaders.map_values(|s: &Shader| layouts_of(s.spec_stage(), s.reflect_data.descriptor_sets@, limits))
}

/// Gathers the layout of a pipeline built from `shaders`: each shader's push constant
/// ranges under (its stage, their index), later shaders of a stage replacing earlier
/// ones at the same index, and each shader's bind group layouts appended set by set; an
/// error where a shader has a binding of a kind that is not supported.
pub fn get_pipeline_layout(shaders: &Vec<&Shader>, limits: DescriptorIndexingLimits) -> (data: Result<PipelineLayoutData, ShaderError>)
    requires
        shaders_valid(shaders@),
    ensures
        data is Ok <==> forall|i: int| 0 <= i < shaders@.len() ==> all_supported(#[trigger] shaders@[i].reflect_data.descriptor_sets@),
        match data {
            Ok(d) => {
                &&& d.push_constants.vertex@ == stage_ranges(shaders@, ShaderStage::Vertex)
                &&& d.push_constants.fragment@ == stage_ranges(shaders@, ShaderStage::Fragment)
                &&& d.push_constants.compute@ == stage_ranges(shaders@, ShaderStage::Compute)
                &&& lists_in_key_order(entries_view(d.set_layouts@), merged_layouts(shader_layouts(shaders@, limits)))
            },
            Err(e) => exists|k: int, i: int, j: int| 0 <= k < shaders@.len()
                && (forall|m: int| 0 <= m < k ==> all_supported(#[trigger] shaders@[m].reflect_data.descriptor_sets@))
                && #[trigger] first_unsupported(shaders@[k].reflect_data.descriptor_sets@, i, j)
                && e == ShaderError::UnsupportedDescriptorType(shaders@[k].reflect_data.descriptor_sets@[i].bindings@[j].descriptor_type),
        },
{
    let mut push_constants = StagePushConstants { vertex: Vec::new(), fragment: Vec::new(), compute: Vec::new() };
    let mut i: usize = 0;
    while i < shaders.len()
        invariant
            i <= shaders@.len(),
            shaders_valid(shaders@),
            push_constants.vertex@ == stage_ranges(shaders@.take(i as int), ShaderStage::Vertex),
            push_constants.fragment@ == stage_ranges(shaders@.take(i as int), ShaderStage::Fragment),
            push_constants.compute@ == stage_ranges(shaders@.take(i as int), ShaderStage::Compute),
        decreases shaders@.len() - i,
    {
        let shader = shaders[i];
        assert(shaders@[i as int].wf() && blocks_valid(shaders@[i as int].reflect_data.push_constant_blocks@));
        let pcs = shader.push_constants();
        assert(pcs@ =~= shader_ranges(*shader));
        let stage = shader.stage();
        match stage {
            ShaderStage::Vertex => overwrite_ranges(&mut push_constants.vertex, &pcs),
            ShaderStage::Fragment => overwrite_ranges(&mut push_constants.fragment, &pcs),
            ShaderStage::Compute => overwrite_ranges(&mut push_constants.compute, &pcs),
        }
        proof {
            assert(shaders@.take(i as int + 1).drop_last() =~= shaders@.take(i as int));
            assert(shaders@.take(i as int + 1).last() == shader);
        }
        i += 1;
    }
    proof {
        assert(shaders@.take(i as int) =~= shaders@);
    }
    let mut data_map: BTreeMap<u32, Vec<BindGroupBindingData>> = BTreeMap::new();
    proof {
        assert(lists_view(data_map@) =~= merged_layouts(shader_layouts(shaders@.take(0), limits)));
    }
    let mut s: usize = 0;
    while s < shaders.len()
        invariant
            s <= shaders@.len(),
            shaders_valid(shaders@),
            lists_view(data_map@) == merged_layouts(shader_layouts(shaders@.take(s as int), limits)),
            forall|k: int| 0 <= k < s ==> all_supported(#[trigger] shaders@[k].reflect_data.descriptor_sets@),
        decreases shaders@.len() - s,
    {
        let shader = shaders[s];
        assert(shaders@[s as int].wf());
        let mut layouts = match shader.bind_group_layouts(limits) {
            Ok(l) => l,
            Err(e) => {
                return Err(e);
            },
        };
        let ghost acc = lists_view(data_map@);
        let ghost orig = layouts@;
        let ghost lv = lists_view(orig);
        let keys = sorted_keys(&layouts);
        proof {
            assert(lists_view(data_map@) =~= merge_done(acc, lv, keys@.take(0)));
        }
        let mut q: usize = 0;
        while q < keys.len()
            invariant
                q <= keys@.len(),
                keys@.to_set() == orig.dom(),
                keys@.no_duplicates(),
                lv == lists_view(orig),
                forall|k: u32| #[trigger] layouts@.contains_key(k) <==> orig.contains_key(k) && !keys@.take(q as int).contains(k),
                forall|k: u32| #[trigger] layouts@.contains_key(k) ==> layouts@[k] == orig[k],
                lists_view(data_map@) == merge_done(acc, lv, keys@.take(q as int)),
            decreases keys@.len() - q,
        {
            let key = keys[q];
            assert(keys@.to_set().contains(key));
            assert(!keys@.take(q as int).contains(key)) by {
                if keys@.take(q as int).contains(key) {
                    let a = choose|a: int| 0 <= a < q && #[trigger] keys@.take(q as int)[a] == key;
                    assert(keys@[a] == keys@[q as int]);
                }
            }
            let list = match take_list(&mut layouts, key) {
                Some(l) => l,
                None => Vec::new(),
            };
            let ghost before = lists_view(data_map@);
            append_list(&mut data_map, key, list);
            proof {
                let done = keys@.take(q as int);
                let done2 = keys@.take(q as int + 1);
                assert forall|k: u32| #[trigger] done2.contains(k) <==> (done.contains(k) || k == key) by {
                    lemma_take_push_contains(keys@, q as int, k);
                }
                assert(list_or_empty(before, key) =~= list_or_empty(acc, key)) by {
                    if before.contains_key(key) {
                        assert(before[key] =~= list_or_empty(acc, key) + Seq::empty());
                    }
                }
                assert(lists_view(data_map@) =~= merge_done(acc, lv, done2)) by {
                    assert forall|k: u32| #[trigger] merge_done(acc, lv, done2).contains_key(k) && k != key implies
                        merge_done(acc, lv, done2)[k] == merge_done(acc, lv, done)[k] by {}
                }
                assert forall|k: u32| #[trigger] layouts@.contains_key(k) <==> orig.contains_key(k) && !keys@.take(q as int + 1).contains(k) by {
                    lemma_take_push_contains(keys@, q as int, k);
                }
            }
            q += 1;
        }
        proof {
            assert(keys@.take(q as int) =~= keys@);
            assert forall|k: u32| lv.contains_key(k) implies #[trigger] keys@.contains(k) by {
                assert(keys@.to_set().contains(k));
            }
            assert(lists_view(data_map@) =~= merge_lists(acc, lv)) by {
                assert forall|k: u32| #[trigger] merge_lists(acc, lv).contains_key(k) implies lists_view(data_map@)[k] == merge_lists(acc, lv)[k] by {
                    if !lv.contains_key(k) {
                        assert(list_or_empty(lv, k) =~= Seq::<BindGroupBindingData>::empty());
                    }
                }
            }
            assert(shader_layouts(shaders@.take(s as int + 1), limits).drop_last() =~= shader_layouts(shaders@.take(s as int), limits));
            assert(shader_layouts(shaders@.take(s as int + 1), limits).last() == lv);
        }
        s += 1;
    }
    proof {
        assert(shaders@.take(s as int) =~= shaders@);
    }
    let set_layouts = into_sorted_entries(data_map);
    Ok(PipelineLayoutData { push_constants, set_layouts })
}

impl PipelineLayoutData {
    /// The descriptor count of each bind group, in set order: the count of its last
    /// binding, which is the variable-sized one of a bindless group.
    pub fn bind_group_counts(&self) -> (counts: Vec<u32>)
        requires
            forall|i: int| 0 <= i < self.set_layouts@.len() ==> (#[trigger] self.set_layouts@[i]).1@.len() > 0,
        ensures
            counts@.len() == self.set_layouts@.len(),
            forall|i: int| 0 <= i < counts@.len() ==> #[trigger] counts@[i] == self.set_layouts@[i].1@.last().count,
    {
        let mut counts: Vec<u32> = Vec::new();
        let mut i: usize = 0;
        while i < self.set_layouts.len()
            invariant
                i <= self.set_layouts@.len(),
                forall|k: int| 0 <= k < self.set_layouts@.len() ==> (#[trigger] self.set_layouts@[k]).1@.len() > 0,
                counts@.len() == i,
                forall|k: int| 0 <= k < i ==> #[trigger] counts@[k] == self.set_layouts@[k].1@.last().count,
            decreases self.set_layouts@.len() - i,
        {
            let list = &self.set_layouts[i].1;
            assert(self.set_layouts@[i as int].1@.len() > 0);
            counts.push(list[list.len() - 1].count);
            i += 1;
        }
        counts
    }
}

/// A vertex buffer binding: its number, stride in bytes and input rate.
#[derive(Debug, Clone, Copy, PartialEq, Eq, Structural)]
pub struct VertexBindingDesc {
    pub binding: u32,
    pub stride: u32,
    pub input_rate: i32,
}

/// A vertex attribute: its location, binding, format number and offset in bytes.
#[derive(Debug, Clone, Copy, PartialEq, Eq, Structural)]
pub struct VertexAttributeDescription {
    pub location: u32,
    pub binding: u32,
    pub format: i32,
    pub offset: u32,
}

pub struct VertexDescription {
    pub binding_desc: Vec<VertexBindingDesc>,
    pub attribute_desc: Vec<VertexAttributeDescription>,
}

/// The vertex input read from reflection: one per-vertex binding at 0 with the
/// reflected stride, and the attributes in location order; strides and offsets are
/// reflected in bits and given in bytes.
pub open spec fn reflected_vertex_input(attrs: VertexAttributes) -> (Seq<VertexBindingDesc>, Seq<VertexAttributeDescription>) {
    (
        seq![VertexBindingDesc { binding: 0, stride: attrs.stride / 8, input_rate: VERTEX_INPUT_RATE_VERTEX }],
        Seq::new(
            attrs.atts@.len(),
            |i: int| VertexAttributeDescription {
                location: i as u32,
                binding: 0,
                format: reflect_format_raw(attrs.atts@[i].format),
                offset: attrs.atts@[i].offset / 8,
            },
        ),
    )
}

/// The vertex input of a pipeline: the description given with it, or else the one read
/// from the vertex shader's reflection.
pub fn vertex_input(given: &Option<VertexDescription>, attrs: &VertexAttributes) -> (input: (Vec<VertexBindingDesc>, Vec<VertexAttributeDescription>))
    requires
        attrs.atts@.len() <= u32::MAX,
    ensures
        given is Some ==> input.0@ == given->Some_0.binding_desc@ && input.1@ == given->Some_0.attribute_desc@,
        given is None ==> input.0@ == reflected_vertex_input(*attrs).0 && input.1@ == reflected_vertex_input(*attrs).1,
{
    match given {
        Some(desc) => (copy_bindings(&desc.binding_desc), copy_attributes(&desc.attribute_desc)),
        None => {
            let mut bindings: Vec<VertexBindingDesc> = Vec::new();
            bindings.push(VertexBindingDesc { binding: 0, stride: attrs.stride / 8, input_rate: VERTEX_INPUT_RATE_VERTEX });
            let mut attributes: Vec<VertexAttributeDescription> = Vec::new();
            let mut i: usize = 0;
            while i < attrs.atts.len()
                invariant
                    i <= attrs.atts@.len() <= u32::MAX,
                    attributes@ =~= reflected_vertex_input(*attrs).1.take(i as int),
                decreases attrs.atts@.len() - i,
            {
                let att = attrs.atts[i];
                attributes.push(VertexAttributeDescription {
                    location: i as u32,
                    binding: 0,
                    format: reflect_format_to_vk(att.format),
                    offset: att.offset / 8,
                });
                i += 1;
            }
            proof {
                assert(bindings@ =~= reflected_vertex_input(*attrs).0);
            }
            (bindings, attributes)
        },
    }
}

fn copy_bindings(v: &Vec<VertexBindingDesc>) -> (c: Vec<VertexBindingDesc>)
    ensures
        c@ == v@,
{
    let mut c: Vec<VertexBindingDesc> = Vec::new();
    let mut i: usize = 0;
    while i < v.len()
        invariant
            i <= v@.len(),
            c@ =~= v@.take(i as int),
        decreases v@.len() - i,
    {
        c.push(v[i]);
        i += 1;
    }
    c
}

fn copy_attributes(v: &Vec<VertexAttributeDescription>) -> (c: Vec<VertexAttributeDescription>)
    ensures
        c@ == v@,
{
    let mut c: Vec<VertexAttributeDescription> = Vec::new();
    let mut i: usize = 0;
    while i < v.len()
        invariant
            i <= v@.len(),
            c@ =~= v@.take(i as int),
        decreases v@.len() - i,
    {
        c.push(v[i]);
        i += 1;
    }
    c
}

/// The fixed function state of a graphics pipeline, as plain values.
#[derive(Debug, Clone, Copy, PartialEq, Eq, Structural)]
pub struct FixedFunctionState {
    /// Whether vertex input is described at all: only with attributes.
    pub vertex_input: bool,
    pub cull_mode: u32,
    pub depth_bias: bool,
    pub depth_test: bool,
    pub depth_write: bool,
    pub depth_compare_op: i32,
    /// Vertex only, or vertex and fragment.
    pub stage_count: usize,
    pub color_attachment_format: Option<i32>,
    pub depth_attachment_format: Option<i32>,
}

/// What a graphics pipeline is created with, as far as its fixed function state goes.
#[derive(Debug, Clone, Copy, PartialEq, Eq, Structural)]
pub struct FixedFunctionDescription {
    pub color_format: Option<Format>,
    pub depth_format: Option<Format>,
    pub cull_mode: CullMode,
    pub depth_bias: bool,
}

/// Depth testing and writing with a greater-than test (reverse depth) when the pipeline
/// has a depth attachment; neither without one.
pub open spec fn fixed_function_state(desc: FixedFunctionDescription, attribute_count: nat, has_fragment: bool) -> FixedFunctionState {
    FixedFunctionState {
        vertex_input: attribute_count > 0,
        cull_mode: cull_mode_flags(desc.cull_mode),
        depth_bias: desc.depth_bias,
        depth_test: desc.depth_format is Some,
        depth_write: desc.depth_format is Some,
        depth_compare_op: if desc.depth_format is Some { COMPARE_OP_GREATER } else { COMPARE_OP_ALWAYS },
        stage_count: if has_fragment { 2 } else { 1 },
        color_attachment_format: match desc.color_format {
            Some(f) => Some(format_raw(f)),
            None => None,
        },
        depth_attachment_format: match desc.depth_format {
            Some(f) => Some(format_raw(f)),
            None => None,
        },
    }
}

pub fn pipeline_fixed_state(desc: &FixedFunctionDescription, attribute_count: usize, has_fragment: bool) -> (state: FixedFunctionState)
    ensures
        state == fixed_function_state(*desc, attribute_count as nat, has_fragment),
{
    let depth = desc.depth_format.is_some();
    FixedFunctionState {
        vertex_input: attribute_count > 0,
        cull_mode: desc.cull_mode.flags(),
        depth_bias: desc.depth_bias,
        depth_test: depth,
        depth_write: depth,
        depth_compare_op: if depth { COMPARE_OP_GREATER } else { COMPARE_OP_ALWAYS },
        stage_count: if has_fragment { 2 } else { 1 },
        color_attachment_format: match desc.color_format {
            Some(f) => Some(f.as_raw()),
            None => None,
        },
        depth_attachment_format: match desc.depth_format {
            Some(f) => Some(f.as_raw()),
            None => None,
        },
    }
}

impl Default for FixedFunctionDescription {
    /// A color attachment in 8-bit BGRA, no depth, no culling, no depth bias.
    fn default() -> (desc: Self)
        ensures
            desc == (FixedFunctionDescription {
                color_format: Some(Format::B8G8R8A8_UNORM),
                depth_format: None,
                cull_mode: CullMode::Disabled,
                depth_bias: false,
            }),
    {
        FixedFunctionDescription {
            color_format: Some(Format::B8G8R8A8_UNORM),
            depth_format: None,
            cull_mode: CullMode::Disabled,
            depth_bias: false,
        }
    }
}

/// The Vulkan objects of a pipeline, by raw handle, with the layout data it was made
/// from.
pub struct PipelineCommon {
    pub pipeline_layout: u64,
    pub pipeline: u64,
    pub push_constants: StagePushConstants,
    pub bind_group_counts: Vec<u32>,
}

impl PipelineCommon {
    pub fn get_push_constant(&self, shader_stage: ShaderStage, idx: u32) -> (pc: Option<PushConstant>)
        ensures
            (idx as int) < self.push_constants.ranges(shader_stage).len() ==> pc == Some(self.push_constants.ranges(shader_stage)[idx as int]),
            (idx as int) >= self.push_constants.ranges(shader_stage).len() ==> pc is None,
    {
        self.push_constants.get(shader_stage, idx)
    }

    /// The descriptor count of the bind group at position `idx` in set order.
    pub fn bind_group_count(&self, idx: usize) -> (count: Option<u32>)
        ensures
            idx < self.bind_group_counts@.len() ==> count == Some(self.bind_group_counts@[idx as int]),
            idx >= self.bind_group_counts@.len() ==> count is None,
    {
        if idx < self.bind_group_counts.len() {
            Some(self.bind_group_counts[idx])
        } else {
            None
        }
    }

    /// Swaps in a rebuilt pipeline object and gives back the one it replaces.
    pub fn replace_pipeline(&mut self, new: u64) -> (old_pipeline: u64)
        ensures
            old_pipeline == old(self).pipeline,
            final(self).pipeline == new,
            final(self).pipeline_layout == old(self).pipeline_layout,
            final(self).push_constants.vertex@ == old(self).push_constants.vertex@,
            final(self).push_constants.fragment@ == old(self).push_constants.fragment@,
            final(self).push_constants.compute@ == old(self).push_constants.compute@,
            final(self).bind_group_counts@ == old(self).bind_group_counts@,
    {
        let old_pipeline = self.pipeline;
        self.pipeline = new;
        old_pipeline
    }
}

/// A graphics pipeline: its Vulkan objects and what it was created with.
pub struct GraphicsPipeline {
    pub common: PipelineCommon,
    pub desc: FixedFunctionDescription,
}

} // verus!
