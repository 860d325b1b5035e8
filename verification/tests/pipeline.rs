use ash::vk;
use cinder::command::{push_constant, set_fragment_bytes, set_vertex_bytes, CommandQueue};
use cinder::context::{
    AttachmentLoadOp, AttachmentStoreOp, Filter, Layout, PipelineError, RenderContext,
    UploadContextDescription,
};
use cinder::barrier::ImageLayout;
use cinder::handle::ResourceHandle;
use cinder::image::Format;
use cinder::pipeline::{
    pipeline_fixed_state, vertex_input, ColorBlendState, CullMode, FixedFunctionDescription,
    GraphicsPipeline, PipelineCommon, StagePushConstants, VertexAttributeDescription,
    VertexBindingDesc, VertexDescription,
};
use cinder::pool::ResourcePool;
use cinder::shader::{PushConstant, ReflectedAttribute, ShaderStage, VertexAttributes};
use cinder::image::ReflectFormat;

fn pipeline(pipeline: u64, vertex: Vec<PushConstant>, fragment: Vec<PushConstant>) -> GraphicsPipeline {
    GraphicsPipeline {
        common: PipelineCommon {
            pipeline_layout: pipeline + 100,
            pipeline,
            push_constants: StagePushConstants { vertex, fragment, compute: vec![] },
            bind_group_counts: vec![1, 1024],
        },
        desc: FixedFunctionDescription::default(),
    }
}

fn pc(stage: ShaderStage, offset: u32, size: u32) -> PushConstant {
    PushConstant { stage, offset, size }
}

#[test]
fn render_context_binding_state() {
    let mut pool: ResourcePool<GraphicsPipeline> = ResourcePool::new();
    let h = pool.insert(pipeline(7, vec![pc(ShaderStage::Vertex, 0, 64)], vec![]));
    let mut ctx = RenderContext::new(5);
    assert!(matches!(ctx.set_vertex_bytes(&pool, 0), Err(PipelineError::NoBoundPipeline)));
    assert!(matches!(
        ctx.bind_graphics_pipeline(&pool, ResourceHandle::from_index(3)),
        Err(PipelineError::InvalidPipelineHandle)
    ));
    assert!(matches!(ctx.bind_graphics_pipeline(&pool, h), Ok(7)));
    assert!(matches!(ctx.set_vertex_bytes(&pool, 0), Ok((107, p)) if p.size == 64));
    assert!(matches!(ctx.set_vertex_bytes(&pool, 1), Err(PipelineError::InvalidPushConstant)));
    assert!(matches!(ctx.set_fragment_bytes(&pool, 0), Err(PipelineError::InvalidPushConstant)));
    assert!(ctx.bound_pipeline(&pool).is_ok());
    pool.remove(h);
    assert!(matches!(ctx.set_vertex_bytes(&pool, 0), Err(PipelineError::InvalidPipelineHandle)));
    ctx.end_rendering();
    assert!(matches!(ctx.bound_pipeline(&pool), Err(PipelineError::NoBoundPipeline)));
    assert_eq!(PipelineError::NoBoundPipeline.message(), "no bound pipeline");
}

#[test]
fn command_list_push_constants() {
    let p = pipeline(1, vec![pc(ShaderStage::Vertex, 0, 16)], vec![pc(ShaderStage::Fragment, 16, 4)]);
    assert_eq!(set_vertex_bytes(&p, 0), Ok(pc(ShaderStage::Vertex, 0, 16)));
    assert_eq!(set_fragment_bytes(&p, 0), Ok(pc(ShaderStage::Fragment, 16, 4)));
    assert_eq!(set_fragment_bytes(&p, 1), Err(PipelineError::InvalidPushConstant));
    assert_eq!(push_constant(&p.common, ShaderStage::Compute, 0), Err(PipelineError::InvalidPushConstant));
    let q = CommandQueue::new(9, vec![10, 11, 12]);
    assert_eq!(q.get_command_list(2), 12);
}

#[test]
fn pipeline_common_swaps_pipeline() {
    let mut p = pipeline(1, vec![], vec![]);
    assert_eq!(p.common.replace_pipeline(2), 1);
    assert_eq!(p.common.pipeline, 2);
    assert_eq!(p.common.bind_group_count(1), Some(1024));
    assert_eq!(p.common.bind_group_count(2), None);
}

#[test]
fn vertex_input_from_reflection_in_bytes() {
    let attrs = VertexAttributes {
        stride: 160,
        atts: vec![
            ReflectedAttribute { format: ReflectFormat::R32G32B32_SFLOAT, offset: 0 },
            ReflectedAttribute { format: ReflectFormat::R32G32_SFLOAT, offset: 96 },
        ],
    };
    let (bindings, attributes) = vertex_input(&None, &attrs);
    assert_eq!(bindings, vec![VertexBindingDesc { binding: 0, stride: 20, input_rate: 0 }]);
    assert_eq!(
        attributes,
        vec![
            VertexAttributeDescription { location: 0, binding: 0, format: 106, offset: 0 },
            VertexAttributeDescription { location: 1, binding: 0, format: 103, offset: 12 },
        ]
    );
    let given = VertexDescription {
        binding_desc: vec![VertexBindingDesc { binding: 0, stride: 8, input_rate: 0 }],
        attribute_desc: vec![],
    };
    let (b, a) = vertex_input(&Some(given), &attrs);
    assert_eq!(b[0].stride, 8);
    assert!(a.is_empty());
}

#[test]
fn fixed_function_state() {
    let desc = FixedFunctionDescription {
        color_format: None,
        depth_format: Some(Format::D32_SFLOAT),
        cull_mode: CullMode::Back,
        depth_bias: true,
    };
    let st = pipeline_fixed_state(&desc, 0, false);
    assert!(!st.vertex_input);
    assert!(st.depth_test && st.depth_write);
    assert_eq!(st.depth_compare_op, vk::CompareOp::GREATER.as_raw());
    assert_eq!(st.cull_mode, vk::CullModeFlags::BACK.as_raw());
    assert_eq!(st.stage_count, 1);
    assert_eq!(st.color_attachment_format, None);
    assert_eq!(st.depth_attachment_format, Some(vk::Format::D32_SFLOAT.as_raw()));
    let st = pipeline_fixed_state(&FixedFunctionDescription::default(), 3, true);
    assert!(st.vertex_input);
    assert!(!st.depth_test);
    assert_eq!(st.depth_compare_op, vk::CompareOp::ALWAYS.as_raw());
    assert_eq!(st.stage_count, 2);
    assert_eq!(st.color_attachment_format, Some(vk::Format::B8G8R8A8_UNORM.as_raw()));
    assert_eq!(CullMode::default(), CullMode::Disabled);
    assert_eq!(CullMode::FrontAndBack.flags(), vk::CullModeFlags::FRONT_AND_BACK.as_raw());
    assert_eq!(CullMode::Disabled.flags(), vk::CullModeFlags::NONE.as_raw());
}

#[test]
fn blend_states() {
    let add = ColorBlendState::add();
    assert!(!add.blend_enable);
    assert_eq!(add.src_color_blend_factor, vk::BlendFactor::SRC_COLOR.as_raw());
    assert_eq!(add.dst_color_blend_factor, vk::BlendFactor::ONE_MINUS_DST_COLOR.as_raw());
    assert_eq!(add.color_write_mask, vk::ColorComponentFlags::RGBA.as_raw());
    let pma = ColorBlendState::pma();
    assert!(pma.blend_enable);
    assert_eq!(pma.src_color_blend_factor, vk::BlendFactor::ONE.as_raw());
    assert_eq!(pma.dst_color_blend_factor, vk::BlendFactor::ONE_MINUS_SRC_ALPHA.as_raw());
    assert_eq!(pma.dst_alpha_blend_factor, vk::BlendFactor::ZERO.as_raw());
    assert_eq!(ColorBlendState::default(), add);
}

#[test]
fn context_enums() {
    assert_eq!(AttachmentLoadOp::default(), AttachmentLoadOp::Clear);
    assert_eq!(AttachmentLoadOp::Clear.as_raw(), vk::AttachmentLoadOp::CLEAR.as_raw());
    assert_eq!(AttachmentLoadOp::Load.as_raw(), vk::AttachmentLoadOp::LOAD.as_raw());
    assert_eq!(AttachmentLoadOp::DontCare.as_raw(), vk::AttachmentLoadOp::DONT_CARE.as_raw());
    assert_eq!(AttachmentStoreOp::default(), AttachmentStoreOp::Store);
    assert_eq!(AttachmentStoreOp::DontCare.as_raw(), vk::AttachmentStoreOp::DONT_CARE.as_raw());
    assert_eq!(Layout::default(), Layout::ColorAttachment);
    assert_eq!(Layout::DepthAttachment.image_layout(), ImageLayout::DepthStencilAttachmentOptimal);
    assert_eq!(Filter::Linear.as_raw(), vk::Filter::LINEAR.as_raw());
    assert!(UploadContextDescription::default().name.is_none());
}
