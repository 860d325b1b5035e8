use cinder::frame::{Cinder, FrameCounter, FrameState};
use cinder::handle::ResourceHandle;
use cinder::manager::{Resource, ResourceManager, ResourceManagerError};
use cinder::pipeline::{FixedFunctionDescription, GraphicsPipeline, PipelineCommon, StagePushConstants};
use cinder::pool::ResourcePool;

type Manager = ResourceManager<u8, u16, u32, u64, i8, i16>;
type Res = Resource<u8, u16, u32, u64, i8, i16>;

fn images(res: &[Res]) -> Vec<u32> {
    res.iter()
        .filter_map(|r| match r {
            Resource::Image(i) => Some(*i),
            _ => None,
        })
        .collect()
}

#[test]
fn pool_handles_are_never_reused() {
    let mut pool: ResourcePool<&str> = ResourcePool::new();
    let a = pool.insert("a");
    let b = pool.insert("b");
    assert_eq!(pool.remove(a), Some("a"));
    assert_eq!(pool.get(a), None);
    let c = pool.insert("c");
    assert_ne!(c.id(), a.id());
    assert_ne!(c.id(), b.id());
    assert_eq!(pool.get(c), Some(&"c"));
    assert_eq!(pool.replace(a, "z"), None);
    assert_eq!(pool.replace(b, "y"), Some("b"));
    assert_eq!(pool.drain(), vec!["y", "c"]);
    assert!(!pool.contains(c));
}

#[test]
fn deleted_resources_wait_for_their_frame_slot() {
    let mut m = Manager::new();
    let img = m.insert_image(7);
    m.delete_image(img, 0);
    assert_eq!(m.get_image(img), None);
    assert!(images(&m.consume()).is_empty());
    assert!(images(&m.consume()).is_empty());
    assert_eq!(images(&m.consume()), vec![7]);
}

#[test]
fn dead_handle_deletes_nothing() {
    let mut m = Manager::new();
    m.delete_buffer(ResourceHandle::from_index(4), 1);
    for _ in 0..3 {
        assert!(m.consume().is_empty());
    }
}

#[test]
fn pipeline_recreation_checks_handles_in_order() {
    let mut m = Manager::new();
    let p = m.insert_graphics_pipeline(1);
    let v = m.insert_shader(2);
    let dead = ResourceHandle::from_index(9);
    assert!(matches!(
        m.check_pipeline_recreation(ResourceHandle::from_index(5), v, v),
        Err(ResourceManagerError::InvalidPipelineHandle)
    ));
    assert!(matches!(m.check_pipeline_recreation(p, v, dead), Err(ResourceManagerError::ResourceNotInCache)));
    assert!(m.check_pipeline_recreation(p, v, v).is_ok());
}

#[test]
fn replacing_a_shader_queues_the_old_one() {
    let mut m = Manager::new();
    let s = m.insert_shader(1);
    m.replace_shader(s, 2, 2);
    assert_eq!(m.get_shader(s), Some(&2));
    assert!(m.consume().is_empty());
    let freed = m.consume();
    assert!(matches!(freed.as_slice(), [Resource::Shader(1)]));
}

#[test]
fn force_destroy_hands_back_everything() {
    let mut m = Manager::new();
    m.insert_image(1);
    let b = m.insert_image(2);
    m.delete_image(b, 2);
    m.delete_sampler_raw(5, 0);
    let (pipelines, shaders, imgs, buffers, samplers, queued) = m.force_destroy();
    assert!(pipelines.is_empty() && shaders.is_empty() && buffers.is_empty() && samplers.is_empty());
    assert_eq!(imgs, vec![1]);
    assert_eq!(queued.len(), 2);
    assert!(matches!(queued[0], Resource::Image(2)));
    assert!(matches!(queued[1], Resource::Sampler(5)));
}

#[test]
fn frames_hand_back_queues_two_frames_later() {
    let mut c: Cinder<u8, u16, u32, u64, i8, i16> = Cinder::new();
    assert!(!c.is_running());
    assert!(c.last_dt().is_none());
    let img = c.resource_manager.insert_image(3);
    c.start_frame();
    assert!(c.is_running());
    let slot = c.frames.current_frame_in_flight();
    c.resource_manager.delete_image(img, slot);
    assert!(c.end_frame().is_empty());
    assert!(c.last_dt().is_some());
    assert!(!c.is_running());
    c.start_frame();
    assert!(c.end_frame().is_empty());
    c.start_frame();
    assert_eq!(images(&c.end_frame()), vec![3]);
    assert_eq!(c.frames.frame_index_value(), 3);
    assert!(c.is_consistent());
    c.resource_manager.consume();
    assert!(!c.is_consistent());
}

#[test]
fn frame_counter_cycles_slots() {
    let mut f = FrameCounter::new();
    let mut slots = vec![];
    for _ in 0..5 {
        slots.push(f.current_frame_in_flight());
        f.bump_frame();
    }
    assert_eq!(slots, vec![0, 1, 2, 0, 1]);
    assert!(!FrameState::NotRunning.is_running());
}

#[test]
fn recreating_a_pipeline_replaces_it_and_queues_the_old_object() {
    type PipelineManager = ResourceManager<GraphicsPipeline, u16, u32, u64, i8, u64>;
    let mut m = PipelineManager::new();
    let p = m.insert_graphics_pipeline(GraphicsPipeline {
        common: PipelineCommon {
            pipeline_layout: 11,
            pipeline: 40,
            push_constants: StagePushConstants { vertex: vec![], fragment: vec![], compute: vec![] },
            bind_group_counts: vec![1],
        },
        desc: FixedFunctionDescription::default(),
    });
    let v = m.insert_shader(2);
    let dead = ResourceHandle::from_index(9);
    assert!(matches!(
        m.recreate_graphics_pipeline(ResourceHandle::from_index(4), v, v, 0, Ok(50)),
        Err(ResourceManagerError::InvalidPipelineHandle)
    ));
    assert!(matches!(
        m.recreate_graphics_pipeline(p, dead, v, 0, Ok(50)),
        Err(ResourceManagerError::ResourceNotInCache)
    ));
    let failed = m.recreate_graphics_pipeline(p, v, v, 0, Err(anyhow::Error::msg("pipeline creation failed")));
    match failed {
        Err(ResourceManagerError::FallbackError(e)) => assert_eq!(e.to_string(), "pipeline creation failed"),
        _ => panic!("expected the rebuild's error"),
    }
    assert_eq!(m.get_graphics_pipeline(p).map(|g| g.common.pipeline), Some(40));
    assert!(m.recreate_graphics_pipeline(p, v, v, 0, Ok(50)).is_ok());
    let rebuilt = m.get_graphics_pipeline(p).unwrap();
    assert_eq!((rebuilt.common.pipeline, rebuilt.common.pipeline_layout), (50, 11));
    assert!(m.consume().is_empty());
    assert!(m.consume().is_empty());
    let freed = m.consume();
    assert!(matches!(freed.as_slice(), [Resource::RawPipeline(40)]));
}

#[test]
fn pool_operations_leave_the_other_pools_alone() {
    let mut m = Manager::new();
    let img = m.insert_image(7);
    let buf = m.insert_buffer(8);
    let s = m.insert_shader(3);
    let p = m.insert_graphics_pipeline(1);
    m.delete_graphics_pipeline(p, 1);
    m.replace_shader(s, 4, 1);
    if let Some(b) = m.get_buffer_mut(buf) {
        *b = 9;
    }
    assert_eq!(m.get_image(img), Some(&7));
    assert_eq!(m.get_buffer(buf), Some(&9));
    assert_eq!(m.get_shader(s), Some(&4));
    assert!(m.is_well_formed());
}
