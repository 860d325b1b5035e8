use cinder::frame_graph::{FrameGraph, PassInfo};
use cinder::handle::ResourceHandle;

fn info(name: &str, depth: Option<usize>) -> PassInfo {
    PassInfo {
        name: name.to_string(),
        pipeline_handle: ResourceHandle::from_index(1),
        input_image: ResourceHandle::from_index(2),
        depth_image: depth.map(ResourceHandle::from_index),
        viewport_size: [640, 480],
    }
}

#[test]
fn api() {
    let frame_graph = FrameGraph::default();
    assert!(frame_graph.pass_infos.is_empty());
}

#[test]
fn equal_descriptions_get_equal_handles() {
    let mut graph = FrameGraph::default();
    let a = graph.add_pass(info("shadow", None));
    let b = graph.add_pass(info("shadow", None));
    assert_eq!(a.id(), b.id());
    assert_eq!(graph.pass_infos.len(), 2);
    assert_eq!(graph.pass_infos[1].0.id(), b.id());
    assert_eq!(graph.pass_infos[1].1.name, "shadow");
    let c = graph.add_pass(info("shadow", Some(3)));
    let d = graph.add_pass(info("lighting", None));
    assert_ne!(a.id(), c.id());
    assert_ne!(a.id(), d.id());
    assert_eq!(graph.build_graph().id(), 0);
}
