use cinder::context::{AttachmentLoadOp, AttachmentStoreOp};
use cinder::image::Layout;
use cinder::named_graph::{names_equal, AttachmentType, RenderGraph};
use cinder::render_graph::AttachmentDesc;

fn desc(load_op: AttachmentLoadOp) -> AttachmentDesc {
    AttachmentDesc { load_op, store_op: AttachmentStoreOp::Store, layout: Layout::ColorAttachment }
}

#[test]
fn names_compare_by_content() {
    assert!(names_equal("main", "main"));
    assert!(!names_equal("main", "mains"));
    assert!(!names_equal("ab", "ac"));
    assert!(names_equal("", ""));
    assert!(names_equal("grüße", &String::from("grüße")));
}

#[test]
fn registering_a_name_again_gives_the_same_pass() {
    let mut graph = RenderGraph::new();
    let a = graph.register_pass("main".to_string());
    let b = graph.register_pass("ui".to_string());
    let c = graph.register_pass("main".to_string());
    assert_eq!(a, 0);
    assert_eq!(b, 1);
    assert_eq!(c, 0);
    assert_eq!(graph.passes.len(), 2);
}

#[test]
fn color_attachments_replace_by_target() {
    let mut graph = RenderGraph::new();
    let main = graph.register_pass("main".to_string());
    graph.pass_mut(main).add_color_attachment(AttachmentType::SwapchainImage, desc(AttachmentLoadOp::Clear));
    graph.pass_mut(main).add_color_attachment(AttachmentType::Reference("albedo".to_string()), desc(AttachmentLoadOp::DontCare));
    graph.pass_mut(main).add_color_attachment(AttachmentType::SwapchainImage, desc(AttachmentLoadOp::Load));
    graph.pass_mut(main).set_depth_attachment("depth".to_string(), desc(AttachmentLoadOp::Clear));
    let pass = &graph.passes[main].1;
    assert_eq!(pass.color_attachments.len(), 2);
    assert_eq!(pass.color_attachments[0].1, desc(AttachmentLoadOp::Load));
    assert_eq!(pass.depth_attachment.as_ref().unwrap().0, "depth");
}

#[test]
fn frame_plan_lists_color_attachments() {
    let mut graph = RenderGraph::new();
    let a = graph.register_pass("a".to_string());
    let _b = graph.register_pass("b".to_string());
    graph.pass_mut(a).add_color_attachment(AttachmentType::SwapchainImage, desc(AttachmentLoadOp::Clear));
    let plan = graph.frame_plan();
    assert_eq!(plan, vec![vec![desc(AttachmentLoadOp::Clear)], vec![]]);
}
