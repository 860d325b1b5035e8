use cinder::context::{AttachmentLoadOp, AttachmentStoreOp};
use cinder::image::Layout;
use cinder::render_graph::{
    sorted_nodes, AttachmentDesc, AttachmentType, Rect2D, RenderGraph, RenderGraphNode, RenderPass,
    RenderPassResource,
};

fn position(order: &[usize], pass: usize) -> usize {
    order.iter().position(|&p| p == pass).unwrap()
}

#[test]
fn producers_run_before_consumers() {
    let mut graph = RenderGraph::new();
    // 0 reads image 1, written by pass 2; pass 1 writes the swapchain from image 2,
    // written by pass 0.
    graph.add_pass(
        RenderPass::new()
            .add_input(RenderPassResource::Image(1))
            .add_output(RenderPassResource::Image(2)),
    );
    graph.add_pass(
        RenderPass::new()
            .add_input(RenderPassResource::Image(2))
            .add_output(RenderPassResource::SwapchainImage),
    );
    graph.add_pass(RenderPass::new().add_output(RenderPassResource::Image(1)));
    let order = graph.execution_order();
    assert_eq!(order.len(), 3);
    assert!(position(&order, 2) < position(&order, 0));
    assert!(position(&order, 0) < position(&order, 1));
}

#[test]
fn dependency_nodes() {
    let mut graph = RenderGraph::new();
    graph.add_pass(RenderPass::new().add_output(RenderPassResource::Image(5)));
    graph.add_pass(RenderPass::new().add_input(RenderPassResource::Image(5)));
    graph.add_pass(RenderPass::new().add_input(RenderPassResource::Image(6)));
    let nodes = graph.compile_nodes();
    assert_eq!(nodes.len(), 3);
    assert_eq!(nodes[0].output_nodes, vec![1]);
    assert!(nodes[0].input_nodes.is_empty());
    assert_eq!(nodes[1].input_nodes, vec![0]);
    assert!(nodes[2].input_nodes.is_empty() && nodes[2].output_nodes.is_empty());
}

#[test]
fn independent_passes_all_run_once() {
    let mut graph = RenderGraph::new();
    for i in 0..4 {
        graph.add_pass(RenderPass::new().add_output(RenderPassResource::Image(i)));
    }
    let mut order = graph.execution_order();
    order.sort();
    assert_eq!(order, vec![0, 1, 2, 3]);
}

#[test]
fn frame_plan_uses_pass_area_or_surface() {
    let mut graph = RenderGraph::new();
    let area = Rect2D { x: 1, y: 2, width: 3, height: 4 };
    graph.add_pass(
        RenderPass::new()
            .with_render_area(area)
            .with_flipped_viewport(false)
            .add_output(RenderPassResource::Image(0)),
    );
    graph.add_pass(RenderPass::new().add_input(RenderPassResource::Image(0)));
    let surface = Rect2D::from_width_height(800, 600);
    let plan = graph.frame_plan(surface);
    assert_eq!(plan.len(), 2);
    assert_eq!(plan[0].pass, 0);
    assert_eq!(plan[0].render_area, area);
    assert!(!plan[0].flipped_viewport);
    assert_eq!(plan[1].pass, 1);
    assert_eq!(plan[1].render_area, surface);
    assert!(plan[1].flipped_viewport);
}

#[test]
fn shadow_map_frame_order() {
    // A shadow pass renders the shadow map; the lit pass reads it and draws to the
    // swapchain image; an overlay reads both and draws over the swapchain image.
    let shadow_map = RenderPassResource::Image(9);
    let mut graph = RenderGraph::new();
    graph.add_pass(
        RenderPass::new()
            .add_input(shadow_map)
            .add_input(RenderPassResource::SwapchainImage)
            .with_flipped_viewport(false),
    );
    graph.add_pass(
        RenderPass::new()
            .add_input(shadow_map)
            .add_output(RenderPassResource::SwapchainImage)
            .with_flipped_viewport(false),
    );
    graph.add_pass(RenderPass::new().add_output(shadow_map).with_flipped_viewport(false));
    let order = graph.execution_order();
    assert_eq!(order, vec![2, 1, 0]);
}

fn desc(load_op: AttachmentLoadOp, layout: Layout) -> AttachmentDesc {
    AttachmentDesc { load_op, store_op: AttachmentStoreOp::Store, layout }
}

#[test]
fn attachments_are_planned() {
    let mut graph = RenderGraph::new();
    graph.add_pass(
        RenderPass::new()
            .add_color_attachment(AttachmentType::SwapchainImage, desc(AttachmentLoadOp::Clear, Layout::ColorAttachment))
            .add_color_attachment(AttachmentType::SwapchainImage, desc(AttachmentLoadOp::Load, Layout::ColorAttachment))
            .set_depth_attachment(AttachmentType::Reference(4), desc(AttachmentLoadOp::Clear, Layout::DepthAttachment))
            .add_output(RenderPassResource::SwapchainImage),
    );
    let plan = graph.frame_plan(Rect2D::from_width_height(10, 10));
    assert_eq!(plan.len(), 1);
    assert_eq!(plan[0].colors, vec![desc(AttachmentLoadOp::Load, Layout::ColorAttachment)]);
    assert_eq!(plan[0].depth, Some((4, desc(AttachmentLoadOp::Clear, Layout::DepthAttachment))));
}

#[test]
fn self_feeding_pass_keeps_the_order() {
    let mut graph = RenderGraph::new();
    // Pass 0 reads what pass 1 writes and also reads and writes image 7 itself; pass 2
    // consumes image 7.
    graph.add_pass(
        RenderPass::new()
            .add_input(RenderPassResource::Image(3))
            .add_input(RenderPassResource::Image(7))
            .add_output(RenderPassResource::Image(7)),
    );
    graph.add_pass(RenderPass::new().add_output(RenderPassResource::Image(3)));
    graph.add_pass(RenderPass::new().add_input(RenderPassResource::Image(7)));
    let order = graph.execution_order();
    assert_eq!(order.len(), 3);
    assert!(position(&order, 1) < position(&order, 0));
    assert!(position(&order, 0) < position(&order, 2));
    let plan = graph.frame_plan(Rect2D::from_width_height(8, 8));
    let planned: Vec<usize> = plan.iter().map(|p| p.pass).collect();
    assert_eq!(planned, order);
}

#[test]
fn sorting_ignores_a_node_that_lists_itself() {
    // 0 -> 1 -> 2, and 1 also feeds itself.
    let nodes = vec![
        RenderGraphNode { input_nodes: vec![], output_nodes: vec![1] },
        RenderGraphNode { input_nodes: vec![0, 1], output_nodes: vec![1, 2] },
        RenderGraphNode { input_nodes: vec![1], output_nodes: vec![] },
    ];
    let sorted = sorted_nodes(&nodes);
    assert_eq!(sorted, vec![2, 1, 0]);
}
